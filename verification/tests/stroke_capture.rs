use cascade_core::buffers::Extent;
use cascade_core::snapshot::{ColorBits, Config, FrameSnapshot, HostInput, Vec2Bits};

fn config() -> Config {
    Config {
        brush_radius_squared: 100.0f32.to_bits(),
        brush_color: ColorBits {
            red: 0.0f32.to_bits(),
            green: 0.0f32.to_bits(),
            blue: 1.0f32.to_bits(),
        },
        ray_count: 16,
        max_steps: 128,
        refinement_step_budget: 0,
    }
}

fn at(x: f32, y: f32) -> Vec2Bits {
    Vec2Bits { x: x.to_bits(), y: y.to_bits() }
}

fn viewport() -> Extent {
    Extent { width: 800, height: 600 }
}

fn input(cursor: Option<Vec2Bits>, pressed: bool, just_pressed: bool) -> HostInput {
    HostInput {
        cursor_position: cursor,
        button_pressed: pressed,
        button_just_pressed: just_pressed,
        viewport: viewport(),
    }
}

#[test]
fn stroke_machine_produces_the_documented_sequence() {
    let cfg = config();
    let s0 = FrameSnapshot::initial(viewport(), &cfg);

    // idle
    let s1 = FrameSnapshot::capture(&input(Some(at(5.0, 5.0)), false, false), &cfg, &s0);
    assert!(!s1.drawing);

    // just pressed at (10, 10): stroke start, from == to == cursor
    let s2 = FrameSnapshot::capture(&input(Some(at(10.0, 10.0)), true, true), &cfg, &s1);
    assert_eq!(s2.from, at(10.0, 10.0));
    assert_eq!(s2.to, at(10.0, 10.0));
    assert!(s2.drawing);

    // held at (20, 10): stroke continue, from == previous to
    let s3 = FrameSnapshot::capture(&input(Some(at(20.0, 10.0)), true, false), &cfg, &s2);
    assert_eq!(s3.from, at(10.0, 10.0));
    assert_eq!(s3.to, at(20.0, 10.0));
    assert!(s3.drawing);

    // held at (30, 10)
    let s4 = FrameSnapshot::capture(&input(Some(at(30.0, 10.0)), true, false), &cfg, &s3);
    assert_eq!(s4.from, at(20.0, 10.0));
    assert_eq!(s4.to, at(30.0, 10.0));
    assert!(s4.drawing);

    // released: idle again, endpoints irrelevant downstream
    let s5 = FrameSnapshot::capture(&input(Some(at(30.0, 10.0)), false, false), &cfg, &s4);
    assert!(!s5.drawing);
}

#[test]
fn absent_cursor_retains_stroke_fields_and_forces_idle() {
    let cfg = config();
    let s0 = FrameSnapshot::initial(viewport(), &cfg);
    let drawing = FrameSnapshot::capture(&input(Some(at(10.0, 10.0)), true, true), &cfg, &s0);
    assert!(drawing.drawing);

    // pointer leaves the capture area while the button stays down
    let left = FrameSnapshot::capture(&input(None, true, false), &cfg, &drawing);
    assert!(!left.drawing);
    assert_eq!(left.from, drawing.from);
    assert_eq!(left.to, drawing.to);
}

#[test]
fn snapshot_copies_configuration_and_input_verbatim() {
    let cfg = config();
    let s0 = FrameSnapshot::initial(viewport(), &cfg);
    let s = FrameSnapshot::capture(&input(Some(at(1.5, 2.5)), false, false), &cfg, &s0);
    assert_eq!(s.cursor_position, Some(at(1.5, 2.5)));
    assert_eq!(s.viewport, viewport());
    assert_eq!(s.brush_radius_squared, 100.0f32.to_bits());
    assert_eq!(s.brush_color.blue, 1.0f32.to_bits());
    assert_eq!(s.ray_count, 16);
    assert_eq!(s.max_steps, 128);
}

#[test]
fn config_validity_demands_rays_and_steps() {
    let good = config();
    assert!(good.is_valid());
    let mut no_rays = config();
    no_rays.ray_count = 0;
    assert!(!no_rays.is_valid());
    let mut no_steps = config();
    no_steps.max_steps = 0;
    assert!(!no_steps.is_valid());
}
