//! Immutable per-frame input records and the stroke state machine.
//!
//! Mutable simulation-side state (pointer, button, window size, brush
//! settings) is extracted once per frame into a `FrameSnapshot`.  The
//! snapshot is consumed by exactly one frame's passes and then discarded;
//! nothing in this crate ever mutates one after construction.
//!
//! Scalar parameters that are real numbers on the host side (positions,
//! radii, colors) are carried as their 32-bit IEEE-754 bit patterns.  The
//! core never does arithmetic on them; it only classifies, copies and
//! routes them into parameter blocks, so the bit pattern is the exact
//! value the host put in.

use vstd::prelude::*;

verus! {

use crate::buffers::Extent;

/// A two-component vector, each component the bit pattern of a 32-bit
/// float on the host side.
#[derive(Clone, Copy, Debug, PartialEq, Eq, Structural)]
pub struct Vec2Bits {
    pub x: u32,
    pub y: u32,
}

/// An RGB color, each channel the bit pattern of a 32-bit float.
#[derive(Clone, Copy, Debug, PartialEq, Eq, Structural)]
pub struct ColorBits {
    pub red: u32,
    pub green: u32,
    pub blue: u32,
}

/// What the host captured this frame: pointer, primary button and window
/// size.  The cursor position is absent while the pointer is outside the
/// capture area.
#[derive(Clone, Copy, Debug, PartialEq, Eq)]
pub struct HostInput {
    pub cursor_position: Option<Vec2Bits>,
    pub button_pressed: bool,
    pub button_just_pressed: bool,
    pub viewport: Extent,
}

/// Host-configurable parameters.  The brush radius is carried already
/// squared, as the parameter block consumes it; squaring the host's
/// radius is the host's one float operation.
#[derive(Clone, Copy, Debug, PartialEq, Eq)]
pub struct Config {
    pub brush_radius_squared: u32,
    pub brush_color: ColorBits,
    pub ray_count: u32,
    pub max_steps: u32,
    pub refinement_step_budget: u32,
}

impl Config {
    /// Recognized options demand at least one ray and at least one march
    /// step; the refinement step budget may be zero.
    pub open spec fn wf(self) -> bool {
        &&& self.ray_count > 0
        &&& self.max_steps > 0
    }

    pub fn is_valid(&self) -> (r: bool)
        ensures
            r == self.wf(),
    {
        self.ray_count > 0 && self.max_steps > 0
    }
}

/// The immutable record one frame's passes consume.  `from`, `to` and
/// `drawing` are the derived stroke segment: while `drawing` holds, the
/// canvas stage composites the brush segment from `from` to `to`; while
/// it does not, the two endpoints are irrelevant downstream.
#[derive(Clone, Copy, Debug, PartialEq, Eq)]
pub struct FrameSnapshot {
    pub cursor_position: Option<Vec2Bits>,
    pub button_pressed: bool,
    pub button_just_pressed: bool,
    pub viewport: Extent,
    pub brush_radius_squared: u32,
    pub brush_color: ColorBits,
    pub ray_count: u32,
    pub max_steps: u32,
    pub from: Vec2Bits,
    pub to: Vec2Bits,
    pub drawing: bool,
}

impl FrameSnapshot {
    /// The stroke state machine.  Each frame falls in exactly one class:
    /// stroke start (button just pressed), stroke continue (button held),
    /// or idle.  An absent cursor retains the previous stroke fields and
    /// forces `drawing` off.  The result is `(from, to, drawing)`.
    pub open spec fn stroke_spec(input: HostInput, previous: FrameSnapshot) -> (Vec2Bits, Vec2Bits, bool) {
        match input.cursor_position {
            Some(cursor) => if input.button_just_pressed {
                (cursor, cursor, true)
            } else if input.button_pressed {
                (previous.to, cursor, true)
            } else {
                (previous.from, previous.to, false)
            },
            None => (previous.from, previous.to, false),
        }
    }

    /// What `capture` returns, as a value.
    pub open spec fn capture_spec(input: HostInput, config: Config, previous: FrameSnapshot) -> FrameSnapshot {
        let (from, to, drawing) = Self::stroke_spec(input, previous);
        FrameSnapshot {
            cursor_position: input.cursor_position,
            button_pressed: input.button_pressed,
            button_just_pressed: input.button_just_pressed,
            viewport: input.viewport,
            brush_radius_squared: config.brush_radius_squared,
            brush_color: config.brush_color,
            ray_count: config.ray_count,
            max_steps: config.max_steps,
            from,
            to,
            drawing,
        }
    }

    /// Build this frame's snapshot from the host input, the current
    /// configuration and the previous frame's snapshot.  Chaining
    /// `previous.to` into `from` while the button is held yields a
    /// continuous polyline of brush segments across frames without any
    /// history beyond the immediately preceding snapshot.
    pub fn capture(input: &HostInput, config: &Config, previous: &FrameSnapshot) -> (s: FrameSnapshot)
        ensures
            s == Self::capture_spec(*input, *config, *previous),
    {
        let (from, to, drawing) = match input.cursor_position {
            Some(cursor) => if input.button_just_pressed {
                (cursor, cursor, true)
            } else if input.button_pressed {
                (previous.to, cursor, true)
            } else {
                (previous.from, previous.to, false)
            },
            None => (previous.from, previous.to, false),
        };
        FrameSnapshot {
            cursor_position: input.cursor_position,
            button_pressed: input.button_pressed,
            button_just_pressed: input.button_just_pressed,
            viewport: input.viewport,
            brush_radius_squared: config.brush_radius_squared,
            brush_color: config.brush_color,
            ray_count: config.ray_count,
            max_steps: config.max_steps,
            from,
            to,
            drawing,
        }
    }

    /// What the orchestrator starts from before any frame was captured:
    /// idle, stroke endpoints at the origin.
    pub open spec fn initial_spec(viewport: Extent, config: Config) -> FrameSnapshot {
        FrameSnapshot {
            cursor_position: None,
            button_pressed: false,
            button_just_pressed: false,
            viewport,
            brush_radius_squared: config.brush_radius_squared,
            brush_color: config.brush_color,
            ray_count: config.ray_count,
            max_steps: config.max_steps,
            from: Vec2Bits { x: 0, y: 0 },
            to: Vec2Bits { x: 0, y: 0 },
            drawing: false,
        }
    }

    pub fn initial(viewport: Extent, config: &Config) -> (s: FrameSnapshot)
        ensures
            s == Self::initial_spec(viewport, *config),
    {
        FrameSnapshot {
            cursor_position: None,
            button_pressed: false,
            button_just_pressed: false,
            viewport,
            brush_radius_squared: config.brush_radius_squared,
            brush_color: config.brush_color,
            ray_count: config.ray_count,
            max_steps: config.max_steps,
            from: Vec2Bits { x: 0, y: 0 },
            to: Vec2Bits { x: 0, y: 0 },
            drawing: false,
        }
    }
}

/// While a stroke continues (button held, cursor present, not the first
/// frame of the stroke), consecutive snapshots chain: the new segment
/// starts where the previous one ended.
pub proof fn lemma_stroke_segments_chain(input: HostInput, config: Config, previous: FrameSnapshot)
    requires
        input.cursor_position is Some,
        input.button_pressed,
        !input.button_just_pressed,
    ensures
        FrameSnapshot::capture_spec(input, config, previous).from == previous.to,
        FrameSnapshot::capture_spec(input, config, previous).drawing,
{
}

/// An absent cursor never starts or continues a stroke and leaves the
/// stroke endpoints untouched, whatever the button reports.
pub proof fn lemma_absent_cursor_idles(input: HostInput, config: Config, previous: FrameSnapshot)
    requires
        input.cursor_position is None,
    ensures
        !FrameSnapshot::capture_spec(input, config, previous).drawing,
        FrameSnapshot::capture_spec(input, config, previous).from == previous.from,
        FrameSnapshot::capture_spec(input, config, previous).to == previous.to,
{
}

} // verus!
