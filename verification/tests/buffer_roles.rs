use cascade_core::buffers::{
    AllocationError, BufferSet, Extent, ImageFormat, ImageUsage, PairId, Slot,
};

fn size() -> Extent {
    Extent { width: 640, height: 480 }
}

fn usage() -> ImageUsage {
    ImageUsage { copy_dst: true, storage_binding: true, texture_binding: true, render_attachment: true }
}

#[test]
fn current_and_target_resolve_to_different_slots() {
    let mut pair =
        BufferSet::allocate(PairId::Canvas, size(), ImageFormat::Rgba8Linear, usage()).unwrap();
    // both role settings
    assert_ne!(pair.current().slot, pair.target().slot);
    pair.flip();
    assert_ne!(pair.current().slot, pair.target().slot);
}

#[test]
fn flip_twice_returns_to_the_original_front_slot() {
    let mut pair =
        BufferSet::allocate(PairId::Canvas, size(), ImageFormat::Rgba8Linear, usage()).unwrap();
    let before = pair;
    pair.flip();
    assert_eq!(pair.current().slot, Slot::Slot1);
    pair.flip();
    assert_eq!(pair, before);
    assert_eq!(pair.current().slot, Slot::Slot0);
}

#[test]
fn allocation_starts_with_slot0_in_front() {
    let pair =
        BufferSet::allocate(PairId::Propagation, size(), ImageFormat::Rgba8Linear, usage()).unwrap();
    assert!(pair.front_is_slot0);
    assert_eq!(pair.current().slot, Slot::Slot0);
    assert_eq!(pair.target().slot, Slot::Slot1);
    assert_eq!(pair.current().pair, PairId::Propagation);
    assert_eq!(pair.current().size, size());
}

#[test]
fn zero_extent_allocation_is_refused() {
    let zero_wide = Extent { width: 0, height: 480 };
    let zero_tall = Extent { width: 640, height: 0 };
    assert_eq!(
        BufferSet::allocate(PairId::Canvas, zero_wide, ImageFormat::Rgba8Linear, usage()),
        Err(AllocationError::ZeroExtent)
    );
    assert_eq!(
        BufferSet::allocate(PairId::Canvas, zero_tall, ImageFormat::Rgba8Linear, usage()),
        Err(AllocationError::ZeroExtent)
    );
}

#[test]
fn storage_binding_on_a_color_managed_format_is_refused() {
    assert_eq!(
        BufferSet::allocate(PairId::Canvas, size(), ImageFormat::Rgba8Srgb, usage()),
        Err(AllocationError::UnsupportedUsage)
    );
    // without the storage binding the color-managed format is fine
    let sampled_only = ImageUsage {
        copy_dst: true,
        storage_binding: false,
        texture_binding: true,
        render_attachment: true,
    };
    assert!(BufferSet::allocate(PairId::Canvas, size(), ImageFormat::Rgba8Srgb, sampled_only).is_ok());
}

#[test]
fn resize_preserves_the_role_flag() {
    let mut pair =
        BufferSet::allocate(PairId::Canvas, size(), ImageFormat::Rgba8Linear, usage()).unwrap();
    pair.flip();
    let bigger = Extent { width: 1024, height: 768 };
    assert!(pair.resize(bigger).is_ok());
    assert!(!pair.front_is_slot0);
    assert_eq!(pair.slot0.size, bigger);
    assert_eq!(pair.slot1.size, bigger);
    // a collapsed extent is refused and changes nothing
    let before = pair;
    assert_eq!(pair.resize(Extent { width: 0, height: 0 }), Err(AllocationError::ZeroExtent));
    assert_eq!(pair, before);
}
