//! Double-buffered image pairs and their role bookkeeping.
//!
//! A `BufferPair` owns two same-sized, same-format images and a single
//! role flag telling which slot currently holds the latest committed
//! result (the "front" or "current" slot) and which one may be written
//! this pass (the "target" slot).  The `BufferSet` owns one pair per
//! pipeline stage that needs one.

use vstd::prelude::*;

verus! {

/// Width and height of an image or viewport, in pixels.
#[derive(Clone, Copy, Debug, PartialEq, Eq, Structural)]
pub struct Extent {
    pub width: u32,
    pub height: u32,
}

impl Extent {
    /// A zero extent in either dimension: the window is minimized, or an
    /// allocation with no texels was requested.
    pub open spec fn is_zero(self) -> bool {
        self.width == 0 || self.height == 0
    }

    pub fn has_zero_side(&self) -> (r: bool)
        ensures
            r == self.is_zero(),
    {
        self.width == 0 || self.height == 0
    }
}

/// Texel format of a managed image: eight bits per channel, stored either
/// linearly or color managed.
#[derive(Clone, Copy, Debug, PartialEq, Eq, Structural)]
pub enum ImageFormat {
    Rgba8Linear,
    Rgba8Srgb,
}

/// Usage capabilities requested for a managed image.
#[derive(Clone, Copy, Debug, PartialEq, Eq, Structural)]
pub struct ImageUsage {
    pub copy_dst: bool,
    pub storage_binding: bool,
    pub texture_binding: bool,
    pub render_attachment: bool,
}

impl ImageUsage {
    /// Everything the fixed pipeline needs of its images.
    pub fn full() -> (u: ImageUsage)
        ensures
            u == (ImageUsage {
                copy_dst: true,
                storage_binding: true,
                texture_binding: true,
                render_attachment: true,
            }),
    {
        ImageUsage {
            copy_dst: true,
            storage_binding: true,
            texture_binding: true,
            render_attachment: true,
        }
    }
}

/// Storage images must be stored linearly: a color-managed format cannot
/// carry a storage binding, and a device rejects such an allocation.
pub open spec fn usage_supported(format: ImageFormat, usage: ImageUsage) -> bool {
    usage.storage_binding ==> format is Rgba8Linear
}

/// Descriptor of one GPU-resident 2D texture.  The actual device object
/// lives with the host, keyed by the pair and slot this record belongs to.
#[derive(Clone, Copy, Debug, PartialEq, Eq, Structural)]
pub struct ManagedImage {
    pub size: Extent,
    pub format: ImageFormat,
    pub usage: ImageUsage,
}

/// The two slots of a buffer pair.
#[derive(Clone, Copy, Debug, PartialEq, Eq, Structural)]
pub enum Slot {
    Slot0,
    Slot1,
}

impl Slot {
    pub open spec fn other_spec(self) -> Slot {
        match self {
            Slot::Slot0 => Slot::Slot1,
            Slot::Slot1 => Slot::Slot0,
        }
    }

    pub fn other(self) -> (r: Slot)
        ensures
            r == self.other_spec(),
    {
        match self {
            Slot::Slot0 => Slot::Slot1,
            Slot::Slot1 => Slot::Slot0,
        }
    }
}

/// Which stage's buffer pair an image view belongs to.
#[derive(Clone, Copy, Debug, PartialEq, Eq, Structural)]
pub enum PairId {
    Canvas,
    Propagation,
}

/// A reference to one slot of one buffer pair, precise enough for the
/// host to resolve the corresponding texture view.
#[derive(Clone, Copy, Debug, PartialEq, Eq, Structural)]
pub struct ImageView {
    pub pair: PairId,
    pub slot: Slot,
    pub size: Extent,
    pub format: ImageFormat,
}

/// Why an allocation was refused.
#[derive(Clone, Copy, Debug, PartialEq, Eq, Structural)]
pub enum AllocationError {
    /// The requested size is zero in at least one dimension.
    ZeroExtent,
    /// The device rejects the requested format and usage combination.
    UnsupportedUsage,
}

/// Two same-sized images plus the single-bit role flag.  When
/// `front_is_slot0` holds, slot 0 is readable as the latest committed
/// result and slot 1 is the write target; otherwise the roles are
/// swapped.
#[derive(Clone, Copy, Debug, PartialEq, Eq, Structural)]
pub struct BufferPair {
    pub id: PairId,
    pub slot0: ManagedImage,
    pub slot1: ManagedImage,
    pub front_is_slot0: bool,
}

impl BufferPair {
    /// Both slots agree on size, format and usage, hold at least one
    /// texel, and the device accepted the combination.
    pub open spec fn wf(self) -> bool {
        &&& self.slot0 == self.slot1
        &&& !self.slot0.size.is_zero()
        &&& usage_supported(self.slot0.format, self.slot0.usage)
    }

    pub open spec fn size(self) -> Extent {
        self.slot0.size
    }

    pub open spec fn format(self) -> ImageFormat {
        self.slot0.format
    }

    /// The slot currently readable as the latest committed result.
    pub open spec fn current_slot(self) -> Slot {
        if self.front_is_slot0 {
            Slot::Slot0
        } else {
            Slot::Slot1
        }
    }

    /// The slot writable this pass.
    pub open spec fn target_slot(self) -> Slot {
        self.current_slot().other_spec()
    }

    pub open spec fn view_spec(self, slot: Slot) -> ImageView {
        ImageView { pair: self.id, slot, size: self.size(), format: self.format() }
    }

    pub open spec fn current_view(self) -> ImageView {
        self.view_spec(self.current_slot())
    }

    pub open spec fn target_view(self) -> ImageView {
        self.view_spec(self.target_slot())
    }

    /// The same pair with the two roles exchanged.
    pub open spec fn flipped(self) -> BufferPair {
        BufferPair { front_is_slot0: !self.front_is_slot0, ..self }
    }

    /// The same pair reallocated at `new_size`, role flag preserved.
    pub open spec fn resized_spec(self, new_size: Extent) -> BufferPair {
        BufferPair {
            slot0: ManagedImage { size: new_size, ..self.slot0 },
            slot1: ManagedImage { size: new_size, ..self.slot1 },
            ..self
        }
    }

    /// Read-only view of whichever slot is marked front.
    pub fn current(&self) -> (v: ImageView)
        ensures
            v == self.current_view(),
    {
        let slot = if self.front_is_slot0 {
            Slot::Slot0
        } else {
            Slot::Slot1
        };
        ImageView { pair: self.id, slot, size: self.slot0.size, format: self.slot0.format }
    }

    /// Writable view of the other slot.
    pub fn target(&self) -> (v: ImageView)
        ensures
            v == self.target_view(),
    {
        let slot = if self.front_is_slot0 {
            Slot::Slot1
        } else {
            Slot::Slot0
        };
        ImageView { pair: self.id, slot, size: self.slot0.size, format: self.slot0.format }
    }

    /// Toggle the role flag.  This is the only mutator of role state; a
    /// pass executor calls it exactly once, right after the pass that
    /// wrote the target slot has been submitted.
    pub fn flip(&mut self)
        ensures
            *final(self) == old(self).flipped(),
    {
        self.front_is_slot0 = !self.front_is_slot0;
    }

    /// Reallocate both slots at `new_size`, preserving the role flag.
    /// Only safe outside an in-flight frame; the orchestrator serializes
    /// resizing against frame execution.
    pub fn resize(&mut self, new_size: Extent) -> (r: Result<(), AllocationError>)
        ensures
            r is Ok <==> !new_size.is_zero(),
            r is Ok ==> *final(self) == old(self).resized_spec(new_size),
            r is Err ==> *final(self) == *old(self) && r == Result::<
                (),
                AllocationError,
            >::Err(AllocationError::ZeroExtent),
    {
        if new_size.has_zero_side() {
            return Err(AllocationError::ZeroExtent);
        }
        self.slot0.size = new_size;
        self.slot1.size = new_size;
        Ok(())
    }
}

/// Owner of the buffer pairs, one per pipeline stage that ping-pongs.
/// A pair is absent while its allocation has failed (for instance after a
/// resize to a zero extent); the affected stages are then skipped.
#[derive(Clone, Copy, Debug, PartialEq, Eq)]
pub struct BufferSet {
    pub canvas: Option<BufferPair>,
    pub propagation: Option<BufferPair>,
}

impl BufferSet {
    pub open spec fn wf(self) -> bool {
        &&& self.canvas matches Some(p) ==> p.wf() && p.id == PairId::Canvas
        &&& self.propagation matches Some(p) ==> p.wf() && p.id == PairId::Propagation
    }

    /// What `allocate` returns, as a value.
    pub open spec fn allocate_spec(id: PairId, size: Extent, format: ImageFormat, usage: ImageUsage) -> Result<
        BufferPair,
        AllocationError,
    > {
        if size.is_zero() {
            Err(AllocationError::ZeroExtent)
        } else if !usage_supported(format, usage) {
            Err(AllocationError::UnsupportedUsage)
        } else {
            Ok(
                BufferPair {
                    id,
                    slot0: ManagedImage { size, format, usage },
                    slot1: ManagedImage { size, format, usage },
                    front_is_slot0: true,
                },
            )
        }
    }

    /// Create two same-sized, same-format images with slot 0 as the
    /// initial front.  Fails if the requested size is zero in either
    /// dimension or the device rejects the format and usage combination.
    pub fn allocate(id: PairId, size: Extent, format: ImageFormat, usage: ImageUsage) -> (r: Result<
        BufferPair,
        AllocationError,
    >)
        ensures
            r == Self::allocate_spec(id, size, format, usage),
            r matches Ok(p) ==> p.wf() && p.id == id && p.size() == size && p.front_is_slot0,
    {
        if size.has_zero_side() {
            return Err(AllocationError::ZeroExtent);
        }
        let storage_ok = match format {
            ImageFormat::Rgba8Linear => true,
            ImageFormat::Rgba8Srgb => !usage.storage_binding,
        };
        if !storage_ok {
            return Err(AllocationError::UnsupportedUsage);
        }
        let image = ManagedImage { size, format, usage };
        Ok(BufferPair { id, slot0: image, slot1: image, front_is_slot0: true })
    }
}

/// For every well-formed pair, the current and the target view resolve to
/// different underlying slots of the same pair: a pass never reads the
/// image it writes.
pub proof fn lemma_current_target_distinct(p: BufferPair)
    ensures
        p.current_view().slot != p.target_view().slot,
        p.current_view().pair == p.target_view().pair,
{
}

/// Flipping the roles twice returns the pair to its original state, front
/// slot included.
pub proof fn lemma_flip_involutive(p: BufferPair)
    ensures
        p.flipped().flipped() == p,
        p.flipped().current_slot() == p.target_slot(),
        p.flipped().target_slot() == p.current_slot(),
{
}

} // verus!
