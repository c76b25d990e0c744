use vstd::prelude::*;
use crate::resources::{ResourceError, ResourceId, ResourceRegistry, use_check};

verus! {

/// Binding of the render target that the kernel writes.
pub const TARGET_BINDING: u32 = 0;

/// Binding of the scene record.
pub const SCENE_BINDING: u32 = 1;

/// Binding of the camera record.
pub const CAMERA_BINDING: u32 = 2;

/// The kinds of descriptor that the kernel's layout uses.
#[derive(Clone, Copy, Debug, PartialEq, Eq, Structural)]
pub enum DescriptorKind {
    StorageImage,
    UniformBuffer,
}

impl DescriptorKind {
    pub open spec fn raw(self) -> i32 {
        match self {
            DescriptorKind::StorageImage => 3,
            DescriptorKind::UniformBuffer => 6,
        }
    }

    /// The kind's `VkDescriptorType` value.
    pub fn as_raw(&self) -> (r: i32)
        ensures
            r == self.raw(),
    {
        match self {
            DescriptorKind::StorageImage => 3,
            DescriptorKind::UniformBuffer => 6,
        }
    }
}

/// One binding of a descriptor set and the resource bound there: an image
/// or a buffer; the image is taken where both are given.
#[derive(Clone, Copy, Debug, PartialEq, Eq, Structural)]
pub struct BindingSlot {
    pub binding: u32,
    pub kind: DescriptorKind,
    pub image: Option<ResourceId>,
    pub buffer: Option<ResourceId>,
}

/// Where a write finds its resource description: the position in the list
/// of image descriptions or in the list of buffer descriptions, each in slot
/// order.
#[derive(Clone, Copy, Debug, PartialEq, Eq, Structural)]
pub enum InfoRef {
    Image(usize),
    Buffer(usize),
}

/// One descriptor write of an update.
#[derive(Clone, Copy, Debug, PartialEq, Eq, Structural)]
pub struct DescriptorWrite {
    pub binding: u32,
    pub kind: DescriptorKind,
    pub info: InfoRef,
    pub resource: ResourceId,
}

/// Why an update was refused.
#[derive(Clone, Copy, Debug, PartialEq, Eq, Structural)]
pub enum BindError {
    /// The slot names neither an image nor a buffer.
    MissingResource { binding: u32 },
    /// The slot's resource cannot be used.
    Resource { binding: u32, error: ResourceError },
}

pub open spec fn slot_resource(s: BindingSlot) -> Option<ResourceId> {
    if s.image is Some {
        s.image
    } else {
        s.buffer
    }
}

/// Why the slot cannot be bound, if it cannot.
pub open spec fn slot_error(entries: Seq<crate::resources::ResourceEntry>, s: BindingSlot) -> Option<
    BindError,
> {
    match slot_resource(s) {
        None => Some(BindError::MissingResource { binding: s.binding }),
        Some(id) => match use_check(entries, id) {
            Err(error) => Some(BindError::Resource { binding: s.binding, error }),
            Ok(_) => None,
        },
    }
}

/// Image descriptions among the first `k` slots.
pub open spec fn images_before(slots: Seq<BindingSlot>, k: int) -> nat
    decreases k,
{
    if k <= 0 {
        0
    } else {
        images_before(slots, k - 1) + if slots[k - 1].image is Some {
            1nat
        } else {
            0nat
        }
    }
}

/// Buffer descriptions among the first `k` slots.
pub open spec fn buffers_before(slots: Seq<BindingSlot>, k: int) -> nat
    decreases k,
{
    if k <= 0 {
        0
    } else {
        buffers_before(slots, k - 1) + if slots[k - 1].image is None
            && slots[k - 1].buffer is Some {
            1nat
        } else {
            0nat
        }
    }
}

/// The write for slot `k`.
pub open spec fn write_for(slots: Seq<BindingSlot>, k: int) -> DescriptorWrite {
    DescriptorWrite {
        binding: slots[k].binding,
        kind: slots[k].kind,
        info: if slots[k].image is Some {
            InfoRef::Image(images_before(slots, k) as usize)
        } else {
            InfoRef::Buffer(buffers_before(slots, k) as usize)
        },
        resource: slot_resource(slots[k])->Some_0,
    }
}

proof fn lemma_counts_bounded(slots: Seq<BindingSlot>, k: int)
    requires
        0 <= k <= slots.len(),
    ensures
        images_before(slots, k) <= k,
        buffers_before(slots, k) <= k,
    decreases k,
{
    if k > 0 {
        lemma_counts_bounded(slots, k - 1);
    }
}

/// The writes that bind `slots` to a set, one per slot in order. Refused at
/// the first slot that names no resource, or one that was never created or
/// was destroyed.
pub fn plan_writes(slots: &Vec<BindingSlot>, registry: &ResourceRegistry) -> (r: Result<
    Vec<DescriptorWrite>,
    BindError,
>)
    ensures
        r is Ok <==> forall|k: int| 0 <= k < slots@.len() ==> slot_error(registry@, slots@[k]) is None,
        r matches Ok(w) ==> w@.len() == slots@.len() && forall|k: int|
            0 <= k < slots@.len() ==> w@[k] == write_for(slots@, k),
        r matches Err(e) ==> exists|k: int|
            0 <= k < slots@.len() && slot_error(registry@, slots@[k]) == Some(e) && forall|j: int|
                0 <= j < k ==> slot_error(registry@, slots@[j]) is None,
{
    let mut writes: Vec<DescriptorWrite> = Vec::new();
    let mut images: usize = 0;
    let mut buffers: usize = 0;
    let mut k: usize = 0;
    while k < slots.len()
        invariant
            k <= slots@.len(),
            images == images_before(slots@, k as int),
            buffers == buffers_before(slots@, k as int),
            writes@.len() == k,
            forall|j: int| 0 <= j < k ==> writes@[j] == write_for(slots@, j),
            forall|j: int| 0 <= j < k ==> slot_error(registry@, slots@[j]) is None,
        decreases slots@.len() - k,
    {
        proof {
            lemma_counts_bounded(slots@, k as int);
        }
        let slot = slots[k];
        let resource = if slot.image.is_some() {
            slot.image
        } else {
            slot.buffer
        };
        match resource {
            None => {
                return Err(BindError::MissingResource { binding: slot.binding });
            },
            Some(id) => {
                match registry.check_use(id) {
                    Err(error) => {
                        return Err(BindError::Resource { binding: slot.binding, error });
                    },
                    Ok(()) => {},
                }
                let info = if slot.image.is_some() {
                    let i = images;
                    images = images + 1;
                    InfoRef::Image(i)
                } else {
                    let b = buffers;
                    buffers = buffers + 1;
                    InfoRef::Buffer(b)
                };
                writes.push(DescriptorWrite { binding: slot.binding, kind: slot.kind, info, resource: id });
            },
        }
        k = k + 1;
    }
    Ok(writes)
}

/// The kernel's layout: the render target as a storage image, then the scene
/// and the camera records as uniform buffers.
pub fn kernel_bindings(target: ResourceId, scene: ResourceId, camera: ResourceId) -> (r: Vec<
    BindingSlot,
>)
    ensures
        r@ == seq![
            BindingSlot {
                binding: TARGET_BINDING,
                kind: DescriptorKind::StorageImage,
                image: Some(target),
                buffer: None,
            },
            BindingSlot {
                binding: SCENE_BINDING,
                kind: DescriptorKind::UniformBuffer,
                image: None,
                buffer: Some(scene),
            },
            BindingSlot {
                binding: CAMERA_BINDING,
                kind: DescriptorKind::UniformBuffer,
                image: None,
                buffer: Some(camera),
            },
        ],
{
    let r = vec![
        BindingSlot {
            binding: TARGET_BINDING,
            kind: DescriptorKind::StorageImage,
            image: Some(target),
            buffer: None,
        },
        BindingSlot {
            binding: SCENE_BINDING,
            kind: DescriptorKind::UniformBuffer,
            image: None,
            buffer: Some(scene),
        },
        BindingSlot {
            binding: CAMERA_BINDING,
            kind: DescriptorKind::UniformBuffer,
            image: None,
            buffer: Some(camera),
        },
    ];
    assert(r@ =~= seq![r@[0], r@[1], r@[2]]);
    r
}

/// The slots to rewrite when the render target is recreated: only its own.
pub fn target_rebinding(target: ResourceId) -> (r: Vec<BindingSlot>)
    ensures
        r@ == seq![
            BindingSlot {
                binding: TARGET_BINDING,
                kind: DescriptorKind::StorageImage,
                image: Some(target),
                buffer: None,
            },
        ],
{
    let r = vec![
        BindingSlot {
            binding: TARGET_BINDING,
            kind: DescriptorKind::StorageImage,
            image: Some(target),
            buffer: None,
        },
    ];
    assert(r@ =~= seq![r@[0]]);
    r
}

} // verus!
