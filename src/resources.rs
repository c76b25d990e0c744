use vstd::prelude::*;

verus! {

/// Where a buffer's memory lives.
#[derive(Clone, Copy, Debug, PartialEq, Eq, Structural)]
pub enum MemoryClass {
    /// Host-visible and persistently mapped: the host may overwrite it.
    CpuToGpu,
    /// Device-local: written only by copies recorded on the GPU.
    GpuOnly,
}

/// What a registered resource is.
#[derive(Clone, Copy, Debug, PartialEq, Eq, Structural)]
pub enum ResourceKind {
    Buffer(MemoryClass),
    Image,
}

/// The handle of a registered resource: its place in creation order.
#[derive(Clone, Copy, Debug, PartialEq, Eq, Structural)]
pub struct ResourceId {
    pub index: usize,
}

/// One registered resource and whether it still owns its memory.
#[derive(Clone, Copy, Debug, PartialEq, Eq, Structural)]
pub struct ResourceEntry {
    pub kind: ResourceKind,
    pub alive: bool,
}

/// Why an operation on a resource was refused.
#[derive(Clone, Copy, Debug, PartialEq, Eq, Structural)]
pub enum ResourceError {
    /// No resource was created with this handle.
    Unknown,
    /// The resource was already destroyed.
    Destroyed,
    /// The host may write only buffers in host-visible memory.
    NotHostVisible,
}

/// Whether `id` may be used: it was created and not destroyed.
pub open spec fn use_check(entries: Seq<ResourceEntry>, id: ResourceId) -> Result<(), ResourceError> {
    if id.index >= entries.len() {
        Err(ResourceError::Unknown)
    } else if !entries[id.index as int].alive {
        Err(ResourceError::Destroyed)
    } else {
        Ok(())
    }
}

/// Whether the host may copy data into `id`: a live host-visible buffer.
pub open spec fn fill_check(entries: Seq<ResourceEntry>, id: ResourceId) -> Result<(), ResourceError> {
    if use_check(entries, id) is Err {
        use_check(entries, id)
    } else if entries[id.index as int].kind != ResourceKind::Buffer(MemoryClass::CpuToGpu) {
        Err(ResourceError::NotHostVisible)
    } else {
        Ok(())
    }
}

/// The entries once `id` has released its memory.
pub open spec fn destroyed(entries: Seq<ResourceEntry>, id: ResourceId) -> Seq<ResourceEntry> {
    entries.update(
        id.index as int,
        ResourceEntry { kind: entries[id.index as int].kind, alive: false },
    )
}

/// The live resources among the first `n`, the latest created first.
pub open spec fn live_newest_first(entries: Seq<ResourceEntry>, n: nat) -> Seq<ResourceId>
    decreases n,
{
    if n == 0 {
        Seq::empty()
    } else {
        let rest = live_newest_first(entries, (n - 1) as nat);
        if entries[n - 1].alive {
            seq![ResourceId { index: (n - 1) as usize }] + rest
        } else {
            rest
        }
    }
}

/// A resource is destroyed at most once: once destroying it has succeeded,
/// every later use or destroy of it is refused as `Destroyed`, and the other
/// resources are untouched.
pub proof fn lemma_destroy_once(entries: Seq<ResourceEntry>, id: ResourceId, other: ResourceId)
    requires
        use_check(entries, id) is Ok,
        other != id,
    ensures
        use_check(destroyed(entries, id), id) == Err::<(), ResourceError>(ResourceError::Destroyed),
        fill_check(destroyed(entries, id), id) == Err::<(), ResourceError>(
            ResourceError::Destroyed,
        ),
        use_check(destroyed(entries, id), other) == use_check(entries, other),
        fill_check(destroyed(entries, id), other) == fill_check(entries, other),
{
}

/// Tracks the lifetime of every GPU resource: each is destroyed exactly
/// once, never used after, and torn down in reverse order of creation.
pub struct ResourceRegistry {
    entries: Vec<ResourceEntry>,
}

impl View for ResourceRegistry {
    type V = Seq<ResourceEntry>;

    closed spec fn view(&self) -> Seq<ResourceEntry> {
        self.entries@
    }
}

impl ResourceRegistry {
    pub fn new() -> (r: ResourceRegistry)
        ensures
            r@ == Seq::<ResourceEntry>::empty(),
    {
        ResourceRegistry { entries: Vec::new() }
    }

    /// Registers a new live resource; its handle is the next in order.
    pub fn create(&mut self, kind: ResourceKind) -> (r: ResourceId)
        requires
            old(self)@.len() < usize::MAX,
        ensures
            r.index == old(self)@.len(),
            final(self)@ == old(self)@.push(ResourceEntry { kind, alive: true }),
    {
        let index = self.entries.len();
        self.entries.push(ResourceEntry { kind, alive: true });
        ResourceId { index }
    }

    /// Whether `id` may be used, bound or recorded.
    pub fn check_use(&self, id: ResourceId) -> (r: Result<(), ResourceError>)
        ensures
            r == use_check(self@, id),
    {
        if id.index >= self.entries.len() {
            Err(ResourceError::Unknown)
        } else if !self.entries[id.index].alive {
            Err(ResourceError::Destroyed)
        } else {
            Ok(())
        }
    }

    /// Whether the host may copy data into `id`.
    pub fn check_fill(&self, id: ResourceId) -> (r: Result<(), ResourceError>)
        ensures
            r == fill_check(self@, id),
    {
        match self.check_use(id) {
            Err(e) => Err(e),
            Ok(()) => {
                if self.entries[id.index].kind != ResourceKind::Buffer(MemoryClass::CpuToGpu) {
                    Err(ResourceError::NotHostVisible)
                } else {
                    Ok(())
                }
            },
        }
    }

    /// Releases `id`. Refused, with nothing changed, for a handle that was
    /// never created or was already destroyed.
    pub fn destroy(&mut self, id: ResourceId) -> (r: Result<(), ResourceError>)
        ensures
            r == use_check(old(self)@, id),
            r is Ok ==> final(self)@ == destroyed(old(self)@, id),
            r is Err ==> final(self)@ == old(self)@,
    {
        let r = self.check_use(id);
        if r.is_ok() {
            let kind = self.entries[id.index].kind;
            self.entries.set(id.index, ResourceEntry { kind, alive: false });
        }
        r
    }

    /// The live resources, the latest created first: the order in which to
    /// destroy them.
    pub fn teardown_order(&self) -> (r: Vec<ResourceId>)
        ensures
            r@ == live_newest_first(self@, self@.len()),
    {
        let mut r: Vec<ResourceId> = Vec::new();
        let mut i: usize = self.entries.len();
        while i > 0
            invariant
                i <= self@.len(),
                live_newest_first(self@, self@.len()) == r@ + live_newest_first(self@, i as nat),
            decreases i,
        {
            let k = i - 1;
            let ghost before = r@;
            if self.entries[k].alive {
                r.push(ResourceId { index: k });
                assert(r@ + live_newest_first(self@, k as nat) =~= before + (seq![
                    ResourceId { index: k },
                ] + live_newest_first(self@, k as nat)));
            }
            i = k;
        }
        assert(r@ + live_newest_first(self@, 0) =~= r@);
        r
    }

    /// True when every registered resource has been destroyed.
    pub fn all_destroyed(&self) -> (r: bool)
        ensures
            r == (forall|i: int| 0 <= i < self@.len() ==> !self@[i].alive),
    {
        let mut i: usize = 0;
        while i < self.entries.len()
            invariant
                i <= self@.len(),
                forall|j: int| 0 <= j < i ==> !self@[j].alive,
            decreases self@.len() - i,
        {
            if self.entries[i].alive {
                return false;
            }
            i = i + 1;
        }
        true
    }
}

} // verus!
