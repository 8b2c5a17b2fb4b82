//! The resource table: a slab indexed by guest resource id. Each live slot
//! names the native object behind it by a 64-bit identity; an alias shares
//! the identity of its source.
use vstd::prelude::*;

verus! {

/// Kind of a live resource.
#[derive(Debug, Clone, Copy, PartialEq, Eq, Structural)]
pub enum ResourceKind {
    Texture2D,
    Buffer,
    VertexShader,
    PixelShader,
    GeometryShader,
    HullShader,
    DomainShader,
    ComputeShader,
    InputLayout,
    BlendState,
    RasterizerState,
    DepthStencilState,
    SamplerState,
    RenderTargetView,
    DepthStencilView,
    ShaderResourceView,
}

/// A live resource: its kind, the identity of its native object, and what the
/// engine needs to know of it.
#[derive(Debug, Clone, Copy, PartialEq, Eq, Structural)]
pub struct ResourceEntry {
    pub kind: ResourceKind,
    pub native: u64,
    pub width: u32,
    pub height: u32,
    pub format: u32,
    /// Size in bytes, for buffers.
    pub size: u32,
    pub bind_flags: u32,
    /// The texture has a shader-resource view.
    pub has_srv: bool,
    /// The texture has a render-target view.
    pub has_rtv: bool,
}

/// Guest id to live resource. Id 0 never names a resource: it means "unbind".
pub struct ResourceTable {
    slots: Vec<Option<ResourceEntry>>,
}

impl View for ResourceTable {
    type V = Map<u32, ResourceEntry>;

    closed spec fn view(&self) -> Map<u32, ResourceEntry> {
        Map::new(
            |id: u32| (id as int) < self.slots@.len() && self.slots@[id as int] is Some,
            |id: u32| self.slots@[id as int]->0,
        )
    }
}

/// Some live id other than `except` is backed by native object `native`.
pub open spec fn native_held(m: Map<u32, ResourceEntry>, native: u64, except: u32) -> bool {
    exists|j: u32| j != except && #[trigger] m.contains_key(j) && m[j].native == native
}

impl ResourceTable {
    pub closed spec fn wf(&self) -> bool {
        &&& !self@.contains_key(0)
        &&& self.slots@.len() <= u32::MAX as int + 1
    }

    pub fn new() -> (r: Self)
        ensures
            r@ == Map::<u32, ResourceEntry>::empty(),
            r.wf(),
    {
        let r = ResourceTable { slots: Vec::new() };
        assert(r@ =~= Map::<u32, ResourceEntry>::empty());
        r
    }

    /// Makes `id` name `entry`, replacing what it named before.
    pub fn insert(&mut self, id: u32, entry: ResourceEntry)
        requires
            old(self).wf(),
            id != 0,
        ensures
            final(self).wf(),
            final(self)@ == old(self)@.insert(id, entry),
    {
        let idx = id as usize;
        while self.slots.len() <= idx
            invariant
                self@ == old(self)@,
                self.slots@.len() <= u32::MAX as int + 1,
                idx == id as usize,
            decreases idx + 1 - self.slots@.len(),
        {
            let ghost before = self@;
            self.slots.push(None);
            assert(self@ =~= before);
        }
        self.slots.set(idx, Some(entry));
        assert(self@ =~= old(self)@.insert(id, entry));
    }

    /// The resource that `id` names, if it is live.
    pub fn get(&self, id: u32) -> (r: Option<ResourceEntry>)
        ensures
            r is Some <==> self@.contains_key(id),
            r matches Some(e) ==> e == self@[id],
    {
        let idx = id as usize;
        if idx < self.slots.len() {
            self.slots[idx]
        } else {
            None
        }
    }

    /// Frees the slot of `id`, returning what it named.
    pub fn remove(&mut self, id: u32) -> (r: Option<ResourceEntry>)
        requires
            old(self).wf(),
        ensures
            final(self).wf(),
            final(self)@ == old(self)@.remove(id),
            r is Some <==> old(self)@.contains_key(id),
            r matches Some(e) ==> e == old(self)@[id],
    {
        let idx = id as usize;
        if idx < self.slots.len() {
            let prev = self.slots[idx];
            self.slots.set(idx, None);
            assert(self@ =~= old(self)@.remove(id));
            prev
        } else {
            assert(self@ =~= old(self)@.remove(id));
            None
        }
    }

    /// Whether a live id other than `except` is backed by native object `native`.
    pub fn is_native_held(&self, native: u64, except: u32) -> (r: bool)
        ensures
            r == native_held(self@, native, except),
    {
        let mut i: usize = 0;
        while i < self.slots.len()
            invariant
                i <= self.slots@.len(),
                forall|j: u32|
                    (j as int) < i && j != except && #[trigger] self@.contains_key(j)
                        ==> self@[j].native != native,
            decreases self.slots@.len() - i,
        {
            if let Some(e) = self.slots[i] {
                if e.native == native && i as u64 != except as u64 && i <= u32::MAX as usize {
                    assert(self@.contains_key(i as u32));
                    return true;
                }
            }
            i += 1;
        }
        proof {
            assert forall|j: u32| j != except && #[trigger] self@.contains_key(j)
                implies self@[j].native != native by {
                assert((j as int) < i);
            }
        }
        false
    }

    /// Number of live resources.
    pub fn count(&self) -> (r: usize)
        requires
            self.wf(),
        ensures
            r as nat == self@.dom().len(),
    {
        let mut n: usize = 0;
        let mut i: usize = 0;
        let ghost mut s: Set<u32> = Set::empty();
        while i < self.slots.len()
            invariant
                i <= self.slots@.len(),
                self.slots@.len() <= u32::MAX as int + 1,
                s.finite(),
                n as nat == s.len(),
                n <= i,
                forall|id: u32| s.contains(id) <==> ((id as int) < i && self@.contains_key(id)),
            decreases self.slots@.len() - i,
        {
            if self.slots[i].is_some() {
                proof {
                    assert(!s.contains(i as u32));
                    s = s.insert(i as u32);
                }
                n += 1;
            }
            i += 1;
        }
        assert(s =~= self@.dom());
        n
    }

    /// Drops every resource.
    pub fn clear(&mut self)
        ensures
            final(self)@ == Map::<u32, ResourceEntry>::empty(),
            final(self).wf(),
    {
        self.slots.clear();
        assert(self@ =~= Map::<u32, ResourceEntry>::empty());
    }

    /// The texture that `id` names; `None` when `id` is not live or names another kind.
    pub fn get_texture(&self, id: u32) -> (r: Option<ResourceEntry>)
        ensures
            r is Some <==> (self@.contains_key(id) && self@[id].kind == ResourceKind::Texture2D),
            r matches Some(e) ==> e == self@[id],
    {
        match self.get(id) {
            Some(e) => if e.kind == ResourceKind::Texture2D {
                Some(e)
            } else {
                None
            },
            None => None,
        }
    }

    /// The buffer that `id` names; `None` when `id` is not live or names another kind.
    pub fn get_buffer(&self, id: u32) -> (r: Option<ResourceEntry>)
        ensures
            r is Some <==> (self@.contains_key(id) && self@[id].kind == ResourceKind::Buffer),
            r matches Some(e) ==> e == self@[id],
    {
        match self.get(id) {
            Some(e) => if e.kind == ResourceKind::Buffer {
                Some(e)
            } else {
                None
            },
            None => None,
        }
    }
}

} // verus!
