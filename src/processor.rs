//! The replay engine: decodes one record, checks it against the resource
//! table and the heap, updates the table and the engine's state, and lists
//! the native calls that carry the command out.
use vstd::prelude::*;

use crate::ops::{
    bump, bumped, CommandProcessorStats, HeapRange, NativeOp, ReplayError, ReplayWarning,
    UpdateBox, E_OUTOFMEMORY,
};
use crate::protocol::{
    CmdClearDepthStencil, CmdClearRenderTarget, CmdCopyResource, CmdCreateResource,
    CmdCreateShader, CmdDestroyShader, CmdDispatch, CmdDraw, CmdDrawIndexed,
    CmdDrawIndexedInstanced, CmdDrawInstanced, CmdFence, CmdMapResource, CmdOpenResource,
    CmdPresent, CmdResizeBuffers, CmdSetBlendState, CmdSetConstantBuffer, CmdSetDepthStencil,
    CmdSetIndexBuffer, CmdSetInputLayout, CmdSetPrimitiveTopology, CmdSetRasterizerState,
    CmdSetRenderTarget, CmdSetSamplers, CmdSetScissor, CmdSetShader, CmdSetShaderResources,
    CmdSetVertexBuffer, CmdSetViewport, CmdUnmapResource, CmdUpdateResource, CommandHeader,
    MapType, ScissorRect, ShaderStage, VertexBufferBinding, Viewport, PVGPU_CMD_CLEAR_DEPTH_STENCIL,
    PVGPU_CMD_CLEAR_RENDER_TARGET, PVGPU_CMD_COPY_RESOURCE, PVGPU_CMD_CREATE_RESOURCE,
    PVGPU_CMD_CREATE_SHADER, PVGPU_CMD_DESTROY_RESOURCE, PVGPU_CMD_DESTROY_SHADER,
    PVGPU_CMD_DISPATCH, PVGPU_CMD_DRAW, PVGPU_CMD_DRAW_INDEXED, PVGPU_CMD_DRAW_INDEXED_INSTANCED,
    PVGPU_CMD_DRAW_INSTANCED, PVGPU_CMD_FENCE, PVGPU_CMD_FLUSH, PVGPU_CMD_MAP_RESOURCE,
    PVGPU_CMD_OPEN_RESOURCE, PVGPU_CMD_PRESENT, PVGPU_CMD_RESIZE_BUFFERS,
    PVGPU_CMD_SET_BLEND_STATE, PVGPU_CMD_SET_CONSTANT_BUFFER, PVGPU_CMD_SET_DEPTH_STENCIL,
    PVGPU_CMD_SET_INDEX_BUFFER, PVGPU_CMD_SET_INPUT_LAYOUT, PVGPU_CMD_SET_PRIMITIVE_TOPOLOGY,
    PVGPU_CMD_SET_RASTERIZER_STATE, PVGPU_CMD_SET_RENDER_TARGET, PVGPU_CMD_SET_SAMPLER,
    PVGPU_CMD_SET_SCISSOR, PVGPU_CMD_SET_SHADER, PVGPU_CMD_SET_SHADER_RESOURCE,
    PVGPU_CMD_SET_VERTEX_BUFFER, PVGPU_CMD_SET_VIEWPORT, PVGPU_CMD_UNMAP_RESOURCE,
    PVGPU_CMD_UPDATE_RESOURCE, PVGPU_CMD_WAIT_FENCE,
};
use crate::resources::{native_held, ResourceEntry, ResourceKind, ResourceTable};
use crate::ring::FramingError;
use crate::wire::word_at;

verus! {

/// Largest texture side accepted.
pub const MAX_TEXTURE_DIMENSION: u32 = 16384;

/// Largest buffer accepted, in bytes.
pub const MAX_BUFFER_SIZE: u32 = 0x4000_0000;

/// Bind flag asking for a shader-resource view.
pub const BIND_SHADER_RESOURCE: u32 = 0x8;

/// Bind flag asking for a render-target view.
pub const BIND_RENDER_TARGET: u32 = 0x20;

/// An outstanding map: the staging object that holds the mapping.
#[derive(Debug, Clone, Copy, PartialEq, Eq, Structural)]
pub struct ActiveMap {
    pub resource_id: u32,
    pub subresource: u32,
    pub source: u64,
    pub staging: u64,
    /// Whether the map lets the guest write (every type but Read).
    pub writes: bool,
    /// Bytes the mapping holds: a buffer's size, or what the device reported
    /// for a texture; `None` until the device reports it.
    pub mapped_size: Option<u64>,
}

/// The UNMAP record `c` hands data back to map `am`.
pub open spec fn unmap_writes(am: ActiveMap, c: CmdUnmapResource) -> bool {
    c.data_size > 0 && am.writes
}

/// The native call that ends map `am` for record `c`: write-back and copy
/// to the resource only for a writing map and a record that carries data.
pub open spec fn unmap_op(am: ActiveMap, c: CmdUnmapResource) -> NativeOp {
    NativeOp::UnmapStaging {
        staging: am.staging,
        subresource: c.subresource,
        write_back: if unmap_writes(am, c) {
            Some(HeapRange { offset: c.heap_offset, len: c.data_size })
        } else {
            None
        },
        copy_to: if unmap_writes(am, c) {
            Some(am.source)
        } else {
            None
        },
    }
}

/// The write-back of `c` does not fit the mapping of `am`, or the mapping's
/// size is not known.
pub open spec fn unmap_too_long(am: ActiveMap, c: CmdUnmapResource) -> bool {
    unmap_writes(am, c) && match am.mapped_size {
        Some(sz) => c.data_size > sz,
        None => true,
    }
}

/// The mapped size known when `e` is mapped: a buffer's size.
pub open spec fn mapped_buffer_size(e: ResourceEntry) -> Option<u64> {
    if e.kind == ResourceKind::Buffer {
        Some(e.size as u64)
    } else {
        None
    }
}

/// What the last command did that a native failure must take back.
#[derive(Debug, Clone, Copy, PartialEq, Eq, Structural)]
pub enum Undo {
    Created { id: u32 },
    Mapped { resource_id: u32, subresource: u32 },
}

/// Which resources a binding accepts.
#[derive(Debug, Clone, Copy, PartialEq, Eq, Structural)]
pub enum BindClass {
    Kind(ResourceKind),
    /// A texture with a render-target view, or a render-target view.
    RenderTarget,
    /// A texture with a shader-resource view, or a shader-resource view.
    ShaderResource,
}

pub open spec fn accepts(class: BindClass, e: ResourceEntry) -> bool {
    match class {
        BindClass::Kind(k) => e.kind == k,
        BindClass::RenderTarget => (e.kind == ResourceKind::Texture2D && e.has_rtv) || e.kind
            == ResourceKind::RenderTargetView,
        BindClass::ShaderResource => (e.kind == ResourceKind::Texture2D && e.has_srv) || e.kind
            == ResourceKind::ShaderResourceView,
    }
}

/// What id `id` binds: `Some(None)` unbinds (id 0), `Some(Some(n))` binds native
/// object `n`, `None` means the id is not live or of the wrong kind.
pub open spec fn resolve(m: Map<u32, ResourceEntry>, id: u32, class: BindClass) -> Option<
    Option<u64>,
> {
    if id == 0 {
        Some(None)
    } else if m.contains_key(id) && accepts(class, m[id]) {
        Some(Some(m[id].native))
    } else {
        None
    }
}

/// The resource kind of shaders of `stage`.
pub open spec fn shader_kind(stage: ShaderStage) -> ResourceKind {
    match stage {
        ShaderStage::Vertex => ResourceKind::VertexShader,
        ShaderStage::Pixel => ResourceKind::PixelShader,
        ShaderStage::Geometry => ResourceKind::GeometryShader,
        ShaderStage::Hull => ResourceKind::HullShader,
        ShaderStage::Domain => ResourceKind::DomainShader,
        ShaderStage::Compute => ResourceKind::ComputeShader,
    }
}

pub fn shader_kind_of(stage: ShaderStage) -> (r: ResourceKind)
    ensures
        r == shader_kind(stage),
{
    match stage {
        ShaderStage::Vertex => ResourceKind::VertexShader,
        ShaderStage::Pixel => ResourceKind::PixelShader,
        ShaderStage::Geometry => ResourceKind::GeometryShader,
        ShaderStage::Hull => ResourceKind::HullShader,
        ShaderStage::Domain => ResourceKind::DomainShader,
        ShaderStage::Compute => ResourceKind::ComputeShader,
    }
}

/// The stage of shader resource types 5 to 10.
pub open spec fn shader_stage_of_type(t: u32) -> ShaderStage {
    if t == 5 {
        ShaderStage::Vertex
    } else if t == 6 {
        ShaderStage::Pixel
    } else if t == 7 {
        ShaderStage::Geometry
    } else if t == 8 {
        ShaderStage::Hull
    } else if t == 9 {
        ShaderStage::Domain
    } else {
        ShaderStage::Compute
    }
}

/// Formats of 32 bits per pixel, the only ones whose initial data the create
/// path accepts (its rows are `width * 4` bytes apart).
pub open spec fn is_32bpp_format(format: u32) -> bool {
    (23 <= format <= 47) || format == 67 || (87 <= format <= 93)
}

pub fn is_32bpp(format: u32) -> (r: bool)
    ensures
        r == is_32bpp_format(format),
{
    (23 <= format && format <= 47) || format == 67 || (87 <= format && format <= 93)
}

/// Texture sides accepted by create.
pub open spec fn texture_dims_ok(width: u32, height: u32) -> bool {
    1 <= width <= MAX_TEXTURE_DIMENSION && 1 <= height <= MAX_TEXTURE_DIMENSION
}

/// Buffer sizes accepted by create.
pub open spec fn buffer_size_ok(size: u32) -> bool {
    1 <= size <= MAX_BUFFER_SIZE
}

/// The heap range of a create's initial data: present when its size is nonzero.
pub open spec fn initial_range(c: CmdCreateResource) -> Option<HeapRange> {
    if c.data_size > 0 {
        Some(HeapRange { offset: c.heap_offset, len: c.data_size })
    } else {
        None
    }
}

pub open spec fn in_heap(off: u32, len: u32, heap_len: nat) -> bool {
    off as int + len as int <= heap_len
}

/// The engine's state as contracts see it.
pub struct ProcessorView {
    pub resources: Map<u32, ResourceEntry>,
    pub current_fence: u64,
    pub pending_present: Option<(u32, u32)>,
    pub pending_resize: Option<(u32, u32)>,
    pub maps: Seq<ActiveMap>,
    pub stats: CommandProcessorStats,
    pub next_native: u64,
    pub undo: Option<Undo>,
}

/// The replay engine.
pub struct CommandProcessor {
    table: ResourceTable,
    current_fence: u64,
    pending_present: Option<(u32, u32)>,
    pending_resize: Option<(u32, u32)>,
    active_maps: Vec<ActiveMap>,
    stats: CommandProcessorStats,
    next_native: u64,
    undo: Option<Undo>,
}

/// The result of one command that did not fail.
#[derive(Debug, Clone, PartialEq, Eq)]
pub struct Replay {
    /// Bytes of the ring the record took.
    pub consumed: usize,
    /// Native calls to make, in order.
    pub ops: Vec<NativeOp>,
    pub warning: Option<ReplayWarning>,
}

impl View for CommandProcessor {
    type V = ProcessorView;

    closed spec fn view(&self) -> ProcessorView {
        ProcessorView {
            resources: self.table@,
            current_fence: self.current_fence,
            pending_present: self.pending_present,
            pending_resize: self.pending_resize,
            maps: self.active_maps@,
            stats: self.stats,
            next_native: self.next_native,
            undo: self.undo,
        }
    }
}

/// Index of the outstanding map of `(resource_id, subresource)` in `maps`.
pub open spec fn map_index(maps: Seq<ActiveMap>, resource_id: u32, subresource: u32) -> Option<int> {
    if exists|i: int|
        0 <= i < maps.len() && maps[i].resource_id == resource_id && maps[i].subresource
            == subresource {
        Some(
            choose|i: int|
                0 <= i < maps.len() && maps[i].resource_id == resource_id && maps[i].subresource
                    == subresource,
        )
    } else {
        None
    }
}

impl ProcessorView {
    /// Every field but the counters is unchanged.
    pub open spec fn same_but_stats(self, other: Self) -> bool {
        &&& self.resources == other.resources
        &&& self.current_fence == other.current_fence
        &&& self.pending_present == other.pending_present
        &&& self.pending_resize == other.pending_resize
        &&& self.maps == other.maps
        &&& self.next_native == other.next_native
    }
}

impl CommandProcessor {
    pub closed spec fn wf(&self) -> bool {
        &&& self.table.wf()
        &&& forall|i: int, j: int|
            0 <= i < j < self.active_maps@.len() ==> !(self.active_maps@[i].resource_id
                == self.active_maps@[j].resource_id && self.active_maps@[i].subresource
                == self.active_maps@[j].subresource)
    }

    pub fn new() -> (r: Self)
        ensures
            r.wf(),
            r@.resources == Map::<u32, ResourceEntry>::empty(),
            r@.current_fence == 0,
            r@.pending_present is None,
            r@.pending_resize is None,
            r@.maps == Seq::<ActiveMap>::empty(),
            r@.stats == CommandProcessorStats::zero_spec(),
            r@.next_native == 1,
            r@.undo is None,
    {
        let r = CommandProcessor {
            table: ResourceTable::new(),
            current_fence: 0,
            pending_present: None,
            pending_resize: None,
            active_maps: Vec::new(),
            stats: CommandProcessorStats::zero(),
            next_native: 1,
            undo: None,
        };
        assert(r.active_maps@ =~= Seq::<ActiveMap>::empty());
        r
    }

    /// The last fence value seen in the stream.
    pub fn current_fence(&self) -> (r: u64)
        ensures
            r == self@.current_fence,
    {
        self.current_fence
    }

    pub fn has_pending_present(&self) -> (r: bool)
        ensures
            r == self@.pending_present is Some,
    {
        self.pending_present.is_some()
    }

    /// Takes the pending present `(backbuffer_id, sync_interval)`, leaving none.
    pub fn take_pending_present(&mut self) -> (r: Option<(u32, u32)>)
        ensures
            r == old(self)@.pending_present,
            final(self)@ == (ProcessorView { pending_present: None, ..old(self)@ }),
            final(self).wf() == old(self).wf(),
    {
        let r = self.pending_present;
        self.pending_present = None;
        r
    }

    pub fn has_pending_resize(&self) -> (r: bool)
        ensures
            r == self@.pending_resize is Some,
    {
        self.pending_resize.is_some()
    }

    /// Takes the pending resize `(width, height)`, leaving none.
    pub fn take_pending_resize(&mut self) -> (r: Option<(u32, u32)>)
        ensures
            r == old(self)@.pending_resize,
            final(self)@ == (ProcessorView { pending_resize: None, ..old(self)@ }),
            final(self).wf() == old(self).wf(),
    {
        let r = self.pending_resize;
        self.pending_resize = None;
        r
    }

    pub fn stats(&self) -> (r: CommandProcessorStats)
        ensures
            r == self@.stats,
    {
        self.stats
    }

    /// Returns the counters, for the caller to log, and sets them back to zero.
    pub fn log_and_reset_stats(&mut self) -> (r: CommandProcessorStats)
        ensures
            r == old(self)@.stats,
            final(self)@ == (ProcessorView { stats: CommandProcessorStats::zero_spec(), ..old(self)@ }),
            final(self).wf() == old(self).wf(),
    {
        let r = self.stats;
        self.stats = CommandProcessorStats::zero();
        r
    }

    /// Number of live resources.
    pub fn resource_count(&self) -> (r: usize)
        requires
            self.wf(),
        ensures
            r as nat == self@.resources.dom().len(),
    {
        self.table.count()
    }

    /// The live resource that `id` names.
    pub fn get_resource(&self, id: u32) -> (r: Option<ResourceEntry>)
        ensures
            r is Some <==> self@.resources.contains_key(id),
            r matches Some(e) ==> e == self@.resources[id],
    {
        self.table.get(id)
    }

    /// The texture that `id` names, if `id` is live and names a texture.
    pub fn get_texture(&self, id: u32) -> (r: Option<ResourceEntry>)
        ensures
            r is Some <==> (self@.resources.contains_key(id) && self@.resources[id].kind
                == ResourceKind::Texture2D),
            r matches Some(e) ==> e == self@.resources[id],
    {
        self.table.get_texture(id)
    }

    /// The buffer that `id` names, if `id` is live and names a buffer.
    pub fn get_buffer(&self, id: u32) -> (r: Option<ResourceEntry>)
        ensures
            r is Some <==> (self@.resources.contains_key(id) && self@.resources[id].kind
                == ResourceKind::Buffer),
            r matches Some(e) ==> e == self@.resources[id],
    {
        self.table.get_buffer(id)
    }

    /// Drops every resource and outstanding map, before the device is made anew.
    pub fn clear_resources(&mut self)
        ensures
            final(self).wf(),
            final(self)@.resources == Map::<u32, ResourceEntry>::empty(),
            final(self)@.maps == Seq::<ActiveMap>::empty(),
            final(self)@.undo is None,
            final(self)@.current_fence == old(self)@.current_fence,
            final(self)@.next_native == old(self)@.next_native,
            final(self)@.stats == old(self)@.stats,
    {
        self.table.clear();
        self.active_maps.clear();
        self.undo = None;
        assert(self.active_maps@ =~= Seq::<ActiveMap>::empty());
    }

    fn resolve_id(&self, id: u32, class: BindClass) -> (r: Option<Option<u64>>)
        ensures
            r == resolve(self@.resources, id, class),
    {
        if id == 0 {
            return Some(None);
        }
        match self.table.get(id) {
            Some(e) => {
                let ok = match class {
                    BindClass::Kind(k) => e.kind == k,
                    BindClass::RenderTarget => (e.kind == ResourceKind::Texture2D && e.has_rtv)
                        || e.kind == ResourceKind::RenderTargetView,
                    BindClass::ShaderResource => (e.kind == ResourceKind::Texture2D && e.has_srv)
                        || e.kind == ResourceKind::ShaderResourceView,
                };
                if ok {
                    Some(Some(e.native))
                } else {
                    None
                }
            },
            None => None,
        }
    }

    fn find_map(&self, resource_id: u32, subresource: u32) -> (r: Option<usize>)
        ensures
            r is Some <==> map_index(self@.maps, resource_id, subresource) is Some,
            r matches Some(i) ==> i < self@.maps.len() && self@.maps[i as int].resource_id
                == resource_id && self@.maps[i as int].subresource == subresource,
    {
        let mut i: usize = 0;
        while i < self.active_maps.len()
            invariant
                i <= self.active_maps@.len(),
                forall|j: int|
                    0 <= j < i ==> !(#[trigger] self.active_maps@[j].resource_id == resource_id
                        && self.active_maps@[j].subresource == subresource),
            decreases self.active_maps@.len() - i,
        {
            let m = self.active_maps[i];
            if m.resource_id == resource_id && m.subresource == subresource {
                return Some(i);
            }
            i += 1;
        }
        None
    }

    fn take_native(&mut self) -> (r: Result<u64, ReplayError>)
        ensures
            r is Ok <==> old(self)@.next_native < u64::MAX,
            r matches Ok(n) ==> n == old(self)@.next_native && final(self)@ == (ProcessorView {
                next_native: (n + 1) as u64,
                ..old(self)@
            }),
            r is Err ==> r == Err::<u64, ReplayError>(ReplayError::Internal) && final(self)@
                == old(self)@,
            final(self).wf() == old(self).wf(),
    {
        if self.next_native == u64::MAX {
            return Err(ReplayError::Internal);
        }
        let n = self.next_native;
        self.next_native = n + 1;
        Ok(n)
    }
}

impl CommandProcessorStats {
    pub open spec fn zero_spec() -> Self {
        CommandProcessorStats {
            commands_processed: 0,
            draw_calls: 0,
            presents: 0,
            resources_created: 0,
            resources_destroyed: 0,
            errors: 0,
        }
    }
}

/// The ops that release the native object of `id` when `id` is its last holder.
pub open spec fn release_ops(m: Map<u32, ResourceEntry>, id: u32) -> Seq<NativeOp> {
    if m.contains_key(id) && !native_held(m, m[id].native, id) {
        seq![NativeOp::Release { native: m[id].native }]
    } else {
        Seq::empty()
    }
}

/// The initial data of a create of `c` lies past the end of the heap.
pub open spec fn create_heap_bad(c: CmdCreateResource, heap_len: nat) -> bool {
    c.data_size > 0 && !in_heap(c.heap_offset, c.data_size, heap_len)
}

/// Why a create of `c` fails, if it does.
pub open spec fn create_error(v: ProcessorView, c: CmdCreateResource, heap_len: nat) -> Option<
    ReplayError,
> {
    let id = c.header.resource_id;
    let t = c.resource_type;
    if create_heap_bad(c, heap_len) {
        Some(ReplayError::HeapOutOfBounds)
    } else if t == 2 && !texture_dims_ok(c.width, c.height) {
        Some(ReplayError::InvalidParameter(id))
    } else if t == 4 && !buffer_size_ok(c.width) {
        Some(ReplayError::InvalidParameter(id))
    } else if 5 <= t <= 10 && initial_range(c) is None {
        Some(ReplayError::ShaderCompile(id))
    } else if id == 0 || v.resources.contains_key(id) {
        Some(ReplayError::InvalidParameter(id))
    } else if t == 2 && initial_range(c) is Some && !is_32bpp_format(c.format) {
        Some(ReplayError::UnsupportedFormat(id))
    } else if v.next_native == u64::MAX {
        Some(ReplayError::Internal)
    } else {
        None
    }
}

/// Resource types that create handles: textures, buffers and the six shader kinds.
pub open spec fn create_handles(t: u32) -> bool {
    t == 2 || t == 4 || (5 <= t <= 10)
}

/// The entry a successful create of `c` makes, backed by native object `n`.
pub open spec fn created_entry(c: CmdCreateResource, n: u64) -> ResourceEntry {
    if c.resource_type == 2 {
        ResourceEntry {
            kind: ResourceKind::Texture2D,
            native: n,
            width: c.width,
            height: c.height,
            format: c.format,
            size: 0,
            bind_flags: c.bind_flags,
            has_srv: c.bind_flags & BIND_SHADER_RESOURCE != 0,
            has_rtv: c.bind_flags & BIND_RENDER_TARGET != 0,
        }
    } else if c.resource_type == 4 {
        ResourceEntry {
            kind: ResourceKind::Buffer,
            native: n,
            width: 0,
            height: 0,
            format: 0,
            size: c.width,
            bind_flags: c.bind_flags,
            has_srv: false,
            has_rtv: false,
        }
    } else {
        shader_entry(shader_stage_of_type(c.resource_type), n)
    }
}

pub open spec fn shader_entry(stage: ShaderStage, n: u64) -> ResourceEntry {
    ResourceEntry {
        kind: shader_kind(stage),
        native: n,
        width: 0,
        height: 0,
        format: 0,
        size: 0,
        bind_flags: 0,
        has_srv: false,
        has_rtv: false,
    }
}

/// The native call of a successful create of `c` as native object `n`.
pub open spec fn create_op(c: CmdCreateResource, n: u64) -> NativeOp {
    if c.resource_type == 2 {
        NativeOp::CreateTexture2D {
            native: n,
            width: c.width,
            height: c.height,
            format: c.format,
            bind_flags: c.bind_flags,
            initial: initial_range(c),
            row_pitch: (c.width * 4) as u32,
        }
    } else if c.resource_type == 4 {
        NativeOp::CreateBuffer {
            native: n,
            size: c.width,
            bind_flags: c.bind_flags,
            initial: initial_range(c),
        }
    } else {
        NativeOp::CreateShader {
            native: n,
            stage: shader_stage_of_type(c.resource_type),
            bytecode: initial_range(c)->0,
        }
    }
}

/// Opcodes the engine knows.
pub open spec fn is_known_opcode(op: u32) -> bool {
    (1 <= op <= 7) || op == 0x30 || op == 0x31 || (0x101 <= op <= 0x10E) || (0x201 <= op <= 0x207)
        || (0x301 <= op <= 0x305)
}

/// The counters after a command with opcode `op` went through.
pub open spec fn stats_after(s: CommandProcessorStats, op: u32) -> CommandProcessorStats {
    let s1 = CommandProcessorStats { commands_processed: bumped(s.commands_processed), ..s };
    if op == PVGPU_CMD_CREATE_RESOURCE {
        CommandProcessorStats { resources_created: bumped(s.resources_created), ..s1 }
    } else if op == PVGPU_CMD_DESTROY_RESOURCE {
        CommandProcessorStats { resources_destroyed: bumped(s.resources_destroyed), ..s1 }
    } else if 0x201 <= op <= 0x205 {
        CommandProcessorStats { draw_calls: bumped(s.draw_calls), ..s1 }
    } else if op == PVGPU_CMD_PRESENT {
        CommandProcessorStats { presents: bumped(s.presents), ..s1 }
    } else {
        s1
    }
}

pub open spec fn sampler_ops(
    m: Map<u32, ResourceEntry>,
    stage: ShaderStage,
    start: u32,
    ids: Seq<u32>,
    n: nat,
) -> Seq<NativeOp>
    decreases n,
{
    if n == 0 {
        Seq::empty()
    } else {
        let prev = sampler_ops(m, stage, start, ids, (n - 1) as nat);
        match resolve(m, ids[n - 1], BindClass::Kind(ResourceKind::SamplerState)) {
            Some(b) => prev.push(
                NativeOp::SetSampler { stage, slot: (start + n - 1) as u32, sampler: b },
            ),
            None => prev,
        }
    }
}

pub open spec fn view_ops(
    m: Map<u32, ResourceEntry>,
    stage: ShaderStage,
    start: u32,
    ids: Seq<u32>,
    n: nat,
) -> Seq<NativeOp>
    decreases n,
{
    if n == 0 {
        Seq::empty()
    } else {
        let prev = view_ops(m, stage, start, ids, (n - 1) as nat);
        match resolve(m, ids[n - 1], BindClass::ShaderResource) {
            Some(b) => prev.push(
                NativeOp::SetShaderResource { stage, slot: (start + n - 1) as u32, view: b },
            ),
            None => prev,
        }
    }
}

pub open spec fn vertex_buffer_ops(
    m: Map<u32, ResourceEntry>,
    start: u32,
    bs: Seq<VertexBufferBinding>,
    n: nat,
) -> Seq<NativeOp>
    decreases n,
{
    if n == 0 {
        Seq::empty()
    } else {
        let prev = vertex_buffer_ops(m, start, bs, (n - 1) as nat);
        let b = bs[n - 1];
        match resolve(m, b.buffer_id, BindClass::Kind(ResourceKind::Buffer)) {
            Some(buf) => prev.push(
                NativeOp::SetVertexBuffer {
                    slot: (start + n - 1) as u32,
                    buffer: buf,
                    stride: b.stride,
                    offset: b.offset,
                },
            ),
            None => prev,
        }
    }
}

/// The resource that a copy, update or map of `id` works on: a texture or a buffer.
pub open spec fn copyable(m: Map<u32, ResourceEntry>, id: u32) -> bool {
    m.contains_key(id) && (m[id].kind == ResourceKind::Texture2D || m[id].kind
        == ResourceKind::Buffer)
}

/// Bytes per pixel of the uncompressed formats; 0 for the others.
pub open spec fn bytes_per_pixel(format: u32) -> u32 {
    if 1 <= format <= 4 {
        16
    } else if 5 <= format <= 8 {
        12
    } else if 9 <= format <= 22 {
        8
    } else if is_32bpp_format(format) {
        4
    } else if (48 <= format <= 59) || format == 85 || format == 86 || format == 115 {
        2
    } else if 60 <= format <= 65 {
        1
    } else {
        0
    }
}

pub fn bytes_per_pixel_of(format: u32) -> (r: u32)
    ensures
        r == bytes_per_pixel(format),
{
    if 1 <= format && format <= 4 {
        16
    } else if 5 <= format && format <= 8 {
        12
    } else if 9 <= format && format <= 22 {
        8
    } else if is_32bpp(format) {
        4
    } else if (48 <= format && format <= 59) || format == 85 || format == 86 || format == 115 {
        2
    } else if 60 <= format && format <= 65 {
        1
    } else {
        0
    }
}

fn mul_wide(a: u32, b: u32) -> (r: u64)
    ensures
        r == a * b,
{
    assert(a as int * b as int <= u32::MAX as int * u32::MAX as int) by (nonlinear_arith)
        requires
            a <= u32::MAX,
            b <= u32::MAX,
    ;
    (a as u64) * (b as u64)
}

/// Whether an update of `c` names a box.
pub open spec fn update_boxed(c: CmdUpdateResource) -> bool {
    c.width > 0 || c.height > 0 || c.depth > 0
}

/// The heap bytes the device reads for a texture region `w` x `h` whose rows
/// are `row_pitch` apart: every row but the last in full, and the pixels of the last.
pub open spec fn texture_bytes(w: int, h: int, bpp: int, row_pitch: int) -> int {
    if h == 0 {
        0
    } else {
        (h - 1) * row_pitch + w * bpp
    }
}

/// Why an update of live texture or buffer `e` by `c` is refused, if it is.
pub open spec fn update_error(e: ResourceEntry, c: CmdUpdateResource) -> Option<ReplayError> {
    let id = c.resource_id;
    let is_buffer = e.kind == ResourceKind::Buffer;
    let lim_x: int = if is_buffer {
        e.size as int
    } else {
        e.width as int
    };
    let lim_y: int = if is_buffer {
        1
    } else {
        e.height as int
    };
    let box_ok = c.width > 0 && c.height > 0 && c.depth > 0 && c.dst_x + c.width <= lim_x && c.dst_y
        + c.height <= lim_y && c.dst_z + c.depth <= 1;
    let bpp = bytes_per_pixel(e.format) as int;
    let w: int = if update_boxed(c) {
        c.width as int
    } else {
        e.width as int
    };
    let h: int = if update_boxed(c) {
        c.height as int
    } else {
        e.height as int
    };
    if c.subresource != 0 {
        Some(ReplayError::InvalidParameter(id))
    } else if update_boxed(c) && !box_ok {
        Some(ReplayError::InvalidParameter(id))
    } else if is_buffer {
        if c.data_size < (if update_boxed(c) {
            c.width
        } else {
            e.size
        }) {
            Some(ReplayError::InvalidParameter(id))
        } else {
            None
        }
    } else if bpp == 0 {
        Some(ReplayError::UnsupportedFormat(id))
    } else if (h > 1 && (c.row_pitch as int) < w * bpp) || (c.data_size as int) < texture_bytes(
        w,
        h,
        bpp,
        c.row_pitch as int,
    ) {
        Some(ReplayError::InvalidParameter(id))
    } else {
        None
    }
}

/// The native call of an accepted update of `e` by `c`.
pub open spec fn update_op(e: ResourceEntry, c: CmdUpdateResource) -> NativeOp {
    NativeOp::UpdateSubresource {
        native: e.native,
        subresource: c.subresource,
        data: HeapRange { offset: c.heap_offset, len: c.data_size },
        dst_box: if update_boxed(c) {
            Some(
                UpdateBox {
                    left: c.dst_x,
                    top: c.dst_y,
                    front: c.dst_z,
                    right: (c.dst_x + c.width) as u32,
                    bottom: (c.dst_y + c.height) as u32,
                    back: (c.dst_z + c.depth) as u32,
                },
            )
        } else {
            None
        },
        row_pitch: c.row_pitch,
        depth_pitch: c.depth_pitch,
    }
}

impl CommandProcessor {
    fn copyable_native(&self, id: u32) -> (r: Option<ResourceEntry>)
        ensures
            r is Some <==> copyable(self@.resources, id),
            r matches Some(e) ==> e == self@.resources[id],
    {
        match self.table.get(id) {
            Some(e) => if e.kind == ResourceKind::Texture2D || e.kind == ResourceKind::Buffer {
                Some(e)
            } else {
                None
            },
            None => None,
        }
    }

    /// CREATE_RESOURCE: validates the parameters, reserves the id and a native
    /// identity, and asks for the native object.
    fn handle_create_resource(
        &mut self,
        c: CmdCreateResource,
        heap_len: usize,
        ops: &mut Vec<NativeOp>,
    ) -> (r: Result<Option<ReplayWarning>, ReplayError>)
        requires
            old(self).wf(),
            old(self)@.undo is None,
        ensures
            final(self).wf(),
            create_heap_bad(c, heap_len as nat) ==> r == Err::<Option<ReplayWarning>, ReplayError>(
                ReplayError::HeapOutOfBounds,
            ) && final(self)@ == old(self)@ && final(ops)@ == old(ops)@,
            !create_heap_bad(c, heap_len as nat) && !create_handles(c.resource_type) ==> r == Ok::<
                Option<ReplayWarning>,
                ReplayError,
            >(Some(ReplayWarning::UnknownResourceType(c.resource_type))) && final(self)@ == old(
            self,
            )@ && final(ops)@ == old(ops)@,
            create_handles(c.resource_type) ==> match create_error(old(self)@, c, heap_len as nat) {
                Some(e) => r == Err::<Option<ReplayWarning>, ReplayError>(e) && final(self)@
                    == old(self)@ && final(ops)@ == old(ops)@,
                None => {
                    let n = old(self)@.next_native;
                    &&& r == Ok::<Option<ReplayWarning>, ReplayError>(None)
                    &&& final(self)@ == (ProcessorView {
                        resources: old(self)@.resources.insert(
                            c.header.resource_id,
                            created_entry(c, n),
                        ),
                        next_native: (n + 1) as u64,
                        undo: Some(Undo::Created { id: c.header.resource_id }),
                        ..old(self)@
                    })
                    &&& final(ops)@ == old(ops)@.push(create_op(c, n))
                },
            },
    {
        let id = c.header.resource_id;
        let t = c.resource_type;
        if c.data_size > 0 && c.heap_offset as u64 + c.data_size as u64 > heap_len as u64 {
            return Err(ReplayError::HeapOutOfBounds);
        }
        if !(t == 2 || t == 4 || (5 <= t && t <= 10)) {
            return Ok(Some(ReplayWarning::UnknownResourceType(t)));
        }
        let initial = if c.data_size > 0 {
            Some(HeapRange { offset: c.heap_offset, len: c.data_size })
        } else {
            None
        };
        if t == 2 && !(1 <= c.width && c.width <= MAX_TEXTURE_DIMENSION && 1 <= c.height
            && c.height <= MAX_TEXTURE_DIMENSION) {
            return Err(ReplayError::InvalidParameter(id));
        }
        if t == 4 && !(1 <= c.width && c.width <= MAX_BUFFER_SIZE) {
            return Err(ReplayError::InvalidParameter(id));
        }
        if 5 <= t && t <= 10 && initial.is_none() {
            return Err(ReplayError::ShaderCompile(id));
        }
        if id == 0 || self.table.get(id).is_some() {
            return Err(ReplayError::InvalidParameter(id));
        }
        if t == 2 && initial.is_some() && !is_32bpp(c.format) {
            return Err(ReplayError::UnsupportedFormat(id));
        }
        let n = match self.take_native() {
            Ok(n) => n,
            Err(e) => return Err(e),
        };
        let (entry, op) = if t == 2 {
            (
                ResourceEntry {
                    kind: ResourceKind::Texture2D,
                    native: n,
                    width: c.width,
                    height: c.height,
                    format: c.format,
                    size: 0,
                    bind_flags: c.bind_flags,
                    has_srv: c.bind_flags & BIND_SHADER_RESOURCE != 0,
                    has_rtv: c.bind_flags & BIND_RENDER_TARGET != 0,
                },
                NativeOp::CreateTexture2D {
                    native: n,
                    width: c.width,
                    height: c.height,
                    format: c.format,
                    bind_flags: c.bind_flags,
                    initial,
                    row_pitch: c.width * 4,
                },
            )
        } else if t == 4 {
            (
                ResourceEntry {
                    kind: ResourceKind::Buffer,
                    native: n,
                    width: 0,
                    height: 0,
                    format: 0,
                    size: c.width,
                    bind_flags: c.bind_flags,
                    has_srv: false,
                    has_rtv: false,
                },
                NativeOp::CreateBuffer { native: n, size: c.width, bind_flags: c.bind_flags, initial },
            )
        } else {
            let stage = if t == 5 {
                ShaderStage::Vertex
            } else if t == 6 {
                ShaderStage::Pixel
            } else if t == 7 {
                ShaderStage::Geometry
            } else if t == 8 {
                ShaderStage::Hull
            } else if t == 9 {
                ShaderStage::Domain
            } else {
                ShaderStage::Compute
            };
            let bytecode = HeapRange { offset: c.heap_offset, len: c.data_size };
            (
                ResourceEntry {
                    kind: shader_kind_of(stage),
                    native: n,
                    width: 0,
                    height: 0,
                    format: 0,
                    size: 0,
                    bind_flags: 0,
                    has_srv: false,
                    has_rtv: false,
                },
                NativeOp::CreateShader { native: n, stage, bytecode },
            )
        };
        self.table.insert(id, entry);
        self.undo = Some(Undo::Created { id });
        ops.push(op);
        Ok(None)
    }

    /// Frees `id`; when no other id holds its native object, asks for it to be released.
    fn handle_destroy(&mut self, id: u32, ops: &mut Vec<NativeOp>) -> (r: Result<
        Option<ReplayWarning>,
        ReplayError,
    >)
        requires
            old(self).wf(),
        ensures
            final(self).wf(),
            final(self)@ == (ProcessorView {
                resources: old(self)@.resources.remove(id),
                ..old(self)@
            }),
            final(ops)@ == old(ops)@ + release_ops(old(self)@.resources, id),
            r == Ok::<Option<ReplayWarning>, ReplayError>(
                if old(self)@.resources.contains_key(id) {
                    None
                } else {
                    Some(ReplayWarning::ResourceNotFound(id))
                },
            ),
    {
        match self.table.get(id) {
            Some(e) => {
                let held = self.table.is_native_held(e.native, id);
                self.table.remove(id);
                if !held {
                    ops.push(NativeOp::Release { native: e.native });
                    assert(ops@ =~= old(ops)@ + release_ops(old(self)@.resources, id));
                } else {
                    assert(ops@ =~= old(ops)@ + release_ops(old(self)@.resources, id));
                }
                Ok(None)
            },
            None => {
                self.table.remove(id);
                assert(ops@ =~= old(ops)@ + release_ops(old(self)@.resources, id));
                Ok(Some(ReplayWarning::ResourceNotFound(id)))
            },
        }
    }

    /// OPEN_RESOURCE: makes the new id an alias of a live texture or buffer;
    /// both ids then name the same native object.
    fn handle_open_resource(&mut self, c: CmdOpenResource) -> (r: Result<
        Option<ReplayWarning>,
        ReplayError,
    >)
        requires
            old(self).wf(),
        ensures
            final(self).wf(),
            ({
                let m = old(self)@.resources;
                let src = c.shared_handle;
                let new_id = c.header.resource_id;
                let fits = m.contains_key(src) && ((c.resource_type == 2 && m[src].kind
                    == ResourceKind::Texture2D) || (c.resource_type == 4 && m[src].kind
                    == ResourceKind::Buffer));
                if c.resource_type != 2 && c.resource_type != 4 {
                    r == Ok::<Option<ReplayWarning>, ReplayError>(
                        Some(ReplayWarning::UnknownResourceType(c.resource_type)),
                    ) && final(self)@ == old(self)@
                } else if !fits {
                    r == Ok::<Option<ReplayWarning>, ReplayError>(
                        Some(ReplayWarning::ResourceNotFound(src)),
                    ) && final(self)@ == old(self)@
                } else if new_id == 0 || m.contains_key(new_id) {
                    r == Err::<Option<ReplayWarning>, ReplayError>(
                        ReplayError::InvalidParameter(new_id),
                    ) && final(self)@ == old(self)@
                } else {
                    r == Ok::<Option<ReplayWarning>, ReplayError>(None) && final(self)@ == (
                    ProcessorView { resources: m.insert(new_id, m[src]), ..old(self)@ })
                }
            }),
    {
        let src = c.shared_handle;
        let new_id = c.header.resource_id;
        if c.resource_type != 2 && c.resource_type != 4 {
            return Ok(Some(ReplayWarning::UnknownResourceType(c.resource_type)));
        }
        let e = match self.table.get(src) {
            Some(e) => e,
            None => return Ok(Some(ReplayWarning::ResourceNotFound(src))),
        };
        let fits = (c.resource_type == 2 && e.kind == ResourceKind::Texture2D) || (c.resource_type
            == 4 && e.kind == ResourceKind::Buffer);
        if !fits {
            return Ok(Some(ReplayWarning::ResourceNotFound(src)));
        }
        if new_id == 0 || self.table.get(new_id).is_some() {
            return Err(ReplayError::InvalidParameter(new_id));
        }
        self.table.insert(new_id, e);
        Ok(None)
    }

    /// CREATE_SHADER: a shader of the given stage from heap bytecode.
    fn handle_create_shader(
        &mut self,
        c: CmdCreateShader,
        heap_len: usize,
        ops: &mut Vec<NativeOp>,
    ) -> (r: Result<Option<ReplayWarning>, ReplayError>)
        requires
            old(self).wf(),
            old(self)@.undo is None,
        ensures
            final(self).wf(),
            ({
                let m = old(self)@.resources;
                let id = c.shader_id;
                if c.bytecode_size == 0 {
                    r == Err::<Option<ReplayWarning>, ReplayError>(ReplayError::ShaderCompile(id))
                        && final(self)@ == old(self)@ && final(ops)@ == old(ops)@
                } else if !in_heap(c.bytecode_offset, c.bytecode_size, heap_len as nat) {
                    r == Err::<Option<ReplayWarning>, ReplayError>(ReplayError::HeapOutOfBounds)
                        && final(self)@ == old(self)@ && final(ops)@ == old(ops)@
                } else if c.shader_type > 5 {
                    r == Ok::<Option<ReplayWarning>, ReplayError>(
                        Some(ReplayWarning::UnknownShaderStage(c.shader_type)),
                    ) && final(self)@ == old(self)@ && final(ops)@ == old(ops)@
                } else if id == 0 || m.contains_key(id) {
                    r == Err::<Option<ReplayWarning>, ReplayError>(ReplayError::InvalidParameter(id))
                        && final(self)@ == old(self)@ && final(ops)@ == old(ops)@
                } else if old(self)@.next_native == u64::MAX {
                    r == Err::<Option<ReplayWarning>, ReplayError>(ReplayError::Internal)
                        && final(self)@ == old(self)@ && final(ops)@ == old(ops)@
                } else {
                    {
                            let stage = ShaderStage::from_code(c.shader_type);
                            let n = old(self)@.next_native;
                            &&& r == Ok::<Option<ReplayWarning>, ReplayError>(None)
                            &&& final(self)@ == (ProcessorView {
                                resources: m.insert(id, shader_entry(stage, n)),
                                next_native: (n + 1) as u64,
                                undo: Some(Undo::Created { id }),
                                ..old(self)@
                            })
                            &&& final(ops)@ == old(ops)@.push(
                                NativeOp::CreateShader {
                                    native: n,
                                    stage,
                                    bytecode: HeapRange {
                                        offset: c.bytecode_offset,
                                        len: c.bytecode_size,
                                    },
                                },
                            )
                        }
                }
            }),
    {
        let id = c.shader_id;
        if c.bytecode_size == 0 {
            return Err(ReplayError::ShaderCompile(id));
        }
        if c.bytecode_offset as u64 + c.bytecode_size as u64 > heap_len as u64 {
            return Err(ReplayError::HeapOutOfBounds);
        }
        let stage = match ShaderStage::from_u32(c.shader_type) {
            Some(s) => s,
            None => return Ok(Some(ReplayWarning::UnknownShaderStage(c.shader_type))),
        };
        if id == 0 || self.table.get(id).is_some() {
            return Err(ReplayError::InvalidParameter(id));
        }
        let n = match self.take_native() {
            Ok(n) => n,
            Err(e) => return Err(e),
        };
        let entry = ResourceEntry {
            kind: shader_kind_of(stage),
            native: n,
            width: 0,
            height: 0,
            format: 0,
            size: 0,
            bind_flags: 0,
            has_srv: false,
            has_rtv: false,
        };
        self.table.insert(id, entry);
        self.undo = Some(Undo::Created { id });
        ops.push(
            NativeOp::CreateShader {
                native: n,
                stage,
                bytecode: HeapRange { offset: c.bytecode_offset, len: c.bytecode_size },
            },
        );
        Ok(None)
    }
}

/// Why a map of `c` fails, if it does.
pub open spec fn map_error(v: ProcessorView, c: CmdMapResource, heap_len: nat) -> Option<
    ReplayError,
> {
    let m = v.resources;
    let id = c.resource_id;
    if !(1 <= c.map_type <= 5) {
        Some(ReplayError::InvalidParameter(id))
    } else if !copyable(m, id) {
        Some(ReplayError::ResourceNotFound(id))
    } else if map_index(v.maps, id, c.subresource) is Some {
        Some(ReplayError::InvalidParameter(id))
    } else if (c.map_type == 1 || c.map_type == 3) && !(if m[id].kind == ResourceKind::Buffer {
        in_heap(c.heap_offset, m[id].size, heap_len)
    } else {
        c.heap_offset as int <= heap_len
    }) {
        Some(ReplayError::HeapOutOfBounds)
    } else if v.next_native == u64::MAX {
        Some(ReplayError::Internal)
    } else {
        None
    }
}

impl CommandProcessor {
    /// MAP_RESOURCE: makes a staging copy of a texture or buffer and maps it;
    /// for reads the mapped bytes go to the heap at `heap_offset`.
    fn handle_map_resource(
        &mut self,
        c: CmdMapResource,
        heap_len: usize,
        ops: &mut Vec<NativeOp>,
    ) -> (r: Result<Option<ReplayWarning>, ReplayError>)
        requires
            old(self).wf(),
            old(self)@.undo is None,
        ensures
            final(self).wf(),
            match map_error(old(self)@, c, heap_len as nat) {
                Some(e) => r == Err::<Option<ReplayWarning>, ReplayError>(e) && final(self)@
                    == old(self)@ && final(ops)@ == old(ops)@,
                None => {
                    let n = old(self)@.next_native;
                    let src = old(self)@.resources[c.resource_id].native;
                    let reads = c.map_type == 1 || c.map_type == 3;
                    &&& r == Ok::<Option<ReplayWarning>, ReplayError>(None)
                    &&& final(self)@ == (ProcessorView {
                        maps: old(self)@.maps.push(
                            ActiveMap {
                                resource_id: c.resource_id,
                                subresource: c.subresource,
                                source: src,
                                staging: n,
                                writes: c.map_type != 1,
                                mapped_size: mapped_buffer_size(old(self)@.resources[c.resource_id]),
                            },
                        ),
                        next_native: (n + 1) as u64,
                        undo: Some(
                            Undo::Mapped { resource_id: c.resource_id, subresource: c.subresource },
                        ),
                        ..old(self)@
                    })
                    &&& final(ops)@.len() == old(ops)@.len() + 1
                    &&& final(ops)@.drop_last() == old(ops)@
                    &&& final(ops)@.last() matches NativeOp::MapStaging {
                        source,
                        staging,
                        subresource,
                        map_type,
                        read_into,
                    } && source == src && staging == n && subresource == c.subresource
                        && map_type.code() == c.map_type && read_into == if reads {
                        Some(c.heap_offset)
                    } else {
                        None
                    }
                },
            },
    {
        let id = c.resource_id;
        let map_type = match MapType::from_u32(c.map_type) {
            Some(m) => m,
            None => return Err(ReplayError::InvalidParameter(id)),
        };
        let e = match self.copyable_native(id) {
            Some(e) => e,
            None => return Err(ReplayError::ResourceNotFound(id)),
        };
        if self.find_map(id, c.subresource).is_some() {
            return Err(ReplayError::InvalidParameter(id));
        }
        let reads = map_type.reads();
        if reads {
            let fits = if e.kind == ResourceKind::Buffer {
                c.heap_offset as u64 + e.size as u64 <= heap_len as u64
            } else {
                c.heap_offset as u64 <= heap_len as u64
            };
            if !fits {
                return Err(ReplayError::HeapOutOfBounds);
            }
        }
        let n = match self.take_native() {
            Ok(n) => n,
            Err(e) => return Err(e),
        };
        let ghost before = self.active_maps@;
        self.active_maps.push(
            ActiveMap {
                resource_id: id,
                subresource: c.subresource,
                source: e.native,
                staging: n,
                writes: c.map_type != 1,
                mapped_size: if e.kind == ResourceKind::Buffer {
                    Some(e.size as u64)
                } else {
                    None
                },
            },
        );
        proof {
            assert forall|i: int, j: int|
                0 <= i < j < self.active_maps@.len() implies !(self.active_maps@[i].resource_id
                == self.active_maps@[j].resource_id && self.active_maps@[i].subresource
                == self.active_maps@[j].subresource) by {
                if j == before.len() {
                    assert(self.active_maps@[i] == before[i]);
                }
            }
        }
        self.undo = Some(Undo::Mapped { resource_id: id, subresource: c.subresource });
        let read_into = if reads {
            Some(c.heap_offset)
        } else {
            None
        };
        ops.push(
            NativeOp::MapStaging {
                source: e.native,
                staging: n,
                subresource: c.subresource,
                map_type,
                read_into,
            },
        );
        Ok(None)
    }

    /// UNMAP_RESOURCE: writes `data_size` heap bytes back into the mapping when
    /// nonzero, unmaps, and copies the staging object back into the resource.
    fn handle_unmap_resource(
        &mut self,
        c: CmdUnmapResource,
        heap_len: usize,
        ops: &mut Vec<NativeOp>,
    ) -> (r: Result<Option<ReplayWarning>, ReplayError>)
        requires
            old(self).wf(),
        ensures
            final(self).wf(),
            match map_index(old(self)@.maps, c.resource_id, c.subresource) {
                None => r == Ok::<Option<ReplayWarning>, ReplayError>(
                    Some(
                        ReplayWarning::NoActiveMap {
                            resource_id: c.resource_id,
                            subresource: c.subresource,
                        },
                    ),
                ) && final(self)@ == old(self)@ && final(ops)@ == old(ops)@,
                Some(i) => if c.data_size > 0 && !in_heap(
                    c.heap_offset,
                    c.data_size,
                    heap_len as nat,
                ) {
                    r == Err::<Option<ReplayWarning>, ReplayError>(ReplayError::HeapOutOfBounds)
                        && final(self)@ == old(self)@ && final(ops)@ == old(ops)@
                } else if unmap_too_long(old(self)@.maps[i], c) {
                    r == Err::<Option<ReplayWarning>, ReplayError>(
                        ReplayError::InvalidParameter(c.resource_id),
                    ) && final(self)@ == old(self)@ && final(ops)@ == old(ops)@
                } else {
                    &&& r == Ok::<Option<ReplayWarning>, ReplayError>(None)
                    &&& final(self)@ == (ProcessorView {
                        maps: old(self)@.maps.remove(i),
                        ..old(self)@
                    })
                    &&& final(ops)@ == old(ops)@.push(unmap_op(old(self)@.maps[i], c))
                },
            },
    {
        let i = match self.find_map(c.resource_id, c.subresource) {
            Some(i) => i,
            None => {
                proof {
                    assert(map_index(old(self)@.maps, c.resource_id, c.subresource) is None);
                }
                return Ok(
                    Some(
                        ReplayWarning::NoActiveMap {
                            resource_id: c.resource_id,
                            subresource: c.subresource,
                        },
                    ),
                );
            },
        };
        proof {
            let k = map_index(old(self)@.maps, c.resource_id, c.subresource)->0;
            assert(k == i as int) by {
                if k != i as int {
                    if k < i as int {
                        assert(!(self.active_maps@[k].resource_id
                            == self.active_maps@[i as int].resource_id
                            && self.active_maps@[k].subresource
                            == self.active_maps@[i as int].subresource));
                    } else {
                        assert(!(self.active_maps@[i as int].resource_id
                            == self.active_maps@[k].resource_id
                            && self.active_maps@[i as int].subresource
                            == self.active_maps@[k].subresource));
                    }
                }
            }
        }
        if c.data_size > 0 && c.heap_offset as u64 + c.data_size as u64 > heap_len as u64 {
            return Err(ReplayError::HeapOutOfBounds);
        }
        let am = self.active_maps[i];
        let writes = c.data_size > 0 && am.writes;
        if writes {
            let fits = match am.mapped_size {
                Some(sz) => c.data_size as u64 <= sz,
                None => false,
            };
            if !fits {
                return Err(ReplayError::InvalidParameter(c.resource_id));
            }
        }
        let ghost before = self.active_maps@;
        self.active_maps.remove(i);
        proof {
            assert forall|a: int, b: int|
                0 <= a < b < self.active_maps@.len() implies !(self.active_maps@[a].resource_id
                == self.active_maps@[b].resource_id && self.active_maps@[a].subresource
                == self.active_maps@[b].subresource) by {
                let a0 = if a < i as int {
                    a
                } else {
                    a + 1
                };
                let b0 = if b < i as int {
                    b
                } else {
                    b + 1
                };
                assert(self.active_maps@[a] == before[a0]);
                assert(self.active_maps@[b] == before[b0]);
            }
        }
        let write_back = if writes {
            Some(HeapRange { offset: c.heap_offset, len: c.data_size })
        } else {
            None
        };
        let copy_to = if writes {
            Some(am.source)
        } else {
            None
        };
        ops.push(
            NativeOp::UnmapStaging {
                staging: am.staging,
                subresource: c.subresource,
                write_back,
                copy_to,
            },
        );
        Ok(None)
    }

    /// UPDATE_RESOURCE: heap bytes into a texture or buffer, into the given box
    /// when any of its sides is nonzero. The region must lie inside the
    /// resource's single subresource, and the heap range must hold every byte
    /// the device reads for it.
    fn handle_update_resource(
        &mut self,
        c: CmdUpdateResource,
        heap_len: usize,
        ops: &mut Vec<NativeOp>,
    ) -> (r: Result<Option<ReplayWarning>, ReplayError>)
        requires
            old(self).wf(),
        ensures
            final(self).wf(),
            final(self)@ == old(self)@,
            ({
                let m = old(self)@.resources;
                let id = c.resource_id;
                if !in_heap(c.heap_offset, c.data_size, heap_len as nat) {
                    r == Err::<Option<ReplayWarning>, ReplayError>(ReplayError::HeapOutOfBounds)
                        && final(ops)@ == old(ops)@
                } else if !copyable(m, id) {
                    r == Err::<Option<ReplayWarning>, ReplayError>(
                        ReplayError::ResourceNotFound(id),
                    ) && final(ops)@ == old(ops)@
                } else {
                    match update_error(m[id], c) {
                        Some(e) => r == Err::<Option<ReplayWarning>, ReplayError>(e) && final(ops)@
                            == old(ops)@,
                        None => r == Ok::<Option<ReplayWarning>, ReplayError>(None) && final(ops)@
                            == old(ops)@.push(update_op(m[id], c)),
                    }
                }
            }),
    {
        let id = c.resource_id;
        if c.heap_offset as u64 + c.data_size as u64 > heap_len as u64 {
            return Err(ReplayError::HeapOutOfBounds);
        }
        let e = match self.copyable_native(id) {
            Some(e) => e,
            None => return Err(ReplayError::ResourceNotFound(id)),
        };
        if c.subresource != 0 {
            return Err(ReplayError::InvalidParameter(id));
        }
        let is_buffer = e.kind == ResourceKind::Buffer;
        let boxed = c.width > 0 || c.height > 0 || c.depth > 0;
        let (lim_x, lim_y): (u64, u64) = if is_buffer {
            (e.size as u64, 1)
        } else {
            (e.width as u64, e.height as u64)
        };
        if boxed && !(c.width > 0 && c.height > 0 && c.depth > 0 && c.dst_x as u64 + c.width as u64
            <= lim_x && c.dst_y as u64 + c.height as u64 <= lim_y && c.dst_z as u64 + c.depth as u64
            <= 1) {
            return Err(ReplayError::InvalidParameter(id));
        }
        let fits = if is_buffer {
            let need: u64 = if boxed {
                c.width as u64
            } else {
                e.size as u64
            };
            c.data_size as u64 >= need
        } else {
            let bpp = bytes_per_pixel_of(e.format);
            if bpp == 0 {
                return Err(ReplayError::UnsupportedFormat(id));
            }
            let (w, h): (u32, u32) = if boxed {
                (c.width, c.height)
            } else {
                (e.width, e.height)
            };
            let row = mul_wide(w, bpp) as u128;
            if h == 0 {
                true
            } else {
                let need = mul_wide(h - 1, c.row_pitch) as u128 + row;
                (h <= 1 || c.row_pitch as u128 >= row) && c.data_size as u128 >= need
            }
        };
        if !fits {
            return Err(ReplayError::InvalidParameter(id));
        }
        let dst_box = if boxed {
            Some(
                UpdateBox {
                    left: c.dst_x,
                    top: c.dst_y,
                    front: c.dst_z,
                    right: c.dst_x + c.width,
                    bottom: c.dst_y + c.height,
                    back: c.dst_z + c.depth,
                },
            )
        } else {
            None
        };
        ops.push(
            NativeOp::UpdateSubresource {
                native: e.native,
                subresource: c.subresource,
                data: HeapRange { offset: c.heap_offset, len: c.data_size },
                dst_box,
                row_pitch: c.row_pitch,
                depth_pitch: c.depth_pitch,
            },
        );
        Ok(None)
    }

    /// COPY_RESOURCE between two textures or buffers.
    fn handle_copy_resource(&mut self, c: CmdCopyResource, ops: &mut Vec<NativeOp>) -> (r: Result<
        Option<ReplayWarning>,
        ReplayError,
    >)
        requires
            old(self).wf(),
        ensures
            final(self).wf(),
            final(self)@ == old(self)@,
            ({
                let m = old(self)@.resources;
                if !copyable(m, c.dst_resource_id) {
                    r == Ok::<Option<ReplayWarning>, ReplayError>(
                        Some(ReplayWarning::ResourceNotFound(c.dst_resource_id)),
                    ) && final(ops)@ == old(ops)@
                } else if !copyable(m, c.src_resource_id) {
                    r == Ok::<Option<ReplayWarning>, ReplayError>(
                        Some(ReplayWarning::ResourceNotFound(c.src_resource_id)),
                    ) && final(ops)@ == old(ops)@
                } else {
                    r == Ok::<Option<ReplayWarning>, ReplayError>(None) && final(ops)@
                        == old(ops)@.push(
                        NativeOp::CopyResource {
                            dst: m[c.dst_resource_id].native,
                            src: m[c.src_resource_id].native,
                        },
                    )
                }
            }),
    {
        let dst = match self.copyable_native(c.dst_resource_id) {
            Some(e) => e,
            None => return Ok(Some(ReplayWarning::ResourceNotFound(c.dst_resource_id))),
        };
        let src = match self.copyable_native(c.src_resource_id) {
            Some(e) => e,
            None => return Ok(Some(ReplayWarning::ResourceNotFound(c.src_resource_id))),
        };
        ops.push(NativeOp::CopyResource { dst: dst.native, src: src.native });
        Ok(None)
    }
}

impl CommandProcessor {
    /// Appends `make(b)` when `id` resolves to binding `b` in `class`; warns otherwise.
    fn bind_state(&self, id: u32, class: BindClass) -> (r: Result<Option<u64>, ReplayWarning>)
        ensures
            match resolve(self@.resources, id, class) {
                Some(b) => r == Ok::<Option<u64>, ReplayWarning>(b),
                None => r == Err::<Option<u64>, ReplayWarning>(ReplayWarning::ResourceNotFound(id)),
            },
    {
        match self.resolve_id(id, class) {
            Some(b) => Ok(b),
            None => Err(ReplayWarning::ResourceNotFound(id)),
        }
    }

    /// SET_RENDER_TARGET: binds the render targets and the depth-stencil view
    /// together; a bad id leaves the binding as it was.
    fn handle_set_render_target(&mut self, c: CmdSetRenderTarget, ops: &mut Vec<NativeOp>) -> (r:
        Result<Option<ReplayWarning>, ReplayError>)
        requires
            old(self).wf(),
        ensures
            final(self).wf(),
            final(self)@ == old(self)@,
            c.num_rtvs > 8 ==> r == Err::<Option<ReplayWarning>, ReplayError>(
                ReplayError::InvalidParameter(0),
            ) && final(ops)@ == old(ops)@,
            c.num_rtvs <= 8 ==> {
                let m = old(self)@.resources;
                let n = c.num_rtvs as int;
                let all_ok = forall|i: int|
                    0 <= i < n ==> resolve(m, #[trigger] c.rtv_ids@[i], BindClass::RenderTarget)
                        is Some;
                let dsv = resolve(m, c.dsv_id, BindClass::Kind(ResourceKind::DepthStencilView));
                if all_ok && dsv is Some {
                    &&& r == Ok::<Option<ReplayWarning>, ReplayError>(None)
                    &&& final(ops)@.len() == old(ops)@.len() + 1
                    &&& final(ops)@.drop_last() == old(ops)@
                    &&& final(ops)@.last() matches NativeOp::SetRenderTargets { rtvs, dsv: d } && d
                        == dsv->0 && rtvs@.len() == n && forall|i: int|
                        0 <= i < n ==> #[trigger] rtvs@[i] == resolve(
                            m,
                            c.rtv_ids@[i],
                            BindClass::RenderTarget,
                        )->0
                } else {
                    r matches Ok(Some(ReplayWarning::ResourceNotFound(_))) && final(ops)@ == old(
                    ops)@
                }
            },
    {
        if c.num_rtvs > 8 {
            return Err(ReplayError::InvalidParameter(0));
        }
        let n = c.num_rtvs as usize;
        let mut rtvs: Vec<Option<u64>> = Vec::new();
        let mut i: usize = 0;
        while i < n
            invariant
                n == c.num_rtvs as usize,
                n <= 8,
                i <= n,
                self.wf(),
                final(self)@ == old(self)@,
                ops@ == old(ops)@,
                rtvs@.len() == i,
                forall|j: int|
                    0 <= j < i ==> resolve(
                        self@.resources,
                        #[trigger] c.rtv_ids@[j],
                        BindClass::RenderTarget,
                    ) is Some,
                forall|j: int|
                    0 <= j < i ==> #[trigger] rtvs@[j] == resolve(
                        self@.resources,
                        c.rtv_ids@[j],
                        BindClass::RenderTarget,
                    )->0,
            decreases n - i,
        {
            let id = c.rtv_ids[i];
            match self.bind_state(id, BindClass::RenderTarget) {
                Ok(b) => rtvs.push(b),
                Err(w) => return Ok(Some(w)),
            }
            i += 1;
        }
        let dsv = match self.bind_state(c.dsv_id, BindClass::Kind(ResourceKind::DepthStencilView)) {
            Ok(b) => b,
            Err(w) => return Ok(Some(w)),
        };
        ops.push(NativeOp::SetRenderTargets { rtvs, dsv });
        Ok(None)
    }

    /// SET_VIEWPORT: the first `num_viewports` viewports.
    fn handle_set_viewport(&mut self, c: CmdSetViewport, ops: &mut Vec<NativeOp>) -> (r: Result<
        Option<ReplayWarning>,
        ReplayError,
    >)
        requires
            old(self).wf(),
        ensures
            final(self).wf(),
            final(self)@ == old(self)@,
            c.num_viewports > 16 ==> r == Err::<Option<ReplayWarning>, ReplayError>(
                ReplayError::InvalidParameter(0),
            ) && final(ops)@ == old(ops)@,
            c.num_viewports <= 16 ==> {
                &&& r == Ok::<Option<ReplayWarning>, ReplayError>(None)
                &&& final(ops)@.len() == old(ops)@.len() + 1
                &&& final(ops)@.drop_last() == old(ops)@
                &&& final(ops)@.last() matches NativeOp::SetViewports { viewports } && viewports@
                    == c.viewports@.subrange(0, c.num_viewports as int)
            },
    {
        if c.num_viewports > 16 {
            return Err(ReplayError::InvalidParameter(0));
        }
        let n = c.num_viewports as usize;
        let mut viewports: Vec<Viewport> = Vec::new();
        let mut i: usize = 0;
        while i < n
            invariant
                n == c.num_viewports as usize,
                n <= 16,
                i <= n,
                viewports@ == c.viewports@.subrange(0, i as int),
            decreases n - i,
        {
            viewports.push(c.viewports[i]);
            i += 1;
        }
        ops.push(NativeOp::SetViewports { viewports });
        Ok(None)
    }

    /// SET_SCISSOR: the first `num_rects` rectangles.
    fn handle_set_scissor(&mut self, c: CmdSetScissor, ops: &mut Vec<NativeOp>) -> (r: Result<
        Option<ReplayWarning>,
        ReplayError,
    >)
        requires
            old(self).wf(),
        ensures
            final(self).wf(),
            final(self)@ == old(self)@,
            c.num_rects > 16 ==> r == Err::<Option<ReplayWarning>, ReplayError>(
                ReplayError::InvalidParameter(0),
            ) && final(ops)@ == old(ops)@,
            c.num_rects <= 16 ==> {
                &&& r == Ok::<Option<ReplayWarning>, ReplayError>(None)
                &&& final(ops)@.len() == old(ops)@.len() + 1
                &&& final(ops)@.drop_last() == old(ops)@
                &&& final(ops)@.last() matches NativeOp::SetScissorRects { rects } && rects@
                    == c.rects@.subrange(0, c.num_rects as int)
            },
    {
        if c.num_rects > 16 {
            return Err(ReplayError::InvalidParameter(0));
        }
        let n = c.num_rects as usize;
        let mut rects: Vec<ScissorRect> = Vec::new();
        let mut i: usize = 0;
        while i < n
            invariant
                n == c.num_rects as usize,
                n <= 16,
                i <= n,
                rects@ == c.rects@.subrange(0, i as int),
            decreases n - i,
        {
            rects.push(c.rects[i]);
            i += 1;
        }
        ops.push(NativeOp::SetScissorRects { rects });
        Ok(None)
    }

    /// SET_SAMPLER: binds up to 16 samplers; slots whose id does not resolve are skipped.
    fn handle_set_samplers(&mut self, c: CmdSetSamplers, ops: &mut Vec<NativeOp>) -> (r: Result<
        Option<ReplayWarning>,
        ReplayError,
    >)
        requires
            old(self).wf(),
        ensures
            final(self).wf(),
            final(self)@ == old(self)@,
            ({
                let n = if c.num_samplers <= 16 {
                    c.num_samplers as nat
                } else {
                    16nat
                };
                if c.stage > 5 {
                    r == Ok::<Option<ReplayWarning>, ReplayError>(
                        Some(ReplayWarning::UnknownShaderStage(c.stage)),
                    ) && final(ops)@ == old(ops)@
                } else if c.start_slot as int + n > u32::MAX {
                    r == Err::<Option<ReplayWarning>, ReplayError>(ReplayError::InvalidParameter(0))
                        && final(ops)@ == old(ops)@
                } else {
                    r is Ok && final(ops)@ == old(ops)@
                            + sampler_ops(
                            old(self)@.resources,
                            ShaderStage::from_code(c.stage),
                            c.start_slot,
                            c.sampler_ids@,
                            n,
                        )
                }
            }),
    {
        let stage = match ShaderStage::from_u32(c.stage) {
            Some(s) => s,
            None => return Ok(Some(ReplayWarning::UnknownShaderStage(c.stage))),
        };
        let n: usize = if c.num_samplers <= 16 {
            c.num_samplers as usize
        } else {
            16
        };
        if c.start_slot as u64 + n as u64 > u32::MAX as u64 {
            return Err(ReplayError::InvalidParameter(0));
        }
        let mut warning: Option<ReplayWarning> = None;
        let mut i: usize = 0;
        while i < n
            invariant
                n <= 16,
                i <= n,
                c.start_slot as int + n <= u32::MAX,
                final(self)@ == old(self)@,
                ops@ == old(ops)@ + sampler_ops(
                    self@.resources,
                    stage,
                    c.start_slot,
                    c.sampler_ids@,
                    i as nat,
                ),
            decreases n - i,
        {
            let id = c.sampler_ids[i];
            match self.bind_state(id, BindClass::Kind(ResourceKind::SamplerState)) {
                Ok(b) => {
                    ops.push(NativeOp::SetSampler { stage, slot: c.start_slot + i as u32, sampler: b });
                },
                Err(w) => {
                    warning = Some(w);
                },
            }
            assert(ops@ =~= old(ops)@ + sampler_ops(
                self@.resources,
                stage,
                c.start_slot,
                c.sampler_ids@,
                (i + 1) as nat,
            ));
            i += 1;
        }
        Ok(warning)
    }

    /// SET_SHADER_RESOURCE: binds up to 128 views; slots whose id does not resolve are skipped.
    fn handle_set_shader_resources(
        &mut self,
        c: CmdSetShaderResources,
        ops: &mut Vec<NativeOp>,
    ) -> (r: Result<Option<ReplayWarning>, ReplayError>)
        requires
            old(self).wf(),
        ensures
            final(self).wf(),
            final(self)@ == old(self)@,
            ({
                let n = if c.num_views <= 128 {
                    c.num_views as nat
                } else {
                    128nat
                };
                if c.stage > 5 {
                    r == Ok::<Option<ReplayWarning>, ReplayError>(
                        Some(ReplayWarning::UnknownShaderStage(c.stage)),
                    ) && final(ops)@ == old(ops)@
                } else if c.start_slot as int + n > u32::MAX {
                    r == Err::<Option<ReplayWarning>, ReplayError>(ReplayError::InvalidParameter(0))
                        && final(ops)@ == old(ops)@
                } else {
                    r is Ok && final(ops)@ == old(ops)@ + view_ops(
                            old(self)@.resources,
                            ShaderStage::from_code(c.stage),
                            c.start_slot,
                            c.view_ids@,
                            n,
                        )
                }
            }),
    {
        let stage = match ShaderStage::from_u32(c.stage) {
            Some(s) => s,
            None => return Ok(Some(ReplayWarning::UnknownShaderStage(c.stage))),
        };
        let n: usize = if c.num_views <= 128 {
            c.num_views as usize
        } else {
            128
        };
        if c.start_slot as u64 + n as u64 > u32::MAX as u64 {
            return Err(ReplayError::InvalidParameter(0));
        }
        let mut warning: Option<ReplayWarning> = None;
        let mut i: usize = 0;
        while i < n
            invariant
                n <= 128,
                i <= n,
                c.start_slot as int + n <= u32::MAX,
                final(self)@ == old(self)@,
                ops@ == old(ops)@ + view_ops(self@.resources, stage, c.start_slot, c.view_ids@, i as nat),
            decreases n - i,
        {
            let id = c.view_ids[i];
            match self.bind_state(id, BindClass::ShaderResource) {
                Ok(b) => {
                    ops.push(NativeOp::SetShaderResource { stage, slot: c.start_slot + i as u32, view: b });
                },
                Err(w) => {
                    warning = Some(w);
                },
            }
            assert(ops@ =~= old(ops)@ + view_ops(
                self@.resources,
                stage,
                c.start_slot,
                c.view_ids@,
                (i + 1) as nat,
            ));
            i += 1;
        }
        Ok(warning)
    }

    /// SET_VERTEX_BUFFER: binds up to 16 buffers to consecutive slots; slots
    /// whose id does not resolve are skipped.
    fn handle_set_vertex_buffers(&mut self, c: CmdSetVertexBuffer, ops: &mut Vec<NativeOp>) -> (r:
        Result<Option<ReplayWarning>, ReplayError>)
        requires
            old(self).wf(),
        ensures
            final(self).wf(),
            final(self)@ == old(self)@,
            ({
                let n = if c.num_buffers <= 16 {
                    c.num_buffers as nat
                } else {
                    16nat
                };
                if c.start_slot as int + n > u32::MAX {
                    r == Err::<Option<ReplayWarning>, ReplayError>(ReplayError::InvalidParameter(0))
                        && final(ops)@ == old(ops)@
                } else {
                    r is Ok && final(ops)@ == old(ops)@ + vertex_buffer_ops(
                        old(self)@.resources,
                        c.start_slot,
                        c.buffers@,
                        n,
                    )
                }
            }),
    {
        let n: usize = if c.num_buffers <= 16 {
            c.num_buffers as usize
        } else {
            16
        };
        if c.start_slot as u64 + n as u64 > u32::MAX as u64 {
            return Err(ReplayError::InvalidParameter(0));
        }
        let mut warning: Option<ReplayWarning> = None;
        let mut i: usize = 0;
        while i < n
            invariant
                n <= 16,
                i <= n,
                c.start_slot as int + n <= u32::MAX,
                final(self)@ == old(self)@,
                ops@ == old(ops)@ + vertex_buffer_ops(self@.resources, c.start_slot, c.buffers@, i as nat),
            decreases n - i,
        {
            let b = c.buffers[i];
            match self.bind_state(b.buffer_id, BindClass::Kind(ResourceKind::Buffer)) {
                Ok(buf) => {
                    ops.push(
                        NativeOp::SetVertexBuffer {
                            slot: c.start_slot + i as u32,
                            buffer: buf,
                            stride: b.stride,
                            offset: b.offset,
                        },
                    );
                },
                Err(w) => {
                    warning = Some(w);
                },
            }
            assert(ops@ =~= old(ops)@ + vertex_buffer_ops(
                self@.resources,
                c.start_slot,
                c.buffers@,
                (i + 1) as nat,
            ));
            i += 1;
        }
        Ok(warning)
    }

    /// SET_SHADER: binds a shader of the stage's kind, or unbinds with id 0.
    fn handle_set_shader(&mut self, c: CmdSetShader, ops: &mut Vec<NativeOp>) -> (r: Result<
        Option<ReplayWarning>,
        ReplayError,
    >)
        requires
            old(self).wf(),
        ensures
            final(self).wf(),
            final(self)@ == old(self)@,
            c.stage > 5 ==> r == Ok::<Option<ReplayWarning>, ReplayError>(
                Some(ReplayWarning::UnknownShaderStage(c.stage)),
            ) && final(ops)@ == old(ops)@,
            c.stage <= 5 ==> ({
                let stage = ShaderStage::from_code(c.stage);
                match resolve(
                    old(self)@.resources,
                    c.shader_id,
                    BindClass::Kind(shader_kind(stage)),
                ) {
                    Some(b) => r == Ok::<Option<ReplayWarning>, ReplayError>(None) && final(ops)@
                        == old(ops)@.push(NativeOp::SetShader { stage, shader: b }),
                    None => r == Ok::<Option<ReplayWarning>, ReplayError>(
                        Some(ReplayWarning::ResourceNotFound(c.shader_id)),
                    ) && final(ops)@ == old(ops)@,
                }
            }),
    {
        let stage = match ShaderStage::from_u32(c.stage) {
            Some(s) => s,
            None => return Ok(Some(ReplayWarning::UnknownShaderStage(c.stage))),
        };
        match self.bind_state(c.shader_id, BindClass::Kind(shader_kind_of(stage))) {
            Ok(b) => {
                ops.push(NativeOp::SetShader { stage, shader: b });
                Ok(None)
            },
            Err(w) => Ok(Some(w)),
        }
    }

    /// SET_CONSTANT_BUFFER for one slot of a stage.
    fn handle_set_constant_buffer(&mut self, c: CmdSetConstantBuffer, ops: &mut Vec<NativeOp>) -> (r:
        Result<Option<ReplayWarning>, ReplayError>)
        requires
            old(self).wf(),
        ensures
            final(self).wf(),
            final(self)@ == old(self)@,
            c.stage > 5 ==> r == Ok::<Option<ReplayWarning>, ReplayError>(
                Some(ReplayWarning::UnknownShaderStage(c.stage)),
            ) && final(ops)@ == old(ops)@,
            c.stage <= 5 ==> ({
                let stage = ShaderStage::from_code(c.stage);
                match resolve(
                    old(self)@.resources,
                    c.buffer_id,
                    BindClass::Kind(ResourceKind::Buffer),
                ) {
                    Some(b) => r == Ok::<Option<ReplayWarning>, ReplayError>(None) && final(ops)@
                        == old(ops)@.push(
                        NativeOp::SetConstantBuffer { stage, slot: c.slot, buffer: b },
                    ),
                    None => r == Ok::<Option<ReplayWarning>, ReplayError>(
                        Some(ReplayWarning::ResourceNotFound(c.buffer_id)),
                    ) && final(ops)@ == old(ops)@,
                }
            }),
    {
        let stage = match ShaderStage::from_u32(c.stage) {
            Some(s) => s,
            None => return Ok(Some(ReplayWarning::UnknownShaderStage(c.stage))),
        };
        match self.bind_state(c.buffer_id, BindClass::Kind(ResourceKind::Buffer)) {
            Ok(b) => {
                ops.push(NativeOp::SetConstantBuffer { stage, slot: c.slot, buffer: b });
                Ok(None)
            },
            Err(w) => Ok(Some(w)),
        }
    }

    /// CLEAR_RENDER_TARGET on a render-target view, or a texture that has one.
    fn handle_clear_render_target(&mut self, c: CmdClearRenderTarget, ops: &mut Vec<NativeOp>) -> (r:
        Result<Option<ReplayWarning>, ReplayError>)
        requires
            old(self).wf(),
        ensures
            final(self).wf(),
            final(self)@ == old(self)@,
            match resolve(old(self)@.resources, c.rtv_id, BindClass::RenderTarget) {
                Some(Some(t)) => r == Ok::<Option<ReplayWarning>, ReplayError>(None) && final(ops)@
                    == old(ops)@.push(NativeOp::ClearRenderTarget { target: t, color: c.color }),
                _ => r == Ok::<Option<ReplayWarning>, ReplayError>(
                    Some(ReplayWarning::ResourceNotFound(c.rtv_id)),
                ) && final(ops)@ == old(ops)@,
            },
    {
        match self.resolve_id(c.rtv_id, BindClass::RenderTarget) {
            Some(Some(t)) => {
                ops.push(NativeOp::ClearRenderTarget { target: t, color: c.color });
                Ok(None)
            },
            _ => Ok(Some(ReplayWarning::ResourceNotFound(c.rtv_id))),
        }
    }

    /// CLEAR_DEPTH_STENCIL on a depth-stencil view.
    fn handle_clear_depth_stencil(&mut self, c: CmdClearDepthStencil, ops: &mut Vec<NativeOp>) -> (r:
        Result<Option<ReplayWarning>, ReplayError>)
        requires
            old(self).wf(),
        ensures
            final(self).wf(),
            final(self)@ == old(self)@,
            match resolve(
                old(self)@.resources,
                c.dsv_id,
                BindClass::Kind(ResourceKind::DepthStencilView),
            ) {
                Some(Some(t)) => r == Ok::<Option<ReplayWarning>, ReplayError>(None) && final(ops)@
                    == old(ops)@.push(
                    NativeOp::ClearDepthStencil {
                        target: t,
                        clear_flags: c.clear_flags,
                        depth: c.depth,
                        stencil: c.stencil,
                    },
                ),
                _ => r == Ok::<Option<ReplayWarning>, ReplayError>(
                    Some(ReplayWarning::ResourceNotFound(c.dsv_id)),
                ) && final(ops)@ == old(ops)@,
            },
    {
        match self.resolve_id(c.dsv_id, BindClass::Kind(ResourceKind::DepthStencilView)) {
            Some(Some(t)) => {
                ops.push(
                    NativeOp::ClearDepthStencil {
                        target: t,
                        clear_flags: c.clear_flags,
                        depth: c.depth,
                        stencil: c.stencil,
                    },
                );
                Ok(None)
            },
            _ => Ok(Some(ReplayWarning::ResourceNotFound(c.dsv_id))),
        }
    }
}

pub open spec fn is_shader_kind(k: ResourceKind) -> bool {
    k == ResourceKind::VertexShader || k == ResourceKind::PixelShader || k
        == ResourceKind::GeometryShader || k == ResourceKind::HullShader || k
        == ResourceKind::DomainShader || k == ResourceKind::ComputeShader
}

/// The error a failed native creation is reported as: out-of-memory from its
/// result code, a shader-build failure for shaders, anything else internal.
pub open spec fn creation_error(hresult: u32, kind: Option<ResourceKind>, id: u32) -> ReplayError {
    if hresult == E_OUTOFMEMORY {
        ReplayError::OutOfMemory
    } else if kind matches Some(k) && is_shader_kind(k) {
        ReplayError::ShaderCompile(id)
    } else {
        ReplayError::Internal
    }
}

impl CommandProcessor {
    fn count_command(&mut self, op: u32)
        ensures
            final(self)@ == (ProcessorView { stats: stats_after(old(self)@.stats, op), ..old(self)@ }),
            final(self).wf() == old(self).wf(),
    {
        self.stats.commands_processed = bump(self.stats.commands_processed);
        if op == PVGPU_CMD_CREATE_RESOURCE {
            self.stats.resources_created = bump(self.stats.resources_created);
        } else if op == PVGPU_CMD_DESTROY_RESOURCE {
            self.stats.resources_destroyed = bump(self.stats.resources_destroyed);
        } else if 0x201 <= op && op <= 0x205 {
            self.stats.draw_calls = bump(self.stats.draw_calls);
        } else if op == PVGPU_CMD_PRESENT {
            self.stats.presents = bump(self.stats.presents);
        }
    }

    fn remove_map(&mut self, i: usize) -> (r: ActiveMap)
        requires
            old(self).wf(),
            i < old(self)@.maps.len(),
        ensures
            final(self).wf(),
            r == old(self)@.maps[i as int],
            final(self)@ == (ProcessorView { maps: old(self)@.maps.remove(i as int), ..old(self)@ }),
    {
        let ghost before = self.active_maps@;
        let r = self.active_maps.remove(i);
        proof {
            assert forall|a: int, b: int|
                0 <= a < b < self.active_maps@.len() implies !(self.active_maps@[a].resource_id
                == self.active_maps@[b].resource_id && self.active_maps@[a].subresource
                == self.active_maps@[b].subresource) by {
                let a0 = if a < i as int {
                    a
                } else {
                    a + 1
                };
                let b0 = if b < i as int {
                    b
                } else {
                    b + 1
                };
                assert(self.active_maps@[a] == before[a0]);
                assert(self.active_maps@[b] == before[b0]);
            }
        }
        r
    }

    /// Reports that the native calls of the last command failed with result
    /// code `hresult`. What that command did to the table or the maps is taken
    /// back, and the failure is classified for the guest.
    pub fn native_failed(&mut self, hresult: u32) -> (r: ReplayError)
        requires
            old(self).wf(),
        ensures
            final(self).wf(),
            final(self)@.undo is None,
            final(self)@.stats == (CommandProcessorStats {
                errors: bumped(old(self)@.stats.errors),
                ..old(self)@.stats
            }),
            final(self)@.current_fence == old(self)@.current_fence,
            final(self)@.pending_present == old(self)@.pending_present,
            final(self)@.pending_resize == old(self)@.pending_resize,
            final(self)@.next_native == old(self)@.next_native,
            match old(self)@.undo {
                Some(Undo::Created { id }) => {
                    let m = old(self)@.resources;
                    &&& final(self)@.resources == m.remove(id)
                    &&& final(self)@.maps == old(self)@.maps
                    &&& r == creation_error(
                        hresult,
                        if m.contains_key(id) {
                            Some(m[id].kind)
                        } else {
                            None
                        },
                        id,
                    )
                },
                Some(Undo::Mapped { resource_id, subresource }) => {
                    &&& final(self)@.resources == old(self)@.resources
                    &&& final(self)@.maps == match map_index(
                        old(self)@.maps,
                        resource_id,
                        subresource,
                    ) {
                        Some(i) => old(self)@.maps.remove(i),
                        None => old(self)@.maps,
                    }
                    &&& r == creation_error(hresult, None, resource_id)
                },
                None => {
                    &&& final(self)@.resources == old(self)@.resources
                    &&& final(self)@.maps == old(self)@.maps
                    &&& r == creation_error(hresult, None, 0)
                },
            },
    {
        let undo = self.undo;
        self.undo = None;
        self.stats.errors = bump(self.stats.errors);
        match undo {
            Some(Undo::Created { id }) => {
                let kind = match self.table.remove(id) {
                    Some(e) => Some(e.kind),
                    None => None,
                };
                if hresult == E_OUTOFMEMORY {
                    ReplayError::OutOfMemory
                } else {
                    match kind {
                        Some(k) => if k == ResourceKind::VertexShader || k == ResourceKind::PixelShader
                            || k == ResourceKind::GeometryShader || k == ResourceKind::HullShader
                            || k == ResourceKind::DomainShader || k == ResourceKind::ComputeShader {
                            ReplayError::ShaderCompile(id)
                        } else {
                            ReplayError::Internal
                        },
                        None => ReplayError::Internal,
                    }
                }
            },
            Some(Undo::Mapped { resource_id, subresource }) => {
                match self.find_map(resource_id, subresource) {
                    Some(i) => {
                        proof {
                            let k = map_index(self@.maps, resource_id, subresource)->0;
                            assert(k == i as int) by {
                                if k != i as int {
                                    if k < i as int {
                                        assert(!(self.active_maps@[k].resource_id
                                            == self.active_maps@[i as int].resource_id
                                            && self.active_maps@[k].subresource
                                            == self.active_maps@[i as int].subresource));
                                    } else {
                                        assert(!(self.active_maps@[i as int].resource_id
                                            == self.active_maps@[k].resource_id
                                            && self.active_maps@[i as int].subresource
                                            == self.active_maps@[k].subresource));
                                    }
                                }
                            }
                        }
                        self.remove_map(i);
                    },
                    None => {},
                }
                if hresult == E_OUTOFMEMORY {
                    ReplayError::OutOfMemory
                } else {
                    ReplayError::Internal
                }
            },
            None => if hresult == E_OUTOFMEMORY {
                ReplayError::OutOfMemory
            } else {
                ReplayError::Internal
            },
        }
    }

    /// Carries out one record: `data` starts with the record, `heap` is the
    /// shared heap. On success the result says how many bytes the record took
    /// and which native calls to make; the caller makes them in order and, if
    /// one fails, reports it through `native_failed`.
    #[verifier::rlimit(100)]
    pub fn process_command(&mut self, data: &[u8], heap: &[u8]) -> (r: Result<Replay, ReplayError>)
        requires
            old(self).wf(),
        ensures
            final(self).wf(),
            ({
                let hdr = CommandHeader::parse(data@);
                let size = hdr.command_size as int;
                let rec = data@.subrange(0, size);
                let op = hdr.command_type;
                let framed = data@.len() >= 16 && 16 <= size <= data@.len();
                let o = old(self)@;
                let f = final(self)@;
                &&& data@.len() < 16 ==> r == Err::<Replay, ReplayError>(
                    ReplayError::Framing(FramingError::RecordTooSmall),
                )
                &&& data@.len() >= 16 && size < 16 ==> r == Err::<Replay, ReplayError>(
                    ReplayError::Framing(FramingError::RecordTooSmall),
                )
                &&& data@.len() >= 16 && size >= 16 && size > data@.len() ==> r == Err::<
                    Replay,
                    ReplayError,
                >(ReplayError::Framing(FramingError::Truncated))
                &&& r is Err ==> f == (ProcessorView {
                    stats: CommandProcessorStats { errors: bumped(o.stats.errors), ..o.stats },
                    undo: None,
                    ..o
                })
                &&& r matches Ok(rep) ==> rep.consumed == size && f.stats == stats_after(
                    o.stats,
                    op,
                )
                &&& framed && !is_known_opcode(op) ==> (r matches Ok(rep) && rep.ops@.len() == 0
                    && rep.warning == Some(ReplayWarning::UnknownOpcode(op)) && f.same_but_stats(o))
                &&& framed && op == PVGPU_CMD_FLUSH ==> (r matches Ok(rep) && rep.ops@ == seq![
                    NativeOp::Flush,
                ] && rep.warning is None && f.same_but_stats(o))
                &&& framed && op == PVGPU_CMD_FENCE && size >= 24 ==> (r matches Ok(rep)
                    && rep.ops@.len() == 0 && f == (ProcessorView {
                    current_fence: CmdFence::parse(rec).fence_value,
                    stats: f.stats,
                    undo: None,
                    ..o
                }))
                &&& framed && op == PVGPU_CMD_PRESENT && size >= 32 ==> (r matches Ok(rep)
                    && rep.ops@ == seq![NativeOp::Flush] && f == (ProcessorView {
                    pending_present: Some(
                        (CmdPresent::parse(rec).backbuffer_id, CmdPresent::parse(rec).sync_interval),
                    ),
                    stats: f.stats,
                    undo: None,
                    ..o
                }))
                &&& framed && op == PVGPU_CMD_RESIZE_BUFFERS && size >= 48 ==> {
                    let c = CmdResizeBuffers::parse(rec);
                    r matches Ok(rep) && rep.ops@ == seq![NativeOp::Flush] && f == (ProcessorView {
                        pending_resize: if c.swapchain_id == 0 && c.width > 0 && c.height > 0 {
                            Some((c.width, c.height))
                        } else {
                            o.pending_resize
                        },
                        stats: f.stats,
                        undo: None,
                        ..o
                    })
                }
                &&& framed && op == PVGPU_CMD_DESTROY_RESOURCE ==> (r matches Ok(rep) && rep.ops@
                    == release_ops(o.resources, hdr.resource_id) && f == (ProcessorView {
                    resources: o.resources.remove(hdr.resource_id),
                    stats: f.stats,
                    undo: None,
                    ..o
                }))
                &&& framed && op == PVGPU_CMD_OPEN_RESOURCE && size >= 44 ==> {
                    let c = CmdOpenResource::parse(rec);
                    let m = o.resources;
                    let src = c.shared_handle;
                    let new_id = c.header.resource_id;
                    let fits = m.contains_key(src) && ((c.resource_type == 2 && m[src].kind
                        == ResourceKind::Texture2D) || (c.resource_type == 4 && m[src].kind
                        == ResourceKind::Buffer));
                    if c.resource_type != 2 && c.resource_type != 4 {
                        (r matches Ok(rep) && rep.ops@.len() == 0 && rep.warning == Some(
                            ReplayWarning::UnknownResourceType(c.resource_type),
                        ) && f.same_but_stats(o))
                    } else if !fits {
                        (r matches Ok(rep) && rep.ops@.len() == 0 && rep.warning == Some(
                            ReplayWarning::ResourceNotFound(src),
                        ) && f.same_but_stats(o))
                    } else if new_id == 0 || m.contains_key(new_id) {
                        r == Err::<Replay, ReplayError>(ReplayError::InvalidParameter(new_id))
                    } else {
                        (r matches Ok(rep) && rep.ops@.len() == 0 && rep.warning is None && f == (
                        ProcessorView {
                            resources: m.insert(new_id, m[src]),
                            stats: f.stats,
                            undo: None,
                            ..o
                        }))
                    }
                }
                &&& framed && op == PVGPU_CMD_DESTROY_SHADER && size >= 32 ==> {
                    let id = CmdDestroyShader::parse(rec).shader_id;
                    (r matches Ok(rep) && rep.ops@ == release_ops(o.resources, id) && f == (
                    ProcessorView {
                        resources: o.resources.remove(id),
                        stats: f.stats,
                        undo: None,
                        ..o
                    }))
                }
                &&& framed && op == PVGPU_CMD_CREATE_RESOURCE && size >= 64 && create_heap_bad(
                    CmdCreateResource::parse(rec),
                    heap@.len(),
                ) ==> r == Err::<Replay, ReplayError>(ReplayError::HeapOutOfBounds)
                &&& framed && op == PVGPU_CMD_CREATE_RESOURCE && size >= 64 && !create_heap_bad(
                    CmdCreateResource::parse(rec),
                    heap@.len(),
                ) && !create_handles(CmdCreateResource::parse(rec).resource_type) ==> (r matches Ok(
                    rep,
                ) && rep.ops@.len() == 0 && rep.warning == Some(
                    ReplayWarning::UnknownResourceType(CmdCreateResource::parse(rec).resource_type),
                ) && f.same_but_stats(o))
                &&& framed && op == PVGPU_CMD_CREATE_RESOURCE && size >= 64 && create_handles(
                    CmdCreateResource::parse(rec).resource_type,
                ) ==> {
                    let c = CmdCreateResource::parse(rec);
                    match create_error(o, c, heap@.len()) {
                        Some(e) => r == Err::<Replay, ReplayError>(e),
                        None => (r matches Ok(rep) && rep.ops@ == seq![create_op(c, o.next_native)]
                            && f == (ProcessorView {
                            resources: o.resources.insert(
                                c.header.resource_id,
                                created_entry(c, o.next_native),
                            ),
                            next_native: (o.next_native + 1) as u64,
                            undo: Some(Undo::Created { id: c.header.resource_id }),
                            stats: f.stats,
                            ..o
                        })),
                    }
                }
                &&& framed && is_state_opcode(op) ==> state_outcome(
                    o.resources,
                    op,
                    rec,
                    match r {
                        Ok(rep) => Ok(rep.warning),
                        Err(e) => Err(e),
                    },
                    match r {
                        Ok(rep) => rep.ops@,
                        Err(_) => Seq::empty(),
                    },
                )
                &&& framed && (is_state_opcode(op) || op == PVGPU_CMD_UPDATE_RESOURCE || (0x201
                    <= op <= 0x205)) ==> f == (ProcessorView {
                    stats: f.stats,
                    undo: None,
                    ..o
                })
                &&& framed && op == PVGPU_CMD_DRAW && size >= 32 ==> (r matches Ok(rep) && rep.ops@
                    == seq![
                    NativeOp::Draw {
                        vertex_count: CmdDraw::parse(rec).vertex_count,
                        start_vertex: CmdDraw::parse(rec).start_vertex,
                    },
                ])
                &&& framed && op == PVGPU_CMD_DRAW_INDEXED && size >= 32 ==> (r matches Ok(rep)
                    && rep.ops@ == seq![
                    NativeOp::DrawIndexed {
                        index_count: CmdDrawIndexed::parse(rec).index_count,
                        start_index: CmdDrawIndexed::parse(rec).start_index,
                        base_vertex: CmdDrawIndexed::parse(rec).base_vertex,
                    },
                ])
                &&& framed && op == PVGPU_CMD_DRAW_INSTANCED && size >= 32 ==> (r matches Ok(rep)
                    && rep.ops@ == seq![
                    NativeOp::DrawInstanced {
                        vertex_count: CmdDrawInstanced::parse(rec).vertex_count,
                        instance_count: CmdDrawInstanced::parse(rec).instance_count,
                        start_vertex: CmdDrawInstanced::parse(rec).start_vertex,
                        start_instance: CmdDrawInstanced::parse(rec).start_instance,
                    },
                ])
                &&& framed && op == PVGPU_CMD_DRAW_INDEXED_INSTANCED && size >= 48 ==> (r matches Ok(
                    rep,
                ) && rep.ops@ == seq![
                    NativeOp::DrawIndexedInstanced {
                        index_count: CmdDrawIndexedInstanced::parse(rec).index_count,
                        instance_count: CmdDrawIndexedInstanced::parse(rec).instance_count,
                        start_index: CmdDrawIndexedInstanced::parse(rec).start_index,
                        base_vertex: CmdDrawIndexedInstanced::parse(rec).base_vertex,
                        start_instance: CmdDrawIndexedInstanced::parse(rec).start_instance,
                    },
                ])
                &&& framed && op == PVGPU_CMD_DISPATCH && size >= 32 ==> (r matches Ok(rep)
                    && rep.ops@ == seq![
                    NativeOp::Dispatch {
                        x: CmdDispatch::parse(rec).thread_group_count_x,
                        y: CmdDispatch::parse(rec).thread_group_count_y,
                        z: CmdDispatch::parse(rec).thread_group_count_z,
                    },
                ])
                &&& framed && op == PVGPU_CMD_MAP_RESOURCE && size >= 48 ==> {
                    let c = CmdMapResource::parse(rec);
                    match map_error(o, c, heap@.len()) {
                        Some(e) => r == Err::<Replay, ReplayError>(e),
                        None => (r matches Ok(rep) && rep.ops@.len() == 1 && (rep.ops@[0] matches NativeOp::MapStaging {
                            source,
                            staging,
                            subresource,
                            map_type,
                            read_into,
                        } && source == o.resources[c.resource_id].native && staging == o.next_native
                            && subresource == c.subresource && map_type.code() == c.map_type
                            && read_into == if c.map_type == 1 || c.map_type == 3 {
                            Some(c.heap_offset)
                        } else {
                            None
                        }) && f.maps == o.maps.push(
                            ActiveMap {
                                resource_id: c.resource_id,
                                subresource: c.subresource,
                                source: o.resources[c.resource_id].native,
                                staging: o.next_native,
                                writes: c.map_type != 1,
                                mapped_size: mapped_buffer_size(o.resources[c.resource_id]),
                            },
                        ) && f.resources == o.resources && f.next_native == o.next_native + 1),
                    }
                }
                &&& framed && op == PVGPU_CMD_UNMAP_RESOURCE && size >= 32 ==> {
                    let c = CmdUnmapResource::parse(rec);
                    match map_index(o.maps, c.resource_id, c.subresource) {
                        None => (r matches Ok(rep) && rep.ops@.len() == 0 && f.same_but_stats(o)),
                        Some(i) => if c.data_size > 0 && !in_heap(
                            c.heap_offset,
                            c.data_size,
                            heap@.len(),
                        ) {
                            r == Err::<Replay, ReplayError>(ReplayError::HeapOutOfBounds)
                        } else if unmap_too_long(o.maps[i], c) {
                            r == Err::<Replay, ReplayError>(
                                ReplayError::InvalidParameter(c.resource_id),
                            )
                        } else {
                            (r matches Ok(rep) && rep.ops@ == seq![unmap_op(o.maps[i], c)]
                                && f.maps == o.maps.remove(i) && f.resources == o.resources)
                        },
                    }
                }
                &&& framed && op == PVGPU_CMD_UPDATE_RESOURCE && size >= 64 ==> {
                    let c = CmdUpdateResource::parse(rec);
                    &&& !in_heap(c.heap_offset, c.data_size, heap@.len()) ==> r == Err::<
                        Replay,
                        ReplayError,
                    >(ReplayError::HeapOutOfBounds)
                    &&& in_heap(c.heap_offset, c.data_size, heap@.len()) && !copyable(
                        o.resources,
                        c.resource_id,
                    ) ==> r == Err::<Replay, ReplayError>(
                        ReplayError::ResourceNotFound(c.resource_id),
                    )
                    &&& in_heap(c.heap_offset, c.data_size, heap@.len()) && copyable(
                        o.resources,
                        c.resource_id,
                    ) ==> match update_error(o.resources[c.resource_id], c) {
                        Some(e) => r == Err::<Replay, ReplayError>(e),
                        None => (r matches Ok(rep) && rep.ops@ == seq![
                            update_op(o.resources[c.resource_id], c),
                        ]),
                    }
                }
                &&& framed && op == PVGPU_CMD_CREATE_SHADER && size >= 32 ==> {
                    let c = CmdCreateShader::parse(rec);
                    let m = o.resources;
                    let id = c.shader_id;
                    if c.bytecode_size == 0 {
                        r == Err::<Replay, ReplayError>(ReplayError::ShaderCompile(id))
                    } else if !in_heap(c.bytecode_offset, c.bytecode_size, heap@.len()) {
                        r == Err::<Replay, ReplayError>(ReplayError::HeapOutOfBounds)
                    } else if c.shader_type > 5 {
                        (r matches Ok(rep) && rep.ops@.len() == 0 && rep.warning == Some(
                            ReplayWarning::UnknownShaderStage(c.shader_type),
                        ) && f.same_but_stats(o))
                    } else if id == 0 || m.contains_key(id) {
                        r == Err::<Replay, ReplayError>(ReplayError::InvalidParameter(id))
                    } else if o.next_native == u64::MAX {
                        r == Err::<Replay, ReplayError>(ReplayError::Internal)
                    } else {
                        let stage = ShaderStage::from_code(c.shader_type);
                        let n = o.next_native;
                        (r matches Ok(rep) && rep.warning is None && rep.ops@ == seq![
                            NativeOp::CreateShader {
                                native: n,
                                stage,
                                bytecode: HeapRange { offset: c.bytecode_offset, len: c.bytecode_size },
                            },
                        ] && f == (ProcessorView {
                            resources: m.insert(id, shader_entry(stage, n)),
                            next_native: (n + 1) as u64,
                            undo: Some(Undo::Created { id }),
                            stats: f.stats,
                            ..o
                        }))
                    }
                }
            }),
    {
        if data.len() < 16 {
            self.undo = None;
            self.stats.errors = bump(self.stats.errors);
            return Err(ReplayError::Framing(FramingError::RecordTooSmall));
        }
        let header = CommandHeader::read(data);
        let size = header.command_size as usize;
        if size < 16 {
            self.undo = None;
            self.stats.errors = bump(self.stats.errors);
            return Err(ReplayError::Framing(FramingError::RecordTooSmall));
        }
        if size > data.len() {
            self.undo = None;
            self.stats.errors = bump(self.stats.errors);
            return Err(ReplayError::Framing(FramingError::Truncated));
        }
        let rec = &data[0..size];
        assert(rec@ == data@.subrange(0, size as int));
        let heap_len = heap.len();
        let op = header.command_type;
        self.undo = None;
        let mut ops: Vec<NativeOp> = Vec::new();
        assert(ops@ =~= Seq::<NativeOp>::empty());
        let res: Result<Option<ReplayWarning>, ReplayError> = if op == PVGPU_CMD_CREATE_RESOURCE {
            match CmdCreateResource::decode(rec) {
                Some(c) => self.handle_create_resource(c, heap_len, &mut ops),
                None => Err(ReplayError::InvalidCommand),
            }
        } else if op == PVGPU_CMD_DESTROY_RESOURCE {
            self.handle_destroy(header.resource_id, &mut ops)
        } else if op == PVGPU_CMD_MAP_RESOURCE {
            match CmdMapResource::decode(rec) {
                Some(c) => self.handle_map_resource(c, heap_len, &mut ops),
                None => Err(ReplayError::InvalidCommand),
            }
        } else if op == PVGPU_CMD_UNMAP_RESOURCE {
            match CmdUnmapResource::decode(rec) {
                Some(c) => self.handle_unmap_resource(c, heap_len, &mut ops),
                None => Err(ReplayError::InvalidCommand),
            }
        } else if op == PVGPU_CMD_UPDATE_RESOURCE {
            match CmdUpdateResource::decode(rec) {
                Some(c) => self.handle_update_resource(c, heap_len, &mut ops),
                None => Err(ReplayError::InvalidCommand),
            }
        } else if op == PVGPU_CMD_OPEN_RESOURCE {
            match CmdOpenResource::decode(rec) {
                Some(c) => self.handle_open_resource(c),
                None => Err(ReplayError::InvalidCommand),
            }
        } else if op == PVGPU_CMD_CREATE_SHADER {
            match CmdCreateShader::decode(rec) {
                Some(c) => self.handle_create_shader(c, heap_len, &mut ops),
                None => Err(ReplayError::InvalidCommand),
            }
        } else if op == PVGPU_CMD_DESTROY_SHADER {
            match CmdDestroyShader::decode(rec) {
                Some(c) => self.handle_destroy(c.shader_id, &mut ops),
                None => Err(ReplayError::InvalidCommand),
            }
        } else if (0x101 <= op && op <= 0x10E) || op == PVGPU_CMD_COPY_RESOURCE || op
            == PVGPU_CMD_CLEAR_RENDER_TARGET || op == PVGPU_CMD_CLEAR_DEPTH_STENCIL || op
            == PVGPU_CMD_WAIT_FENCE {
            self.replay_state(op, rec, &mut ops)
        } else if op == PVGPU_CMD_DRAW {
            match CmdDraw::decode(rec) {
                Some(c) => {
                    ops.push(NativeOp::Draw { vertex_count: c.vertex_count, start_vertex: c.start_vertex });
                    Ok(None)
                },
                None => Err(ReplayError::InvalidCommand),
            }
        } else if op == PVGPU_CMD_DRAW_INDEXED {
            match CmdDrawIndexed::decode(rec) {
                Some(c) => {
                    ops.push(
                        NativeOp::DrawIndexed {
                            index_count: c.index_count,
                            start_index: c.start_index,
                            base_vertex: c.base_vertex,
                        },
                    );
                    Ok(None)
                },
                None => Err(ReplayError::InvalidCommand),
            }
        } else if op == PVGPU_CMD_DRAW_INSTANCED {
            match CmdDrawInstanced::decode(rec) {
                Some(c) => {
                    ops.push(
                        NativeOp::DrawInstanced {
                            vertex_count: c.vertex_count,
                            instance_count: c.instance_count,
                            start_vertex: c.start_vertex,
                            start_instance: c.start_instance,
                        },
                    );
                    Ok(None)
                },
                None => Err(ReplayError::InvalidCommand),
            }
        } else if op == PVGPU_CMD_DRAW_INDEXED_INSTANCED {
            match CmdDrawIndexedInstanced::decode(rec) {
                Some(c) => {
                    ops.push(
                        NativeOp::DrawIndexedInstanced {
                            index_count: c.index_count,
                            instance_count: c.instance_count,
                            start_index: c.start_index,
                            base_vertex: c.base_vertex,
                            start_instance: c.start_instance,
                        },
                    );
                    Ok(None)
                },
                None => Err(ReplayError::InvalidCommand),
            }
        } else if op == PVGPU_CMD_DISPATCH {
            match CmdDispatch::decode(rec) {
                Some(c) => {
                    ops.push(
                        NativeOp::Dispatch {
                            x: c.thread_group_count_x,
                            y: c.thread_group_count_y,
                            z: c.thread_group_count_z,
                        },
                    );
                    Ok(None)
                },
                None => Err(ReplayError::InvalidCommand),
            }
        } else if op == PVGPU_CMD_FENCE {
            match CmdFence::decode(rec) {
                Some(c) => {
                    self.current_fence = c.fence_value;
                    Ok(None)
                },
                None => Err(ReplayError::InvalidCommand),
            }
        } else if op == PVGPU_CMD_PRESENT {
            match CmdPresent::decode(rec) {
                Some(c) => {
                    self.pending_present = Some((c.backbuffer_id, c.sync_interval));
                    ops.push(NativeOp::Flush);
                    Ok(None)
                },
                None => Err(ReplayError::InvalidCommand),
            }
        } else if op == PVGPU_CMD_FLUSH {
            ops.push(NativeOp::Flush);
            Ok(None)
        } else if op == PVGPU_CMD_RESIZE_BUFFERS {
            match CmdResizeBuffers::decode(rec) {
                Some(c) => {
                    if c.swapchain_id == 0 && c.width > 0 && c.height > 0 {
                        self.pending_resize = Some((c.width, c.height));
                    }
                    ops.push(NativeOp::Flush);
                    Ok(None)
                },
                None => Err(ReplayError::InvalidCommand),
            }
        } else {
            Ok(Some(ReplayWarning::UnknownOpcode(op)))
        };
        match res {
            Ok(warning) => {
                self.count_command(op);
                Ok(Replay { consumed: size, ops, warning })
            },
            Err(e) => {
                self.stats.errors = bump(self.stats.errors);
                Err(e)
            },
        }
    }
}


/// Opcodes that only bind state, clear, copy or wait: they change nothing in
/// the engine but the native calls they ask for.
pub open spec fn is_state_opcode(op: u32) -> bool {
    (0x101 <= op <= 0x10E) || op == PVGPU_CMD_COPY_RESOURCE || op == PVGPU_CMD_CLEAR_RENDER_TARGET
        || op == PVGPU_CMD_CLEAR_DEPTH_STENCIL || op == PVGPU_CMD_WAIT_FENCE
}

/// No native call and the result `res`.
pub open spec fn no_ops(res: Result<Option<ReplayWarning>, ReplayError>, ops: Seq<NativeOp>, want: Result<Option<ReplayWarning>, ReplayError>) -> bool {
    res == want && ops.len() == 0
}

/// A single binding: when `id` resolves, one call `op`; otherwise a warning.
pub open spec fn bind_outcome(
    b: Option<Option<u64>>,
    id: u32,
    op: NativeOp,
    res: Result<Option<ReplayWarning>, ReplayError>,
    ops: Seq<NativeOp>,
) -> bool {
    match b {
        Some(_) => res == Ok::<Option<ReplayWarning>, ReplayError>(None) && ops == seq![op],
        None => no_ops(res, ops, Ok(Some(ReplayWarning::ResourceNotFound(id)))),
    }
}

/// The first `n` of the 16 sampler (or 128 view) ids of a record whose ids start at word `first`.
pub open spec fn id_words(s: Seq<u8>, first: int, count: nat) -> Seq<u32> {
    Seq::new(count, |i: int| word_at(s, first + i))
}

pub open spec fn binding_words(s: Seq<u8>) -> Seq<VertexBufferBinding> {
    Seq::new(16, |i: int| VertexBufferBinding::parse_at(s, 6 + 3 * i))
}

pub open spec fn min_nat(a: u32, b: nat) -> nat {
    if a as nat <= b {
        a as nat
    } else {
        b
    }
}

/// What a state, clear, copy or wait record `s` of opcode `op` does with
/// table `m`: the result `res` and the native calls `ops`.
pub open spec fn state_outcome(
    m: Map<u32, ResourceEntry>,
    op: u32,
    s: Seq<u8>,
    res: Result<Option<ReplayWarning>, ReplayError>,
    ops: Seq<NativeOp>,
) -> bool {
    let short = no_ops(res, ops, Err(ReplayError::InvalidCommand));
    if op == PVGPU_CMD_SET_RENDER_TARGET {
        if s.len() < 56 {
            short
        } else if word_at(s, 4) > 8 {
            no_ops(res, ops, Err(ReplayError::InvalidParameter(0)))
        } else {
            let n = word_at(s, 4) as int;
            let dsv = resolve(m, word_at(s, 5), BindClass::Kind(ResourceKind::DepthStencilView));
            if (forall|i: int| 0 <= i < n ==> resolve(m, #[trigger] word_at(s, 6 + i), BindClass::RenderTarget) is Some) && dsv is Some {
                &&& res == Ok::<Option<ReplayWarning>, ReplayError>(None)
                &&& ops.len() == 1
                &&& ops[0] matches NativeOp::SetRenderTargets { rtvs, dsv: d } && d == dsv->0
                    && rtvs@.len() == n && forall|i: int| 0 <= i < n ==> #[trigger] rtvs@[i]
                        == resolve(m, word_at(s, 6 + i), BindClass::RenderTarget)->0
            } else {
                res matches Ok(Some(ReplayWarning::ResourceNotFound(_))) && ops.len() == 0
            }
        }
    } else if op == PVGPU_CMD_SET_VIEWPORT {
        if s.len() < 404 {
            short
        } else if word_at(s, 4) > 16 {
            no_ops(res, ops, Err(ReplayError::InvalidParameter(0)))
        } else {
            &&& res == Ok::<Option<ReplayWarning>, ReplayError>(None)
            &&& ops.len() == 1
            &&& ops[0] matches NativeOp::SetViewports { viewports } && viewports@.len()
                == word_at(s, 4) && forall|i: int| 0 <= i < word_at(s, 4) ==> #[trigger] viewports@[i]
                    == Viewport::parse_at(s, 5 + 6 * i)
        }
    } else if op == PVGPU_CMD_SET_SCISSOR {
        if s.len() < 276 {
            short
        } else if word_at(s, 4) > 16 {
            no_ops(res, ops, Err(ReplayError::InvalidParameter(0)))
        } else {
            &&& res == Ok::<Option<ReplayWarning>, ReplayError>(None)
            &&& ops.len() == 1
            &&& ops[0] matches NativeOp::SetScissorRects { rects } && rects@.len() == word_at(s, 4)
                && forall|i: int| 0 <= i < word_at(s, 4) ==> #[trigger] rects@[i]
                    == ScissorRect::parse_at(s, 5 + 4 * i)
        }
    } else if op == PVGPU_CMD_SET_BLEND_STATE {
        if s.len() < 40 {
            short
        } else {
            match resolve(m, word_at(s, 4), BindClass::Kind(ResourceKind::BlendState)) {
                Some(b) => {
                    &&& res == Ok::<Option<ReplayWarning>, ReplayError>(None)
                    &&& ops.len() == 1
                    &&& ops[0] matches NativeOp::SetBlendState { state, blend_factor, sample_mask }
                        && state == b && sample_mask == word_at(s, 9) && forall|i: int|
                        0 <= i < 4 ==> #[trigger] blend_factor@[i] == word_at(s, 5 + i)
                },
                None => no_ops(res, ops, Ok(Some(ReplayWarning::ResourceNotFound(word_at(s, 4))))),
            }
        }
    } else if op == PVGPU_CMD_SET_RASTERIZER_STATE {
        if s.len() < 32 {
            short
        } else {
            let c = CmdSetRasterizerState::parse(s);
            let b = resolve(m, c.state_id, BindClass::Kind(ResourceKind::RasterizerState));
            bind_outcome(b, c.state_id, NativeOp::SetRasterizerState { state: b->0 }, res, ops)
        }
    } else if op == PVGPU_CMD_SET_DEPTH_STENCIL {
        if s.len() < 32 {
            short
        } else {
            let c = CmdSetDepthStencil::parse(s);
            let b = resolve(m, c.state_id, BindClass::Kind(ResourceKind::DepthStencilState));
            bind_outcome(
                b,
                c.state_id,
                NativeOp::SetDepthStencilState { state: b->0, stencil_ref: c.stencil_ref },
                res,
                ops,
            )
        }
    } else if op == PVGPU_CMD_SET_SHADER {
        if s.len() < 24 {
            short
        } else {
            let c = CmdSetShader::parse(s);
            if c.stage > 5 {
                no_ops(res, ops, Ok(Some(ReplayWarning::UnknownShaderStage(c.stage))))
            } else {
                let stage = ShaderStage::from_code(c.stage);
                let b = resolve(m, c.shader_id, BindClass::Kind(shader_kind(stage)));
                bind_outcome(b, c.shader_id, NativeOp::SetShader { stage, shader: b->0 }, res, ops)
            }
        }
    } else if op == PVGPU_CMD_SET_SAMPLER {
        if s.len() < 92 {
            short
        } else if word_at(s, 4) > 5 {
            no_ops(res, ops, Ok(Some(ReplayWarning::UnknownShaderStage(word_at(s, 4)))))
        } else if word_at(s, 5) as int + min_nat(word_at(s, 6), 16) > u32::MAX {
            no_ops(res, ops, Err(ReplayError::InvalidParameter(0)))
        } else {
            res is Ok && ops == sampler_ops(
                m,
                ShaderStage::from_code(word_at(s, 4)),
                word_at(s, 5),
                id_words(s, 7, 16),
                min_nat(word_at(s, 6), 16),
            )
        }
    } else if op == PVGPU_CMD_SET_CONSTANT_BUFFER {
        if s.len() < 36 {
            short
        } else {
            let c = CmdSetConstantBuffer::parse(s);
            if c.stage > 5 {
                no_ops(res, ops, Ok(Some(ReplayWarning::UnknownShaderStage(c.stage))))
            } else {
                let b = resolve(m, c.buffer_id, BindClass::Kind(ResourceKind::Buffer));
                bind_outcome(
                    b,
                    c.buffer_id,
                    NativeOp::SetConstantBuffer {
                        stage: ShaderStage::from_code(c.stage),
                        slot: c.slot,
                        buffer: b->0,
                    },
                    res,
                    ops,
                )
            }
        }
    } else if op == PVGPU_CMD_SET_VERTEX_BUFFER {
        if s.len() < 216 {
            short
        } else if word_at(s, 4) as int + min_nat(word_at(s, 5), 16) > u32::MAX {
            no_ops(res, ops, Err(ReplayError::InvalidParameter(0)))
        } else {
            res is Ok && ops == vertex_buffer_ops(
                m,
                word_at(s, 4),
                binding_words(s),
                min_nat(word_at(s, 5), 16),
            )
        }
    } else if op == PVGPU_CMD_SET_INDEX_BUFFER {
        if s.len() < 32 {
            short
        } else {
            let c = CmdSetIndexBuffer::parse(s);
            let b = resolve(m, c.buffer_id, BindClass::Kind(ResourceKind::Buffer));
            bind_outcome(
                b,
                c.buffer_id,
                NativeOp::SetIndexBuffer { buffer: b->0, format: c.format, offset: c.offset },
                res,
                ops,
            )
        }
    } else if op == PVGPU_CMD_SET_INPUT_LAYOUT {
        if s.len() < 32 {
            short
        } else {
            let c = CmdSetInputLayout::parse(s);
            let b = resolve(m, c.layout_id, BindClass::Kind(ResourceKind::InputLayout));
            bind_outcome(b, c.layout_id, NativeOp::SetInputLayout { layout: b->0 }, res, ops)
        }
    } else if op == PVGPU_CMD_SET_PRIMITIVE_TOPOLOGY {
        if s.len() < 32 {
            short
        } else {
            res == Ok::<Option<ReplayWarning>, ReplayError>(None) && ops == seq![
                NativeOp::SetPrimitiveTopology { topology: CmdSetPrimitiveTopology::parse(s).topology },
            ]
        }
    } else if op == PVGPU_CMD_SET_SHADER_RESOURCE {
        if s.len() < 540 {
            short
        } else if word_at(s, 4) > 5 {
            no_ops(res, ops, Ok(Some(ReplayWarning::UnknownShaderStage(word_at(s, 4)))))
        } else if word_at(s, 5) as int + min_nat(word_at(s, 6), 128) > u32::MAX {
            no_ops(res, ops, Err(ReplayError::InvalidParameter(0)))
        } else {
            res is Ok && ops == view_ops(
                m,
                ShaderStage::from_code(word_at(s, 4)),
                word_at(s, 5),
                id_words(s, 7, 128),
                min_nat(word_at(s, 6), 128),
            )
        }
    } else if op == PVGPU_CMD_CLEAR_RENDER_TARGET {
        if s.len() < 36 {
            short
        } else {
            match resolve(m, word_at(s, 4), BindClass::RenderTarget) {
                Some(Some(t)) => {
                    &&& res == Ok::<Option<ReplayWarning>, ReplayError>(None)
                    &&& ops.len() == 1
                    &&& ops[0] matches NativeOp::ClearRenderTarget { target, color } && target == t
                        && forall|i: int| 0 <= i < 4 ==> #[trigger] color@[i] == word_at(s, 5 + i)
                },
                _ => no_ops(res, ops, Ok(Some(ReplayWarning::ResourceNotFound(word_at(s, 4))))),
            }
        }
    } else if op == PVGPU_CMD_CLEAR_DEPTH_STENCIL {
        if s.len() < 32 {
            short
        } else {
            let c = CmdClearDepthStencil::parse(s);
            match resolve(m, c.dsv_id, BindClass::Kind(ResourceKind::DepthStencilView)) {
                Some(Some(t)) => res == Ok::<Option<ReplayWarning>, ReplayError>(None) && ops
                    == seq![
                    NativeOp::ClearDepthStencil {
                        target: t,
                        clear_flags: c.clear_flags,
                        depth: c.depth,
                        stencil: c.stencil,
                    },
                ],
                _ => no_ops(res, ops, Ok(Some(ReplayWarning::ResourceNotFound(c.dsv_id)))),
            }
        }
    } else if op == PVGPU_CMD_COPY_RESOURCE {
        if s.len() < 32 {
            short
        } else {
            let c = CmdCopyResource::parse(s);
            if !copyable(m, c.dst_resource_id) {
                no_ops(res, ops, Ok(Some(ReplayWarning::ResourceNotFound(c.dst_resource_id))))
            } else if !copyable(m, c.src_resource_id) {
                no_ops(res, ops, Ok(Some(ReplayWarning::ResourceNotFound(c.src_resource_id))))
            } else {
                res == Ok::<Option<ReplayWarning>, ReplayError>(None) && ops == seq![
                    NativeOp::CopyResource {
                        dst: m[c.dst_resource_id].native,
                        src: m[c.src_resource_id].native,
                    },
                ]
            }
        }
    } else {
        no_ops(res, ops, Ok(None))
    }
}

impl CommandProcessor {
    /// Carries out a state, clear, copy or wait record.
    fn replay_state(&mut self, op: u32, rec: &[u8], ops: &mut Vec<NativeOp>) -> (r: Result<
        Option<ReplayWarning>,
        ReplayError,
    >)
        requires
            old(self).wf(),
            old(ops)@.len() == 0,
            is_state_opcode(op),
        ensures
            final(self).wf(),
            final(self)@ == old(self)@,
            state_outcome(old(self)@.resources, op, rec@, r, final(ops)@),
            r is Err ==> final(ops)@.len() == 0,
    {
        assert(old(ops)@ =~= Seq::<NativeOp>::empty());
        if op == PVGPU_CMD_SET_RENDER_TARGET {
            match CmdSetRenderTarget::decode(rec) {
                Some(c) => {
                    let ghost m = self@.resources;
                    let ghost n = c.num_rtvs as int;
                    proof {
                        if n <= 8 && forall|i: int|
                            0 <= i < n ==> resolve(m, #[trigger] word_at(rec@, 6 + i), BindClass::RenderTarget)
                                is Some {
                            assert forall|i: int| 0 <= i < n implies resolve(
                                m,
                                #[trigger] c.rtv_ids@[i],
                                BindClass::RenderTarget,
                            ) is Some by {
                                assert(c.rtv_ids@[i] == word_at(rec@, 6 + i));
                            }
                        }
                        if n <= 8 && forall|i: int|
                            0 <= i < n ==> resolve(m, #[trigger] c.rtv_ids@[i], BindClass::RenderTarget)
                                is Some {
                            assert forall|i: int| 0 <= i < n implies resolve(
                                m,
                                #[trigger] word_at(rec@, 6 + i),
                                BindClass::RenderTarget,
                            ) is Some by {
                                assert(c.rtv_ids@[i] == word_at(rec@, 6 + i));
                            }
                        }
                    }
                    self.handle_set_render_target(c, ops)
                },
                None => Err(ReplayError::InvalidCommand),
            }
        } else if op == PVGPU_CMD_SET_VIEWPORT {
            match CmdSetViewport::decode(rec) {
                Some(c) => self.handle_set_viewport(c, ops),
                None => Err(ReplayError::InvalidCommand),
            }
        } else if op == PVGPU_CMD_SET_SCISSOR {
            match CmdSetScissor::decode(rec) {
                Some(c) => self.handle_set_scissor(c, ops),
                None => Err(ReplayError::InvalidCommand),
            }
        } else if op == PVGPU_CMD_SET_BLEND_STATE {
            match CmdSetBlendState::decode(rec) {
                Some(c) => match self.bind_state(c.state_id, BindClass::Kind(ResourceKind::BlendState)) {
                    Ok(b) => {
                        ops.push(
                            NativeOp::SetBlendState {
                                state: b,
                                blend_factor: c.blend_factor,
                                sample_mask: c.sample_mask,
                            },
                        );
                        Ok(None)
                    },
                    Err(w) => Ok(Some(w)),
                },
                None => Err(ReplayError::InvalidCommand),
            }
        } else if op == PVGPU_CMD_SET_RASTERIZER_STATE {
            match CmdSetRasterizerState::decode(rec) {
                Some(c) => match self.bind_state(
                    c.state_id,
                    BindClass::Kind(ResourceKind::RasterizerState),
                ) {
                    Ok(b) => {
                        ops.push(NativeOp::SetRasterizerState { state: b });
                        assert(ops@ =~= seq![NativeOp::SetRasterizerState { state: b }]);
                        Ok(None)
                    },
                    Err(w) => Ok(Some(w)),
                },
                None => Err(ReplayError::InvalidCommand),
            }
        } else if op == PVGPU_CMD_SET_DEPTH_STENCIL {
            match CmdSetDepthStencil::decode(rec) {
                Some(c) => match self.bind_state(
                    c.state_id,
                    BindClass::Kind(ResourceKind::DepthStencilState),
                ) {
                    Ok(b) => {
                        ops.push(NativeOp::SetDepthStencilState { state: b, stencil_ref: c.stencil_ref });
                        assert(ops@ =~= seq![NativeOp::SetDepthStencilState { state: b, stencil_ref: c.stencil_ref }]);
                        Ok(None)
                    },
                    Err(w) => Ok(Some(w)),
                },
                None => Err(ReplayError::InvalidCommand),
            }
        } else if op == PVGPU_CMD_SET_SHADER {
            match CmdSetShader::decode(rec) {
                Some(c) => {
                    let r = self.handle_set_shader(c, ops);
                    assert(old(ops)@.push(NativeOp::SetShader { stage: ShaderStage::from_code(c.stage), shader: resolve(old(self)@.resources, c.shader_id, BindClass::Kind(shader_kind(ShaderStage::from_code(c.stage))))->0 }) =~= seq![NativeOp::SetShader { stage: ShaderStage::from_code(c.stage), shader: resolve(old(self)@.resources, c.shader_id, BindClass::Kind(shader_kind(ShaderStage::from_code(c.stage))))->0 }]);
                    r
                },
                None => Err(ReplayError::InvalidCommand),
            }
        } else if op == PVGPU_CMD_SET_SAMPLER {
            match CmdSetSamplers::decode(rec) {
                Some(c) => {
                    assert(c.sampler_ids@ =~= id_words(rec@, 7, 16));
                    let r = self.handle_set_samplers(c, ops);
                    assert(ops@ =~= old(ops)@ + ops@);
                    r
                },
                None => Err(ReplayError::InvalidCommand),
            }
        } else if op == PVGPU_CMD_SET_CONSTANT_BUFFER {
            match CmdSetConstantBuffer::decode(rec) {
                Some(c) => {
                    let r = self.handle_set_constant_buffer(c, ops);
                    assert(old(ops)@.push(NativeOp::SetConstantBuffer { stage: ShaderStage::from_code(c.stage), slot: c.slot, buffer: resolve(old(self)@.resources, c.buffer_id, BindClass::Kind(ResourceKind::Buffer))->0 }) =~= seq![NativeOp::SetConstantBuffer { stage: ShaderStage::from_code(c.stage), slot: c.slot, buffer: resolve(old(self)@.resources, c.buffer_id, BindClass::Kind(ResourceKind::Buffer))->0 }]);
                    r
                },
                None => Err(ReplayError::InvalidCommand),
            }
        } else if op == PVGPU_CMD_SET_VERTEX_BUFFER {
            match CmdSetVertexBuffer::decode(rec) {
                Some(c) => {
                    assert(c.buffers@ =~= binding_words(rec@));
                    let r = self.handle_set_vertex_buffers(c, ops);
                    assert(ops@ =~= old(ops)@ + ops@);
                    r
                },
                None => Err(ReplayError::InvalidCommand),
            }
        } else if op == PVGPU_CMD_SET_INDEX_BUFFER {
            match CmdSetIndexBuffer::decode(rec) {
                Some(c) => match self.bind_state(c.buffer_id, BindClass::Kind(ResourceKind::Buffer)) {
                    Ok(b) => {
                        ops.push(NativeOp::SetIndexBuffer { buffer: b, format: c.format, offset: c.offset });
                        assert(ops@ =~= seq![NativeOp::SetIndexBuffer { buffer: b, format: c.format, offset: c.offset }]);
                        Ok(None)
                    },
                    Err(w) => Ok(Some(w)),
                },
                None => Err(ReplayError::InvalidCommand),
            }
        } else if op == PVGPU_CMD_SET_INPUT_LAYOUT {
            match CmdSetInputLayout::decode(rec) {
                Some(c) => match self.bind_state(c.layout_id, BindClass::Kind(ResourceKind::InputLayout)) {
                    Ok(b) => {
                        ops.push(NativeOp::SetInputLayout { layout: b });
                        assert(ops@ =~= seq![NativeOp::SetInputLayout { layout: b }]);
                        Ok(None)
                    },
                    Err(w) => Ok(Some(w)),
                },
                None => Err(ReplayError::InvalidCommand),
            }
        } else if op == PVGPU_CMD_SET_PRIMITIVE_TOPOLOGY {
            match CmdSetPrimitiveTopology::decode(rec) {
                Some(c) => {
                    ops.push(NativeOp::SetPrimitiveTopology { topology: c.topology });
                    assert(ops@ =~= seq![NativeOp::SetPrimitiveTopology { topology: c.topology }]);
                    Ok(None)
                },
                None => Err(ReplayError::InvalidCommand),
            }
        } else if op == PVGPU_CMD_SET_SHADER_RESOURCE {
            match CmdSetShaderResources::decode(rec) {
                Some(c) => {
                    assert(c.view_ids@ =~= id_words(rec@, 7, 128));
                    let r = self.handle_set_shader_resources(c, ops);
                    assert(ops@ =~= old(ops)@ + ops@);
                    r
                },
                None => Err(ReplayError::InvalidCommand),
            }
        } else if op == PVGPU_CMD_CLEAR_RENDER_TARGET {
            match CmdClearRenderTarget::decode(rec) {
                Some(c) => self.handle_clear_render_target(c, ops),
                None => Err(ReplayError::InvalidCommand),
            }
        } else if op == PVGPU_CMD_CLEAR_DEPTH_STENCIL {
            match CmdClearDepthStencil::decode(rec) {
                Some(c) => {
                    let r = self.handle_clear_depth_stencil(c, ops);
                    assert(ops@ =~= old(ops)@ + ops@);
                    r
                },
                None => Err(ReplayError::InvalidCommand),
            }
        } else if op == PVGPU_CMD_COPY_RESOURCE {
            match CmdCopyResource::decode(rec) {
                Some(c) => {
                    let r = self.handle_copy_resource(c, ops);
                    assert(ops@ =~= old(ops)@ + ops@);
                    r
                },
                None => Err(ReplayError::InvalidCommand),
            }
        } else {
            Ok(None)
        }
    }
}


impl CommandProcessor {
    /// Records the size of the mapping held by staging object `staging`, as
    /// the device reported it when mapping. A size already known (a buffer's,
    /// or an earlier report) is kept.
    pub fn report_mapped_size(&mut self, staging: u64, size: u64)
        requires
            old(self).wf(),
        ensures
            final(self).wf(),
            final(self)@ == (ProcessorView { maps: final(self)@.maps, ..old(self)@ }),
            final(self)@.maps.len() == old(self)@.maps.len(),
            forall|i: int|
                0 <= i < old(self)@.maps.len() ==> #[trigger] final(self)@.maps[i] == if old(
                    self,
                )@.maps[i].staging == staging && old(self)@.maps[i].mapped_size is None {
                    ActiveMap { mapped_size: Some(size), ..old(self)@.maps[i] }
                } else {
                    old(self)@.maps[i]
                },
    {
        let mut i: usize = 0;
        while i < self.active_maps.len()
            invariant
                self.wf(),
                i <= self.active_maps@.len(),
                self.active_maps@.len() == old(self)@.maps.len(),
                self@ == (ProcessorView { maps: self@.maps, ..old(self)@ }),
                forall|j: int|
                    0 <= j < self.active_maps@.len() ==> #[trigger] self.active_maps@[j] == if j < i
                        && old(self)@.maps[j].staging == staging && old(self)@.maps[j].mapped_size
                        is None {
                        ActiveMap { mapped_size: Some(size), ..old(self)@.maps[j] }
                    } else {
                        old(self)@.maps[j]
                    },
            decreases self.active_maps@.len() - i,
        {
            let m = self.active_maps[i];
            if m.staging == staging && m.mapped_size.is_none() {
                let ghost before = self.active_maps@;
                self.active_maps.set(i, ActiveMap { mapped_size: Some(size), ..m });
                proof {
                    assert forall|a: int, b: int|
                        0 <= a < b < self.active_maps@.len() implies !(
                        self.active_maps@[a].resource_id == self.active_maps@[b].resource_id
                            && self.active_maps@[a].subresource
                            == self.active_maps@[b].subresource) by {
                        assert(self.active_maps@[a].resource_id == before[a].resource_id);
                        assert(self.active_maps@[b].resource_id == before[b].resource_id);
                        assert(self.active_maps@[a].subresource == before[a].subresource);
                        assert(self.active_maps@[b].subresource == before[b].subresource);
                    }
                }
            }
            i += 1;
        }
    }
}

} // verus!
