//! What the replay engine hands to the native device, and how it reports
//! failures. Native objects are named by the 64-bit identities of the
//! resource table; float values travel as their bit patterns.
use vstd::prelude::*;

use crate::protocol::{
    MapType, ScissorRect, ShaderStage, Viewport, PVGPU_ERROR_DEVICE_LOST, PVGPU_ERROR_INTERNAL,
    PVGPU_ERROR_INVALID_COMMAND, PVGPU_ERROR_INVALID_PARAMETER, PVGPU_ERROR_OUT_OF_MEMORY,
    PVGPU_ERROR_RESOURCE_NOT_FOUND, PVGPU_ERROR_SHADER_COMPILE, PVGPU_ERROR_UNSUPPORTED_FORMAT,
};
use crate::ring::FramingError;

verus! {

/// A run of heap bytes, already checked to lie inside the heap.
#[derive(Debug, Clone, Copy, PartialEq, Eq, Structural)]
pub struct HeapRange {
    pub offset: u32,
    pub len: u32,
}

/// Destination box of a partial update.
#[derive(Debug, Clone, Copy, PartialEq, Eq, Structural)]
pub struct UpdateBox {
    pub left: u32,
    pub top: u32,
    pub front: u32,
    pub right: u32,
    pub bottom: u32,
    pub back: u32,
}

/// One call on the native device, in the order the engine issues them.
#[derive(Debug, Clone, PartialEq, Eq)]
pub enum NativeOp {
    /// Create a 2-D texture as `native`, with initial data whose rows are `row_pitch` bytes apart.
    CreateTexture2D {
        native: u64,
        width: u32,
        height: u32,
        format: u32,
        bind_flags: u32,
        initial: Option<HeapRange>,
        row_pitch: u32,
    },
    CreateBuffer { native: u64, size: u32, bind_flags: u32, initial: Option<HeapRange> },
    CreateShader { native: u64, stage: ShaderStage, bytecode: HeapRange },
    /// Drop the last reference the host holds on `native`.
    Release { native: u64 },
    SetRenderTargets { rtvs: Vec<Option<u64>>, dsv: Option<u64> },
    SetViewports { viewports: Vec<Viewport> },
    SetScissorRects { rects: Vec<ScissorRect> },
    SetBlendState { state: Option<u64>, blend_factor: [u32; 4], sample_mask: u32 },
    SetRasterizerState { state: Option<u64> },
    SetDepthStencilState { state: Option<u64>, stencil_ref: u32 },
    SetShader { stage: ShaderStage, shader: Option<u64> },
    SetSampler { stage: ShaderStage, slot: u32, sampler: Option<u64> },
    SetConstantBuffer { stage: ShaderStage, slot: u32, buffer: Option<u64> },
    SetVertexBuffer { slot: u32, buffer: Option<u64>, stride: u32, offset: u32 },
    SetIndexBuffer { buffer: Option<u64>, format: u32, offset: u32 },
    SetInputLayout { layout: Option<u64> },
    SetPrimitiveTopology { topology: u32 },
    SetShaderResource { stage: ShaderStage, slot: u32, view: Option<u64> },
    Draw { vertex_count: u32, start_vertex: u32 },
    DrawIndexed { index_count: u32, start_index: u32, base_vertex: i32 },
    DrawInstanced { vertex_count: u32, instance_count: u32, start_vertex: u32, start_instance: u32 },
    DrawIndexedInstanced {
        index_count: u32,
        instance_count: u32,
        start_index: u32,
        base_vertex: i32,
        start_instance: u32,
    },
    Dispatch { x: u32, y: u32, z: u32 },
    ClearRenderTarget { target: u64, color: [u32; 4] },
    ClearDepthStencil { target: u64, clear_flags: u32, depth: u32, stencil: u8 },
    CopyResource { dst: u64, src: u64 },
    UpdateSubresource {
        native: u64,
        subresource: u32,
        data: HeapRange,
        dst_box: Option<UpdateBox>,
        row_pitch: u32,
        depth_pitch: u32,
    },
    /// Create `staging` matching `source`, copy `source` into it when the map
    /// reads, map it, and for reads copy the mapped bytes into the heap at `read_into`.
    MapStaging {
        source: u64,
        staging: u64,
        subresource: u32,
        map_type: MapType,
        read_into: Option<u32>,
    },
    /// Copy `write_back` from the heap into the mapping (a buffer's write-back
    /// never exceeds its size; for a texture, at most its mapped size is
    /// copied), unmap `staging`, copy it into `copy_to` when given, and
    /// release `staging`.
    UnmapStaging {
        staging: u64,
        subresource: u32,
        write_back: Option<HeapRange>,
        copy_to: Option<u64>,
    },
    Flush,
}

/// Something worth logging that does not fail the command.
#[derive(Debug, Clone, Copy, PartialEq, Eq, Structural)]
pub enum ReplayWarning {
    UnknownOpcode(u32),
    /// The id is not live, or names a resource of the wrong kind.
    ResourceNotFound(u32),
    UnknownResourceType(u32),
    UnknownShaderStage(u32),
    NoActiveMap { resource_id: u32, subresource: u32 },
}

/// Why a command failed.
#[derive(Debug, Clone, Copy, PartialEq, Eq, Structural)]
pub enum ReplayError {
    /// The record is broken: the session ends.
    Framing(FramingError),
    /// A heap range of the command lies outside the heap: the session ends.
    HeapOutOfBounds,
    /// The record is shorter than its opcode's layout.
    InvalidCommand,
    InvalidParameter(u32),
    UnsupportedFormat(u32),
    ResourceNotFound(u32),
    ShaderCompile(u32),
    OutOfMemory,
    DeviceLost,
    Internal,
}

/// The native result code for out-of-memory.
pub const E_OUTOFMEMORY: u32 = 0x8007000E;

impl ReplayError {
    /// The error code published to the guest.
    pub open spec fn spec_code(self) -> u32 {
        match self {
            ReplayError::Framing(_) => PVGPU_ERROR_INVALID_COMMAND,
            ReplayError::HeapOutOfBounds => PVGPU_ERROR_INVALID_COMMAND,
            ReplayError::InvalidCommand => PVGPU_ERROR_INVALID_COMMAND,
            ReplayError::InvalidParameter(_) => PVGPU_ERROR_INVALID_PARAMETER,
            ReplayError::UnsupportedFormat(_) => PVGPU_ERROR_UNSUPPORTED_FORMAT,
            ReplayError::ResourceNotFound(_) => PVGPU_ERROR_RESOURCE_NOT_FOUND,
            ReplayError::ShaderCompile(_) => PVGPU_ERROR_SHADER_COMPILE,
            ReplayError::OutOfMemory => PVGPU_ERROR_OUT_OF_MEMORY,
            ReplayError::DeviceLost => PVGPU_ERROR_DEVICE_LOST,
            ReplayError::Internal => PVGPU_ERROR_INTERNAL,
        }
    }

    /// The datum published with the code: the failing resource id, or 0.
    pub open spec fn spec_data(self) -> u32 {
        match self {
            ReplayError::InvalidParameter(id) => id,
            ReplayError::UnsupportedFormat(id) => id,
            ReplayError::ResourceNotFound(id) => id,
            ReplayError::ShaderCompile(id) => id,
            _ => 0,
        }
    }

    /// Errors that end the session.
    pub open spec fn spec_is_fatal(self) -> bool {
        self is Framing || self is HeapOutOfBounds
    }

    /// Errors after which the current drain stops and the record is retried on
    /// the next iteration: only running out of memory.
    pub open spec fn spec_retries(self) -> bool {
        self is OutOfMemory
    }

    pub fn code(&self) -> (r: u32)
        ensures
            r == self.spec_code(),
    {
        match self {
            ReplayError::Framing(_) => PVGPU_ERROR_INVALID_COMMAND,
            ReplayError::HeapOutOfBounds => PVGPU_ERROR_INVALID_COMMAND,
            ReplayError::InvalidCommand => PVGPU_ERROR_INVALID_COMMAND,
            ReplayError::InvalidParameter(_) => PVGPU_ERROR_INVALID_PARAMETER,
            ReplayError::UnsupportedFormat(_) => PVGPU_ERROR_UNSUPPORTED_FORMAT,
            ReplayError::ResourceNotFound(_) => PVGPU_ERROR_RESOURCE_NOT_FOUND,
            ReplayError::ShaderCompile(_) => PVGPU_ERROR_SHADER_COMPILE,
            ReplayError::OutOfMemory => PVGPU_ERROR_OUT_OF_MEMORY,
            ReplayError::DeviceLost => PVGPU_ERROR_DEVICE_LOST,
            ReplayError::Internal => PVGPU_ERROR_INTERNAL,
        }
    }

    pub fn data(&self) -> (r: u32)
        ensures
            r == self.spec_data(),
    {
        match self {
            ReplayError::InvalidParameter(id) => *id,
            ReplayError::UnsupportedFormat(id) => *id,
            ReplayError::ResourceNotFound(id) => *id,
            ReplayError::ShaderCompile(id) => *id,
            _ => 0,
        }
    }

    pub fn is_fatal(&self) -> (r: bool)
        ensures
            r == self.spec_is_fatal(),
    {
        match self {
            ReplayError::Framing(_) | ReplayError::HeapOutOfBounds => true,
            _ => false,
        }
    }

    pub fn retries(&self) -> (r: bool)
        ensures
            r == self.spec_retries(),
    {
        match self {
            ReplayError::OutOfMemory => true,
            _ => false,
        }
    }
}

/// What the native layer reports of the adapter it renders on.
#[derive(Debug, Clone)]
pub struct AdapterInfo {
    pub index: u32,
    pub description: String,
    pub vendor_id: u32,
    pub device_id: u32,
    pub dedicated_video_memory: usize,
    pub luid: u64,
}

/// Packs an adapter's locally unique id, high part first, into 64 bits.
pub fn pack_luid(high: i32, low: u32) -> (r: u64)
    ensures
        r == ((high as u32 as u64) << 32u64) | (low as u64),
{
    ((high as u32 as u64) << 32u64) | (low as u64)
}

/// Counters of the replay engine.
#[derive(Debug, Clone, Copy, PartialEq, Eq, Structural)]
pub struct CommandProcessorStats {
    pub commands_processed: u64,
    pub draw_calls: u64,
    pub presents: u64,
    pub resources_created: u64,
    pub resources_destroyed: u64,
    pub errors: u64,
}

impl CommandProcessorStats {
    pub fn zero() -> (r: Self)
        ensures
            r == (CommandProcessorStats {
                commands_processed: 0,
                draw_calls: 0,
                presents: 0,
                resources_created: 0,
                resources_destroyed: 0,
                errors: 0,
            }),
    {
        CommandProcessorStats {
            commands_processed: 0,
            draw_calls: 0,
            presents: 0,
            resources_created: 0,
            resources_destroyed: 0,
            errors: 0,
        }
    }
}

/// `x + 1`, staying at the maximum.
pub open spec fn bumped(x: u64) -> u64 {
    if x < u64::MAX {
        (x + 1) as u64
    } else {
        x
    }
}

pub fn bump(x: u64) -> (r: u64)
    ensures
        r == bumped(x),
{
    if x < u64::MAX {
        x + 1
    } else {
        x
    }
}

} // verus!
