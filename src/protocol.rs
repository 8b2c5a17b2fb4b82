//! Wire protocol: constants, opcodes, and the fixed-layout records of the
//! command stream. Every record starts with a 16-byte header and is a run of
//! little-endian 32-bit words.
use vstd::prelude::*;

use crate::wire::{
    dword_at, hi32, lemma_halves, lemma_words_bytes, lo32, read_dword, read_word, word_at,
    words_bytes, encode_words,
};

verus! {

pub const PVGPU_MAGIC: u32 = 0x50564750;
pub const PVGPU_VERSION_MAJOR: u32 = 1;
pub const PVGPU_VERSION_MINOR: u32 = 0;
pub const PVGPU_VERSION: u32 = (PVGPU_VERSION_MAJOR << 16) | PVGPU_VERSION_MINOR;
pub const PVGPU_CONTROL_REGION_SIZE: usize = 0x1000;
pub const PVGPU_COMMAND_RING_SIZE: usize = 0x1000000;
pub const PVGPU_DEFAULT_SHMEM_SIZE: usize = 0x10000000;

/// Feature bits negotiated in the handshake.
pub const PVGPU_FEATURE_D3D11: u64 = 1 << 0;
pub const PVGPU_FEATURE_D3D12: u64 = 1 << 1;
pub const PVGPU_FEATURE_COMPUTE: u64 = 1 << 2;
pub const PVGPU_FEATURE_GEOMETRY: u64 = 1 << 3;
pub const PVGPU_FEATURE_TESSELLATION: u64 = 1 << 4;
pub const PVGPU_FEATURE_MSAA: u64 = 1 << 5;
pub const PVGPU_FEATURE_HDR: u64 = 1 << 6;
pub const PVGPU_FEATURE_VSYNC: u64 = 1 << 7;
pub const PVGPU_FEATURE_TRIPLE_BUFFER: u64 = 1 << 8;
pub const PVGPU_FEATURES_MVP: u64 = PVGPU_FEATURE_D3D11
    | PVGPU_FEATURE_COMPUTE
    | PVGPU_FEATURE_GEOMETRY
    | PVGPU_FEATURE_TESSELLATION
    | PVGPU_FEATURE_VSYNC;


// Resource commands: 0x0001 - 0x00FF
pub const PVGPU_CMD_CREATE_RESOURCE: u32 = 0x0001;
pub const PVGPU_CMD_DESTROY_RESOURCE: u32 = 0x0002;
pub const PVGPU_CMD_MAP_RESOURCE: u32 = 0x0003;
pub const PVGPU_CMD_UNMAP_RESOURCE: u32 = 0x0004;
pub const PVGPU_CMD_UPDATE_RESOURCE: u32 = 0x0005;
pub const PVGPU_CMD_COPY_RESOURCE: u32 = 0x0006;
pub const PVGPU_CMD_OPEN_RESOURCE: u32 = 0x0007;

// State commands: 0x0100 - 0x01FF
pub const PVGPU_CMD_SET_RENDER_TARGET: u32 = 0x0101;
pub const PVGPU_CMD_SET_VIEWPORT: u32 = 0x0102;
pub const PVGPU_CMD_SET_SCISSOR: u32 = 0x0103;
pub const PVGPU_CMD_SET_BLEND_STATE: u32 = 0x0104;
pub const PVGPU_CMD_SET_RASTERIZER_STATE: u32 = 0x0105;
pub const PVGPU_CMD_SET_DEPTH_STENCIL: u32 = 0x0106;
pub const PVGPU_CMD_SET_SHADER: u32 = 0x0107;
pub const PVGPU_CMD_SET_SAMPLER: u32 = 0x0108;
pub const PVGPU_CMD_SET_CONSTANT_BUFFER: u32 = 0x0109;
pub const PVGPU_CMD_SET_VERTEX_BUFFER: u32 = 0x010A;
pub const PVGPU_CMD_SET_INDEX_BUFFER: u32 = 0x010B;
pub const PVGPU_CMD_SET_INPUT_LAYOUT: u32 = 0x010C;
pub const PVGPU_CMD_SET_PRIMITIVE_TOPOLOGY: u32 = 0x010D;
pub const PVGPU_CMD_SET_SHADER_RESOURCE: u32 = 0x010E;

// Draw commands: 0x0200 - 0x02FF
pub const PVGPU_CMD_DRAW: u32 = 0x0201;
pub const PVGPU_CMD_DRAW_INDEXED: u32 = 0x0202;
pub const PVGPU_CMD_DRAW_INSTANCED: u32 = 0x0203;
pub const PVGPU_CMD_DRAW_INDEXED_INSTANCED: u32 = 0x0204;
pub const PVGPU_CMD_DISPATCH: u32 = 0x0205;
pub const PVGPU_CMD_CLEAR_RENDER_TARGET: u32 = 0x0206;
pub const PVGPU_CMD_CLEAR_DEPTH_STENCIL: u32 = 0x0207;

// Shader commands: 0x0030 - 0x003F
pub const PVGPU_CMD_CREATE_SHADER: u32 = 0x0030;
pub const PVGPU_CMD_DESTROY_SHADER: u32 = 0x0031;

// Sync commands: 0x0300 - 0x03FF
pub const PVGPU_CMD_FENCE: u32 = 0x0301;
pub const PVGPU_CMD_PRESENT: u32 = 0x0302;
pub const PVGPU_CMD_FLUSH: u32 = 0x0303;
pub const PVGPU_CMD_WAIT_FENCE: u32 = 0x0304;
pub const PVGPU_CMD_RESIZE_BUFFERS: u32 = 0x0305;

// Error codes published to the guest
pub const PVGPU_ERROR_SUCCESS: u32 = 0x0000;
pub const PVGPU_ERROR_INVALID_COMMAND: u32 = 0x0001;
pub const PVGPU_ERROR_RESOURCE_NOT_FOUND: u32 = 0x0002;
pub const PVGPU_ERROR_OUT_OF_MEMORY: u32 = 0x0003;
pub const PVGPU_ERROR_SHADER_COMPILE: u32 = 0x0004;
pub const PVGPU_ERROR_DEVICE_LOST: u32 = 0x0005;
pub const PVGPU_ERROR_INVALID_PARAMETER: u32 = 0x0006;
pub const PVGPU_ERROR_UNSUPPORTED_FORMAT: u32 = 0x0007;
pub const PVGPU_ERROR_BACKEND_DISCONNECTED: u32 = 0x0008;
pub const PVGPU_ERROR_RING_FULL: u32 = 0x0009;
pub const PVGPU_ERROR_TIMEOUT: u32 = 0x000A;
pub const PVGPU_ERROR_HEAP_EXHAUSTED: u32 = 0x000B;
pub const PVGPU_ERROR_INTERNAL: u32 = 0x000C;
pub const PVGPU_ERROR_UNKNOWN: u32 = 0xFFFF;

// Device status bits
pub const PVGPU_STATUS_READY: u32 = 1 << 0;
pub const PVGPU_STATUS_ERROR: u32 = 1 << 1;
pub const PVGPU_STATUS_DEVICE_LOST: u32 = 1 << 2;
pub const PVGPU_STATUS_BACKEND_BUSY: u32 = 1 << 3;
pub const PVGPU_STATUS_RESIZING: u32 = 1 << 4;
pub const PVGPU_STATUS_RECOVERY: u32 = 1 << 5;
pub const PVGPU_STATUS_SHUTDOWN: u32 = 1 << 6;
// Command flags
pub const PVGPU_CMD_FLAG_SYNC: u32 = 1;
pub const PVGPU_CMD_FLAG_NO_FENCE: u32 = 2;

/// Size of the command header, in bytes.
pub const PVGPU_CMD_HEADER_SIZE: usize = 16;

/// Kinds of resource named by `CmdCreateResource::resource_type`.
#[derive(Debug, Clone, Copy, PartialEq, Eq, Structural)]
pub enum ResourceType {
    Texture1D,
    Texture2D,
    Texture3D,
    Buffer,
    VertexShader,
    PixelShader,
    GeometryShader,
    HullShader,
    DomainShader,
    ComputeShader,
    InputLayout,
    BlendState,
    RasterizerState,
    DepthStencilState,
    SamplerState,
    RenderTargetView,
    DepthStencilView,
    ShaderResourceView,
    UnorderedAccessView,
}

impl ResourceType {
    /// The code of the kind on the wire.
    pub open spec fn code(self) -> u32 {
        match self {
            ResourceType::Texture1D => 1,
            ResourceType::Texture2D => 2,
            ResourceType::Texture3D => 3,
            ResourceType::Buffer => 4,
            ResourceType::VertexShader => 5,
            ResourceType::PixelShader => 6,
            ResourceType::GeometryShader => 7,
            ResourceType::HullShader => 8,
            ResourceType::DomainShader => 9,
            ResourceType::ComputeShader => 10,
            ResourceType::InputLayout => 11,
            ResourceType::BlendState => 12,
            ResourceType::RasterizerState => 13,
            ResourceType::DepthStencilState => 14,
            ResourceType::SamplerState => 15,
            ResourceType::RenderTargetView => 16,
            ResourceType::DepthStencilView => 17,
            ResourceType::ShaderResourceView => 18,
            ResourceType::UnorderedAccessView => 19,
        }
    }

    pub fn to_u32(&self) -> (r: u32)
        ensures
            r == self.code(),
    {
        match self {
            ResourceType::Texture1D => 1,
            ResourceType::Texture2D => 2,
            ResourceType::Texture3D => 3,
            ResourceType::Buffer => 4,
            ResourceType::VertexShader => 5,
            ResourceType::PixelShader => 6,
            ResourceType::GeometryShader => 7,
            ResourceType::HullShader => 8,
            ResourceType::DomainShader => 9,
            ResourceType::ComputeShader => 10,
            ResourceType::InputLayout => 11,
            ResourceType::BlendState => 12,
            ResourceType::RasterizerState => 13,
            ResourceType::DepthStencilState => 14,
            ResourceType::SamplerState => 15,
            ResourceType::RenderTargetView => 16,
            ResourceType::DepthStencilView => 17,
            ResourceType::ShaderResourceView => 18,
            ResourceType::UnorderedAccessView => 19,
        }
    }

    /// The kind with wire code `v`, if there is one.
    pub fn from_u32(v: u32) -> (r: Option<ResourceType>)
        ensures
            r is Some <==> 1 <= v <= 19,
            r matches Some(t) ==> t.code() == v,
    {
        match v {
            1 => Some(ResourceType::Texture1D),
            2 => Some(ResourceType::Texture2D),
            3 => Some(ResourceType::Texture3D),
            4 => Some(ResourceType::Buffer),
            5 => Some(ResourceType::VertexShader),
            6 => Some(ResourceType::PixelShader),
            7 => Some(ResourceType::GeometryShader),
            8 => Some(ResourceType::HullShader),
            9 => Some(ResourceType::DomainShader),
            10 => Some(ResourceType::ComputeShader),
            11 => Some(ResourceType::InputLayout),
            12 => Some(ResourceType::BlendState),
            13 => Some(ResourceType::RasterizerState),
            14 => Some(ResourceType::DepthStencilState),
            15 => Some(ResourceType::SamplerState),
            16 => Some(ResourceType::RenderTargetView),
            17 => Some(ResourceType::DepthStencilView),
            18 => Some(ResourceType::ShaderResourceView),
            19 => Some(ResourceType::UnorderedAccessView),
            _ => None,
        }
    }
}

/// Programmable pipeline stages, in wire order.
#[derive(Debug, Clone, Copy, PartialEq, Eq, Structural)]
pub enum ShaderStage {
    Vertex,
    Pixel,
    Geometry,
    Hull,
    Domain,
    Compute,
}

impl ShaderStage {
    pub open spec fn code(self) -> u32 {
        match self {
            ShaderStage::Vertex => 0,
            ShaderStage::Pixel => 1,
            ShaderStage::Geometry => 2,
            ShaderStage::Hull => 3,
            ShaderStage::Domain => 4,
            ShaderStage::Compute => 5,
        }
    }

    pub fn to_u32(&self) -> (r: u32)
        ensures
            r == self.code(),
    {
        match self {
            ShaderStage::Vertex => 0,
            ShaderStage::Pixel => 1,
            ShaderStage::Geometry => 2,
            ShaderStage::Hull => 3,
            ShaderStage::Domain => 4,
            ShaderStage::Compute => 5,
        }
    }

    /// The stage with wire code `v`, for `v` up to 5.
    pub open spec fn from_code(v: u32) -> ShaderStage {
        if v == 0 {
            ShaderStage::Vertex
        } else if v == 1 {
            ShaderStage::Pixel
        } else if v == 2 {
            ShaderStage::Geometry
        } else if v == 3 {
            ShaderStage::Hull
        } else if v == 4 {
            ShaderStage::Domain
        } else {
            ShaderStage::Compute
        }
    }

    /// The stage with wire code `v`, if there is one.
    pub fn from_u32(v: u32) -> (r: Option<ShaderStage>)
        ensures
            r is Some <==> v <= 5,
            r matches Some(s) ==> s.code() == v && s == Self::from_code(v),
    {
        match v {
            0 => Some(ShaderStage::Vertex),
            1 => Some(ShaderStage::Pixel),
            2 => Some(ShaderStage::Geometry),
            3 => Some(ShaderStage::Hull),
            4 => Some(ShaderStage::Domain),
            5 => Some(ShaderStage::Compute),
            _ => None,
        }
    }
}

/// Access asked for by a map.
#[derive(Debug, Clone, Copy, PartialEq, Eq, Structural)]
pub enum MapType {
    Read,
    Write,
    ReadWrite,
    WriteDiscard,
    WriteNoOverwrite,
}

impl MapType {
    pub open spec fn code(self) -> u32 {
        match self {
            MapType::Read => 1,
            MapType::Write => 2,
            MapType::ReadWrite => 3,
            MapType::WriteDiscard => 4,
            MapType::WriteNoOverwrite => 5,
        }
    }

    /// Whether the map reads the resource's current contents.
    pub open spec fn spec_reads(self) -> bool {
        self == MapType::Read || self == MapType::ReadWrite
    }

    pub fn reads(&self) -> (r: bool)
        ensures
            r == self.spec_reads(),
    {
        match self {
            MapType::Read | MapType::ReadWrite => true,
            _ => false,
        }
    }

    /// The map type with wire code `v`, if there is one.
    pub fn from_u32(v: u32) -> (r: Option<MapType>)
        ensures
            r is Some <==> 1 <= v <= 5,
            r matches Some(m) ==> m.code() == v,
    {
        match v {
            1 => Some(MapType::Read),
            2 => Some(MapType::Write),
            3 => Some(MapType::ReadWrite),
            4 => Some(MapType::WriteDiscard),
            5 => Some(MapType::WriteNoOverwrite),
            _ => None,
        }
    }
}

/// The fixed 16-byte header that starts every record.
#[derive(Debug, Clone, Copy, PartialEq, Eq, Structural)]
pub struct CommandHeader {
    pub command_type: u32,
    /// Size of the whole record, header included, in bytes.
    pub command_size: u32,
    pub resource_id: u32,
    pub flags: u32,
}

impl CommandHeader {
    pub open spec fn parse(s: Seq<u8>) -> Self {
        CommandHeader {
            command_type: word_at(s, 0),
            command_size: word_at(s, 1),
            resource_id: word_at(s, 2),
            flags: word_at(s, 3),
        }
    }

    pub open spec fn spec_words(self) -> Seq<u32> {
        seq![self.command_type, self.command_size, self.resource_id, self.flags]
    }

    /// Reads the header at the start of `data`.
    pub fn read(data: &[u8]) -> (r: Self)
        requires
            data@.len() >= 16,
        ensures
            r == Self::parse(data@),
    {
        CommandHeader {
            command_type: read_word(data, 0),
            command_size: read_word(data, 1),
            resource_id: read_word(data, 2),
            flags: read_word(data, 3),
        }
    }

    /// Reads the header at the start of `data`; `None` when fewer than 16 bytes are there.
    pub fn decode(data: &[u8]) -> (r: Option<Self>)
        ensures
            data@.len() < 16 ==> r is None,
            data@.len() >= 16 ==> r == Some(Self::parse(data@)),
    {
        if data.len() < 16 {
            None
        } else {
            Some(Self::read(data))
        }
    }

    pub fn words(&self) -> (r: Vec<u32>)
        ensures
            r@ == self.spec_words(),
    {
        let mut ws: Vec<u32> = Vec::new();
        ws.push(self.command_type);
        ws.push(self.command_size);
        ws.push(self.resource_id);
        ws.push(self.flags);
        proof {
            assert(ws@ =~= self.spec_words());
        }
        ws
    }

    /// The 16 bytes of the header.
    pub fn encode(&self) -> (r: Vec<u8>)
        ensures
            r@ == words_bytes(self.spec_words()),
    {
        let ws = self.words();
        encode_words(ws.as_slice())
    }

    /// A record that starts with this header's words starts with this header.
    pub proof fn lemma_words_prefix(self, ws: Seq<u32>)
        requires
            ws.len() >= 4,
            ws.subrange(0, 4) == self.spec_words(),
        ensures
            Self::parse(words_bytes(ws)) == self,
    {
        lemma_words_bytes(ws);
        let s = words_bytes(ws);
        assert(ws[0] == ws.subrange(0, 4)[0]);
        assert(ws[1] == ws.subrange(0, 4)[1]);
        assert(ws[2] == ws.subrange(0, 4)[2]);
        assert(ws[3] == ws.subrange(0, 4)[3]);
        assert(word_at(s, 0) == ws[0]);
        assert(word_at(s, 1) == ws[1]);
        assert(word_at(s, 2) == ws[2]);
        assert(word_at(s, 3) == ws[3]);
    }

    /// Decoding the bytes of an encoded header gives back every field.
    pub proof fn lemma_decode_encode(self)
        ensures
            Self::parse(words_bytes(self.spec_words())) == self,
    {
        assert(self.spec_words().subrange(0, 4) =~= self.spec_words());
        self.lemma_words_prefix(self.spec_words());
    }
}

proof fn lemma_i32_word(v: i32)
    ensures
        (v as u32) as i32 == v,
{
    assert(((v as u32) as i32) == v) by (bit_vector);
}

proof fn lemma_u8_word(v: u8)
    ensures
        (((v as u32) & 0xff) as u8) == v,
{
    assert((((v as u32) & 0xff) as u8) == v) by (bit_vector);
}

/// Creates a texture, a buffer or a shader, with optional initial data in the heap.
#[derive(Debug, Clone, Copy, PartialEq, Eq, Structural)]
pub struct CmdCreateResource {
    pub header: CommandHeader,
    pub resource_type: u32,
    pub format: u32,
    pub width: u32,
    pub height: u32,
    pub depth: u32,
    pub mip_levels: u32,
    pub sample_count: u32,
    pub sample_quality: u32,
    pub bind_flags: u32,
    pub misc_flags: u32,
    pub heap_offset: u32,
    pub data_size: u32,
}

impl CmdCreateResource {
    /// Size of the record on the wire, in bytes.
    pub open spec fn spec_size() -> nat {
        64
    }

    /// The record whose fields are read from the start of `s`.
    pub open spec fn parse(s: Seq<u8>) -> Self {
        CmdCreateResource {
            header: CommandHeader::parse(s),
            resource_type: word_at(s, 4),
            format: word_at(s, 5),
            width: word_at(s, 6),
            height: word_at(s, 7),
            depth: word_at(s, 8),
            mip_levels: word_at(s, 9),
            sample_count: word_at(s, 10),
            sample_quality: word_at(s, 11),
            bind_flags: word_at(s, 12),
            misc_flags: word_at(s, 13),
            heap_offset: word_at(s, 14),
            data_size: word_at(s, 15),
        }
    }

    /// The words this library writes for the record: header, then fields.
    pub open spec fn spec_words(self) -> Seq<u32> {
        self.header.spec_words() + seq![self.resource_type, self.format, self.width, self.height, self.depth, self.mip_levels, self.sample_count, self.sample_quality, self.bind_flags, self.misc_flags, self.heap_offset, self.data_size]
    }

    /// Reads the record from the start of `data`; `None` when `data` is shorter than the record.
    pub fn decode(data: &[u8]) -> (r: Option<Self>)
        ensures
            data@.len() < Self::spec_size() ==> r is None,
            data@.len() >= Self::spec_size() ==> r == Some(Self::parse(data@)),
    {
        if data.len() < 64 {
            return None;
        }
        Some(CmdCreateResource {
            header: CommandHeader::read(data),
            resource_type: read_word(data, 4),
            format: read_word(data, 5),
            width: read_word(data, 6),
            height: read_word(data, 7),
            depth: read_word(data, 8),
            mip_levels: read_word(data, 9),
            sample_count: read_word(data, 10),
            sample_quality: read_word(data, 11),
            bind_flags: read_word(data, 12),
            misc_flags: read_word(data, 13),
            heap_offset: read_word(data, 14),
            data_size: read_word(data, 15),
        })
    }

    /// The bytes of the record's header and fields, each word little-endian.
    pub fn encode(&self) -> (r: Vec<u8>)
        ensures
            r@ == words_bytes(self.spec_words()),
    {
        let mut ws = self.header.words();
        ws.push(self.resource_type);
        ws.push(self.format);
        ws.push(self.width);
        ws.push(self.height);
        ws.push(self.depth);
        ws.push(self.mip_levels);
        ws.push(self.sample_count);
        ws.push(self.sample_quality);
        ws.push(self.bind_flags);
        ws.push(self.misc_flags);
        ws.push(self.heap_offset);
        ws.push(self.data_size);
        proof {
            assert(ws@ =~= self.spec_words());
        }
        encode_words(ws.as_slice())
    }

    /// Decoding the bytes of an encoded record gives back every field.
    pub proof fn lemma_decode_encode(self)
        ensures
            Self::parse(words_bytes(self.spec_words())) == self,
    {
        let ws = self.spec_words();
        lemma_words_bytes(ws);
        let s = words_bytes(ws);
        assert(ws.subrange(0, 4) =~= self.header.spec_words());
        self.header.lemma_words_prefix(ws);
        assert(word_at(s, 4) == ws[4]);
        assert(word_at(s, 5) == ws[5]);
        assert(word_at(s, 6) == ws[6]);
        assert(word_at(s, 7) == ws[7]);
        assert(word_at(s, 8) == ws[8]);
        assert(word_at(s, 9) == ws[9]);
        assert(word_at(s, 10) == ws[10]);
        assert(word_at(s, 11) == ws[11]);
        assert(word_at(s, 12) == ws[12]);
        assert(word_at(s, 13) == ws[13]);
        assert(word_at(s, 14) == ws[14]);
        assert(word_at(s, 15) == ws[15]);
    }
}

/// Aliases the id in the header onto the live resource `shared_handle`.
#[derive(Debug, Clone, Copy, PartialEq, Eq, Structural)]
pub struct CmdOpenResource {
    pub header: CommandHeader,
    pub shared_handle: u32,
    pub resource_type: u32,
    pub format: u32,
    pub width: u32,
    pub height: u32,
    pub bind_flags: u32,
    pub misc_flags: u32,
}

impl CmdOpenResource {
    /// Size of the record on the wire, in bytes.
    pub open spec fn spec_size() -> nat {
        44
    }

    /// The record whose fields are read from the start of `s`.
    pub open spec fn parse(s: Seq<u8>) -> Self {
        CmdOpenResource {
            header: CommandHeader::parse(s),
            shared_handle: word_at(s, 4),
            resource_type: word_at(s, 5),
            format: word_at(s, 6),
            width: word_at(s, 7),
            height: word_at(s, 8),
            bind_flags: word_at(s, 9),
            misc_flags: word_at(s, 10),
        }
    }

    /// The words this library writes for the record: header, then fields.
    pub open spec fn spec_words(self) -> Seq<u32> {
        self.header.spec_words() + seq![self.shared_handle, self.resource_type, self.format, self.width, self.height, self.bind_flags, self.misc_flags]
    }

    /// Reads the record from the start of `data`; `None` when `data` is shorter than the record.
    pub fn decode(data: &[u8]) -> (r: Option<Self>)
        ensures
            data@.len() < Self::spec_size() ==> r is None,
            data@.len() >= Self::spec_size() ==> r == Some(Self::parse(data@)),
    {
        if data.len() < 44 {
            return None;
        }
        Some(CmdOpenResource {
            header: CommandHeader::read(data),
            shared_handle: read_word(data, 4),
            resource_type: read_word(data, 5),
            format: read_word(data, 6),
            width: read_word(data, 7),
            height: read_word(data, 8),
            bind_flags: read_word(data, 9),
            misc_flags: read_word(data, 10),
        })
    }

    /// The bytes of the record's header and fields, each word little-endian.
    pub fn encode(&self) -> (r: Vec<u8>)
        ensures
            r@ == words_bytes(self.spec_words()),
    {
        let mut ws = self.header.words();
        ws.push(self.shared_handle);
        ws.push(self.resource_type);
        ws.push(self.format);
        ws.push(self.width);
        ws.push(self.height);
        ws.push(self.bind_flags);
        ws.push(self.misc_flags);
        proof {
            assert(ws@ =~= self.spec_words());
        }
        encode_words(ws.as_slice())
    }

    /// Decoding the bytes of an encoded record gives back every field.
    pub proof fn lemma_decode_encode(self)
        ensures
            Self::parse(words_bytes(self.spec_words())) == self,
    {
        let ws = self.spec_words();
        lemma_words_bytes(ws);
        let s = words_bytes(ws);
        assert(ws.subrange(0, 4) =~= self.header.spec_words());
        self.header.lemma_words_prefix(ws);
        assert(word_at(s, 4) == ws[4]);
        assert(word_at(s, 5) == ws[5]);
        assert(word_at(s, 6) == ws[6]);
        assert(word_at(s, 7) == ws[7]);
        assert(word_at(s, 8) == ws[8]);
        assert(word_at(s, 9) == ws[9]);
        assert(word_at(s, 10) == ws[10]);
    }
}

/// Binds shader `shader_id` (0 unbinds) to pipeline stage `stage`.
#[derive(Debug, Clone, Copy, PartialEq, Eq, Structural)]
pub struct CmdSetShader {
    pub header: CommandHeader,
    pub stage: u32,
    pub shader_id: u32,
}

impl CmdSetShader {
    /// Size of the record on the wire, in bytes.
    pub open spec fn spec_size() -> nat {
        24
    }

    /// The record whose fields are read from the start of `s`.
    pub open spec fn parse(s: Seq<u8>) -> Self {
        CmdSetShader {
            header: CommandHeader::parse(s),
            stage: word_at(s, 4),
            shader_id: word_at(s, 5),
        }
    }

    /// The words this library writes for the record: header, then fields.
    pub open spec fn spec_words(self) -> Seq<u32> {
        self.header.spec_words() + seq![self.stage, self.shader_id]
    }

    /// Reads the record from the start of `data`; `None` when `data` is shorter than the record.
    pub fn decode(data: &[u8]) -> (r: Option<Self>)
        ensures
            data@.len() < Self::spec_size() ==> r is None,
            data@.len() >= Self::spec_size() ==> r == Some(Self::parse(data@)),
    {
        if data.len() < 24 {
            return None;
        }
        Some(CmdSetShader {
            header: CommandHeader::read(data),
            stage: read_word(data, 4),
            shader_id: read_word(data, 5),
        })
    }

    /// The bytes of the record's header and fields, each word little-endian.
    pub fn encode(&self) -> (r: Vec<u8>)
        ensures
            r@ == words_bytes(self.spec_words()),
    {
        let mut ws = self.header.words();
        ws.push(self.stage);
        ws.push(self.shader_id);
        proof {
            assert(ws@ =~= self.spec_words());
        }
        encode_words(ws.as_slice())
    }

    /// Decoding the bytes of an encoded record gives back every field.
    pub proof fn lemma_decode_encode(self)
        ensures
            Self::parse(words_bytes(self.spec_words())) == self,
    {
        let ws = self.spec_words();
        lemma_words_bytes(ws);
        let s = words_bytes(ws);
        assert(ws.subrange(0, 4) =~= self.header.spec_words());
        self.header.lemma_words_prefix(ws);
        assert(word_at(s, 4) == ws[4]);
        assert(word_at(s, 5) == ws[5]);
    }
}

/// Creates a shader of stage `shader_type` from bytecode in the heap.
#[derive(Debug, Clone, Copy, PartialEq, Eq, Structural)]
pub struct CmdCreateShader {
    pub header: CommandHeader,
    pub shader_id: u32,
    pub shader_type: u32,
    pub bytecode_size: u32,
    pub bytecode_offset: u32,
}

impl CmdCreateShader {
    /// Size of the record on the wire, in bytes.
    pub open spec fn spec_size() -> nat {
        32
    }

    /// The record whose fields are read from the start of `s`.
    pub open spec fn parse(s: Seq<u8>) -> Self {
        CmdCreateShader {
            header: CommandHeader::parse(s),
            shader_id: word_at(s, 4),
            shader_type: word_at(s, 5),
            bytecode_size: word_at(s, 6),
            bytecode_offset: word_at(s, 7),
        }
    }

    /// The words this library writes for the record: header, then fields.
    pub open spec fn spec_words(self) -> Seq<u32> {
        self.header.spec_words() + seq![self.shader_id, self.shader_type, self.bytecode_size, self.bytecode_offset]
    }

    /// Reads the record from the start of `data`; `None` when `data` is shorter than the record.
    pub fn decode(data: &[u8]) -> (r: Option<Self>)
        ensures
            data@.len() < Self::spec_size() ==> r is None,
            data@.len() >= Self::spec_size() ==> r == Some(Self::parse(data@)),
    {
        if data.len() < 32 {
            return None;
        }
        Some(CmdCreateShader {
            header: CommandHeader::read(data),
            shader_id: read_word(data, 4),
            shader_type: read_word(data, 5),
            bytecode_size: read_word(data, 6),
            bytecode_offset: read_word(data, 7),
        })
    }

    /// The bytes of the record's header and fields, each word little-endian.
    pub fn encode(&self) -> (r: Vec<u8>)
        ensures
            r@ == words_bytes(self.spec_words()),
    {
        let mut ws = self.header.words();
        ws.push(self.shader_id);
        ws.push(self.shader_type);
        ws.push(self.bytecode_size);
        ws.push(self.bytecode_offset);
        proof {
            assert(ws@ =~= self.spec_words());
        }
        encode_words(ws.as_slice())
    }

    /// Decoding the bytes of an encoded record gives back every field.
    pub proof fn lemma_decode_encode(self)
        ensures
            Self::parse(words_bytes(self.spec_words())) == self,
    {
        let ws = self.spec_words();
        lemma_words_bytes(ws);
        let s = words_bytes(ws);
        assert(ws.subrange(0, 4) =~= self.header.spec_words());
        self.header.lemma_words_prefix(ws);
        assert(word_at(s, 4) == ws[4]);
        assert(word_at(s, 5) == ws[5]);
        assert(word_at(s, 6) == ws[6]);
        assert(word_at(s, 7) == ws[7]);
    }
}

/// Destroys shader `shader_id`.
#[derive(Debug, Clone, Copy, PartialEq, Eq, Structural)]
pub struct CmdDestroyShader {
    pub header: CommandHeader,
    pub shader_id: u32,
}

impl CmdDestroyShader {
    /// Size of the record on the wire, in bytes.
    pub open spec fn spec_size() -> nat {
        32
    }

    /// The record whose fields are read from the start of `s`.
    pub open spec fn parse(s: Seq<u8>) -> Self {
        CmdDestroyShader {
            header: CommandHeader::parse(s),
            shader_id: word_at(s, 4),
        }
    }

    /// The words this library writes for the record: header, then fields.
    pub open spec fn spec_words(self) -> Seq<u32> {
        self.header.spec_words() + seq![self.shader_id, 0u32, 0u32, 0u32]
    }

    /// Reads the record from the start of `data`; `None` when `data` is shorter than the record.
    pub fn decode(data: &[u8]) -> (r: Option<Self>)
        ensures
            data@.len() < Self::spec_size() ==> r is None,
            data@.len() >= Self::spec_size() ==> r == Some(Self::parse(data@)),
    {
        if data.len() < 32 {
            return None;
        }
        Some(CmdDestroyShader {
            header: CommandHeader::read(data),
            shader_id: read_word(data, 4),
        })
    }

    /// The bytes of the record's header and fields, each word little-endian.
    pub fn encode(&self) -> (r: Vec<u8>)
        ensures
            r@ == words_bytes(self.spec_words()),
    {
        let mut ws = self.header.words();
        ws.push(self.shader_id);
        ws.push(0u32);
        ws.push(0u32);
        ws.push(0u32);
        proof {
            assert(ws@ =~= self.spec_words());
        }
        encode_words(ws.as_slice())
    }

    /// Decoding the bytes of an encoded record gives back every field.
    pub proof fn lemma_decode_encode(self)
        ensures
            Self::parse(words_bytes(self.spec_words())) == self,
    {
        let ws = self.spec_words();
        lemma_words_bytes(ws);
        let s = words_bytes(ws);
        assert(ws.subrange(0, 4) =~= self.header.spec_words());
        self.header.lemma_words_prefix(ws);
        assert(word_at(s, 4) == ws[4]);
    }
}

/// Non-indexed draw.
#[derive(Debug, Clone, Copy, PartialEq, Eq, Structural)]
pub struct CmdDraw {
    pub header: CommandHeader,
    pub vertex_count: u32,
    pub start_vertex: u32,
}

impl CmdDraw {
    /// Size of the record on the wire, in bytes.
    pub open spec fn spec_size() -> nat {
        32
    }

    /// The record whose fields are read from the start of `s`.
    pub open spec fn parse(s: Seq<u8>) -> Self {
        CmdDraw {
            header: CommandHeader::parse(s),
            vertex_count: word_at(s, 4),
            start_vertex: word_at(s, 5),
        }
    }

    /// The words this library writes for the record: header, then fields.
    pub open spec fn spec_words(self) -> Seq<u32> {
        self.header.spec_words() + seq![self.vertex_count, self.start_vertex, 0u32, 0u32]
    }

    /// Reads the record from the start of `data`; `None` when `data` is shorter than the record.
    pub fn decode(data: &[u8]) -> (r: Option<Self>)
        ensures
            data@.len() < Self::spec_size() ==> r is None,
            data@.len() >= Self::spec_size() ==> r == Some(Self::parse(data@)),
    {
        if data.len() < 32 {
            return None;
        }
        Some(CmdDraw {
            header: CommandHeader::read(data),
            vertex_count: read_word(data, 4),
            start_vertex: read_word(data, 5),
        })
    }

    /// The bytes of the record's header and fields, each word little-endian.
    pub fn encode(&self) -> (r: Vec<u8>)
        ensures
            r@ == words_bytes(self.spec_words()),
    {
        let mut ws = self.header.words();
        ws.push(self.vertex_count);
        ws.push(self.start_vertex);
        ws.push(0u32);
        ws.push(0u32);
        proof {
            assert(ws@ =~= self.spec_words());
        }
        encode_words(ws.as_slice())
    }

    /// Decoding the bytes of an encoded record gives back every field.
    pub proof fn lemma_decode_encode(self)
        ensures
            Self::parse(words_bytes(self.spec_words())) == self,
    {
        let ws = self.spec_words();
        lemma_words_bytes(ws);
        let s = words_bytes(ws);
        assert(ws.subrange(0, 4) =~= self.header.spec_words());
        self.header.lemma_words_prefix(ws);
        assert(word_at(s, 4) == ws[4]);
        assert(word_at(s, 5) == ws[5]);
    }
}

/// Indexed draw.
#[derive(Debug, Clone, Copy, PartialEq, Eq, Structural)]
pub struct CmdDrawIndexed {
    pub header: CommandHeader,
    pub index_count: u32,
    pub start_index: u32,
    pub base_vertex: i32,
}

impl CmdDrawIndexed {
    /// Size of the record on the wire, in bytes.
    pub open spec fn spec_size() -> nat {
        32
    }

    /// The record whose fields are read from the start of `s`.
    pub open spec fn parse(s: Seq<u8>) -> Self {
        CmdDrawIndexed {
            header: CommandHeader::parse(s),
            index_count: word_at(s, 4),
            start_index: word_at(s, 5),
            base_vertex: word_at(s, 6) as i32,
        }
    }

    /// The words this library writes for the record: header, then fields.
    pub open spec fn spec_words(self) -> Seq<u32> {
        self.header.spec_words() + seq![self.index_count, self.start_index, self.base_vertex as u32, 0u32]
    }

    /// Reads the record from the start of `data`; `None` when `data` is shorter than the record.
    pub fn decode(data: &[u8]) -> (r: Option<Self>)
        ensures
            data@.len() < Self::spec_size() ==> r is None,
            data@.len() >= Self::spec_size() ==> r == Some(Self::parse(data@)),
    {
        if data.len() < 32 {
            return None;
        }
        Some(CmdDrawIndexed {
            header: CommandHeader::read(data),
            index_count: read_word(data, 4),
            start_index: read_word(data, 5),
            base_vertex: read_word(data, 6) as i32,
        })
    }

    /// The bytes of the record's header and fields, each word little-endian.
    pub fn encode(&self) -> (r: Vec<u8>)
        ensures
            r@ == words_bytes(self.spec_words()),
    {
        let mut ws = self.header.words();
        ws.push(self.index_count);
        ws.push(self.start_index);
        ws.push(self.base_vertex as u32);
        ws.push(0u32);
        proof {
            assert(ws@ =~= self.spec_words());
        }
        encode_words(ws.as_slice())
    }

    /// Decoding the bytes of an encoded record gives back every field.
    pub proof fn lemma_decode_encode(self)
        ensures
            Self::parse(words_bytes(self.spec_words())) == self,
    {
        let ws = self.spec_words();
        lemma_words_bytes(ws);
        let s = words_bytes(ws);
        assert(ws.subrange(0, 4) =~= self.header.spec_words());
        self.header.lemma_words_prefix(ws);
        assert(word_at(s, 4) == ws[4]);
        assert(word_at(s, 5) == ws[5]);
        assert(word_at(s, 6) == ws[6]);
        lemma_i32_word(self.base_vertex);
    }
}

/// Marks the completion point `fence_value`.
#[derive(Debug, Clone, Copy, PartialEq, Eq, Structural)]
pub struct CmdFence {
    pub header: CommandHeader,
    pub fence_value: u64,
}

impl CmdFence {
    /// Size of the record on the wire, in bytes.
    pub open spec fn spec_size() -> nat {
        24
    }

    /// The record whose fields are read from the start of `s`.
    pub open spec fn parse(s: Seq<u8>) -> Self {
        CmdFence {
            header: CommandHeader::parse(s),
            fence_value: dword_at(s, 4),
        }
    }

    /// The words this library writes for the record: header, then fields.
    pub open spec fn spec_words(self) -> Seq<u32> {
        self.header.spec_words() + seq![lo32(self.fence_value), hi32(self.fence_value)]
    }

    /// Reads the record from the start of `data`; `None` when `data` is shorter than the record.
    pub fn decode(data: &[u8]) -> (r: Option<Self>)
        ensures
            data@.len() < Self::spec_size() ==> r is None,
            data@.len() >= Self::spec_size() ==> r == Some(Self::parse(data@)),
    {
        if data.len() < 24 {
            return None;
        }
        Some(CmdFence {
            header: CommandHeader::read(data),
            fence_value: read_dword(data, 4),
        })
    }

    /// The bytes of the record's header and fields, each word little-endian.
    pub fn encode(&self) -> (r: Vec<u8>)
        ensures
            r@ == words_bytes(self.spec_words()),
    {
        let mut ws = self.header.words();
        ws.push((self.fence_value & 0xffff_ffff) as u32);
        ws.push((self.fence_value >> 32u64) as u32);
        proof {
            assert(ws@ =~= self.spec_words());
        }
        encode_words(ws.as_slice())
    }

    /// Decoding the bytes of an encoded record gives back every field.
    pub proof fn lemma_decode_encode(self)
        ensures
            Self::parse(words_bytes(self.spec_words())) == self,
    {
        let ws = self.spec_words();
        lemma_words_bytes(ws);
        let s = words_bytes(ws);
        assert(ws.subrange(0, 4) =~= self.header.spec_words());
        self.header.lemma_words_prefix(ws);
        assert(word_at(s, 4) == ws[4]);
        assert(word_at(s, 5) == ws[5]);
        lemma_halves(self.fence_value);
    }
}

/// Asks for `backbuffer_id` to be presented.
#[derive(Debug, Clone, Copy, PartialEq, Eq, Structural)]
pub struct CmdPresent {
    pub header: CommandHeader,
    pub backbuffer_id: u32,
    pub sync_interval: u32,
    pub flags: u32,
}

impl CmdPresent {
    /// Size of the record on the wire, in bytes.
    pub open spec fn spec_size() -> nat {
        32
    }

    /// The record whose fields are read from the start of `s`.
    pub open spec fn parse(s: Seq<u8>) -> Self {
        CmdPresent {
            header: CommandHeader::parse(s),
            backbuffer_id: word_at(s, 4),
            sync_interval: word_at(s, 5),
            flags: word_at(s, 6),
        }
    }

    /// The words this library writes for the record: header, then fields.
    pub open spec fn spec_words(self) -> Seq<u32> {
        self.header.spec_words() + seq![self.backbuffer_id, self.sync_interval, self.flags, 0u32]
    }

    /// Reads the record from the start of `data`; `None` when `data` is shorter than the record.
    pub fn decode(data: &[u8]) -> (r: Option<Self>)
        ensures
            data@.len() < Self::spec_size() ==> r is None,
            data@.len() >= Self::spec_size() ==> r == Some(Self::parse(data@)),
    {
        if data.len() < 32 {
            return None;
        }
        Some(CmdPresent {
            header: CommandHeader::read(data),
            backbuffer_id: read_word(data, 4),
            sync_interval: read_word(data, 5),
            flags: read_word(data, 6),
        })
    }

    /// The bytes of the record's header and fields, each word little-endian.
    pub fn encode(&self) -> (r: Vec<u8>)
        ensures
            r@ == words_bytes(self.spec_words()),
    {
        let mut ws = self.header.words();
        ws.push(self.backbuffer_id);
        ws.push(self.sync_interval);
        ws.push(self.flags);
        ws.push(0u32);
        proof {
            assert(ws@ =~= self.spec_words());
        }
        encode_words(ws.as_slice())
    }

    /// Decoding the bytes of an encoded record gives back every field.
    pub proof fn lemma_decode_encode(self)
        ensures
            Self::parse(words_bytes(self.spec_words())) == self,
    {
        let ws = self.spec_words();
        lemma_words_bytes(ws);
        let s = words_bytes(ws);
        assert(ws.subrange(0, 4) =~= self.header.spec_words());
        self.header.lemma_words_prefix(ws);
        assert(word_at(s, 4) == ws[4]);
        assert(word_at(s, 5) == ws[5]);
        assert(word_at(s, 6) == ws[6]);
    }
}

/// Binds the index buffer (0 unbinds).
#[derive(Debug, Clone, Copy, PartialEq, Eq, Structural)]
pub struct CmdSetIndexBuffer {
    pub header: CommandHeader,
    pub buffer_id: u32,
    pub format: u32,
    pub offset: u32,
}

impl CmdSetIndexBuffer {
    /// Size of the record on the wire, in bytes.
    pub open spec fn spec_size() -> nat {
        32
    }

    /// The record whose fields are read from the start of `s`.
    pub open spec fn parse(s: Seq<u8>) -> Self {
        CmdSetIndexBuffer {
            header: CommandHeader::parse(s),
            buffer_id: word_at(s, 4),
            format: word_at(s, 5),
            offset: word_at(s, 6),
        }
    }

    /// The words this library writes for the record: header, then fields.
    pub open spec fn spec_words(self) -> Seq<u32> {
        self.header.spec_words() + seq![self.buffer_id, self.format, self.offset, 0u32]
    }

    /// Reads the record from the start of `data`; `None` when `data` is shorter than the record.
    pub fn decode(data: &[u8]) -> (r: Option<Self>)
        ensures
            data@.len() < Self::spec_size() ==> r is None,
            data@.len() >= Self::spec_size() ==> r == Some(Self::parse(data@)),
    {
        if data.len() < 32 {
            return None;
        }
        Some(CmdSetIndexBuffer {
            header: CommandHeader::read(data),
            buffer_id: read_word(data, 4),
            format: read_word(data, 5),
            offset: read_word(data, 6),
        })
    }

    /// The bytes of the record's header and fields, each word little-endian.
    pub fn encode(&self) -> (r: Vec<u8>)
        ensures
            r@ == words_bytes(self.spec_words()),
    {
        let mut ws = self.header.words();
        ws.push(self.buffer_id);
        ws.push(self.format);
        ws.push(self.offset);
        ws.push(0u32);
        proof {
            assert(ws@ =~= self.spec_words());
        }
        encode_words(ws.as_slice())
    }

    /// Decoding the bytes of an encoded record gives back every field.
    pub proof fn lemma_decode_encode(self)
        ensures
            Self::parse(words_bytes(self.spec_words())) == self,
    {
        let ws = self.spec_words();
        lemma_words_bytes(ws);
        let s = words_bytes(ws);
        assert(ws.subrange(0, 4) =~= self.header.spec_words());
        self.header.lemma_words_prefix(ws);
        assert(word_at(s, 4) == ws[4]);
        assert(word_at(s, 5) == ws[5]);
        assert(word_at(s, 6) == ws[6]);
    }
}

/// Binds a constant buffer of a shader stage (0 unbinds).
#[derive(Debug, Clone, Copy, PartialEq, Eq, Structural)]
pub struct CmdSetConstantBuffer {
    pub header: CommandHeader,
    pub stage: u32,
    pub slot: u32,
    pub buffer_id: u32,
    pub offset: u32,
    pub size: u32,
}

impl CmdSetConstantBuffer {
    /// Size of the record on the wire, in bytes.
    pub open spec fn spec_size() -> nat {
        36
    }

    /// The record whose fields are read from the start of `s`.
    pub open spec fn parse(s: Seq<u8>) -> Self {
        CmdSetConstantBuffer {
            header: CommandHeader::parse(s),
            stage: word_at(s, 4),
            slot: word_at(s, 5),
            buffer_id: word_at(s, 6),
            offset: word_at(s, 7),
            size: word_at(s, 8),
        }
    }

    /// The words this library writes for the record: header, then fields.
    pub open spec fn spec_words(self) -> Seq<u32> {
        self.header.spec_words() + seq![self.stage, self.slot, self.buffer_id, self.offset, self.size]
    }

    /// Reads the record from the start of `data`; `None` when `data` is shorter than the record.
    pub fn decode(data: &[u8]) -> (r: Option<Self>)
        ensures
            data@.len() < Self::spec_size() ==> r is None,
            data@.len() >= Self::spec_size() ==> r == Some(Self::parse(data@)),
    {
        if data.len() < 36 {
            return None;
        }
        Some(CmdSetConstantBuffer {
            header: CommandHeader::read(data),
            stage: read_word(data, 4),
            slot: read_word(data, 5),
            buffer_id: read_word(data, 6),
            offset: read_word(data, 7),
            size: read_word(data, 8),
        })
    }

    /// The bytes of the record's header and fields, each word little-endian.
    pub fn encode(&self) -> (r: Vec<u8>)
        ensures
            r@ == words_bytes(self.spec_words()),
    {
        let mut ws = self.header.words();
        ws.push(self.stage);
        ws.push(self.slot);
        ws.push(self.buffer_id);
        ws.push(self.offset);
        ws.push(self.size);
        proof {
            assert(ws@ =~= self.spec_words());
        }
        encode_words(ws.as_slice())
    }

    /// Decoding the bytes of an encoded record gives back every field.
    pub proof fn lemma_decode_encode(self)
        ensures
            Self::parse(words_bytes(self.spec_words())) == self,
    {
        let ws = self.spec_words();
        lemma_words_bytes(ws);
        let s = words_bytes(ws);
        assert(ws.subrange(0, 4) =~= self.header.spec_words());
        self.header.lemma_words_prefix(ws);
        assert(word_at(s, 4) == ws[4]);
        assert(word_at(s, 5) == ws[5]);
        assert(word_at(s, 6) == ws[6]);
        assert(word_at(s, 7) == ws[7]);
        assert(word_at(s, 8) == ws[8]);
    }
}

/// Binds an input layout (0 unbinds).
#[derive(Debug, Clone, Copy, PartialEq, Eq, Structural)]
pub struct CmdSetInputLayout {
    pub header: CommandHeader,
    pub layout_id: u32,
}

impl CmdSetInputLayout {
    /// Size of the record on the wire, in bytes.
    pub open spec fn spec_size() -> nat {
        32
    }

    /// The record whose fields are read from the start of `s`.
    pub open spec fn parse(s: Seq<u8>) -> Self {
        CmdSetInputLayout {
            header: CommandHeader::parse(s),
            layout_id: word_at(s, 4),
        }
    }

    /// The words this library writes for the record: header, then fields.
    pub open spec fn spec_words(self) -> Seq<u32> {
        self.header.spec_words() + seq![self.layout_id, 0u32, 0u32, 0u32]
    }

    /// Reads the record from the start of `data`; `None` when `data` is shorter than the record.
    pub fn decode(data: &[u8]) -> (r: Option<Self>)
        ensures
            data@.len() < Self::spec_size() ==> r is None,
            data@.len() >= Self::spec_size() ==> r == Some(Self::parse(data@)),
    {
        if data.len() < 32 {
            return None;
        }
        Some(CmdSetInputLayout {
            header: CommandHeader::read(data),
            layout_id: read_word(data, 4),
        })
    }

    /// The bytes of the record's header and fields, each word little-endian.
    pub fn encode(&self) -> (r: Vec<u8>)
        ensures
            r@ == words_bytes(self.spec_words()),
    {
        let mut ws = self.header.words();
        ws.push(self.layout_id);
        ws.push(0u32);
        ws.push(0u32);
        ws.push(0u32);
        proof {
            assert(ws@ =~= self.spec_words());
        }
        encode_words(ws.as_slice())
    }

    /// Decoding the bytes of an encoded record gives back every field.
    pub proof fn lemma_decode_encode(self)
        ensures
            Self::parse(words_bytes(self.spec_words())) == self,
    {
        let ws = self.spec_words();
        lemma_words_bytes(ws);
        let s = words_bytes(ws);
        assert(ws.subrange(0, 4) =~= self.header.spec_words());
        self.header.lemma_words_prefix(ws);
        assert(word_at(s, 4) == ws[4]);
    }
}

/// Sets the primitive topology.
#[derive(Debug, Clone, Copy, PartialEq, Eq, Structural)]
pub struct CmdSetPrimitiveTopology {
    pub header: CommandHeader,
    pub topology: u32,
}

impl CmdSetPrimitiveTopology {
    /// Size of the record on the wire, in bytes.
    pub open spec fn spec_size() -> nat {
        32
    }

    /// The record whose fields are read from the start of `s`.
    pub open spec fn parse(s: Seq<u8>) -> Self {
        CmdSetPrimitiveTopology {
            header: CommandHeader::parse(s),
            topology: word_at(s, 4),
        }
    }

    /// The words this library writes for the record: header, then fields.
    pub open spec fn spec_words(self) -> Seq<u32> {
        self.header.spec_words() + seq![self.topology, 0u32, 0u32, 0u32]
    }

    /// Reads the record from the start of `data`; `None` when `data` is shorter than the record.
    pub fn decode(data: &[u8]) -> (r: Option<Self>)
        ensures
            data@.len() < Self::spec_size() ==> r is None,
            data@.len() >= Self::spec_size() ==> r == Some(Self::parse(data@)),
    {
        if data.len() < 32 {
            return None;
        }
        Some(CmdSetPrimitiveTopology {
            header: CommandHeader::read(data),
            topology: read_word(data, 4),
        })
    }

    /// The bytes of the record's header and fields, each word little-endian.
    pub fn encode(&self) -> (r: Vec<u8>)
        ensures
            r@ == words_bytes(self.spec_words()),
    {
        let mut ws = self.header.words();
        ws.push(self.topology);
        ws.push(0u32);
        ws.push(0u32);
        ws.push(0u32);
        proof {
            assert(ws@ =~= self.spec_words());
        }
        encode_words(ws.as_slice())
    }

    /// Decoding the bytes of an encoded record gives back every field.
    pub proof fn lemma_decode_encode(self)
        ensures
            Self::parse(words_bytes(self.spec_words())) == self,
    {
        let ws = self.spec_words();
        lemma_words_bytes(ws);
        let s = words_bytes(ws);
        assert(ws.subrange(0, 4) =~= self.header.spec_words());
        self.header.lemma_words_prefix(ws);
        assert(word_at(s, 4) == ws[4]);
    }
}

/// Binds a rasterizer state (0 unbinds).
#[derive(Debug, Clone, Copy, PartialEq, Eq, Structural)]
pub struct CmdSetRasterizerState {
    pub header: CommandHeader,
    pub state_id: u32,
}

impl CmdSetRasterizerState {
    /// Size of the record on the wire, in bytes.
    pub open spec fn spec_size() -> nat {
        32
    }

    /// The record whose fields are read from the start of `s`.
    pub open spec fn parse(s: Seq<u8>) -> Self {
        CmdSetRasterizerState {
            header: CommandHeader::parse(s),
            state_id: word_at(s, 4),
        }
    }

    /// The words this library writes for the record: header, then fields.
    pub open spec fn spec_words(self) -> Seq<u32> {
        self.header.spec_words() + seq![self.state_id, 0u32, 0u32, 0u32]
    }

    /// Reads the record from the start of `data`; `None` when `data` is shorter than the record.
    pub fn decode(data: &[u8]) -> (r: Option<Self>)
        ensures
            data@.len() < Self::spec_size() ==> r is None,
            data@.len() >= Self::spec_size() ==> r == Some(Self::parse(data@)),
    {
        if data.len() < 32 {
            return None;
        }
        Some(CmdSetRasterizerState {
            header: CommandHeader::read(data),
            state_id: read_word(data, 4),
        })
    }

    /// The bytes of the record's header and fields, each word little-endian.
    pub fn encode(&self) -> (r: Vec<u8>)
        ensures
            r@ == words_bytes(self.spec_words()),
    {
        let mut ws = self.header.words();
        ws.push(self.state_id);
        ws.push(0u32);
        ws.push(0u32);
        ws.push(0u32);
        proof {
            assert(ws@ =~= self.spec_words());
        }
        encode_words(ws.as_slice())
    }

    /// Decoding the bytes of an encoded record gives back every field.
    pub proof fn lemma_decode_encode(self)
        ensures
            Self::parse(words_bytes(self.spec_words())) == self,
    {
        let ws = self.spec_words();
        lemma_words_bytes(ws);
        let s = words_bytes(ws);
        assert(ws.subrange(0, 4) =~= self.header.spec_words());
        self.header.lemma_words_prefix(ws);
        assert(word_at(s, 4) == ws[4]);
    }
}

/// Binds a depth-stencil state (0 unbinds).
#[derive(Debug, Clone, Copy, PartialEq, Eq, Structural)]
pub struct CmdSetDepthStencil {
    pub header: CommandHeader,
    pub state_id: u32,
    pub stencil_ref: u32,
}

impl CmdSetDepthStencil {
    /// Size of the record on the wire, in bytes.
    pub open spec fn spec_size() -> nat {
        32
    }

    /// The record whose fields are read from the start of `s`.
    pub open spec fn parse(s: Seq<u8>) -> Self {
        CmdSetDepthStencil {
            header: CommandHeader::parse(s),
            state_id: word_at(s, 4),
            stencil_ref: word_at(s, 5),
        }
    }

    /// The words this library writes for the record: header, then fields.
    pub open spec fn spec_words(self) -> Seq<u32> {
        self.header.spec_words() + seq![self.state_id, self.stencil_ref, 0u32, 0u32]
    }

    /// Reads the record from the start of `data`; `None` when `data` is shorter than the record.
    pub fn decode(data: &[u8]) -> (r: Option<Self>)
        ensures
            data@.len() < Self::spec_size() ==> r is None,
            data@.len() >= Self::spec_size() ==> r == Some(Self::parse(data@)),
    {
        if data.len() < 32 {
            return None;
        }
        Some(CmdSetDepthStencil {
            header: CommandHeader::read(data),
            state_id: read_word(data, 4),
            stencil_ref: read_word(data, 5),
        })
    }

    /// The bytes of the record's header and fields, each word little-endian.
    pub fn encode(&self) -> (r: Vec<u8>)
        ensures
            r@ == words_bytes(self.spec_words()),
    {
        let mut ws = self.header.words();
        ws.push(self.state_id);
        ws.push(self.stencil_ref);
        ws.push(0u32);
        ws.push(0u32);
        proof {
            assert(ws@ =~= self.spec_words());
        }
        encode_words(ws.as_slice())
    }

    /// Decoding the bytes of an encoded record gives back every field.
    pub proof fn lemma_decode_encode(self)
        ensures
            Self::parse(words_bytes(self.spec_words())) == self,
    {
        let ws = self.spec_words();
        lemma_words_bytes(ws);
        let s = words_bytes(ws);
        assert(ws.subrange(0, 4) =~= self.header.spec_words());
        self.header.lemma_words_prefix(ws);
        assert(word_at(s, 4) == ws[4]);
        assert(word_at(s, 5) == ws[5]);
    }
}

/// Instanced draw.
#[derive(Debug, Clone, Copy, PartialEq, Eq, Structural)]
pub struct CmdDrawInstanced {
    pub header: CommandHeader,
    pub vertex_count: u32,
    pub instance_count: u32,
    pub start_vertex: u32,
    pub start_instance: u32,
}

impl CmdDrawInstanced {
    /// Size of the record on the wire, in bytes.
    pub open spec fn spec_size() -> nat {
        32
    }

    /// The record whose fields are read from the start of `s`.
    pub open spec fn parse(s: Seq<u8>) -> Self {
        CmdDrawInstanced {
            header: CommandHeader::parse(s),
            vertex_count: word_at(s, 4),
            instance_count: word_at(s, 5),
            start_vertex: word_at(s, 6),
            start_instance: word_at(s, 7),
        }
    }

    /// The words this library writes for the record: header, then fields.
    pub open spec fn spec_words(self) -> Seq<u32> {
        self.header.spec_words() + seq![self.vertex_count, self.instance_count, self.start_vertex, self.start_instance]
    }

    /// Reads the record from the start of `data`; `None` when `data` is shorter than the record.
    pub fn decode(data: &[u8]) -> (r: Option<Self>)
        ensures
            data@.len() < Self::spec_size() ==> r is None,
            data@.len() >= Self::spec_size() ==> r == Some(Self::parse(data@)),
    {
        if data.len() < 32 {
            return None;
        }
        Some(CmdDrawInstanced {
            header: CommandHeader::read(data),
            vertex_count: read_word(data, 4),
            instance_count: read_word(data, 5),
            start_vertex: read_word(data, 6),
            start_instance: read_word(data, 7),
        })
    }

    /// The bytes of the record's header and fields, each word little-endian.
    pub fn encode(&self) -> (r: Vec<u8>)
        ensures
            r@ == words_bytes(self.spec_words()),
    {
        let mut ws = self.header.words();
        ws.push(self.vertex_count);
        ws.push(self.instance_count);
        ws.push(self.start_vertex);
        ws.push(self.start_instance);
        proof {
            assert(ws@ =~= self.spec_words());
        }
        encode_words(ws.as_slice())
    }

    /// Decoding the bytes of an encoded record gives back every field.
    pub proof fn lemma_decode_encode(self)
        ensures
            Self::parse(words_bytes(self.spec_words())) == self,
    {
        let ws = self.spec_words();
        lemma_words_bytes(ws);
        let s = words_bytes(ws);
        assert(ws.subrange(0, 4) =~= self.header.spec_words());
        self.header.lemma_words_prefix(ws);
        assert(word_at(s, 4) == ws[4]);
        assert(word_at(s, 5) == ws[5]);
        assert(word_at(s, 6) == ws[6]);
        assert(word_at(s, 7) == ws[7]);
    }
}

/// Indexed, instanced draw.
#[derive(Debug, Clone, Copy, PartialEq, Eq, Structural)]
pub struct CmdDrawIndexedInstanced {
    pub header: CommandHeader,
    pub index_count: u32,
    pub instance_count: u32,
    pub start_index: u32,
    pub base_vertex: i32,
    pub start_instance: u32,
}

impl CmdDrawIndexedInstanced {
    /// Size of the record on the wire, in bytes.
    pub open spec fn spec_size() -> nat {
        48
    }

    /// The record whose fields are read from the start of `s`.
    pub open spec fn parse(s: Seq<u8>) -> Self {
        CmdDrawIndexedInstanced {
            header: CommandHeader::parse(s),
            index_count: word_at(s, 4),
            instance_count: word_at(s, 5),
            start_index: word_at(s, 6),
            base_vertex: word_at(s, 7) as i32,
            start_instance: word_at(s, 8),
        }
    }

    /// The words this library writes for the record: header, then fields.
    pub open spec fn spec_words(self) -> Seq<u32> {
        self.header.spec_words() + seq![self.index_count, self.instance_count, self.start_index, self.base_vertex as u32, self.start_instance, 0u32, 0u32, 0u32]
    }

    /// Reads the record from the start of `data`; `None` when `data` is shorter than the record.
    pub fn decode(data: &[u8]) -> (r: Option<Self>)
        ensures
            data@.len() < Self::spec_size() ==> r is None,
            data@.len() >= Self::spec_size() ==> r == Some(Self::parse(data@)),
    {
        if data.len() < 48 {
            return None;
        }
        Some(CmdDrawIndexedInstanced {
            header: CommandHeader::read(data),
            index_count: read_word(data, 4),
            instance_count: read_word(data, 5),
            start_index: read_word(data, 6),
            base_vertex: read_word(data, 7) as i32,
            start_instance: read_word(data, 8),
        })
    }

    /// The bytes of the record's header and fields, each word little-endian.
    pub fn encode(&self) -> (r: Vec<u8>)
        ensures
            r@ == words_bytes(self.spec_words()),
    {
        let mut ws = self.header.words();
        ws.push(self.index_count);
        ws.push(self.instance_count);
        ws.push(self.start_index);
        ws.push(self.base_vertex as u32);
        ws.push(self.start_instance);
        ws.push(0u32);
        ws.push(0u32);
        ws.push(0u32);
        proof {
            assert(ws@ =~= self.spec_words());
        }
        encode_words(ws.as_slice())
    }

    /// Decoding the bytes of an encoded record gives back every field.
    pub proof fn lemma_decode_encode(self)
        ensures
            Self::parse(words_bytes(self.spec_words())) == self,
    {
        let ws = self.spec_words();
        lemma_words_bytes(ws);
        let s = words_bytes(ws);
        assert(ws.subrange(0, 4) =~= self.header.spec_words());
        self.header.lemma_words_prefix(ws);
        assert(word_at(s, 4) == ws[4]);
        assert(word_at(s, 5) == ws[5]);
        assert(word_at(s, 6) == ws[6]);
        assert(word_at(s, 7) == ws[7]);
        lemma_i32_word(self.base_vertex);
        assert(word_at(s, 8) == ws[8]);
    }
}

/// Compute dispatch.
#[derive(Debug, Clone, Copy, PartialEq, Eq, Structural)]
pub struct CmdDispatch {
    pub header: CommandHeader,
    pub thread_group_count_x: u32,
    pub thread_group_count_y: u32,
    pub thread_group_count_z: u32,
}

impl CmdDispatch {
    /// Size of the record on the wire, in bytes.
    pub open spec fn spec_size() -> nat {
        32
    }

    /// The record whose fields are read from the start of `s`.
    pub open spec fn parse(s: Seq<u8>) -> Self {
        CmdDispatch {
            header: CommandHeader::parse(s),
            thread_group_count_x: word_at(s, 4),
            thread_group_count_y: word_at(s, 5),
            thread_group_count_z: word_at(s, 6),
        }
    }

    /// The words this library writes for the record: header, then fields.
    pub open spec fn spec_words(self) -> Seq<u32> {
        self.header.spec_words() + seq![self.thread_group_count_x, self.thread_group_count_y, self.thread_group_count_z, 0u32]
    }

    /// Reads the record from the start of `data`; `None` when `data` is shorter than the record.
    pub fn decode(data: &[u8]) -> (r: Option<Self>)
        ensures
            data@.len() < Self::spec_size() ==> r is None,
            data@.len() >= Self::spec_size() ==> r == Some(Self::parse(data@)),
    {
        if data.len() < 32 {
            return None;
        }
        Some(CmdDispatch {
            header: CommandHeader::read(data),
            thread_group_count_x: read_word(data, 4),
            thread_group_count_y: read_word(data, 5),
            thread_group_count_z: read_word(data, 6),
        })
    }

    /// The bytes of the record's header and fields, each word little-endian.
    pub fn encode(&self) -> (r: Vec<u8>)
        ensures
            r@ == words_bytes(self.spec_words()),
    {
        let mut ws = self.header.words();
        ws.push(self.thread_group_count_x);
        ws.push(self.thread_group_count_y);
        ws.push(self.thread_group_count_z);
        ws.push(0u32);
        proof {
            assert(ws@ =~= self.spec_words());
        }
        encode_words(ws.as_slice())
    }

    /// Decoding the bytes of an encoded record gives back every field.
    pub proof fn lemma_decode_encode(self)
        ensures
            Self::parse(words_bytes(self.spec_words())) == self,
    {
        let ws = self.spec_words();
        lemma_words_bytes(ws);
        let s = words_bytes(ws);
        assert(ws.subrange(0, 4) =~= self.header.spec_words());
        self.header.lemma_words_prefix(ws);
        assert(word_at(s, 4) == ws[4]);
        assert(word_at(s, 5) == ws[5]);
        assert(word_at(s, 6) == ws[6]);
    }
}

/// Clears a depth-stencil view; `depth` holds the bits of a 32-bit float.
#[derive(Debug, Clone, Copy, PartialEq, Eq, Structural)]
pub struct CmdClearDepthStencil {
    pub header: CommandHeader,
    pub dsv_id: u32,
    pub clear_flags: u32,
    pub depth: u32,
    pub stencil: u8,
}

impl CmdClearDepthStencil {
    /// Size of the record on the wire, in bytes.
    pub open spec fn spec_size() -> nat {
        32
    }

    /// The record whose fields are read from the start of `s`.
    pub open spec fn parse(s: Seq<u8>) -> Self {
        CmdClearDepthStencil {
            header: CommandHeader::parse(s),
            dsv_id: word_at(s, 4),
            clear_flags: word_at(s, 5),
            depth: word_at(s, 6),
            stencil: (word_at(s, 7) & 0xff) as u8,
        }
    }

    /// The words this library writes for the record: header, then fields.
    pub open spec fn spec_words(self) -> Seq<u32> {
        self.header.spec_words() + seq![self.dsv_id, self.clear_flags, self.depth, self.stencil as u32]
    }

    /// Reads the record from the start of `data`; `None` when `data` is shorter than the record.
    pub fn decode(data: &[u8]) -> (r: Option<Self>)
        ensures
            data@.len() < Self::spec_size() ==> r is None,
            data@.len() >= Self::spec_size() ==> r == Some(Self::parse(data@)),
    {
        if data.len() < 32 {
            return None;
        }
        Some(CmdClearDepthStencil {
            header: CommandHeader::read(data),
            dsv_id: read_word(data, 4),
            clear_flags: read_word(data, 5),
            depth: read_word(data, 6),
            stencil: (read_word(data, 7) & 0xff) as u8,
        })
    }

    /// The bytes of the record's header and fields, each word little-endian.
    pub fn encode(&self) -> (r: Vec<u8>)
        ensures
            r@ == words_bytes(self.spec_words()),
    {
        let mut ws = self.header.words();
        ws.push(self.dsv_id);
        ws.push(self.clear_flags);
        ws.push(self.depth);
        ws.push(self.stencil as u32);
        proof {
            assert(ws@ =~= self.spec_words());
        }
        encode_words(ws.as_slice())
    }

    /// Decoding the bytes of an encoded record gives back every field.
    pub proof fn lemma_decode_encode(self)
        ensures
            Self::parse(words_bytes(self.spec_words())) == self,
    {
        let ws = self.spec_words();
        lemma_words_bytes(ws);
        let s = words_bytes(ws);
        assert(ws.subrange(0, 4) =~= self.header.spec_words());
        self.header.lemma_words_prefix(ws);
        assert(word_at(s, 4) == ws[4]);
        assert(word_at(s, 5) == ws[5]);
        assert(word_at(s, 6) == ws[6]);
        assert(word_at(s, 7) == ws[7]);
        lemma_u8_word(self.stencil);
    }
}

/// Copies a whole resource.
#[derive(Debug, Clone, Copy, PartialEq, Eq, Structural)]
pub struct CmdCopyResource {
    pub header: CommandHeader,
    pub dst_resource_id: u32,
    pub src_resource_id: u32,
}

impl CmdCopyResource {
    /// Size of the record on the wire, in bytes.
    pub open spec fn spec_size() -> nat {
        32
    }

    /// The record whose fields are read from the start of `s`.
    pub open spec fn parse(s: Seq<u8>) -> Self {
        CmdCopyResource {
            header: CommandHeader::parse(s),
            dst_resource_id: word_at(s, 4),
            src_resource_id: word_at(s, 5),
        }
    }

    /// The words this library writes for the record: header, then fields.
    pub open spec fn spec_words(self) -> Seq<u32> {
        self.header.spec_words() + seq![self.dst_resource_id, self.src_resource_id, 0u32, 0u32]
    }

    /// Reads the record from the start of `data`; `None` when `data` is shorter than the record.
    pub fn decode(data: &[u8]) -> (r: Option<Self>)
        ensures
            data@.len() < Self::spec_size() ==> r is None,
            data@.len() >= Self::spec_size() ==> r == Some(Self::parse(data@)),
    {
        if data.len() < 32 {
            return None;
        }
        Some(CmdCopyResource {
            header: CommandHeader::read(data),
            dst_resource_id: read_word(data, 4),
            src_resource_id: read_word(data, 5),
        })
    }

    /// The bytes of the record's header and fields, each word little-endian.
    pub fn encode(&self) -> (r: Vec<u8>)
        ensures
            r@ == words_bytes(self.spec_words()),
    {
        let mut ws = self.header.words();
        ws.push(self.dst_resource_id);
        ws.push(self.src_resource_id);
        ws.push(0u32);
        ws.push(0u32);
        proof {
            assert(ws@ =~= self.spec_words());
        }
        encode_words(ws.as_slice())
    }

    /// Decoding the bytes of an encoded record gives back every field.
    pub proof fn lemma_decode_encode(self)
        ensures
            Self::parse(words_bytes(self.spec_words())) == self,
    {
        let ws = self.spec_words();
        lemma_words_bytes(ws);
        let s = words_bytes(ws);
        assert(ws.subrange(0, 4) =~= self.header.spec_words());
        self.header.lemma_words_prefix(ws);
        assert(word_at(s, 4) == ws[4]);
        assert(word_at(s, 5) == ws[5]);
    }
}

/// Asks for the swapchain to be resized.
#[derive(Debug, Clone, Copy, PartialEq, Eq, Structural)]
pub struct CmdResizeBuffers {
    pub header: CommandHeader,
    pub swapchain_id: u32,
    pub width: u32,
    pub height: u32,
    pub format: u32,
    pub buffer_count: u32,
    pub flags: u32,
}

impl CmdResizeBuffers {
    /// Size of the record on the wire, in bytes.
    pub open spec fn spec_size() -> nat {
        48
    }

    /// The record whose fields are read from the start of `s`.
    pub open spec fn parse(s: Seq<u8>) -> Self {
        CmdResizeBuffers {
            header: CommandHeader::parse(s),
            swapchain_id: word_at(s, 4),
            width: word_at(s, 5),
            height: word_at(s, 6),
            format: word_at(s, 7),
            buffer_count: word_at(s, 8),
            flags: word_at(s, 9),
        }
    }

    /// The words this library writes for the record: header, then fields.
    pub open spec fn spec_words(self) -> Seq<u32> {
        self.header.spec_words() + seq![self.swapchain_id, self.width, self.height, self.format, self.buffer_count, self.flags, 0u32, 0u32]
    }

    /// Reads the record from the start of `data`; `None` when `data` is shorter than the record.
    pub fn decode(data: &[u8]) -> (r: Option<Self>)
        ensures
            data@.len() < Self::spec_size() ==> r is None,
            data@.len() >= Self::spec_size() ==> r == Some(Self::parse(data@)),
    {
        if data.len() < 48 {
            return None;
        }
        Some(CmdResizeBuffers {
            header: CommandHeader::read(data),
            swapchain_id: read_word(data, 4),
            width: read_word(data, 5),
            height: read_word(data, 6),
            format: read_word(data, 7),
            buffer_count: read_word(data, 8),
            flags: read_word(data, 9),
        })
    }

    /// The bytes of the record's header and fields, each word little-endian.
    pub fn encode(&self) -> (r: Vec<u8>)
        ensures
            r@ == words_bytes(self.spec_words()),
    {
        let mut ws = self.header.words();
        ws.push(self.swapchain_id);
        ws.push(self.width);
        ws.push(self.height);
        ws.push(self.format);
        ws.push(self.buffer_count);
        ws.push(self.flags);
        ws.push(0u32);
        ws.push(0u32);
        proof {
            assert(ws@ =~= self.spec_words());
        }
        encode_words(ws.as_slice())
    }

    /// Decoding the bytes of an encoded record gives back every field.
    pub proof fn lemma_decode_encode(self)
        ensures
            Self::parse(words_bytes(self.spec_words())) == self,
    {
        let ws = self.spec_words();
        lemma_words_bytes(ws);
        let s = words_bytes(ws);
        assert(ws.subrange(0, 4) =~= self.header.spec_words());
        self.header.lemma_words_prefix(ws);
        assert(word_at(s, 4) == ws[4]);
        assert(word_at(s, 5) == ws[5]);
        assert(word_at(s, 6) == ws[6]);
        assert(word_at(s, 7) == ws[7]);
        assert(word_at(s, 8) == ws[8]);
        assert(word_at(s, 9) == ws[9]);
    }
}

/// Maps a subresource; the heap range at `heap_offset` receives or supplies the data.
#[derive(Debug, Clone, Copy, PartialEq, Eq, Structural)]
pub struct CmdMapResource {
    pub header: CommandHeader,
    pub resource_id: u32,
    pub subresource: u32,
    pub map_type: u32,
    pub map_flags: u32,
    pub heap_offset: u32,
}

impl CmdMapResource {
    /// Size of the record on the wire, in bytes.
    pub open spec fn spec_size() -> nat {
        48
    }

    /// The record whose fields are read from the start of `s`.
    pub open spec fn parse(s: Seq<u8>) -> Self {
        CmdMapResource {
            header: CommandHeader::parse(s),
            resource_id: word_at(s, 4),
            subresource: word_at(s, 5),
            map_type: word_at(s, 6),
            map_flags: word_at(s, 7),
            heap_offset: word_at(s, 8),
        }
    }

    /// The words this library writes for the record: header, then fields.
    pub open spec fn spec_words(self) -> Seq<u32> {
        self.header.spec_words() + seq![self.resource_id, self.subresource, self.map_type, self.map_flags, self.heap_offset, 0u32, 0u32, 0u32]
    }

    /// Reads the record from the start of `data`; `None` when `data` is shorter than the record.
    pub fn decode(data: &[u8]) -> (r: Option<Self>)
        ensures
            data@.len() < Self::spec_size() ==> r is None,
            data@.len() >= Self::spec_size() ==> r == Some(Self::parse(data@)),
    {
        if data.len() < 48 {
            return None;
        }
        Some(CmdMapResource {
            header: CommandHeader::read(data),
            resource_id: read_word(data, 4),
            subresource: read_word(data, 5),
            map_type: read_word(data, 6),
            map_flags: read_word(data, 7),
            heap_offset: read_word(data, 8),
        })
    }

    /// The bytes of the record's header and fields, each word little-endian.
    pub fn encode(&self) -> (r: Vec<u8>)
        ensures
            r@ == words_bytes(self.spec_words()),
    {
        let mut ws = self.header.words();
        ws.push(self.resource_id);
        ws.push(self.subresource);
        ws.push(self.map_type);
        ws.push(self.map_flags);
        ws.push(self.heap_offset);
        ws.push(0u32);
        ws.push(0u32);
        ws.push(0u32);
        proof {
            assert(ws@ =~= self.spec_words());
        }
        encode_words(ws.as_slice())
    }

    /// Decoding the bytes of an encoded record gives back every field.
    pub proof fn lemma_decode_encode(self)
        ensures
            Self::parse(words_bytes(self.spec_words())) == self,
    {
        let ws = self.spec_words();
        lemma_words_bytes(ws);
        let s = words_bytes(ws);
        assert(ws.subrange(0, 4) =~= self.header.spec_words());
        self.header.lemma_words_prefix(ws);
        assert(word_at(s, 4) == ws[4]);
        assert(word_at(s, 5) == ws[5]);
        assert(word_at(s, 6) == ws[6]);
        assert(word_at(s, 7) == ws[7]);
        assert(word_at(s, 8) == ws[8]);
    }
}

/// Ends a map; `data_size` bytes at `heap_offset` are written back for write maps.
#[derive(Debug, Clone, Copy, PartialEq, Eq, Structural)]
pub struct CmdUnmapResource {
    pub header: CommandHeader,
    pub resource_id: u32,
    pub subresource: u32,
    pub heap_offset: u32,
    pub data_size: u32,
}

impl CmdUnmapResource {
    /// Size of the record on the wire, in bytes.
    pub open spec fn spec_size() -> nat {
        32
    }

    /// The record whose fields are read from the start of `s`.
    pub open spec fn parse(s: Seq<u8>) -> Self {
        CmdUnmapResource {
            header: CommandHeader::parse(s),
            resource_id: word_at(s, 4),
            subresource: word_at(s, 5),
            heap_offset: word_at(s, 6),
            data_size: word_at(s, 7),
        }
    }

    /// The words this library writes for the record: header, then fields.
    pub open spec fn spec_words(self) -> Seq<u32> {
        self.header.spec_words() + seq![self.resource_id, self.subresource, self.heap_offset, self.data_size]
    }

    /// Reads the record from the start of `data`; `None` when `data` is shorter than the record.
    pub fn decode(data: &[u8]) -> (r: Option<Self>)
        ensures
            data@.len() < Self::spec_size() ==> r is None,
            data@.len() >= Self::spec_size() ==> r == Some(Self::parse(data@)),
    {
        if data.len() < 32 {
            return None;
        }
        Some(CmdUnmapResource {
            header: CommandHeader::read(data),
            resource_id: read_word(data, 4),
            subresource: read_word(data, 5),
            heap_offset: read_word(data, 6),
            data_size: read_word(data, 7),
        })
    }

    /// The bytes of the record's header and fields, each word little-endian.
    pub fn encode(&self) -> (r: Vec<u8>)
        ensures
            r@ == words_bytes(self.spec_words()),
    {
        let mut ws = self.header.words();
        ws.push(self.resource_id);
        ws.push(self.subresource);
        ws.push(self.heap_offset);
        ws.push(self.data_size);
        proof {
            assert(ws@ =~= self.spec_words());
        }
        encode_words(ws.as_slice())
    }

    /// Decoding the bytes of an encoded record gives back every field.
    pub proof fn lemma_decode_encode(self)
        ensures
            Self::parse(words_bytes(self.spec_words())) == self,
    {
        let ws = self.spec_words();
        lemma_words_bytes(ws);
        let s = words_bytes(ws);
        assert(ws.subrange(0, 4) =~= self.header.spec_words());
        self.header.lemma_words_prefix(ws);
        assert(word_at(s, 4) == ws[4]);
        assert(word_at(s, 5) == ws[5]);
        assert(word_at(s, 6) == ws[6]);
        assert(word_at(s, 7) == ws[7]);
    }
}

/// Writes heap bytes into a subresource, optionally into a destination box.
#[derive(Debug, Clone, Copy, PartialEq, Eq, Structural)]
pub struct CmdUpdateResource {
    pub header: CommandHeader,
    pub resource_id: u32,
    pub subresource: u32,
    pub heap_offset: u32,
    pub data_size: u32,
    pub dst_x: u32,
    pub dst_y: u32,
    pub dst_z: u32,
    pub width: u32,
    pub height: u32,
    pub depth: u32,
    pub row_pitch: u32,
    pub depth_pitch: u32,
}

impl CmdUpdateResource {
    /// Size of the record on the wire, in bytes.
    pub open spec fn spec_size() -> nat {
        64
    }

    /// The record whose fields are read from the start of `s`.
    pub open spec fn parse(s: Seq<u8>) -> Self {
        CmdUpdateResource {
            header: CommandHeader::parse(s),
            resource_id: word_at(s, 4),
            subresource: word_at(s, 5),
            heap_offset: word_at(s, 6),
            data_size: word_at(s, 7),
            dst_x: word_at(s, 8),
            dst_y: word_at(s, 9),
            dst_z: word_at(s, 10),
            width: word_at(s, 11),
            height: word_at(s, 12),
            depth: word_at(s, 13),
            row_pitch: word_at(s, 14),
            depth_pitch: word_at(s, 15),
        }
    }

    /// The words this library writes for the record: header, then fields.
    pub open spec fn spec_words(self) -> Seq<u32> {
        self.header.spec_words() + seq![self.resource_id, self.subresource, self.heap_offset, self.data_size, self.dst_x, self.dst_y, self.dst_z, self.width, self.height, self.depth, self.row_pitch, self.depth_pitch]
    }

    /// Reads the record from the start of `data`; `None` when `data` is shorter than the record.
    pub fn decode(data: &[u8]) -> (r: Option<Self>)
        ensures
            data@.len() < Self::spec_size() ==> r is None,
            data@.len() >= Self::spec_size() ==> r == Some(Self::parse(data@)),
    {
        if data.len() < 64 {
            return None;
        }
        Some(CmdUpdateResource {
            header: CommandHeader::read(data),
            resource_id: read_word(data, 4),
            subresource: read_word(data, 5),
            heap_offset: read_word(data, 6),
            data_size: read_word(data, 7),
            dst_x: read_word(data, 8),
            dst_y: read_word(data, 9),
            dst_z: read_word(data, 10),
            width: read_word(data, 11),
            height: read_word(data, 12),
            depth: read_word(data, 13),
            row_pitch: read_word(data, 14),
            depth_pitch: read_word(data, 15),
        })
    }

    /// The bytes of the record's header and fields, each word little-endian.
    pub fn encode(&self) -> (r: Vec<u8>)
        ensures
            r@ == words_bytes(self.spec_words()),
    {
        let mut ws = self.header.words();
        ws.push(self.resource_id);
        ws.push(self.subresource);
        ws.push(self.heap_offset);
        ws.push(self.data_size);
        ws.push(self.dst_x);
        ws.push(self.dst_y);
        ws.push(self.dst_z);
        ws.push(self.width);
        ws.push(self.height);
        ws.push(self.depth);
        ws.push(self.row_pitch);
        ws.push(self.depth_pitch);
        proof {
            assert(ws@ =~= self.spec_words());
        }
        encode_words(ws.as_slice())
    }

    /// Decoding the bytes of an encoded record gives back every field.
    pub proof fn lemma_decode_encode(self)
        ensures
            Self::parse(words_bytes(self.spec_words())) == self,
    {
        let ws = self.spec_words();
        lemma_words_bytes(ws);
        let s = words_bytes(ws);
        assert(ws.subrange(0, 4) =~= self.header.spec_words());
        self.header.lemma_words_prefix(ws);
        assert(word_at(s, 4) == ws[4]);
        assert(word_at(s, 5) == ws[5]);
        assert(word_at(s, 6) == ws[6]);
        assert(word_at(s, 7) == ws[7]);
        assert(word_at(s, 8) == ws[8]);
        assert(word_at(s, 9) == ws[9]);
        assert(word_at(s, 10) == ws[10]);
        assert(word_at(s, 11) == ws[11]);
        assert(word_at(s, 12) == ws[12]);
        assert(word_at(s, 13) == ws[13]);
        assert(word_at(s, 14) == ws[14]);
        assert(word_at(s, 15) == ws[15]);
    }
}

/// Rounds `x` up to a multiple of 16.
pub fn align16(x: usize) -> (r: usize)
    requires
        x + 15 <= usize::MAX,
    ensures
        r % 16 == 0,
        x <= r < x + 16,
{
    let y = x + 15;
    let r = y & !15usize;
    assert(r == y & !15usize);
    assert((y & !15usize) % 16 == 0 && (y & !15usize) <= y && y - (y & !15usize) < 16) by (bit_vector);
    r
}

/// Reads `N` consecutive words of `data`, starting at word `first`.
pub fn read_word_array<const N: usize>(data: &[u8], first: usize) -> (r: [u32; N])
    requires
        4 * (first + N) <= data@.len(),
    ensures
        forall|i: int| 0 <= i < N ==> #[trigger] r@[i] == word_at(data@, first + i),
{
    let _n = data.len();
    let mut r = [0u32; N];
    let mut i: usize = 0;
    while i < N
        invariant
            i <= N,
            4 * (first + N) <= data@.len(),
            data@.len() <= usize::MAX,
            forall|j: int| 0 <= j < i ==> #[trigger] r@[j] == word_at(data@, first + j),
        decreases N - i,
    {
        r[i] = read_word(data, first + i);
        i += 1;
    }
    r
}

/// Binds render-target views and a depth-stencil view (0 unbinds).
#[derive(Debug, Clone, Copy, PartialEq, Eq)]
pub struct CmdSetRenderTarget {
    pub header: CommandHeader,
    pub num_rtvs: u32,
    pub dsv_id: u32,
    pub rtv_ids: [u32; 8],
}

impl CmdSetRenderTarget {
    pub fn decode(data: &[u8]) -> (r: Option<Self>)
        ensures
            data@.len() < 56 ==> r is None,
            r matches Some(c) ==> {
                &&& data@.len() >= 56
                &&& c.header == CommandHeader::parse(data@)
                &&& c.num_rtvs == word_at(data@, 4)
                &&& c.dsv_id == word_at(data@, 5)
                &&& forall|i: int| 0 <= i < 8 ==> #[trigger] c.rtv_ids@[i] == word_at(data@, 6 + i)
            },
            data@.len() >= 56 ==> r is Some,
    {
        if data.len() < 56 {
            return None;
        }
        Some(CmdSetRenderTarget {
            header: CommandHeader::read(data),
            num_rtvs: read_word(data, 4),
            dsv_id: read_word(data, 5),
            rtv_ids: read_word_array::<8>(data, 6),
        })
    }
}

/// A viewport; every field holds the bits of a 32-bit float.
#[derive(Debug, Clone, Copy, PartialEq, Eq, Structural)]
pub struct Viewport {
    pub x: u32,
    pub y: u32,
    pub width: u32,
    pub height: u32,
    pub min_depth: u32,
    pub max_depth: u32,
}

impl Viewport {
    pub open spec fn parse_at(s: Seq<u8>, k: int) -> Self {
        Viewport {
            x: word_at(s, k),
            y: word_at(s, k + 1),
            width: word_at(s, k + 2),
            height: word_at(s, k + 3),
            min_depth: word_at(s, k + 4),
            max_depth: word_at(s, k + 5),
        }
    }

    pub fn read_at(data: &[u8], k: usize) -> (r: Self)
        requires
            4 * (k + 6) <= data@.len(),
        ensures
            r == Self::parse_at(data@, k as int),
    {
        let _n = data.len();
        Viewport {
            x: read_word(data, k),
            y: read_word(data, k + 1),
            width: read_word(data, k + 2),
            height: read_word(data, k + 3),
            min_depth: read_word(data, k + 4),
            max_depth: read_word(data, k + 5),
        }
    }
}

/// Sets up to 16 viewports.
#[derive(Debug, Clone, Copy)]
pub struct CmdSetViewport {
    pub header: CommandHeader,
    pub num_viewports: u32,
    pub viewports: [Viewport; 16],
}

impl CmdSetViewport {
    pub fn decode(data: &[u8]) -> (r: Option<Self>)
        ensures
            data@.len() < 404 ==> r is None,
            r matches Some(c) ==> {
                &&& data@.len() >= 404
                &&& c.header == CommandHeader::parse(data@)
                &&& c.num_viewports == word_at(data@, 4)
                &&& forall|i: int|
                    0 <= i < 16 ==> #[trigger] c.viewports@[i] == Viewport::parse_at(data@, 5 + 6 * i)
            },
            data@.len() >= 404 ==> r is Some,
    {
        if data.len() < 404 {
            return None;
        }
        let zero = Viewport { x: 0, y: 0, width: 0, height: 0, min_depth: 0, max_depth: 0 };
        let mut viewports = [zero; 16];
        let mut i: usize = 0;
        while i < 16
            invariant
                i <= 16,
                data@.len() >= 404,
                forall|j: int|
                    0 <= j < i ==> #[trigger] viewports@[j] == Viewport::parse_at(data@, 5 + 6 * j),
            decreases 16 - i,
        {
            viewports[i] = Viewport::read_at(data, 5 + 6 * i);
            i += 1;
        }
        Some(CmdSetViewport {
            header: CommandHeader::read(data),
            num_viewports: read_word(data, 4),
            viewports,
        })
    }
}

/// One vertex-buffer slot binding.
#[derive(Debug, Clone, Copy, PartialEq, Eq, Structural)]
pub struct VertexBufferBinding {
    pub buffer_id: u32,
    pub stride: u32,
    pub offset: u32,
}

impl VertexBufferBinding {
    pub open spec fn parse_at(s: Seq<u8>, k: int) -> Self {
        VertexBufferBinding {
            buffer_id: word_at(s, k),
            stride: word_at(s, k + 1),
            offset: word_at(s, k + 2),
        }
    }
}

/// Binds up to 16 vertex buffers to consecutive slots from `start_slot`.
#[derive(Debug, Clone, Copy)]
pub struct CmdSetVertexBuffer {
    pub header: CommandHeader,
    pub start_slot: u32,
    pub num_buffers: u32,
    pub buffers: [VertexBufferBinding; 16],
}

impl CmdSetVertexBuffer {
    pub fn decode(data: &[u8]) -> (r: Option<Self>)
        ensures
            data@.len() < 216 ==> r is None,
            r matches Some(c) ==> {
                &&& data@.len() >= 216
                &&& c.header == CommandHeader::parse(data@)
                &&& c.start_slot == word_at(data@, 4)
                &&& c.num_buffers == word_at(data@, 5)
                &&& forall|i: int|
                    0 <= i < 16 ==> #[trigger] c.buffers@[i] == VertexBufferBinding::parse_at(
                        data@,
                        6 + 3 * i,
                    )
            },
            data@.len() >= 216 ==> r is Some,
    {
        if data.len() < 216 {
            return None;
        }
        let zero = VertexBufferBinding { buffer_id: 0, stride: 0, offset: 0 };
        let mut buffers = [zero; 16];
        let mut i: usize = 0;
        while i < 16
            invariant
                i <= 16,
                data@.len() >= 216,
                forall|j: int|
                    0 <= j < i ==> #[trigger] buffers@[j] == VertexBufferBinding::parse_at(
                        data@,
                        6 + 3 * j,
                    ),
            decreases 16 - i,
        {
            let k = 6 + 3 * i;
            buffers[i] = VertexBufferBinding {
                buffer_id: read_word(data, k),
                stride: read_word(data, k + 1),
                offset: read_word(data, k + 2),
            };
            i += 1;
        }
        Some(CmdSetVertexBuffer {
            header: CommandHeader::read(data),
            start_slot: read_word(data, 4),
            num_buffers: read_word(data, 5),
            buffers,
        })
    }
}

/// Binds up to 16 samplers of a stage to consecutive slots.
#[derive(Debug, Clone, Copy, PartialEq, Eq)]
pub struct CmdSetSamplers {
    pub header: CommandHeader,
    pub stage: u32,
    pub start_slot: u32,
    pub num_samplers: u32,
    pub sampler_ids: [u32; 16],
}

impl CmdSetSamplers {
    pub fn decode(data: &[u8]) -> (r: Option<Self>)
        ensures
            data@.len() < 92 ==> r is None,
            r matches Some(c) ==> {
                &&& data@.len() >= 92
                &&& c.header == CommandHeader::parse(data@)
                &&& c.stage == word_at(data@, 4)
                &&& c.start_slot == word_at(data@, 5)
                &&& c.num_samplers == word_at(data@, 6)
                &&& forall|i: int|
                    0 <= i < 16 ==> #[trigger] c.sampler_ids@[i] == word_at(data@, 7 + i)
            },
            data@.len() >= 92 ==> r is Some,
    {
        if data.len() < 92 {
            return None;
        }
        Some(CmdSetSamplers {
            header: CommandHeader::read(data),
            stage: read_word(data, 4),
            start_slot: read_word(data, 5),
            num_samplers: read_word(data, 6),
            sampler_ids: read_word_array::<16>(data, 7),
        })
    }
}

/// Binds up to 128 shader-resource views of a stage to consecutive slots.
#[derive(Debug, Clone, Copy, PartialEq, Eq)]
pub struct CmdSetShaderResources {
    pub header: CommandHeader,
    pub stage: u32,
    pub start_slot: u32,
    pub num_views: u32,
    pub view_ids: [u32; 128],
}

impl CmdSetShaderResources {
    pub fn decode(data: &[u8]) -> (r: Option<Self>)
        ensures
            data@.len() < 540 ==> r is None,
            r matches Some(c) ==> {
                &&& data@.len() >= 540
                &&& c.header == CommandHeader::parse(data@)
                &&& c.stage == word_at(data@, 4)
                &&& c.start_slot == word_at(data@, 5)
                &&& c.num_views == word_at(data@, 6)
                &&& forall|i: int| 0 <= i < 128 ==> #[trigger] c.view_ids@[i] == word_at(data@, 7 + i)
            },
            data@.len() >= 540 ==> r is Some,
    {
        if data.len() < 540 {
            return None;
        }
        Some(CmdSetShaderResources {
            header: CommandHeader::read(data),
            stage: read_word(data, 4),
            start_slot: read_word(data, 5),
            num_views: read_word(data, 6),
            view_ids: read_word_array::<128>(data, 7),
        })
    }
}

/// A scissor rectangle.
#[derive(Debug, Clone, Copy, PartialEq, Eq, Structural)]
pub struct ScissorRect {
    pub left: i32,
    pub top: i32,
    pub right: i32,
    pub bottom: i32,
}

impl ScissorRect {
    pub open spec fn parse_at(s: Seq<u8>, k: int) -> Self {
        ScissorRect {
            left: word_at(s, k) as i32,
            top: word_at(s, k + 1) as i32,
            right: word_at(s, k + 2) as i32,
            bottom: word_at(s, k + 3) as i32,
        }
    }
}

/// Sets up to 16 scissor rectangles.
#[derive(Debug, Clone, Copy)]
pub struct CmdSetScissor {
    pub header: CommandHeader,
    pub num_rects: u32,
    pub rects: [ScissorRect; 16],
}

impl CmdSetScissor {
    pub fn decode(data: &[u8]) -> (r: Option<Self>)
        ensures
            data@.len() < 276 ==> r is None,
            r matches Some(c) ==> {
                &&& data@.len() >= 276
                &&& c.header == CommandHeader::parse(data@)
                &&& c.num_rects == word_at(data@, 4)
                &&& forall|i: int|
                    0 <= i < 16 ==> #[trigger] c.rects@[i] == ScissorRect::parse_at(data@, 5 + 4 * i)
            },
            data@.len() >= 276 ==> r is Some,
    {
        if data.len() < 276 {
            return None;
        }
        let zero = ScissorRect { left: 0, top: 0, right: 0, bottom: 0 };
        let mut rects = [zero; 16];
        let mut i: usize = 0;
        while i < 16
            invariant
                i <= 16,
                data@.len() >= 276,
                forall|j: int|
                    0 <= j < i ==> #[trigger] rects@[j] == ScissorRect::parse_at(data@, 5 + 4 * j),
            decreases 16 - i,
        {
            let k = 5 + 4 * i;
            rects[i] = ScissorRect {
                left: read_word(data, k) as i32,
                top: read_word(data, k + 1) as i32,
                right: read_word(data, k + 2) as i32,
                bottom: read_word(data, k + 3) as i32,
            };
            i += 1;
        }
        Some(CmdSetScissor { header: CommandHeader::read(data), num_rects: read_word(data, 4), rects })
    }
}

/// Clears a render target; `color` holds the bits of four 32-bit floats.
#[derive(Debug, Clone, Copy, PartialEq, Eq)]
pub struct CmdClearRenderTarget {
    pub header: CommandHeader,
    pub rtv_id: u32,
    pub color: [u32; 4],
}

impl CmdClearRenderTarget {
    pub fn decode(data: &[u8]) -> (r: Option<Self>)
        ensures
            data@.len() < 36 ==> r is None,
            r matches Some(c) ==> {
                &&& data@.len() >= 36
                &&& c.header == CommandHeader::parse(data@)
                &&& c.rtv_id == word_at(data@, 4)
                &&& forall|i: int| 0 <= i < 4 ==> #[trigger] c.color@[i] == word_at(data@, 5 + i)
            },
            data@.len() >= 36 ==> r is Some,
    {
        if data.len() < 36 {
            return None;
        }
        Some(CmdClearRenderTarget {
            header: CommandHeader::read(data),
            rtv_id: read_word(data, 4),
            color: read_word_array::<4>(data, 5),
        })
    }
}

/// Binds a blend state (0 unbinds); `blend_factor` holds the bits of four 32-bit floats.
#[derive(Debug, Clone, Copy, PartialEq, Eq)]
pub struct CmdSetBlendState {
    pub header: CommandHeader,
    pub state_id: u32,
    pub blend_factor: [u32; 4],
    pub sample_mask: u32,
}

impl CmdSetBlendState {
    pub fn decode(data: &[u8]) -> (r: Option<Self>)
        ensures
            data@.len() < 40 ==> r is None,
            r matches Some(c) ==> {
                &&& data@.len() >= 40
                &&& c.header == CommandHeader::parse(data@)
                &&& c.state_id == word_at(data@, 4)
                &&& forall|i: int| 0 <= i < 4 ==> #[trigger] c.blend_factor@[i] == word_at(data@, 5 + i)
                &&& c.sample_mask == word_at(data@, 9)
            },
            data@.len() >= 40 ==> r is Some,
    {
        if data.len() < 40 {
            return None;
        }
        Some(CmdSetBlendState {
            header: CommandHeader::read(data),
            state_id: read_word(data, 4),
            blend_factor: read_word_array::<4>(data, 5),
            sample_mask: read_word(data, 9),
        })
    }
}

impl CmdSetRenderTarget {
    /// The words this library writes for the record: header, then fields.
    pub open spec fn spec_words(self) -> Seq<u32> {
        self.header.spec_words() + seq![self.num_rtvs, self.dsv_id] + self.rtv_ids@
    }

    /// The bytes of the record's header and fields, each word little-endian.
    pub fn encode(&self) -> (r: Vec<u8>)
        ensures
            r@ == words_bytes(self.spec_words()),
    {
        let mut ws = self.header.words();
        ws.push(self.num_rtvs);
        ws.push(self.dsv_id);
        let ghost before = ws@;
        let mut i: usize = 0;
        while i < 8
            invariant
                i <= 8,
                ws@ == before + self.rtv_ids@.subrange(0, i as int),
            decreases 8 - i,
        {
            ws.push(self.rtv_ids[i]);
            assert(self.rtv_ids@.subrange(0, i as int + 1) =~= self.rtv_ids@.subrange(0, i as int).push(self.rtv_ids@[i as int]));
            i += 1;
        }
        assert(self.rtv_ids@.subrange(0, 8) =~= self.rtv_ids@);
        proof {
            assert(ws@ =~= self.spec_words());
        }
        encode_words(ws.as_slice())
    }

    /// The bytes of an encoded record hold every field where `decode` reads it.
    pub proof fn lemma_decode_encode(self)
        ensures
            ({
                let s = words_bytes(self.spec_words());
                &&& s.len() == 56
                &&& CommandHeader::parse(s) == self.header
                &&& word_at(s, 4) == self.num_rtvs
                &&& word_at(s, 5) == self.dsv_id
                &&& forall|i: int| 0 <= i < 8 ==> #[trigger] word_at(s, 6 + i) == self.rtv_ids@[i]
            }),
    {
        let ws = self.spec_words();
        lemma_words_bytes(ws);
        let s = words_bytes(ws);
        assert(ws.subrange(0, 4) =~= self.header.spec_words());
        self.header.lemma_words_prefix(ws);
        assert(word_at(s, 4) == ws[4]);
        assert(word_at(s, 5) == ws[5]);
        assert forall|i: int| 0 <= i < 8 implies #[trigger] word_at(s, 6 + i) == self.rtv_ids@[i] by {
            assert(word_at(s, 6 + i) == ws[6 + i]);
        }
    }
}

impl CmdSetSamplers {
    /// The words this library writes for the record: header, then fields.
    pub open spec fn spec_words(self) -> Seq<u32> {
        self.header.spec_words() + seq![self.stage, self.start_slot, self.num_samplers] + self.sampler_ids@
    }

    /// The bytes of the record's header and fields, each word little-endian.
    pub fn encode(&self) -> (r: Vec<u8>)
        ensures
            r@ == words_bytes(self.spec_words()),
    {
        let mut ws = self.header.words();
        ws.push(self.stage);
        ws.push(self.start_slot);
        ws.push(self.num_samplers);
        let ghost before = ws@;
        let mut i: usize = 0;
        while i < 16
            invariant
                i <= 16,
                ws@ == before + self.sampler_ids@.subrange(0, i as int),
            decreases 16 - i,
        {
            ws.push(self.sampler_ids[i]);
            assert(self.sampler_ids@.subrange(0, i as int + 1) =~= self.sampler_ids@.subrange(0, i as int).push(self.sampler_ids@[i as int]));
            i += 1;
        }
        assert(self.sampler_ids@.subrange(0, 16) =~= self.sampler_ids@);
        proof {
            assert(ws@ =~= self.spec_words());
        }
        encode_words(ws.as_slice())
    }

    /// The bytes of an encoded record hold every field where `decode` reads it.
    pub proof fn lemma_decode_encode(self)
        ensures
            ({
                let s = words_bytes(self.spec_words());
                &&& s.len() == 92
                &&& CommandHeader::parse(s) == self.header
                &&& word_at(s, 4) == self.stage
                &&& word_at(s, 5) == self.start_slot
                &&& word_at(s, 6) == self.num_samplers
                &&& forall|i: int| 0 <= i < 16 ==> #[trigger] word_at(s, 7 + i) == self.sampler_ids@[i]
            }),
    {
        let ws = self.spec_words();
        lemma_words_bytes(ws);
        let s = words_bytes(ws);
        assert(ws.subrange(0, 4) =~= self.header.spec_words());
        self.header.lemma_words_prefix(ws);
        assert(word_at(s, 4) == ws[4]);
        assert(word_at(s, 5) == ws[5]);
        assert(word_at(s, 6) == ws[6]);
        assert forall|i: int| 0 <= i < 16 implies #[trigger] word_at(s, 7 + i) == self.sampler_ids@[i] by {
            assert(word_at(s, 7 + i) == ws[7 + i]);
        }
    }
}

impl CmdSetShaderResources {
    /// The words this library writes for the record: header, then fields.
    pub open spec fn spec_words(self) -> Seq<u32> {
        self.header.spec_words() + seq![self.stage, self.start_slot, self.num_views] + self.view_ids@
    }

    /// The bytes of the record's header and fields, each word little-endian.
    pub fn encode(&self) -> (r: Vec<u8>)
        ensures
            r@ == words_bytes(self.spec_words()),
    {
        let mut ws = self.header.words();
        ws.push(self.stage);
        ws.push(self.start_slot);
        ws.push(self.num_views);
        let ghost before = ws@;
        let mut i: usize = 0;
        while i < 128
            invariant
                i <= 128,
                ws@ == before + self.view_ids@.subrange(0, i as int),
            decreases 128 - i,
        {
            ws.push(self.view_ids[i]);
            assert(self.view_ids@.subrange(0, i as int + 1) =~= self.view_ids@.subrange(0, i as int).push(self.view_ids@[i as int]));
            i += 1;
        }
        assert(self.view_ids@.subrange(0, 128) =~= self.view_ids@);
        proof {
            assert(ws@ =~= self.spec_words());
        }
        encode_words(ws.as_slice())
    }

    /// The bytes of an encoded record hold every field where `decode` reads it.
    pub proof fn lemma_decode_encode(self)
        ensures
            ({
                let s = words_bytes(self.spec_words());
                &&& s.len() == 540
                &&& CommandHeader::parse(s) == self.header
                &&& word_at(s, 4) == self.stage
                &&& word_at(s, 5) == self.start_slot
                &&& word_at(s, 6) == self.num_views
                &&& forall|i: int| 0 <= i < 128 ==> #[trigger] word_at(s, 7 + i) == self.view_ids@[i]
            }),
    {
        let ws = self.spec_words();
        lemma_words_bytes(ws);
        let s = words_bytes(ws);
        assert(ws.subrange(0, 4) =~= self.header.spec_words());
        self.header.lemma_words_prefix(ws);
        assert(word_at(s, 4) == ws[4]);
        assert(word_at(s, 5) == ws[5]);
        assert(word_at(s, 6) == ws[6]);
        assert forall|i: int| 0 <= i < 128 implies #[trigger] word_at(s, 7 + i) == self.view_ids@[i] by {
            assert(word_at(s, 7 + i) == ws[7 + i]);
        }
    }
}

impl CmdClearRenderTarget {
    /// The words this library writes for the record: header, then fields.
    pub open spec fn spec_words(self) -> Seq<u32> {
        self.header.spec_words() + seq![self.rtv_id] + self.color@
    }

    /// The bytes of the record's header and fields, each word little-endian.
    pub fn encode(&self) -> (r: Vec<u8>)
        ensures
            r@ == words_bytes(self.spec_words()),
    {
        let mut ws = self.header.words();
        ws.push(self.rtv_id);
        let ghost before = ws@;
        let mut i: usize = 0;
        while i < 4
            invariant
                i <= 4,
                ws@ == before + self.color@.subrange(0, i as int),
            decreases 4 - i,
        {
            ws.push(self.color[i]);
            assert(self.color@.subrange(0, i as int + 1) =~= self.color@.subrange(0, i as int).push(self.color@[i as int]));
            i += 1;
        }
        assert(self.color@.subrange(0, 4) =~= self.color@);
        proof {
            assert(ws@ =~= self.spec_words());
        }
        encode_words(ws.as_slice())
    }

    /// The bytes of an encoded record hold every field where `decode` reads it.
    pub proof fn lemma_decode_encode(self)
        ensures
            ({
                let s = words_bytes(self.spec_words());
                &&& s.len() == 36
                &&& CommandHeader::parse(s) == self.header
                &&& word_at(s, 4) == self.rtv_id
                &&& forall|i: int| 0 <= i < 4 ==> #[trigger] word_at(s, 5 + i) == self.color@[i]
            }),
    {
        let ws = self.spec_words();
        lemma_words_bytes(ws);
        let s = words_bytes(ws);
        assert(ws.subrange(0, 4) =~= self.header.spec_words());
        self.header.lemma_words_prefix(ws);
        assert(word_at(s, 4) == ws[4]);
        assert forall|i: int| 0 <= i < 4 implies #[trigger] word_at(s, 5 + i) == self.color@[i] by {
            assert(word_at(s, 5 + i) == ws[5 + i]);
        }
    }
}

impl CmdSetBlendState {
    /// The words this library writes for the record: header, then fields.
    pub open spec fn spec_words(self) -> Seq<u32> {
        self.header.spec_words() + seq![self.state_id] + self.blend_factor@ + seq![self.sample_mask]
    }

    /// The bytes of the record's header and fields, each word little-endian.
    pub fn encode(&self) -> (r: Vec<u8>)
        ensures
            r@ == words_bytes(self.spec_words()),
    {
        let mut ws = self.header.words();
        ws.push(self.state_id);
        let ghost before = ws@;
        let mut i: usize = 0;
        while i < 4
            invariant
                i <= 4,
                ws@ == before + self.blend_factor@.subrange(0, i as int),
            decreases 4 - i,
        {
            ws.push(self.blend_factor[i]);
            assert(self.blend_factor@.subrange(0, i as int + 1) =~= self.blend_factor@.subrange(0, i as int).push(self.blend_factor@[i as int]));
            i += 1;
        }
        assert(self.blend_factor@.subrange(0, 4) =~= self.blend_factor@);
        ws.push(self.sample_mask);
        proof {
            assert(ws@ =~= self.spec_words());
        }
        encode_words(ws.as_slice())
    }

    /// The bytes of an encoded record hold every field where `decode` reads it.
    pub proof fn lemma_decode_encode(self)
        ensures
            ({
                let s = words_bytes(self.spec_words());
                &&& s.len() == 40
                &&& CommandHeader::parse(s) == self.header
                &&& word_at(s, 4) == self.state_id
                &&& forall|i: int| 0 <= i < 4 ==> #[trigger] word_at(s, 5 + i) == self.blend_factor@[i]
                &&& word_at(s, 9) == self.sample_mask
            }),
    {
        let ws = self.spec_words();
        lemma_words_bytes(ws);
        let s = words_bytes(ws);
        assert(ws.subrange(0, 4) =~= self.header.spec_words());
        self.header.lemma_words_prefix(ws);
        assert(word_at(s, 4) == ws[4]);
        assert forall|i: int| 0 <= i < 4 implies #[trigger] word_at(s, 5 + i) == self.blend_factor@[i] by {
            assert(word_at(s, 5 + i) == ws[5 + i]);
        }
        assert(word_at(s, 9) == ws[9]);
    }
}

} // verus!
