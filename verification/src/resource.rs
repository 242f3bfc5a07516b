//! Descriptions of the GPU resources that a frame is composed from:
//! textures, samplers, buffers and the bind groups that expose them to the
//! shaders. A backend allocates what these values describe.

use vstd::prelude::*;

verus! {

/// What a texture may be used for.
#[derive(Clone, Copy, Debug, PartialEq, Eq, Structural)]
pub struct TextureUsages {
    pub copy_dst: bool,
    pub texture_binding: bool,
    pub render_attachment: bool,
}

/// What a buffer may be used for.
#[derive(Clone, Copy, Debug, PartialEq, Eq, Structural)]
pub struct BufferUsages {
    pub vertex: bool,
    pub uniform: bool,
    pub copy_dst: bool,
}

/// Number of dimensions of a texture.
#[derive(Clone, Copy, Debug, PartialEq, Eq, Structural)]
pub enum TextureDimension {
    D1,
    D2,
    D3,
}

/// Size of a texture in texels.
#[derive(Clone, Copy, Debug, PartialEq, Eq, Structural)]
pub struct Extent3d {
    pub width: u32,
    pub height: u32,
    pub depth_or_array_layers: u32,
}

/// The texel format of something a pipeline renders into.
#[derive(Clone, Copy, Debug, PartialEq, Eq)]
pub enum TargetFormat {
    /// Four 8-bit channels, sRGB-encoded: the format of every texture that
    /// the composer allocates itself.
    Rgba8UnormSrgb,
    /// The format that the surface was configured with.
    Surface(wgpu::TextureFormat),
}

/// Everything needed to allocate a texture.
#[derive(Clone, Copy, Debug, PartialEq, Eq)]
pub struct TextureDescriptor {
    pub size: Extent3d,
    pub mip_level_count: u32,
    pub sample_count: u32,
    pub dimension: TextureDimension,
    pub format: TargetFormat,
    pub usage: TextureUsages,
}

/// How a sampler treats coordinates outside the texture.
#[derive(Clone, Copy, Debug, PartialEq, Eq, Structural)]
pub enum AddressMode {
    ClampToEdge,
    Repeat,
    MirrorRepeat,
}

/// How a sampler combines neighbouring texels.
#[derive(Clone, Copy, Debug, PartialEq, Eq, Structural)]
pub enum FilterMode {
    Nearest,
    Linear,
}

/// Everything needed to create a sampler.
#[derive(Clone, Copy, Debug, PartialEq, Eq, Structural)]
pub struct SamplerDescriptor {
    pub address_mode_u: AddressMode,
    pub address_mode_v: AddressMode,
    pub address_mode_w: AddressMode,
    pub mag_filter: FilterMode,
    pub min_filter: FilterMode,
    pub mipmap_filter: FilterMode,
}

/// The buffers of a composer.
#[derive(Clone, Copy, Debug, PartialEq, Eq, Structural)]
pub enum BufferId {
    /// Vertices of the full-screen quad.
    Quad,
    /// Vertices of the quad that encloses the text.
    TextQuad,
    /// The uniform block: elapsed time and aspect ratio.
    Uniforms,
    /// The palette block: background and foreground colour.
    Palette,
}

/// The textures of a composer.
#[derive(Clone, Copy, Debug, PartialEq, Eq, Structural)]
pub enum TextureId {
    /// The offscreen target that effect and text are composited into.
    Offscreen,
    /// The rasterized text.
    Text,
}

/// The bind groups of a composer.
#[derive(Clone, Copy, Debug, PartialEq, Eq, Structural)]
pub enum BindGroupId {
    /// Uniform block and palette block.
    Uniforms,
    /// The text texture and its sampler.
    Text,
    /// The offscreen target and its sampler.
    Offscreen,
}

/// The kind of resource that a binding slot accepts.
#[derive(Clone, Copy, Debug, PartialEq, Eq, Structural)]
pub enum BindingType {
    /// A uniform buffer bound whole, without dynamic offset.
    UniformBuffer,
    /// A two-dimensional, single-sampled texture of filterable floats.
    FilterableTexture2d,
    /// A sampler that filters.
    FilteringSampler,
}

/// The shader stage that can see a binding.
#[derive(Clone, Copy, Debug, PartialEq, Eq, Structural)]
pub enum ShaderStage {
    Vertex,
    Fragment,
}

/// One slot of a bind group layout.
#[derive(Clone, Copy, Debug, PartialEq, Eq, Structural)]
pub struct BindGroupLayoutEntry {
    pub binding: u32,
    pub visibility: ShaderStage,
    pub ty: BindingType,
}

/// The slots of a bind group, in binding order.
#[derive(Clone, Debug, PartialEq, Eq)]
pub struct BindGroupLayout {
    pub entries: Vec<BindGroupLayoutEntry>,
}

impl View for BindGroupLayout {
    type V = Seq<BindGroupLayoutEntry>;

    open spec fn view(&self) -> Seq<BindGroupLayoutEntry> {
        self.entries@
    }
}

/// A resource bound into a slot.
#[derive(Clone, Copy, Debug, PartialEq, Eq, Structural)]
pub enum BindingResource {
    /// A whole buffer.
    Buffer(BufferId),
    /// The default view of a texture.
    TextureView(TextureId),
    /// The sampler that belongs to a texture.
    Sampler(TextureId),
}

impl BindingResource {
    /// The kind of slot that this resource fits.
    pub open spec fn binding_type(self) -> BindingType {
        match self {
            BindingResource::Buffer(_) => BindingType::UniformBuffer,
            BindingResource::TextureView(_) => BindingType::FilterableTexture2d,
            BindingResource::Sampler(_) => BindingType::FilteringSampler,
        }
    }
}

/// One slot of a bind group, filled.
#[derive(Clone, Copy, Debug, PartialEq, Eq, Structural)]
pub struct BindGroupEntry {
    pub binding: u32,
    pub resource: BindingResource,
}

/// Everything needed to create a bind group.
#[derive(Clone, Debug, PartialEq, Eq)]
pub struct BindGroupDescriptor {
    pub layout: BindGroupLayout,
    pub entries: Vec<BindGroupEntry>,
}

/// The mathematical content of a [`BindGroupDescriptor`].
pub struct BindGroupView {
    pub layout: Seq<BindGroupLayoutEntry>,
    pub entries: Seq<BindGroupEntry>,
}

impl View for BindGroupDescriptor {
    type V = BindGroupView;

    open spec fn view(&self) -> BindGroupView {
        BindGroupView { layout: self.layout@, entries: self.entries@ }
    }
}

impl BindGroupView {
    /// Every slot of the layout is filled, in order, with a resource of
    /// the kind that the slot accepts.
    pub open spec fn fills_layout(self) -> bool {
        &&& self.entries.len() == self.layout.len()
        &&& forall|i: int|
            0 <= i < self.entries.len() ==> {
                &&& (#[trigger] self.entries[i]).binding == self.layout[i].binding
                &&& self.entries[i].resource.binding_type() == self.layout[i].ty
            }
    }
}

/// The layout of a bind group that holds a texture in slot 0 and its
/// sampler in slot 1, both visible to the fragment stage.
pub open spec fn texture_layout() -> Seq<BindGroupLayoutEntry> {
    seq![
        BindGroupLayoutEntry {
            binding: 0,
            visibility: ShaderStage::Fragment,
            ty: BindingType::FilterableTexture2d,
        },
        BindGroupLayoutEntry {
            binding: 1,
            visibility: ShaderStage::Fragment,
            ty: BindingType::FilteringSampler,
        },
    ]
}

/// The layout of the bind group that holds the uniform block in slot 0
/// and the palette block in slot 1, both visible to the fragment stage.
pub open spec fn uniform_layout() -> Seq<BindGroupLayoutEntry> {
    seq![
        BindGroupLayoutEntry {
            binding: 0,
            visibility: ShaderStage::Fragment,
            ty: BindingType::UniformBuffer,
        },
        BindGroupLayoutEntry {
            binding: 1,
            visibility: ShaderStage::Fragment,
            ty: BindingType::UniformBuffer,
        },
    ]
}

/// The bind group that exposes `texture` and its sampler.
pub open spec fn texture_bind_group(texture: TextureId) -> BindGroupView {
    BindGroupView {
        layout: texture_layout(),
        entries: seq![
            BindGroupEntry { binding: 0, resource: BindingResource::TextureView(texture) },
            BindGroupEntry { binding: 1, resource: BindingResource::Sampler(texture) },
        ],
    }
}

/// What each bind group of a composer holds.
pub open spec fn bind_group_view(id: BindGroupId) -> BindGroupView {
    match id {
        BindGroupId::Uniforms => BindGroupView {
            layout: uniform_layout(),
            entries: seq![
                BindGroupEntry {
                    binding: 0,
                    resource: BindingResource::Buffer(BufferId::Uniforms),
                },
                BindGroupEntry {
                    binding: 1,
                    resource: BindingResource::Buffer(BufferId::Palette),
                },
            ],
        },
        BindGroupId::Text => texture_bind_group(TextureId::Text),
        BindGroupId::Offscreen => texture_bind_group(TextureId::Offscreen),
    }
}

/// Every bind group of a composer fills its own layout.
pub proof fn lemma_bind_groups_fill_their_layouts(id: BindGroupId)
    ensures
        bind_group_view(id).fills_layout(),
{
}

/// Returns the layout of a bind group that holds a texture and its sampler.
pub fn texture_bind_group_layout() -> (layout: BindGroupLayout)
    ensures
        layout@ == texture_layout(),
{
    let mut entries: Vec<BindGroupLayoutEntry> = Vec::new();
    entries.push(
        BindGroupLayoutEntry {
            binding: 0,
            visibility: ShaderStage::Fragment,
            ty: BindingType::FilterableTexture2d,
        },
    );
    entries.push(
        BindGroupLayoutEntry {
            binding: 1,
            visibility: ShaderStage::Fragment,
            ty: BindingType::FilteringSampler,
        },
    );
    assert(entries@ =~= texture_layout());
    BindGroupLayout { entries }
}

/// Returns the layout of the bind group that holds uniform block and
/// palette block.
pub fn uniform_bind_group_layout() -> (layout: BindGroupLayout)
    ensures
        layout@ == uniform_layout(),
{
    let mut entries: Vec<BindGroupLayoutEntry> = Vec::new();
    entries.push(
        BindGroupLayoutEntry {
            binding: 0,
            visibility: ShaderStage::Fragment,
            ty: BindingType::UniformBuffer,
        },
    );
    entries.push(
        BindGroupLayoutEntry {
            binding: 1,
            visibility: ShaderStage::Fragment,
            ty: BindingType::UniformBuffer,
        },
    );
    assert(entries@ =~= uniform_layout());
    BindGroupLayout { entries }
}

/// Returns what the bind group `id` is created from.
pub fn bind_group(id: BindGroupId) -> (group: BindGroupDescriptor)
    ensures
        group@ == bind_group_view(id),
{
    let mut entries: Vec<BindGroupEntry> = Vec::new();
    let layout = match id {
        BindGroupId::Uniforms => {
            entries.push(
                BindGroupEntry {
                    binding: 0,
                    resource: BindingResource::Buffer(BufferId::Uniforms),
                },
            );
            entries.push(
                BindGroupEntry {
                    binding: 1,
                    resource: BindingResource::Buffer(BufferId::Palette),
                },
            );
            uniform_bind_group_layout()
        },
        BindGroupId::Text => {
            entries.push(
                BindGroupEntry {
                    binding: 0,
                    resource: BindingResource::TextureView(TextureId::Text),
                },
            );
            entries.push(
                BindGroupEntry {
                    binding: 1,
                    resource: BindingResource::Sampler(TextureId::Text),
                },
            );
            texture_bind_group_layout()
        },
        BindGroupId::Offscreen => {
            entries.push(
                BindGroupEntry {
                    binding: 0,
                    resource: BindingResource::TextureView(TextureId::Offscreen),
                },
            );
            entries.push(
                BindGroupEntry {
                    binding: 1,
                    resource: BindingResource::Sampler(TextureId::Offscreen),
                },
            );
            texture_bind_group_layout()
        },
    };
    assert(entries@ =~= bind_group_view(id).entries);
    BindGroupDescriptor { layout, entries }
}

/// The texture descriptor of a single-layer, single-mip, single-sample
/// two-dimensional RGBA8 sRGB texture of `size` texels.
pub open spec fn rgba_texture(size: (u32, u32), usage: TextureUsages) -> TextureDescriptor {
    TextureDescriptor {
        size: Extent3d { width: size.0, height: size.1, depth_or_array_layers: 1 },
        mip_level_count: 1,
        sample_count: 1,
        dimension: TextureDimension::D2,
        format: TargetFormat::Rgba8UnormSrgb,
        usage,
    }
}

/// The offscreen target for a surface of `size` pixels: as large as the
/// surface, rendered into by the first two passes and sampled by the third.
pub open spec fn back_texture_descriptor(size: (u32, u32)) -> TextureDescriptor {
    rgba_texture(
        size,
        TextureUsages { copy_dst: false, texture_binding: true, render_attachment: true },
    )
}

/// The texture that holds a rasterized text of `size` pixels: uploaded to
/// once and sampled by the text pass.
pub open spec fn text_texture_descriptor(size: (u32, u32)) -> TextureDescriptor {
    rgba_texture(
        size,
        TextureUsages { copy_dst: true, texture_binding: true, render_attachment: false },
    )
}

/// A sampler that filters linearly within a mip level, picks the nearest
/// mip level, and treats coordinates outside the texture as `address_mode`
/// says along every axis.
pub open spec fn linear_sampler(address_mode: AddressMode) -> SamplerDescriptor {
    SamplerDescriptor {
        address_mode_u: address_mode,
        address_mode_v: address_mode,
        address_mode_w: address_mode,
        mag_filter: FilterMode::Linear,
        min_filter: FilterMode::Linear,
        mipmap_filter: FilterMode::Nearest,
    }
}

/// The sampler of `texture`: the offscreen target repeats mirrored beyond
/// its edges, the text is clamped to its edge.
pub open spec fn sampler_of(texture: TextureId) -> SamplerDescriptor {
    match texture {
        TextureId::Offscreen => linear_sampler(AddressMode::MirrorRepeat),
        TextureId::Text => linear_sampler(AddressMode::ClampToEdge),
    }
}

/// What each buffer of a composer is used for. Only the full-screen quad
/// cannot be written to once it is created.
pub open spec fn buffer_usages(id: BufferId) -> BufferUsages {
    match id {
        BufferId::Quad => BufferUsages { vertex: true, uniform: false, copy_dst: false },
        BufferId::TextQuad => BufferUsages { vertex: true, uniform: false, copy_dst: true },
        BufferId::Uniforms => BufferUsages { vertex: false, uniform: true, copy_dst: true },
        BufferId::Palette => BufferUsages { vertex: false, uniform: true, copy_dst: true },
    }
}

impl BufferId {
    /// Returns what this buffer is used for.
    pub fn usage(&self) -> (usage: BufferUsages)
        ensures
            usage == buffer_usages(*self),
    {
        match self {
            BufferId::Quad => BufferUsages { vertex: true, uniform: false, copy_dst: false },
            BufferId::TextQuad => BufferUsages { vertex: true, uniform: false, copy_dst: true },
            BufferId::Uniforms => BufferUsages { vertex: false, uniform: true, copy_dst: true },
            BufferId::Palette => BufferUsages { vertex: false, uniform: true, copy_dst: true },
        }
    }
}

impl TextureId {
    /// Returns what the sampler of this texture is created from.
    pub fn sampler(&self) -> (sampler: SamplerDescriptor)
        ensures
            sampler == sampler_of(*self),
    {
        let address_mode = match self {
            TextureId::Offscreen => AddressMode::MirrorRepeat,
            TextureId::Text => AddressMode::ClampToEdge,
        };
        SamplerDescriptor {
            address_mode_u: address_mode,
            address_mode_v: address_mode,
            address_mode_w: address_mode,
            mag_filter: FilterMode::Linear,
            min_filter: FilterMode::Linear,
            mipmap_filter: FilterMode::Nearest,
        }
    }

    /// Returns what this texture is created from when it is `size` texels
    /// large.
    pub fn descriptor(&self, size: (u32, u32)) -> (texture: TextureDescriptor)
        ensures
            texture == match *self {
                TextureId::Offscreen => back_texture_descriptor(size),
                TextureId::Text => text_texture_descriptor(size),
            },
    {
        let usage = match self {
            TextureId::Offscreen => TextureUsages {
                copy_dst: false,
                texture_binding: true,
                render_attachment: true,
            },
            TextureId::Text => TextureUsages {
                copy_dst: true,
                texture_binding: true,
                render_attachment: false,
            },
        };
        TextureDescriptor {
            size: Extent3d { width: size.0, height: size.1, depth_or_array_layers: 1 },
            mip_level_count: 1,
            sample_count: 1,
            dimension: TextureDimension::D2,
            format: TargetFormat::Rgba8UnormSrgb,
            usage,
        }
    }
}

/// An offscreen render target: the texture, the sampler it is read
/// through, and the bind group that exposes both to a shader.
#[derive(Clone, Debug, PartialEq, Eq)]
pub struct OffscreenTarget {
    pub texture: TextureDescriptor,
    pub sampler: SamplerDescriptor,
    pub bind_group: BindGroupDescriptor,
}

/// The mathematical content of an [`OffscreenTarget`].
pub struct OffscreenTargetView {
    pub texture: TextureDescriptor,
    pub sampler: SamplerDescriptor,
    pub bind_group: BindGroupView,
}

impl View for OffscreenTarget {
    type V = OffscreenTargetView;

    open spec fn view(&self) -> OffscreenTargetView {
        OffscreenTargetView {
            texture: self.texture,
            sampler: self.sampler,
            bind_group: self.bind_group@,
        }
    }
}

/// The offscreen target for a surface of `size` pixels.
pub open spec fn offscreen_target(size: (u32, u32)) -> OffscreenTargetView {
    OffscreenTargetView {
        texture: back_texture_descriptor(size),
        sampler: sampler_of(TextureId::Offscreen),
        bind_group: bind_group_view(BindGroupId::Offscreen),
    }
}

/// Returns what the offscreen target for a surface of `size` pixels is
/// allocated from. The target that it replaces is to be destroyed first.
pub fn get_back_texture(size: (u32, u32)) -> (target: OffscreenTarget)
    ensures
        target@ == offscreen_target(size),
        target@.texture.size.width == size.0,
        target@.texture.size.height == size.1,
{
    OffscreenTarget {
        texture: TextureId::Offscreen.descriptor(size),
        sampler: TextureId::Offscreen.sampler(),
        bind_group: bind_group(BindGroupId::Offscreen),
    }
}

/// Bytes per texel of an RGBA8 texture.
pub const BYTES_PER_TEXEL: u32 = 4;

/// How the rows of a bitmap lie in the byte buffer that it is uploaded
/// from.
#[derive(Clone, Copy, Debug, PartialEq, Eq, Structural)]
pub struct TexelCopyLayout {
    pub offset: u64,
    pub bytes_per_row: u32,
    pub rows_per_image: u32,
}

/// Returns the layout of a tightly packed RGBA8 bitmap of `size` pixels,
/// or `None` when one row of it is longer than a row stride can say.
pub fn bitmap_layout(size: (u32, u32)) -> (layout: Option<TexelCopyLayout>)
    ensures
        match layout {
            Some(layout) => {
                &&& layout.offset == 0
                &&& layout.bytes_per_row == BYTES_PER_TEXEL * size.0
                &&& layout.rows_per_image == size.1
            },
            None => BYTES_PER_TEXEL * size.0 > u32::MAX,
        },
{
    match BYTES_PER_TEXEL.checked_mul(size.0) {
        Some(bytes_per_row) => Some(
            TexelCopyLayout { offset: 0, bytes_per_row, rows_per_image: size.1 },
        ),
        None => None,
    }
}

} // verus!
