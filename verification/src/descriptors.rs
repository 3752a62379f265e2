//! The fixed descriptors the program builds its resources from: the small
//! test texture and the two-entry bind-group layouts of each check.

use vstd::prelude::*;

verus! {

/// The shader stages a binding is visible to. The program only ever
/// declares fragment-stage bindings.
#[derive(Clone, Copy, Debug, PartialEq, Eq, Structural)]
pub enum ShaderStage {
    /// Visible to the fragment stage.
    Fragment,
}

/// The type of resource a layout entry declares.
#[derive(Clone, Copy, Debug, PartialEq, Eq, Structural)]
pub enum BindingKind {
    /// A filtering sampler.
    FilteringSampler,
    /// A non-multisampled two-dimensional texture sampled as filterable
    /// float.
    FloatTexture2d,
}

/// One entry of a bind-group layout: the binding index, its visibility and
/// the kind of resource it expects.
#[derive(Clone, Copy, Debug, PartialEq, Eq, Structural)]
pub struct LayoutEntry {
    /// The binding index.
    pub binding: u32,
    /// The shader stages the binding is visible to.
    pub visibility: ShaderStage,
    /// The kind of resource the binding expects.
    pub kind: BindingKind,
}

/// The pixel format of the test texture.
#[derive(Clone, Copy, Debug, PartialEq, Eq, Structural)]
pub enum TextureFormat {
    /// Four 8-bit channels, sRGB.
    Rgba8UnormSrgb,
}

/// The dimensionality of the test texture.
#[derive(Clone, Copy, Debug, PartialEq, Eq, Structural)]
pub enum TextureDimension {
    /// A two-dimensional texture.
    D2,
}

/// The usage the test texture is created for.
#[derive(Clone, Copy, Debug, PartialEq, Eq, Structural)]
pub enum TextureUsage {
    /// Usable only as a shader binding.
    Binding,
}

/// Everything the program decides about the texture it creates on each
/// device.
#[derive(Clone, Copy, Debug, PartialEq, Eq, Structural)]
pub struct TextureDesc {
    /// Width in pixels.
    pub width: u32,
    /// Height in pixels.
    pub height: u32,
    /// Depth, or number of array layers.
    pub depth_or_array_layers: u32,
    /// Number of mip levels.
    pub mip_level_count: u32,
    /// Number of samples per pixel.
    pub sample_count: u32,
    /// Pixel format.
    pub format: TextureFormat,
    /// Dimensionality.
    pub dimension: TextureDimension,
    /// Intended usage.
    pub usage: TextureUsage,
}

/// The descriptor of the small test texture: four by four pixels, a single
/// mip level, a single sample, sRGB RGBA, two-dimensional, for binding only.
pub fn texture_descriptor() -> (d: TextureDesc)
    ensures
        d == (TextureDesc {
            width: 4,
            height: 4,
            depth_or_array_layers: 1,
            mip_level_count: 1,
            sample_count: 1,
            format: TextureFormat::Rgba8UnormSrgb,
            dimension: TextureDimension::D2,
            usage: TextureUsage::Binding,
        }),
{
    TextureDesc {
        width: 4,
        height: 4,
        depth_or_array_layers: 1,
        mip_level_count: 1,
        sample_count: 1,
        format: TextureFormat::Rgba8UnormSrgb,
        dimension: TextureDimension::D2,
        usage: TextureUsage::Binding,
    }
}

/// The layout the sampler check declares: two filtering-sampler bindings,
/// indices zero and one, fragment-stage visibility.
pub open spec fn sampler_layout_spec() -> Seq<LayoutEntry> {
    seq![
        LayoutEntry {
            binding: 0,
            visibility: ShaderStage::Fragment,
            kind: BindingKind::FilteringSampler,
        },
        LayoutEntry {
            binding: 1,
            visibility: ShaderStage::Fragment,
            kind: BindingKind::FilteringSampler,
        },
    ]
}

/// The two filtering-sampler layout entries of the sampler check.
pub fn sampler_layout_entries() -> (entries: Vec<LayoutEntry>)
    ensures
        entries@ == sampler_layout_spec(),
{
    let mut entries: Vec<LayoutEntry> = Vec::new();
    entries.push(LayoutEntry {
        binding: 0,
        visibility: ShaderStage::Fragment,
        kind: BindingKind::FilteringSampler,
    });
    entries.push(LayoutEntry {
        binding: 1,
        visibility: ShaderStage::Fragment,
        kind: BindingKind::FilteringSampler,
    });
    proof {
        assert(entries@ =~= sampler_layout_spec());
    }
    entries
}

/// The layout the texture check declares: two float-sampled,
/// non-multisampled, two-dimensional texture bindings, indices zero and
/// one, fragment-stage visibility.
pub open spec fn texture_layout_spec() -> Seq<LayoutEntry> {
    seq![
        LayoutEntry {
            binding: 0,
            visibility: ShaderStage::Fragment,
            kind: BindingKind::FloatTexture2d,
        },
        LayoutEntry {
            binding: 1,
            visibility: ShaderStage::Fragment,
            kind: BindingKind::FloatTexture2d,
        },
    ]
}

/// The two texture layout entries of the texture check.
pub fn texture_layout_entries() -> (entries: Vec<LayoutEntry>)
    ensures
        entries@ == texture_layout_spec(),
{
    let mut entries: Vec<LayoutEntry> = Vec::new();
    entries.push(LayoutEntry {
        binding: 0,
        visibility: ShaderStage::Fragment,
        kind: BindingKind::FloatTexture2d,
    });
    entries.push(LayoutEntry {
        binding: 1,
        visibility: ShaderStage::Fragment,
        kind: BindingKind::FloatTexture2d,
    });
    proof {
        assert(entries@ =~= texture_layout_spec());
    }
    entries
}

} // verus!
