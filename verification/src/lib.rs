//! An immutable, hashable description of how a texture sampling unit behaves
//! (coordinate wrapping, border color, filtering, anisotropy), together with
//! the translation of each semantic choice into the fixed constant that the
//! graphics driver expects.

use vstd::prelude::*;

mod native;

verus! {

/// A value that translates to a fixed constant of the graphics driver.
pub trait ToGlEnum {
    /// The driver constant that this value stands for.
    spec fn spec_glenum(&self) -> u32;

    /// Returns the driver constant that this value stands for.
    fn to_glenum(&self) -> (e: u32)
        ensures
            e == self.spec_glenum(),
    ;
}

/// Function to use for out-of-bounds samples.
///
/// This is how the driver must handle samples that are outside the texture.
#[derive(Debug, Clone, Copy, Hash, PartialEq, Eq, Structural)]
pub enum SamplerWrapFunction {
    /// Samples at coord `x + 1` map to coord `x`.
    Repeat,

    /// Samples at coord `x + 1` map to coord `1 - x`.
    Mirror,

    /// Samples at coord `x + 1` map to coord `1`.
    Clamp,

    /// Same as Mirror, but only for one repetition.
    MirrorClamp,

    /// Samples at coord `x + 1` map to the border color of the sampler.
    BorderClamp,
}

impl ToGlEnum for SamplerWrapFunction {
    open spec fn spec_glenum(&self) -> u32 {
        match *self {
            SamplerWrapFunction::Repeat => 0x2901,
            SamplerWrapFunction::Mirror => 0x8370,
            SamplerWrapFunction::Clamp => 0x812F,
            SamplerWrapFunction::MirrorClamp => 0x8743,
            SamplerWrapFunction::BorderClamp => 0x812D,
        }
    }

    fn to_glenum(&self) -> (e: u32) {
        match *self {
            SamplerWrapFunction::Repeat => native::gl_repeat(),
            SamplerWrapFunction::Mirror => native::gl_mirrored_repeat(),
            SamplerWrapFunction::Clamp => native::gl_clamp_to_edge(),
            SamplerWrapFunction::MirrorClamp => native::gl_mirror_clamp_to_edge(),
            SamplerWrapFunction::BorderClamp => native::gl_clamp_to_border(),
        }
    }
}

/// The function that the GPU will use when loading the value of a texel
/// while the texture appears magnified.
#[derive(Debug, Clone, Copy, Hash, PartialEq, Eq, Structural)]
pub enum MagnifySamplerFilter {
    /// The nearest texel will be loaded.
    Nearest,

    /// All nearby texels will be loaded and their values will be merged.
    Linear,
}

impl ToGlEnum for MagnifySamplerFilter {
    open spec fn spec_glenum(&self) -> u32 {
        match *self {
            MagnifySamplerFilter::Nearest => 0x2600,
            MagnifySamplerFilter::Linear => 0x2601,
        }
    }

    fn to_glenum(&self) -> (e: u32) {
        match *self {
            MagnifySamplerFilter::Nearest => native::gl_nearest(),
            MagnifySamplerFilter::Linear => native::gl_linear(),
        }
    }
}

/// The function that the GPU will use when loading the value of a texel
/// while the texture appears minified.
#[derive(Debug, Clone, Copy, Hash, PartialEq, Eq, Structural)]
pub enum MinifySamplerFilter {
    /// The nearest texel will be loaded.
    ///
    /// Only uses the main texture, mipmaps are totally ignored.
    Nearest,

    /// All nearby texels will be loaded and their values will be merged.
    ///
    /// Only uses the main texture, mipmaps are totally ignored.
    Linear,

    /// The nearest texel of the nearest mipmap will be loaded.
    NearestMipmapNearest,

    /// Takes the nearest texel from the two nearest mipmaps, and merges them.
    LinearMipmapNearest,

    /// Same as `Linear`, but from the nearest mipmap.
    NearestMipmapLinear,

    /// Same as `Linear`, but from the two nearest mipmaps.
    LinearMipmapLinear,
}

impl ToGlEnum for MinifySamplerFilter {
    open spec fn spec_glenum(&self) -> u32 {
        match *self {
            MinifySamplerFilter::Nearest => 0x2600,
            MinifySamplerFilter::Linear => 0x2601,
            MinifySamplerFilter::NearestMipmapNearest => 0x2700,
            MinifySamplerFilter::LinearMipmapNearest => 0x2701,
            MinifySamplerFilter::NearestMipmapLinear => 0x2702,
            MinifySamplerFilter::LinearMipmapLinear => 0x2703,
        }
    }

    fn to_glenum(&self) -> (e: u32) {
        match *self {
            MinifySamplerFilter::Nearest => native::gl_nearest(),
            MinifySamplerFilter::Linear => native::gl_linear(),
            MinifySamplerFilter::NearestMipmapNearest => native::gl_nearest_mipmap_nearest(),
            MinifySamplerFilter::LinearMipmapNearest => native::gl_linear_mipmap_nearest(),
            MinifySamplerFilter::NearestMipmapLinear => native::gl_nearest_mipmap_linear(),
            MinifySamplerFilter::LinearMipmapLinear => native::gl_linear_mipmap_linear(),
        }
    }
}

/// Behavior of a sampler: a pure value, compared and hashed structurally.
#[derive(Debug, Clone, Copy, Hash, Eq)]
pub struct SamplerBehavior {
    /// Functions to use for the X, Y, and Z coordinates.
    pub wrap_function: (SamplerWrapFunction, SamplerWrapFunction, SamplerWrapFunction),

    /// The border color to use when one of the `wrap_function`s is `BorderClamp`.
    pub border_color: (u8, u8, u8, u8),

    /// Filter to use when minifying the texture.
    pub minify_filter: MinifySamplerFilter,

    /// Filter to use when magnifying the texture.
    pub magnify_filter: MagnifySamplerFilter,

    /// `1` means no anisotropic filtering, any value above `1` sets the max
    /// anisotropy. A value above what the hardware supports is clamped by the
    /// driver, never rejected here.
    pub max_anisotropy: u16,
}

impl PartialEq for SamplerBehavior {
    fn eq(&self, other: &SamplerBehavior) -> (r: bool) {
        self.wrap_function.0 == other.wrap_function.0
            && self.wrap_function.1 == other.wrap_function.1
            && self.wrap_function.2 == other.wrap_function.2
            && self.border_color.0 == other.border_color.0
            && self.border_color.1 == other.border_color.1
            && self.border_color.2 == other.border_color.2
            && self.border_color.3 == other.border_color.3
            && self.minify_filter == other.minify_filter
            && self.magnify_filter == other.magnify_filter
            && self.max_anisotropy == other.max_anisotropy
    }
}

impl vstd::std_specs::cmp::PartialEqSpecImpl for SamplerBehavior {
    open spec fn obeys_eq_spec() -> bool {
        true
    }

    open spec fn eq_spec(&self, other: &SamplerBehavior) -> bool {
        *self == *other
    }
}

impl SamplerBehavior {
    /// The default behavior: mirrored wrapping on every axis, a transparent
    /// black border, trilinear minification, bilinear magnification, and no
    /// anisotropic filtering.
    pub open spec fn spec_default() -> SamplerBehavior {
        SamplerBehavior {
            wrap_function: (
                SamplerWrapFunction::Mirror,
                SamplerWrapFunction::Mirror,
                SamplerWrapFunction::Mirror,
            ),
            border_color: (0, 0, 0, 0),
            minify_filter: MinifySamplerFilter::LinearMipmapLinear,
            magnify_filter: MagnifySamplerFilter::Linear,
            max_anisotropy: 1,
        }
    }

    /// This behavior with the border color replaced; every other field kept.
    pub open spec fn with_border_color(self, color: (u8, u8, u8, u8)) -> SamplerBehavior {
        SamplerBehavior {
            wrap_function: self.wrap_function,
            border_color: color,
            minify_filter: self.minify_filter,
            magnify_filter: self.magnify_filter,
            max_anisotropy: self.max_anisotropy,
        }
    }

    /// This behavior with all three wrap functions replaced by `function`;
    /// every other field kept.
    pub open spec fn with_wrap_function(self, function: SamplerWrapFunction) -> SamplerBehavior {
        SamplerBehavior {
            wrap_function: (function, function, function),
            border_color: self.border_color,
            minify_filter: self.minify_filter,
            magnify_filter: self.magnify_filter,
            max_anisotropy: self.max_anisotropy,
        }
    }

    /// This behavior with the minifying filter replaced; every other field kept.
    pub open spec fn with_minify_filter(self, filter: MinifySamplerFilter) -> SamplerBehavior {
        SamplerBehavior {
            wrap_function: self.wrap_function,
            border_color: self.border_color,
            minify_filter: filter,
            magnify_filter: self.magnify_filter,
            max_anisotropy: self.max_anisotropy,
        }
    }

    /// This behavior with the magnifying filter replaced; every other field kept.
    pub open spec fn with_magnify_filter(self, filter: MagnifySamplerFilter) -> SamplerBehavior {
        SamplerBehavior {
            wrap_function: self.wrap_function,
            border_color: self.border_color,
            minify_filter: self.minify_filter,
            magnify_filter: filter,
            max_anisotropy: self.max_anisotropy,
        }
    }

    /// This behavior with the anisotropy level replaced; every other field kept.
    pub open spec fn with_anisotropy(self, level: u16) -> SamplerBehavior {
        SamplerBehavior {
            wrap_function: self.wrap_function,
            border_color: self.border_color,
            minify_filter: self.minify_filter,
            magnify_filter: self.magnify_filter,
            max_anisotropy: level,
        }
    }
}

impl Default for SamplerBehavior {
    fn default() -> (r: SamplerBehavior)
        ensures
            r == SamplerBehavior::spec_default(),
    {
        SamplerBehavior {
            wrap_function: (
                SamplerWrapFunction::Mirror,
                SamplerWrapFunction::Mirror,
                SamplerWrapFunction::Mirror,
            ),
            border_color: (0, 0, 0, 0),
            minify_filter: MinifySamplerFilter::LinearMipmapLinear,
            magnify_filter: MagnifySamplerFilter::Linear,
            max_anisotropy: 1,
        }
    }
}

/// A sampler: a borrowed texture paired with the behavior to sample it with.
#[derive(Debug, Hash, PartialEq, Eq)]
pub struct Sampler<'t, T>(pub &'t T, pub SamplerBehavior);

impl<'t, T> Sampler<'t, T> {
    /// Builds a new `Sampler` with default parameters.
    pub fn new(texture: &'t T) -> (r: Sampler<'t, T>)
        ensures
            r.0 == texture,
            r.1 == SamplerBehavior::spec_default(),
    {
        Sampler(texture, SamplerBehavior::default())
    }

    /// Changes the border color of the sampler.
    pub fn border_color(self, color: (u8, u8, u8, u8)) -> (r: Sampler<'t, T>)
        ensures
            r.0 == self.0,
            r.1 == self.1.with_border_color(color),
    {
        Sampler(
            self.0,
            SamplerBehavior {
                wrap_function: self.1.wrap_function,
                border_color: color,
                minify_filter: self.1.minify_filter,
                magnify_filter: self.1.magnify_filter,
                max_anisotropy: self.1.max_anisotropy,
            },
        )
    }

    /// Changes the wrap functions of all three coordinates.
    pub fn wrap_function(self, function: SamplerWrapFunction) -> (r: Sampler<'t, T>)
        ensures
            r.0 == self.0,
            r.1 == self.1.with_wrap_function(function),
            r.1.wrap_function == (function, function, function),
    {
        Sampler(
            self.0,
            SamplerBehavior {
                wrap_function: (function, function, function),
                border_color: self.1.border_color,
                minify_filter: self.1.minify_filter,
                magnify_filter: self.1.magnify_filter,
                max_anisotropy: self.1.max_anisotropy,
            },
        )
    }

    /// Changes the minifying filter of the sampler.
    pub fn minify_filter(self, filter: MinifySamplerFilter) -> (r: Sampler<'t, T>)
        ensures
            r.0 == self.0,
            r.1 == self.1.with_minify_filter(filter),
    {
        Sampler(
            self.0,
            SamplerBehavior {
                wrap_function: self.1.wrap_function,
                border_color: self.1.border_color,
                minify_filter: filter,
                magnify_filter: self.1.magnify_filter,
                max_anisotropy: self.1.max_anisotropy,
            },
        )
    }

    /// Changes the magnifying filter of the sampler.
    pub fn magnify_filter(self, filter: MagnifySamplerFilter) -> (r: Sampler<'t, T>)
        ensures
            r.0 == self.0,
            r.1 == self.1.with_magnify_filter(filter),
    {
        Sampler(
            self.0,
            SamplerBehavior {
                wrap_function: self.1.wrap_function,
                border_color: self.1.border_color,
                minify_filter: self.1.minify_filter,
                magnify_filter: filter,
                max_anisotropy: self.1.max_anisotropy,
            },
        )
    }

    /// Changes the maximal anisotropy level of the sampler.
    pub fn anisotropy(self, level: u16) -> (r: Sampler<'t, T>)
        ensures
            r.0 == self.0,
            r.1 == self.1.with_anisotropy(level),
    {
        Sampler(
            self.0,
            SamplerBehavior {
                wrap_function: self.1.wrap_function,
                border_color: self.1.border_color,
                minify_filter: self.1.minify_filter,
                magnify_filter: self.1.magnify_filter,
                max_anisotropy: level,
            },
        )
    }
}

impl<'t, T> Copy for Sampler<'t, T> {}

impl<'t, T> Clone for Sampler<'t, T> {
    /// A copy refers to the same texture and carries an equal behavior.
    fn clone(&self) -> (r: Self)
        ensures
            r.0 == self.0,
            r.1 == self.1,
    {
        *self
    }
}

/// Translation is one-to-one on wrap functions: two variants translate to the
/// same driver constant exactly when they are the same variant. Since the
/// translation is a function of the variant alone, it is also deterministic:
/// translating the same variant twice gives the same constant.
pub proof fn lemma_wrap_function_glenum_one_to_one(
    a: SamplerWrapFunction,
    b: SamplerWrapFunction,
)
    ensures
        a.spec_glenum() == b.spec_glenum() <==> a == b,
{
}

/// Translation is one-to-one on magnifying filters: two variants translate to
/// the same driver constant exactly when they are the same variant.
pub proof fn lemma_magnify_filter_glenum_one_to_one(
    a: MagnifySamplerFilter,
    b: MagnifySamplerFilter,
)
    ensures
        a.spec_glenum() == b.spec_glenum() <==> a == b,
{
}

/// Translation is one-to-one on minifying filters: two variants translate to
/// the same driver constant exactly when they are the same variant.
pub proof fn lemma_minify_filter_glenum_one_to_one(
    a: MinifySamplerFilter,
    b: MinifySamplerFilter,
)
    ensures
        a.spec_glenum() == b.spec_glenum() <==> a == b,
{
}

/// Builder steps that touch different fields commute: whatever behavior they
/// start from, applying two such steps in either order gives the same
/// behavior.
pub proof fn lemma_behavior_updates_commute(
    b: SamplerBehavior,
    color: (u8, u8, u8, u8),
    wrap: SamplerWrapFunction,
    minify: MinifySamplerFilter,
    magnify: MagnifySamplerFilter,
    level: u16,
)
    ensures
        b.with_border_color(color).with_wrap_function(wrap) == b.with_wrap_function(
            wrap,
        ).with_border_color(color),
        b.with_border_color(color).with_minify_filter(minify) == b.with_minify_filter(
            minify,
        ).with_border_color(color),
        b.with_border_color(color).with_magnify_filter(magnify) == b.with_magnify_filter(
            magnify,
        ).with_border_color(color),
        b.with_border_color(color).with_anisotropy(level) == b.with_anisotropy(
            level,
        ).with_border_color(color),
        b.with_wrap_function(wrap).with_minify_filter(minify) == b.with_minify_filter(
            minify,
        ).with_wrap_function(wrap),
        b.with_wrap_function(wrap).with_magnify_filter(magnify) == b.with_magnify_filter(
            magnify,
        ).with_wrap_function(wrap),
        b.with_wrap_function(wrap).with_anisotropy(level) == b.with_anisotropy(
            level,
        ).with_wrap_function(wrap),
        b.with_minify_filter(minify).with_magnify_filter(magnify) == b.with_magnify_filter(
            magnify,
        ).with_minify_filter(minify),
        b.with_minify_filter(minify).with_anisotropy(level) == b.with_anisotropy(
            level,
        ).with_minify_filter(minify),
        b.with_magnify_filter(magnify).with_anisotropy(level) == b.with_anisotropy(
            level,
        ).with_magnify_filter(magnify),
{
}

/// Two behaviors are equal exactly when all their fields are equal: equality
/// is structural, so values built from identical fields are equal, and values
/// that differ in any single field are unequal.
pub proof fn lemma_behavior_eq_is_structural(a: SamplerBehavior, b: SamplerBehavior)
    ensures
        a == b <==> (a.wrap_function == b.wrap_function && a.border_color == b.border_color
            && a.minify_filter == b.minify_filter && a.magnify_filter == b.magnify_filter
            && a.max_anisotropy == b.max_anisotropy),
{
}

} // verus!
