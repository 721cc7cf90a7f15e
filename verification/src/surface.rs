//! The surface that frames are shown on: what it offers, how it is
//! configured, and which of the colour formats it offers is drawn in.

use vstd::prelude::*;

verus! {

/// wgpu's texture format. Verus sees no inside of it: a format is carried
/// from the surface's capabilities into its configuration.
#[verifier::external_type_specification]
#[verifier::external_body]
pub struct ExTextureFormat(wgpu::TextureFormat);

/// wgpu's presentation mode, carried through like a format.
#[verifier::external_type_specification]
#[verifier::external_body]
pub struct ExPresentMode(wgpu::PresentMode);

/// wgpu's alpha compositing mode, carried through like a format.
#[verifier::external_type_specification]
#[verifier::external_body]
pub struct ExCompositeAlphaMode(wgpu::CompositeAlphaMode);

/// What a surface can be configured with, each list in the order in which
/// the driver reports it.
pub struct SurfaceCapabilities {
    pub formats: Vec<wgpu::TextureFormat>,
    pub present_modes: Vec<wgpu::PresentMode>,
    pub alpha_modes: Vec<wgpu::CompositeAlphaMode>,
}

/// How a surface is configured: its colour format, its size in pixels, and
/// how finished frames reach the screen.
#[derive(Clone, Copy, Debug)]
pub struct SurfaceConfiguration {
    pub format: wgpu::TextureFormat,
    pub width: u32,
    pub height: u32,
    pub present_mode: wgpu::PresentMode,
    pub alpha_mode: wgpu::CompositeAlphaMode,
}

impl SurfaceCapabilities {
    /// Whether a configuration can be chosen: each list offers something.
    pub open spec fn usable(&self) -> bool {
        &&& self.formats@.len() > 0
        &&& self.present_modes@.len() > 0
        &&& self.alpha_modes@.len() > 0
    }

    /// Whether a configuration can be chosen: each list offers something.
    pub fn is_usable(&self) -> (usable: bool)
        ensures
            usable == self.usable(),
    {
        self.formats.len() > 0 && self.present_modes.len() > 0 && self.alpha_modes.len() > 0
    }
}

impl SurfaceConfiguration {
    /// The configuration after a request to resize to `width` by `height`
    /// pixels. A request that would leave the surface no area, or a single
    /// row or column of pixels, changes nothing.
    pub open spec fn resized(self, width: u32, height: u32) -> SurfaceConfiguration {
        if width > 1 && height > 1 {
            SurfaceConfiguration { width, height, ..self }
        } else {
            self
        }
    }
}

/// Whether a format stores its colours gamma-encoded (sRGB), as
/// `wgpu::TextureFormat::is_srgb` tells it.
pub uninterp spec fn format_is_srgb(format: wgpu::TextureFormat) -> bool;

/// `wgpu::TextureFormat::is_srgb` compares the format with what is left of it
/// once its sRGB suffix is stripped. It reads the format and nothing else, so
/// its answer is a function of the format.
pub assume_specification[ wgpu::TextureFormat::is_srgb ](format: &wgpu::TextureFormat) -> (srgb: bool)
    ensures
        srgb == format_is_srgb(*format),
;

/// The place of the first `true` in `flags`, if there is one.
pub open spec fn first_set(flags: Seq<bool>) -> Option<int>
    decreases flags.len(),
{
    if flags.len() == 0 {
        None
    } else if flags[0] {
        Some(0)
    } else {
        match first_set(flags.drop_first()) {
            Some(i) => Some(i + 1),
            None => None,
        }
    }
}

/// For each format, whether it is gamma-encoded.
pub open spec fn srgb_flags(formats: Seq<wgpu::TextureFormat>) -> Seq<bool> {
    Seq::new(formats.len(), |i: int| format_is_srgb(formats[i]))
}

/// The format to draw in: the first gamma-encoded one, or, where none is,
/// the first of all.
pub open spec fn preferred_format_of(formats: Seq<wgpu::TextureFormat>) -> wgpu::TextureFormat
    recommends
        formats.len() > 0,
{
    match first_set(srgb_flags(formats)) {
        Some(i) => formats[i],
        None => formats[0],
    }
}

/// `first_set` finds `i` when `i` is the least place that holds `true`.
pub proof fn lemma_first_set_some(flags: Seq<bool>, i: int)
    requires
        0 <= i < flags.len(),
        flags[i],
        forall|j: int| 0 <= j < i ==> !flags[j],
    ensures
        first_set(flags) == Some(i),
    decreases i,
{
    if i > 0 {
        let rest = flags.drop_first();
        assert(!flags[0]);
        assert(rest[i - 1] == flags[i]);
        assert forall|j: int| 0 <= j < i - 1 implies !rest[j] by {
            assert(rest[j] == flags[j + 1]);
        }
        lemma_first_set_some(rest, i - 1);
    }
}

/// `first_set` finds nothing when no place holds `true`.
pub proof fn lemma_first_set_none(flags: Seq<bool>)
    requires
        forall|j: int| 0 <= j < flags.len() ==> !flags[j],
    ensures
        first_set(flags) is None,
    decreases flags.len(),
{
    if flags.len() > 0 {
        let rest = flags.drop_first();
        assert(!flags[0]);
        assert forall|j: int| 0 <= j < rest.len() implies !rest[j] by {
            assert(rest[j] == flags[j + 1]);
        }
        lemma_first_set_none(rest);
    }
}

/// The index of the first `true` among `flags`, or `None` where all are
/// `false`.
pub fn first_set_index(flags: &Vec<bool>) -> (found: Option<usize>)
    ensures
        match found {
            Some(i) => first_set(flags@) == Some(i as int),
            None => first_set(flags@) is None,
        },
        found matches Some(i) ==> i < flags@.len() && flags@[i as int] && forall|j: int|
            0 <= j < i ==> !flags@[j],
        found is None ==> forall|j: int| 0 <= j < flags@.len() ==> !flags@[j],
{
    let mut i: usize = 0;
    while i < flags.len()
        invariant
            i <= flags@.len(),
            forall|j: int| 0 <= j < i ==> !flags@[j],
        decreases flags@.len() - i,
    {
        if flags[i] {
            proof {
                lemma_first_set_some(flags@, i as int);
            }
            return Some(i);
        }
        i += 1;
    }
    proof {
        lemma_first_set_none(flags@);
    }
    None
}

/// Picks the format to draw in among those that a surface offers, in the
/// order in which it offers them: the first gamma-encoded format, or the
/// first format where none is gamma-encoded.
pub fn preferred_format(formats: &Vec<wgpu::TextureFormat>) -> (format: wgpu::TextureFormat)
    requires
        formats@.len() > 0,
    ensures
        format == preferred_format_of(formats@),
{
    let mut flags: Vec<bool> = Vec::new();
    let mut i: usize = 0;
    while i < formats.len()
        invariant
            i <= formats@.len(),
            flags@ == srgb_flags(formats@).take(i as int),
        decreases formats@.len() - i,
    {
        flags.push(formats[i].is_srgb());
        i += 1;
    }
    assert(flags@ == srgb_flags(formats@));
    match first_set_index(&flags) {
        Some(at) => formats[at],
        None => formats[0],
    }
}

} // verus!
