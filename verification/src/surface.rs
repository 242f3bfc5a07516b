//! The presentable surface: which adapter and which texture format to use,
//! and the configuration the surface starts with.

use crate::resource::TextureUsages;
use vstd::prelude::*;

verus! {

/// `wgpu::TextureFormat`, carried through as an opaque value.
#[verifier::external_type_specification]
#[verifier::external_body]
pub struct ExTextureFormat(wgpu::TextureFormat);

/// `wgpu::PresentMode`, carried through as an opaque value.
#[verifier::external_type_specification]
#[verifier::external_body]
pub struct ExPresentMode(wgpu::PresentMode);

/// `wgpu::CompositeAlphaMode`, carried through as an opaque value.
#[verifier::external_type_specification]
#[verifier::external_body]
pub struct ExCompositeAlphaMode(wgpu::CompositeAlphaMode);

/// What `wgpu::TextureFormat::is_srgb` answers for `format`: whether the
/// format stores colour in the sRGB encoding.
pub uninterp spec fn format_is_srgb(format: wgpu::TextureFormat) -> bool;

/// `wgpu::TextureFormat::is_srgb` compares the format with its own
/// non-sRGB counterpart and reads nothing else, so its answer depends on
/// the format alone. The contract gives that answer its name and claims
/// no more.
pub assume_specification[ wgpu::TextureFormat::is_srgb ](format: &wgpu::TextureFormat) -> (srgb:
    bool)
    ensures
        srgb == format_is_srgb(*format),
;

/// Index of the first `true` in `flags` at or after `start`.
pub open spec fn first_set_from(flags: Seq<bool>, start: int) -> Option<int>
    decreases flags.len() - start,
{
    if start < 0 || start >= flags.len() {
        None
    } else if flags[start] {
        Some(start)
    } else {
        first_set_from(flags, start + 1)
    }
}

/// Index of the first `true` in `flags`.
pub open spec fn first_set(flags: Seq<bool>) -> Option<int> {
    first_set_from(flags, 0)
}

/// `first_set_from` finds a set flag exactly when one exists at or after
/// `start`, and the one it finds has no set flag between `start` and it.
pub proof fn lemma_first_set_from(flags: Seq<bool>, start: int)
    requires
        0 <= start,
    ensures
        match first_set_from(flags, start) {
            Some(i) => {
                &&& start <= i < flags.len()
                &&& flags[i]
                &&& forall|j: int| start <= j < i ==> !flags[j]
            },
            None => forall|j: int| start <= j < flags.len() ==> !flags[j],
        },
    decreases flags.len() - start,
{
    if start < flags.len() && !flags[start] {
        lemma_first_set_from(flags, start + 1);
    }
}

/// `first_set` finds a set flag exactly when one exists, and the one it
/// finds is the earliest: an adapter is chosen exactly when some adapter
/// supports the surface, and no adapter before the chosen one does.
pub proof fn lemma_first_set(flags: Seq<bool>)
    ensures
        match first_set(flags) {
            Some(i) => {
                &&& 0 <= i < flags.len()
                &&& flags[i]
                &&& forall|j: int| 0 <= j < i ==> !flags[j]
            },
            None => forall|j: int| 0 <= j < flags.len() ==> !flags[j],
        },
{
    lemma_first_set_from(flags, 0);
}

/// Returns the index of the first `true` in `flags`, or `None` if there
/// is no `true` in it.
pub fn first_set_index(flags: &Vec<bool>) -> (found: Option<usize>)
    ensures
        match found {
            Some(i) => {
                &&& first_set(flags@) == Some(i as int)
                &&& i < flags@.len()
                &&& flags@[i as int]
                &&& forall|j: int| 0 <= j < i ==> !flags@[j]
            },
            None => {
                &&& first_set(flags@) is None
                &&& forall|j: int| 0 <= j < flags@.len() ==> !flags@[j]
            },
        },
{
    let mut i: usize = 0;
    while i < flags.len()
        invariant
            i <= flags.len(),
            first_set(flags@) == first_set_from(flags@, i as int),
        decreases flags.len() - i,
    {
        if flags[i] {
            proof {
                lemma_first_set(flags@);
            }
            return Some(i);
        }
        i += 1;
    }
    proof {
        lemma_first_set(flags@);
    }
    None
}

/// Returns the index of the first adapter that can present to the surface.
///
/// `supported[i]` tells whether adapter `i`, in enumeration order, supports
/// the surface. `None` means that no adapter does, which is fatal to
/// start-up.
pub fn select_adapter(supported: &Vec<bool>) -> (choice: Option<usize>)
    ensures
        match choice {
            Some(i) => {
                &&& first_set(supported@) == Some(i as int)
                &&& i < supported@.len()
                &&& supported@[i as int]
                &&& forall|j: int| 0 <= j < i ==> !supported@[j]
            },
            None => {
                &&& first_set(supported@) is None
                &&& forall|j: int| 0 <= j < supported@.len() ==> !supported@[j]
            },
        },
{
    first_set_index(supported)
}

/// Index of the format to configure the surface with, given which of the
/// supported formats are sRGB: the first sRGB one, else the first of all.
pub open spec fn preferred_format_index(srgb: Seq<bool>) -> Option<int> {
    match first_set(srgb) {
        Some(i) => Some(i),
        None => if srgb.len() > 0 {
            Some(0)
        } else {
            None
        },
    }
}

/// Returns the index of the preferred format among formats of which
/// `srgb[i]` tells whether format `i` is sRGB: the index of the first sRGB
/// format, else 0. `None` means that the list is empty.
pub fn select_format_index(srgb: &Vec<bool>) -> (choice: Option<usize>)
    ensures
        match choice {
            Some(i) => {
                &&& preferred_format_index(srgb@) == Some(i as int)
                &&& i < srgb@.len()
                &&& forall|j: int| 0 <= j < i ==> !srgb@[j]
                &&& !srgb@[i as int] ==> i == 0 && forall|j: int| 0 <= j < srgb@.len() ==> !srgb@[j]
            },
            None => preferred_format_index(srgb@) is None && srgb@.len() == 0,
        },
{
    match first_set_index(srgb) {
        Some(i) => Some(i),
        None => if srgb.len() > 0 {
            Some(0)
        } else {
            None
        },
    }
}

/// For each format, whether it is sRGB.
pub open spec fn srgb_flags(formats: Seq<wgpu::TextureFormat>) -> Seq<bool> {
    Seq::new(formats.len(), |i: int| format_is_srgb(formats[i]))
}

/// The format to configure the surface with: the first sRGB format that
/// the surface supports, else the first format it supports at all.
pub open spec fn preferred_format(formats: Seq<wgpu::TextureFormat>) -> Option<
    wgpu::TextureFormat,
> {
    match preferred_format_index(srgb_flags(formats)) {
        Some(i) => Some(formats[i]),
        None => None,
    }
}

/// The preferred format is one of the supported formats and is missing
/// only when the surface supports none. It stands at the preferred index,
/// and no format before it is sRGB. It is sRGB whenever any supported
/// format is; when it is not, no supported format is, and it is the first
/// of them.
pub proof fn lemma_preferred_format(formats: Seq<wgpu::TextureFormat>)
    ensures
        formats.len() == 0 <==> preferred_format(formats) is None,
        preferred_format(formats) matches Some(format) ==> {
            &&& formats.contains(format)
            &&& preferred_format_index(srgb_flags(formats)) matches Some(index)
            &&& 0 <= index < formats.len()
            &&& format == formats[index]
            &&& forall|j: int| 0 <= j < index ==> !format_is_srgb(#[trigger] formats[j])
            &&& (exists|i: int| 0 <= i < formats.len() && format_is_srgb(formats[i]))
                ==> format_is_srgb(format)
            &&& !format_is_srgb(format) ==> {
                &&& index == 0
                &&& format == formats[0]
                &&& forall|j: int|
                    0 <= j < formats.len() ==> !format_is_srgb(#[trigger] formats[j])
            }
        },
{
    let flags = srgb_flags(formats);
    lemma_first_set(flags);
    assert forall|j: int| 0 <= j < formats.len() implies flags[j] == format_is_srgb(
        #[trigger] formats[j],
    ) by {}
}

/// Returns the format to configure the surface with, chosen among the
/// formats that the surface supports, in the order the surface lists them.
pub fn select_surface_format(formats: &Vec<wgpu::TextureFormat>) -> (choice: Option<
    wgpu::TextureFormat,
>)
    ensures
        choice == preferred_format(formats@),
        formats@.len() == 0 <==> choice is None,
        choice matches Some(format) ==> {
            &&& formats@.contains(format)
            &&& preferred_format_index(srgb_flags(formats@)) matches Some(index)
            &&& 0 <= index < formats@.len()
            &&& format == formats@[index]
            &&& forall|j: int| 0 <= j < index ==> !format_is_srgb(#[trigger] formats@[j])
            &&& (exists|i: int| 0 <= i < formats@.len() && format_is_srgb(formats@[i]))
                ==> format_is_srgb(format)
            &&& !format_is_srgb(format) ==> {
                &&& index == 0
                &&& format == formats@[0]
                &&& forall|j: int|
                    0 <= j < formats@.len() ==> !format_is_srgb(#[trigger] formats@[j])
            }
        },
{
    proof {
        lemma_preferred_format(formats@);
    }
    let mut srgb: Vec<bool> = Vec::new();
    let mut i: usize = 0;
    while i < formats.len()
        invariant
            i <= formats.len(),
            srgb@.len() == i,
            forall|j: int| 0 <= j < i ==> srgb@[j] == format_is_srgb(formats@[j]),
        decreases formats.len() - i,
    {
        srgb.push(formats[i].is_srgb());
        i += 1;
    }
    assert(srgb@ =~= srgb_flags(formats@));
    match select_format_index(&srgb) {
        Some(index) => Some(formats[index]),
        None => None,
    }
}

/// What a surface can be configured with, each list in the surface's own
/// order of preference.
#[derive(Clone, Debug, PartialEq, Eq)]
pub struct SurfaceCapabilities {
    pub formats: Vec<wgpu::TextureFormat>,
    pub present_modes: Vec<wgpu::PresentMode>,
    pub alpha_modes: Vec<wgpu::CompositeAlphaMode>,
}

/// How the surface is configured.
#[derive(Clone, Copy, Debug, PartialEq, Eq)]
pub struct SurfaceConfiguration {
    pub usage: TextureUsages,
    pub format: wgpu::TextureFormat,
    pub width: u32,
    pub height: u32,
    pub present_mode: wgpu::PresentMode,
    pub alpha_mode: wgpu::CompositeAlphaMode,
    pub desired_maximum_frame_latency: u32,
}

/// Frames that may be queued for presentation before a new one is started.
pub const FRAME_LATENCY: u32 = 2;

/// What the images of the surface are used for: frames are rendered into
/// them and nothing else is done with them.
pub open spec fn surface_usage() -> TextureUsages {
    TextureUsages { copy_dst: false, texture_binding: false, render_attachment: true }
}

/// Why no surface configuration could be made.
#[derive(Clone, Copy, Debug, PartialEq, Eq, Structural)]
pub enum InitError {
    /// The surface supports no texture format.
    NoSurfaceFormat,
    /// The surface supports no present mode.
    NoPresentMode,
    /// The surface supports no alpha mode.
    NoAlphaMode,
}

/// The configuration a surface of `size` pixels starts with, or the reason
/// why there is none: the preferred format, and the first present mode and
/// alpha mode that the surface lists.
pub open spec fn initial_configuration(
    formats: Seq<wgpu::TextureFormat>,
    present_modes: Seq<wgpu::PresentMode>,
    alpha_modes: Seq<wgpu::CompositeAlphaMode>,
    size: (u32, u32),
) -> Result<SurfaceConfiguration, InitError> {
    if formats.len() == 0 {
        Err(InitError::NoSurfaceFormat)
    } else if present_modes.len() == 0 {
        Err(InitError::NoPresentMode)
    } else if alpha_modes.len() == 0 {
        Err(InitError::NoAlphaMode)
    } else {
        Ok(
            SurfaceConfiguration {
                usage: surface_usage(),
                format: preferred_format(formats).unwrap(),
                width: size.0,
                height: size.1,
                present_mode: present_modes[0],
                alpha_mode: alpha_modes[0],
                desired_maximum_frame_latency: FRAME_LATENCY,
            },
        )
    }
}

impl SurfaceConfiguration {
    /// Returns the configuration that a surface with capabilities
    /// `capabilities` starts with in a window of `size` pixels.
    pub fn initial(capabilities: &SurfaceCapabilities, size: (u32, u32)) -> (made: Result<
        SurfaceConfiguration,
        InitError,
    >)
        ensures
            made == initial_configuration(
                capabilities.formats@,
                capabilities.present_modes@,
                capabilities.alpha_modes@,
                size,
            ),
    {
        let format = match select_surface_format(&capabilities.formats) {
            Some(format) => format,
            None => {
                return Err(InitError::NoSurfaceFormat);
            },
        };
        if capabilities.present_modes.len() == 0 {
            return Err(InitError::NoPresentMode);
        }
        if capabilities.alpha_modes.len() == 0 {
            return Err(InitError::NoAlphaMode);
        }
        Ok(
            SurfaceConfiguration {
                usage: TextureUsages {
                    copy_dst: false,
                    texture_binding: false,
                    render_attachment: true,
                },
                format,
                width: size.0,
                height: size.1,
                present_mode: capabilities.present_modes[0],
                alpha_mode: capabilities.alpha_modes[0],
                desired_maximum_frame_latency: FRAME_LATENCY,
            },
        )
    }
}

} // verus!
