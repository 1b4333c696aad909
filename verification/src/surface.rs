//! Surface configuration and its negotiation.
//!
//! The host reports what the platform surface offers — its texture
//! formats with an sRGB flag, its presentation modes and alpha modes,
//! each named by an opaque code — and the window's current client-area
//! size. Negotiation picks the first sRGB-capable format if one is
//! offered, else the first format, and the first offered presentation
//! and alpha mode. The format is chosen once and held fixed thereafter;
//! only the size changes on resize.

use vstd::prelude::*;

verus! {

/// One texture format the surface offers: an opaque host-side code and
/// whether the format is sRGB-capable.
#[derive(Clone, Copy, Debug, PartialEq, Eq, Structural)]
pub struct FormatOption {
    pub id: u32,
    pub srgb: bool,
}

/// What the platform surface offers, as the host reports it. Modes are
/// opaque host-side codes, listed in the platform's preference order.
#[derive(Debug)]
pub struct SurfaceCapabilities {
    pub formats: Vec<FormatOption>,
    pub present_modes: Vec<u32>,
    pub alpha_modes: Vec<u32>,
}

/// The presentation parameters applied to the surface: negotiated once,
/// re-applied whenever the size changes or the surface reports loss.
#[derive(Clone, Copy, Debug, PartialEq, Eq, Structural)]
pub struct SurfaceConfiguration {
    pub format: FormatOption,
    pub width: u32,
    pub height: u32,
    pub present_mode: u32,
    pub alpha_mode: u32,
}

/// Whether any offered format is sRGB-capable.
pub open spec fn has_srgb(formats: Seq<FormatOption>) -> bool {
    exists|i: int| 0 <= i < formats.len() && formats[i].srgb
}

/// The format negotiation picks: the first sRGB-capable format if one
/// is offered, else the first format.
pub open spec fn preferred_format(formats: Seq<FormatOption>) -> FormatOption
    decreases formats.len(),
{
    if formats.len() == 0 {
        FormatOption { id: 0, srgb: false }
    } else if formats[0].srgb {
        formats[0]
    } else if has_srgb(formats.drop_first()) {
        preferred_format(formats.drop_first())
    } else {
        formats[0]
    }
}

/// Where no offered format is sRGB-capable, the first one is picked.
pub proof fn lemma_preferred_format_no_srgb(formats: Seq<FormatOption>)
    requires
        formats.len() > 0,
        !has_srgb(formats),
    ensures
        preferred_format(formats) == formats[0],
{
    assert(!formats[0].srgb) by {
        if formats[0].srgb {
            assert(has_srgb(formats));
        }
    }
    assert(!has_srgb(formats.drop_first())) by {
        if has_srgb(formats.drop_first()) {
            let i = choose|i: int| 0 <= i < formats.drop_first().len() && formats.drop_first()[i].srgb;
            assert(formats[i + 1] == formats.drop_first()[i]);
            assert(formats[i + 1].srgb);
            assert(has_srgb(formats));
        }
    }
}

/// The picked format is the earliest sRGB-capable one: an sRGB format
/// at position `i` with none before it is the negotiation's choice.
pub proof fn lemma_preferred_format_first_srgb(formats: Seq<FormatOption>, i: int)
    requires
        0 <= i < formats.len(),
        formats[i].srgb,
        forall|j: int| 0 <= j < i ==> !(#[trigger] formats[j]).srgb,
    ensures
        preferred_format(formats) == formats[i],
    decreases i,
{
    if i == 0 {
    } else {
        assert(!formats[0].srgb);
        let rest = formats.drop_first();
        assert(rest[i - 1].srgb);
        assert(has_srgb(rest));
        assert(forall|j: int| 0 <= j < i - 1 ==> !(#[trigger] rest[j]).srgb);
        lemma_preferred_format_first_srgb(rest, i - 1);
    }
}

/// Negotiates the configuration for the current client-area size: the
/// preferred format, the first offered presentation and alpha mode, and
/// the given width and height, degenerate sizes included.
pub fn negotiate_configuration(caps: &SurfaceCapabilities, width: u32, height: u32) -> (c: SurfaceConfiguration)
    requires
        caps.formats@.len() > 0,
        caps.present_modes@.len() > 0,
        caps.alpha_modes@.len() > 0,
    ensures
        c.format == preferred_format(caps.formats@),
        has_srgb(caps.formats@) ==> c.format.srgb,
        c.width == width,
        c.height == height,
        c.present_mode == caps.present_modes@[0],
        c.alpha_mode == caps.alpha_modes@[0],
{
    let present_mode = caps.present_modes[0];
    let alpha_mode = caps.alpha_modes[0];
    let mut i: usize = 0;
    while i < caps.formats.len()
        invariant
            0 < caps.formats@.len(),
            i <= caps.formats@.len(),
            forall|j: int| 0 <= j < i ==> !(#[trigger] caps.formats@[j]).srgb,
            present_mode == caps.present_modes@[0],
            alpha_mode == caps.alpha_modes@[0],
        decreases caps.formats@.len() - i,
    {
        if caps.formats[i].srgb {
            proof {
                lemma_preferred_format_first_srgb(caps.formats@, i as int);
            }
            return SurfaceConfiguration {
                format: caps.formats[i],
                width,
                height,
                present_mode,
                alpha_mode,
            };
        }
        i = i + 1;
    }
    proof {
        assert(!has_srgb(caps.formats@)) by {
            if has_srgb(caps.formats@) {
                let k = choose|k: int| 0 <= k < caps.formats@.len() && caps.formats@[k].srgb;
                assert(!caps.formats@[k].srgb);
            }
        }
        lemma_preferred_format_no_srgb(caps.formats@);
    }
    SurfaceConfiguration {
        format: caps.formats[0],
        width,
        height,
        present_mode,
        alpha_mode,
    }
}

} // verus!
