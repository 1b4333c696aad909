//! Tests of surface-configuration negotiation.

use quadrender::FormatOption;
use quadrender::SurfaceCapabilities;
use quadrender::negotiate_configuration;

fn caps(formats: Vec<FormatOption>) -> SurfaceCapabilities {
    SurfaceCapabilities { formats, present_modes: vec![7, 8], alpha_modes: vec![9, 10] }
}

#[test]
fn prefers_first_srgb_format() {
    let c = negotiate_configuration(
        &caps(vec![
            FormatOption { id: 1, srgb: false },
            FormatOption { id: 2, srgb: true },
            FormatOption { id: 3, srgb: true },
        ]),
        800,
        600,
    );
    assert_eq!(c.format, FormatOption { id: 2, srgb: true });
    assert_eq!(c.width, 800);
    assert_eq!(c.height, 600);
    assert_eq!(c.present_mode, 7);
    assert_eq!(c.alpha_mode, 9);
}

#[test]
fn falls_back_to_first_format() {
    let c = negotiate_configuration(
        &caps(vec![FormatOption { id: 4, srgb: false }, FormatOption { id: 5, srgb: false }]),
        640,
        480,
    );
    assert_eq!(c.format, FormatOption { id: 4, srgb: false });
}

#[test]
fn takes_first_format_when_it_is_srgb() {
    let c = negotiate_configuration(
        &caps(vec![FormatOption { id: 6, srgb: true }, FormatOption { id: 7, srgb: false }]),
        1,
        1,
    );
    assert_eq!(c.format, FormatOption { id: 6, srgb: true });
}

#[test]
fn degenerate_size_is_accepted() {
    let c = negotiate_configuration(&caps(vec![FormatOption { id: 1, srgb: true }]), 0, 0);
    assert_eq!(c.width, 0);
    assert_eq!(c.height, 0);
}
