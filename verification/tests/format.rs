use vaporwave_overlay::format::{preferred_index, select_surface_format, srgb_flags};
use wgpu::TextureFormat;

#[test]
fn preferred_index_of_nothing_is_none() {
    assert_eq!(preferred_index(&vec![]), None);
}

#[test]
fn preferred_index_is_the_first_flagged() {
    assert_eq!(preferred_index(&vec![true]), Some(0));
    assert_eq!(preferred_index(&vec![false, true]), Some(1));
    assert_eq!(preferred_index(&vec![false, true, true]), Some(1));
    assert_eq!(preferred_index(&vec![false, false, false, true]), Some(3));
    assert_eq!(preferred_index(&vec![true, false, true]), Some(0));
}

#[test]
fn preferred_index_falls_back_to_the_first() {
    assert_eq!(preferred_index(&vec![false]), Some(0));
    assert_eq!(preferred_index(&vec![false, false, false]), Some(0));
}

#[test]
fn srgb_flags_tell_the_srgb_formats() {
    let formats = vec![
        TextureFormat::Bgra8Unorm,
        TextureFormat::Bgra8UnormSrgb,
        TextureFormat::Rgba16Float,
        TextureFormat::Rgba8UnormSrgb,
        TextureFormat::Rgba8Unorm,
    ];
    assert_eq!(srgb_flags(&formats), vec![false, true, false, true, false]);
    assert_eq!(srgb_flags(&vec![]), Vec::<bool>::new());
}

#[test]
fn srgb_flags_agree_with_the_names_of_the_formats() {
    let formats = vec![
        TextureFormat::R8Unorm,
        TextureFormat::Rg8Unorm,
        TextureFormat::Rgba8Unorm,
        TextureFormat::Rgba8UnormSrgb,
        TextureFormat::Rgba8Snorm,
        TextureFormat::Bgra8Unorm,
        TextureFormat::Bgra8UnormSrgb,
        TextureFormat::Rgb10a2Unorm,
        TextureFormat::Rgba16Float,
        TextureFormat::Rgba32Float,
        TextureFormat::Depth32Float,
        TextureFormat::Bc1RgbaUnorm,
        TextureFormat::Bc1RgbaUnormSrgb,
        TextureFormat::Bc2RgbaUnorm,
        TextureFormat::Bc2RgbaUnormSrgb,
        TextureFormat::Bc3RgbaUnorm,
        TextureFormat::Bc3RgbaUnormSrgb,
        TextureFormat::Bc7RgbaUnorm,
        TextureFormat::Bc7RgbaUnormSrgb,
        TextureFormat::Etc2Rgb8Unorm,
        TextureFormat::Etc2Rgb8UnormSrgb,
        TextureFormat::Etc2Rgb8A1Unorm,
        TextureFormat::Etc2Rgb8A1UnormSrgb,
        TextureFormat::Etc2Rgba8Unorm,
        TextureFormat::Etc2Rgba8UnormSrgb,
        TextureFormat::Astc {
            block: wgpu::AstcBlock::B4x4,
            channel: wgpu::AstcChannel::Unorm,
        },
        TextureFormat::Astc {
            block: wgpu::AstcBlock::B4x4,
            channel: wgpu::AstcChannel::UnormSrgb,
        },
        TextureFormat::Astc {
            block: wgpu::AstcBlock::B5x5,
            channel: wgpu::AstcChannel::Hdr,
        },
    ];
    let flags = srgb_flags(&formats);
    assert_eq!(flags.len(), formats.len());
    for (format, flag) in formats.iter().zip(flags.iter()) {
        assert_eq!(*flag, format!("{:?}", format).contains("Srgb"));
    }
    assert_eq!(flags.iter().filter(|flag| **flag).count(), 10);
}

#[test]
fn the_first_srgb_format_is_selected() {
    let formats = vec![
        TextureFormat::Bgra8Unorm,
        TextureFormat::Rgba16Float,
        TextureFormat::Rgba8UnormSrgb,
        TextureFormat::Bgra8UnormSrgb,
    ];
    assert_eq!(select_surface_format(&formats), Some(TextureFormat::Rgba8UnormSrgb));
}

#[test]
fn an_srgb_format_in_front_is_selected() {
    let formats = vec![TextureFormat::Bgra8UnormSrgb, TextureFormat::Bgra8Unorm];
    assert_eq!(select_surface_format(&formats), Some(TextureFormat::Bgra8UnormSrgb));
}

#[test]
fn without_an_srgb_format_the_first_is_selected() {
    let formats = vec![
        TextureFormat::Rgba16Float,
        TextureFormat::Bgra8Unorm,
        TextureFormat::Rgb10a2Unorm,
    ];
    assert_eq!(select_surface_format(&formats), Some(TextureFormat::Rgba16Float));
}

#[test]
fn a_single_format_is_selected_whatever_it_is() {
    assert_eq!(
        select_surface_format(&vec![TextureFormat::Bgra8Unorm]),
        Some(TextureFormat::Bgra8Unorm)
    );
    assert_eq!(
        select_surface_format(&vec![TextureFormat::Bgra8UnormSrgb]),
        Some(TextureFormat::Bgra8UnormSrgb)
    );
}

#[test]
fn no_format_offered_selects_none() {
    assert_eq!(select_surface_format(&vec![]), None);
}
