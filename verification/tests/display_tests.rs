use libobs_wrapper::display::{
    initial_display_position, rgb_color, GsColorFormat, GsInitValues, GsZstencilFormat,
    ObsDisplayCreationData,
};

#[test]
fn creation_defaults_and_setters() {
    let d = ObsDisplayCreationData::new(10, -20, 800, 600);
    assert!(d.create_child);
    assert_eq!(d.format, GsColorFormat::BGRA);
    assert_eq!(d.zsformat, GsZstencilFormat::ZSNone);
    assert_eq!((d.adapter, d.backbuffers, d.background_color), (0, 0, 0));
    let d = d
        .set_format(GsColorFormat::RGBA16F)
        .set_zsformat(GsZstencilFormat::Z24s8)
        .set_adapter(1)
        .set_backbuffers(2)
        .set_background_color(0x112233)
        .set_create_child(false);
    assert_eq!(
        d.init_values(),
        GsInitValues { cx: 800, cy: 600, format: 9, zsformat: 2, adapter: 1, num_backbuffers: 2 }
    );
    assert!(!d.create_child);
    assert_eq!(d.background_color, 0x112233);
    assert_eq!((d.x, d.y), (10, -20));
}

#[test]
fn graphics_enum_values() {
    assert_eq!(GsColorFormat::Unknown.to_raw(), 0);
    assert_eq!(GsColorFormat::BGRA.to_raw(), 5);
    assert_eq!(GsColorFormat::RG16.to_raw(), 22);
    assert_eq!(GsColorFormat::from_raw(23), None);
    assert_eq!(GsZstencilFormat::Z32s8X24.to_raw(), 4);
    assert_eq!(GsZstencilFormat::from_raw(3), Some(GsZstencilFormat::Z32F));
}

#[test]
fn display_positions() {
    assert_eq!(initial_display_position(true, true, 5, 6), (0, 0));
    assert_eq!(initial_display_position(true, false, 5, 6), (5, 6));
    assert_eq!(initial_display_position(false, true, 5, 6), (5, 6));
}

#[test]
fn packed_colors() {
    assert_eq!(rgb_color(0x12, 0x34, 0x56), 0x123456);
    assert_eq!(rgb_color(255, 255, 255), 0xffffff);
    assert_eq!(rgb_color(0, 0, 0), 0);
    let c = rgb_color(200, 100, 50);
    assert_eq!(((c >> 16) & 0xff, (c >> 8) & 0xff, c & 0xff), (200, 100, 50));
}
