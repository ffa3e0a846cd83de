use libobs_wrapper::enums::{
    ObsBounds, ObsColorspace, ObsEncoderType, ObsGraphicsModule, ObsLogLevel,
    ObsOutputStopSignal, ObsResetVideoStatus, ObsSamplesPerSecond, ObsScaleType,
    ObsSpeakerLayout, ObsVideoFormat, ObsVideoRange,
};

#[test]
fn test_obs_video_format_equality() {
    assert_eq!(ObsVideoFormat::I420, ObsVideoFormat::I420);
    assert_ne!(ObsVideoFormat::I420, ObsVideoFormat::NV12);
}

#[test]
fn test_obs_video_format_clone() {
    let format = ObsVideoFormat::RGBA;
    #[allow(clippy::clone_on_copy)]
    let cloned = format.clone();
    assert_eq!(format, cloned);
}

#[test]
fn test_obs_video_format_debug() {
    let format = ObsVideoFormat::BGRA;
    let debug_str = format!("{:?}", format);
    assert!(debug_str.contains("BGRA"));
}

#[test]
fn test_obs_colorspace_equality() {
    assert_eq!(ObsColorspace::CS709, ObsColorspace::CS709);
    assert_ne!(ObsColorspace::CS709, ObsColorspace::CS601);
}

#[test]
fn test_obs_colorspace_clone() {
    let colorspace = ObsColorspace::Default;
    #[allow(clippy::clone_on_copy)]
    let cloned = colorspace.clone();
    assert_eq!(colorspace, cloned);
}

#[test]
fn test_obs_video_range_equality() {
    assert_eq!(ObsVideoRange::Full, ObsVideoRange::Full);
    assert_ne!(ObsVideoRange::Full, ObsVideoRange::Partial);
}

#[test]
fn test_obs_video_range_clone() {
    let range = ObsVideoRange::Default;
    #[allow(clippy::clone_on_copy)]
    let cloned = range.clone();
    assert_eq!(range, cloned);
}

#[test]
fn test_obs_scale_type_equality() {
    assert_eq!(ObsScaleType::Bilinear, ObsScaleType::Bilinear);
    assert_ne!(ObsScaleType::Bilinear, ObsScaleType::Bicubic);
}

#[test]
fn test_obs_scale_type_clone() {
    let scale = ObsScaleType::Lanczos;
    #[allow(clippy::clone_on_copy)]
    let cloned = scale.clone();
    assert_eq!(scale, cloned);
}

#[test]
fn test_obs_graphics_module_equality() {
    assert_eq!(ObsGraphicsModule::DirectX11, ObsGraphicsModule::DirectX11);
    assert_ne!(ObsGraphicsModule::DirectX11, ObsGraphicsModule::OpenGL);
}

#[test]
fn test_obs_graphics_module_clone() {
    let module = ObsGraphicsModule::OpenGL;
    #[allow(clippy::clone_on_copy)]
    let cloned = module.clone();
    assert_eq!(module, cloned);
}

#[test]
fn test_obs_reset_video_status_equality() {
    assert_eq!(ObsResetVideoStatus::Success, ObsResetVideoStatus::Success);
    assert_ne!(ObsResetVideoStatus::Success, ObsResetVideoStatus::Failure);
}

#[test]
fn test_obs_reset_video_status_clone() {
    let status = ObsResetVideoStatus::Success;
    #[allow(clippy::clone_on_copy)]
    let cloned = status.clone();
    assert_eq!(status, cloned);
}

#[test]
fn test_obs_reset_video_status_debug() {
    let status = ObsResetVideoStatus::Success;
    let debug_str = format!("{:?}", status);
    assert!(debug_str.contains("Success"));
}

#[test]
fn enums_tests_test_all_enums_are_copy() {
    let format = ObsVideoFormat::I420;
    let _copy1 = format;
    let _copy2 = format;

    let colorspace = ObsColorspace::CS709;
    let _copy1 = colorspace;
    let _copy2 = colorspace;
}

#[test]
fn test_obs_graphics_module_display() {
    let module = ObsGraphicsModule::DirectX11;
    let display_str = module.to_string();
    assert!(display_str.contains("direct3d11") || display_str.contains("d3d11"));
}

#[test]
fn test_obs_video_format_display() {
    let format = ObsVideoFormat::I420;
    let display_str = format.name().to_string();
    assert!(!display_str.is_empty());
}

#[test]
fn graphics_module_names() {
    assert_eq!(ObsGraphicsModule::OpenGL.module_name(), "libobs-opengl");
    assert_eq!(ObsGraphicsModule::DirectX11.module_name(), "libobs-d3d11.dll");
    assert_eq!(ObsGraphicsModule::OpenGL.to_string(), "libobs-opengl");
}

#[test]
fn video_format_raw_values() {
    assert_eq!(ObsVideoFormat::NONE.to_raw(), 0);
    assert_eq!(ObsVideoFormat::I420.to_raw(), 1);
    assert_eq!(ObsVideoFormat::NV12.to_raw(), 2);
    assert_eq!(ObsVideoFormat::BGRA.to_raw(), 7);
    assert_eq!(ObsVideoFormat::R10L.to_raw(), 25);
    assert_eq!(ObsVideoFormat::from_raw(16), Some(ObsVideoFormat::AYUV));
    assert_eq!(ObsVideoFormat::from_raw(26), None);
    assert_eq!(ObsVideoFormat::BGRA.name(), "BGRA");
}

#[test]
fn every_video_format_round_trips() {
    for v in 0..26u32 {
        let f = ObsVideoFormat::from_raw(v).expect("every value below 26 is a format");
        assert_eq!(f.to_raw(), v);
    }
}

#[test]
fn colorspace_range_scale_values() {
    assert_eq!(ObsColorspace::Default.to_raw(), 0);
    assert_eq!(ObsColorspace::CS709.to_raw(), 2);
    assert_eq!(ObsColorspace::CS2100HLG.to_raw(), 5);
    assert_eq!(ObsColorspace::from_raw(3), Some(ObsColorspace::CSRGB));
    assert_eq!(ObsColorspace::from_raw(6), None);
    assert_eq!(ObsVideoRange::Full.to_raw(), 2);
    assert_eq!(ObsVideoRange::from_raw(1), Some(ObsVideoRange::Partial));
    assert_eq!(ObsScaleType::Lanczos.to_raw(), 4);
    assert_eq!(ObsScaleType::from_raw(5), Some(ObsScaleType::Area));
    assert_eq!(ObsScaleType::from_raw(6), None);
}

#[test]
fn reset_video_status_values() {
    assert_eq!(ObsResetVideoStatus::Success.to_raw(), 0);
    assert_eq!(ObsResetVideoStatus::Failure.to_raw(), -1);
    assert_eq!(ObsResetVideoStatus::from_raw(-4), Some(ObsResetVideoStatus::CurrentlyActive));
    assert_eq!(ObsResetVideoStatus::from_raw(-5), None);
    assert_eq!(ObsResetVideoStatus::from_raw(1), None);
}

#[test]
fn audio_enum_values() {
    assert_eq!(ObsSamplesPerSecond::F44100.to_raw(), 44100);
    assert_eq!(ObsSamplesPerSecond::F48000.to_raw(), 48000);
    assert_eq!(ObsSamplesPerSecond::from_raw(48000), Some(ObsSamplesPerSecond::F48000));
    assert_eq!(ObsSamplesPerSecond::from_raw(22050), None);
    assert_eq!(ObsSpeakerLayout::Stereo.to_raw(), 2);
    assert_eq!(ObsSpeakerLayout::S7Point1.to_raw(), 8);
    assert_eq!(ObsSpeakerLayout::from_raw(7), None);
    assert_eq!(ObsSpeakerLayout::from_raw(6), Some(ObsSpeakerLayout::S5Point1));
}

#[test]
fn encoder_log_bounds_values() {
    assert_eq!(ObsEncoderType::Audio.to_raw(), 0);
    assert_eq!(ObsEncoderType::Video.to_raw(), 1);
    assert_eq!(ObsLogLevel::Error.to_raw(), 100);
    assert_eq!(ObsLogLevel::Debug.to_raw(), 400);
    assert_eq!(ObsLogLevel::from_raw(300), Some(ObsLogLevel::Info));
    assert_eq!(ObsLogLevel::from_raw(150), None);
    assert_eq!(ObsLogLevel::Warning.name(), "Warning");
    assert_eq!(ObsBounds::ScaleInner.to_raw(), 2);
    assert_eq!(ObsBounds::from_raw(0), Some(ObsBounds::NoBounds));
    assert_eq!(ObsBounds::from_raw(7), None);
}

#[test]
fn output_stop_signal_codes() {
    assert_eq!(ObsOutputStopSignal::Success.to_code(), 0);
    assert_eq!(ObsOutputStopSignal::BadPath.to_code(), -1);
    assert_eq!(ObsOutputStopSignal::EncodeError.to_code(), -8);
    assert_eq!(ObsOutputStopSignal::try_from_code(-7), Ok(ObsOutputStopSignal::NoSpace));
    assert_eq!(ObsOutputStopSignal::try_from_code(-9), Err("Invalid value"));
    assert_eq!(ObsOutputStopSignal::try_from_code(1), Err("Invalid value"));
    for code in -8..=0 {
        let s = ObsOutputStopSignal::try_from_code(code).unwrap();
        assert_eq!(s.to_code(), code);
    }
}

#[test]
fn output_stop_signal_text() {
    assert_eq!(ObsOutputStopSignal::BadPath.text(), "Bad Path");
    assert_eq!(ObsOutputStopSignal::NoSpace.to_string(), "No Space");
    assert_eq!(ObsOutputStopSignal::Success.to_string(), "Success");
}

#[test]
fn output_stop_signal_std_conversions() {
    let code: i32 = ObsOutputStopSignal::Disconnected.into();
    assert_eq!(code, -5);
    assert_eq!(i32::from(ObsOutputStopSignal::Unsupported), -6);
    assert_eq!(ObsOutputStopSignal::try_from(-2), Ok(ObsOutputStopSignal::ConnectFailed));
    assert_eq!(ObsOutputStopSignal::try_from(3), Err("Invalid value"));
}
