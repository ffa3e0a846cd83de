use libobs_wrapper::data::audio::ObsAudioInfo;
use libobs_wrapper::data::output::{
    ensure_output_active_for_pause, ensure_output_active_for_stop, ensure_output_inactive,
    save_buffer_failure, stop_signal_outcome, SaveBufferStep,
};
use libobs_wrapper::data::updater::{batch_order, BatchStep, ObsDataChange, ObsDataUpdater};
use libobs_wrapper::data::video::{
    primary_display_size, DisplayEntry, ObsVideoInfoBuilder, ObsVideoSettings,
};
use libobs_wrapper::enums::{
    ObsColorspace, ObsGraphicsModule, ObsOutputStopSignal, ObsSamplesPerSecond, ObsScaleType,
    ObsSpeakerLayout, ObsVideoFormat, ObsVideoRange,
};
use libobs_wrapper::utils::error::ObsError;

#[test]
fn audio_info_constructors() {
    let d = ObsAudioInfo::default();
    assert_eq!(d.samples_per_sec(), ObsSamplesPerSecond::F44100);
    assert_eq!(d.speakers(), ObsSpeakerLayout::Stereo);
    assert_eq!(d.max_buffering_ms(), 0);
    assert!(!d.fixed_buffering());
    let l = ObsAudioInfo::new_low_latency(ObsSamplesPerSecond::F48000, ObsSpeakerLayout::Mono);
    assert_eq!(l, ObsAudioInfo::new(ObsSamplesPerSecond::F48000, ObsSpeakerLayout::Mono, 20, true));
    assert_eq!(l.max_buffering_ms(), 20);
    assert!(l.fixed_buffering());
}

fn display(is_primary: bool, width: u32, height: u32) -> DisplayEntry {
    DisplayEntry { is_primary, width, height }
}

#[test]
fn primary_display_is_first_primary() {
    assert_eq!(primary_display_size(&Vec::new()), (1920, 1080));
    assert_eq!(primary_display_size(&vec![display(false, 800, 600)]), (1920, 1080));
    assert_eq!(
        primary_display_size(&vec![display(false, 800, 600), display(true, 2560, 1440), display(true, 1, 1)]),
        (2560, 1440)
    );
}

#[test]
fn builder_defaults() {
    let info = ObsVideoInfoBuilder::new(&vec![display(true, 1280, 720)], ObsGraphicsModule::OpenGL).build();
    assert_eq!(
        info.settings(),
        ObsVideoSettings {
            adapter: 0,
            graphics_module: ObsGraphicsModule::OpenGL,
            fps_num: 30,
            fps_den: 1,
            base_width: 1280,
            base_height: 720,
            output_width: 1280,
            output_height: 720,
            output_format: ObsVideoFormat::NV12,
            gpu_conversion: true,
            colorspace: ObsColorspace::CS709,
            range: ObsVideoRange::Default,
            scale_type: ObsScaleType::Lanczos,
        }
    );
    assert_eq!(info.graphics_module(), "libobs-opengl");
    assert_eq!(ObsGraphicsModule::for_platform(true), ObsGraphicsModule::DirectX11);
    assert_eq!(ObsGraphicsModule::for_platform(false), ObsGraphicsModule::OpenGL);
}

#[test]
fn builder_setters_reach_the_info() {
    let info = ObsVideoInfoBuilder::new(&Vec::new(), ObsGraphicsModule::OpenGL)
        .adapter(2)
        .graphics_module(ObsGraphicsModule::DirectX11)
        .fps_num(60000)
        .fps_den(1001)
        .base_width(3840)
        .base_height(2160)
        .output_width(1920)
        .output_height(1080)
        .output_format(ObsVideoFormat::I444)
        .gpu_conversion(false)
        .colorspace(ObsColorspace::CS2100PQ)
        .range(ObsVideoRange::Full)
        .scale_type(ObsScaleType::Bicubic)
        .build();
    let s = info.settings();
    assert_eq!(s.adapter, 2);
    assert_eq!(info.graphics_backend(), ObsGraphicsModule::DirectX11);
    assert_eq!(info.graphics_module(), "libobs-d3d11.dll");
    assert_eq!(info.get_fps_num(), 60000);
    assert_eq!(info.get_fps_den(), 1001);
    assert_eq!(info.get_base_width(), 3840);
    assert_eq!(info.get_base_height(), 2160);
    assert_eq!(info.get_output_width(), 1920);
    assert_eq!(info.get_output_height(), 1080);
    assert_eq!(s.output_format, ObsVideoFormat::I444);
    assert!(!s.gpu_conversion);
    assert_eq!(s.colorspace, ObsColorspace::CS2100PQ);
    assert_eq!(s.range, ObsVideoRange::Full);
    assert_eq!(s.scale_type, ObsScaleType::Bicubic);
}

#[test]
fn updater_keeps_changes_in_order() {
    let mut u = ObsDataUpdater::new().set_string("path", "/tmp/a.mkv").set_int("bitrate", 2500);
    u.set_bool_ref("enabled", true);
    u.set_string_ref("path", "/tmp/b.mkv");
    u.set_int_ref("crf", -1);
    let u = u.set_bool("muted", false);
    let c = u.changes();
    assert_eq!(c.len(), 6);
    assert!(matches!(&c[0], ObsDataChange::String(k, v) if k == "path" && v == "/tmp/a.mkv"));
    assert!(matches!(&c[1], ObsDataChange::Int(k, 2500) if k == "bitrate"));
    assert!(matches!(&c[2], ObsDataChange::Bool(k, true) if k == "enabled"));
    assert!(matches!(&c[3], ObsDataChange::String(k, v) if k == "path" && v == "/tmp/b.mkv"));
    assert!(matches!(&c[4], ObsDataChange::Int(k, -1) if k == "crf"));
    assert!(matches!(&c[5], ObsDataChange::Bool(k, false) if k == "muted"));
}

#[test]
fn output_decisions() {
    assert_eq!(ensure_output_inactive(false), Ok(()));
    assert_eq!(ensure_output_inactive(true), Err(ObsError::OutputAlreadyActive));
    assert_eq!(ensure_output_active_for_stop(true), Ok(()));
    assert_eq!(
        ensure_output_active_for_stop(false),
        Err(ObsError::OutputStopFailure(Some("Output is not active.".to_string())))
    );
    assert_eq!(ensure_output_active_for_pause(true), Ok(()));
    assert_eq!(
        ensure_output_active_for_pause(false),
        Err(ObsError::OutputPauseFailure(Some("Output is not active.".to_string())))
    );
    assert_eq!(stop_signal_outcome(ObsOutputStopSignal::Success), Ok(()));
    assert_eq!(
        stop_signal_outcome(ObsOutputStopSignal::ConnectFailed),
        Err(ObsError::OutputStopFailure(Some("Connect Failed".to_string())))
    );
}

#[test]
fn save_buffer_failures() {
    assert_eq!(
        save_buffer_failure(SaveBufferStep::ProcHandler),
        ObsError::OutputSaveBufferFailure("Failed to get proc handler.".to_string())
    );
    assert_eq!(
        save_buffer_failure(SaveBufferStep::Save),
        ObsError::OutputSaveBufferFailure("Failed to call proc handler.".to_string())
    );
    assert_eq!(
        save_buffer_failure(SaveBufferStep::GetLastReplay),
        ObsError::OutputSaveBufferFailure("Failed to call get_last_replay.".to_string())
    );
    assert_eq!(
        save_buffer_failure(SaveBufferStep::ReadPath),
        ObsError::OutputSaveBufferFailure("Failed to get path from last replay.".to_string())
    );
}

#[test]
fn batch_order_interleaves_extra_values() {
    assert_eq!(batch_order(0, &vec![]), vec![]);
    assert_eq!(batch_order(2, &vec![]), vec![BatchStep::Change(0), BatchStep::Change(1)]);
    assert_eq!(batch_order(0, &vec![0, 0]), vec![BatchStep::Extra(0), BatchStep::Extra(1)]);
    assert_eq!(
        batch_order(3, &vec![0, 2, 2, 3]),
        vec![
            BatchStep::Extra(0),
            BatchStep::Change(0),
            BatchStep::Change(1),
            BatchStep::Extra(1),
            BatchStep::Extra(2),
            BatchStep::Change(2),
            BatchStep::Extra(3),
        ]
    );
}
