use libobs_wrapper::encoders::{
    first_encoder, offered_encoders, EncoderCandidate, ObsAudioEncoderType, ObsVideoEncoderType,
    ENCODER_HIDE_FLAGS,
};
use libobs_wrapper::enums::ObsEncoderType;
use libobs_wrapper::utils::error::ObsError;

#[test]
fn video_encoder_ids() {
    assert_eq!(ObsVideoEncoderType::from_id("obs_x264"), ObsVideoEncoderType::OBS_X264);
    assert_eq!(ObsVideoEncoderType::from_id("jim_nvenc"), ObsVideoEncoderType::JIM_NVENC);
    assert_eq!(
        ObsVideoEncoderType::from_id("my_encoder"),
        ObsVideoEncoderType::Other("my_encoder".to_string())
    );
    assert_eq!(ObsVideoEncoderType::OBS_QSV11_AV1_SOFT.id(), "obs_qsv11_av1_soft");
    assert_eq!(ObsVideoEncoderType::Other("x".to_string()).id(), "x");
}

#[test]
fn audio_encoder_ids() {
    assert_eq!(ObsAudioEncoderType::from_id("ffmpeg_aac"), ObsAudioEncoderType::FFMPEG_AAC);
    assert_eq!(ObsAudioEncoderType::from_id("libfdk_aac"), ObsAudioEncoderType::LIBFDK_AAC);
    assert_eq!(ObsAudioEncoderType::from_id(""), ObsAudioEncoderType::Other(String::new()));
    assert_eq!(ObsAudioEncoderType::FFMPEG_PCM_F32LE.id(), "ffmpeg_pcm_f32le");
}

#[test]
fn encoder_ids_round_trip() {
    for id in ["h264_texture_amf", "h265_texture_amf", "obs_qsv11", "obs_qsv11_soft", "obs_nvenc_av1_soft", "unknown", "OBS_X264"] {
        assert_eq!(ObsVideoEncoderType::from_id(id).id(), id);
    }
    let all = ObsVideoEncoderType::from_id("obs_nvenc_hevc_tex");
    assert_eq!(ObsVideoEncoderType::from_id(&all.id()), all);
    for id in ["ffmpeg_opus", "ffmpeg_flac", "ffmpeg_alac", "other"] {
        assert_eq!(ObsAudioEncoderType::from_id(id).id(), id);
    }
}

fn candidate(id: &str, caps: u32, encoder_type: u32) -> EncoderCandidate {
    EncoderCandidate { id: id.to_string(), caps, encoder_type }
}

#[test]
fn offered_encoders_filter_and_sort() {
    let cands = vec![
        candidate("obs_x264", 0, 1),
        candidate("ffmpeg_aac", 0, 0),
        candidate("jim_nvenc", 1, 1),
        candidate("internal", 8, 1),
        candidate("ffmpeg_svt_av1", 2, 1),
        candidate("Zeta", 0, 1),
        candidate("ffmpeg_opus", 4, 0),
    ];
    assert_eq!(ENCODER_HIDE_FLAGS, 9);
    assert_eq!(
        offered_encoders(&cands, ObsEncoderType::Video),
        vec!["Zeta".to_string(), "ffmpeg_svt_av1".to_string(), "obs_x264".to_string()]
    );
    assert_eq!(
        offered_encoders(&cands, ObsEncoderType::Audio),
        vec!["ffmpeg_aac".to_string(), "ffmpeg_opus".to_string()]
    );
    assert!(offered_encoders(&Vec::new(), ObsEncoderType::Audio).is_empty());
}

#[test]
fn first_encoder_or_error() {
    assert_eq!(first_encoder(&Vec::new()), Err(ObsError::NoAvailableEncoders));
    assert_eq!(first_encoder(&vec!["a".to_string(), "b".to_string()]), Ok("a".to_string()));
}
