//! Identifiers of the encoders that OBS offers.
use vstd::prelude::*;

use crate::utils::text::str_eq;

verus! {

/// Identifiers of the video encoders that OBS plug-ins provide; `Other` holds any
/// other identifier.
#[allow(non_camel_case_types)]
#[derive(Debug, Clone, PartialEq, Eq, PartialOrd, Ord)]
pub enum ObsVideoEncoderType {
    /// from `obs-ffmpeg`
    H264_TEXTURE_AMF,
    /// from `obs-ffmpeg`
    H265_TEXTURE_AMF,
    /// from `obs-ffmpeg`
    AV1_TEXTURE_AMF,
    /// from `obs-ffmpeg`
    FFMPEG_VAAPI,
    /// from `obs-ffmpeg`
    FFMPEG_VAAPI_TEX,
    /// from `obs-ffmpeg`
    AV1_FFMPEG_VAAPI,
    /// from `obs-ffmpeg`
    AV1_FFMPEG_VAAPI_TEX,
    /// from `obs-ffmpeg`
    HEVC_FFMPEG_VAAPI,
    /// from `obs-ffmpeg`
    HEVC_FFMPEG_VAAPI_TEX,
    /// from `obs-ffmpeg`
    FFMPEG_OPENH264,
    /// from `obs-ffmpeg` (deprecated)
    FFMPEG_NVENC,
    /// from `obs-ffmpeg` (deprecated)
    FFMPEG_HEVC_NVENC,
    /// from `obs-ffmpeg`
    FFMPEG_SVT_AV1,
    /// from `obs-ffmpeg`
    FFMPEG_AOM_AV1,
    /// from `obs-nvenc` (deprecated)
    OBS_NVENC_H264_CUDA,
    /// from `obs-nvenc` (deprecated)
    OBS_NVENC_HEVC_CUDA,
    /// from `obs-nvenc` (deprecated)
    OBS_NVENC_AV1_CUDA,
    /// from `obs-nvenc`
    OBS_NVENC_H264_TEX,
    /// from `obs-nvenc`
    OBS_NVENC_HEVC_TEX,
    /// from `obs-nvenc`
    OBS_NVENC_AV1_TEX,
    /// from `obs-nvenc` (deprecated)
    JIM_NVENC,
    /// from `obs-nvenc` (deprecated)
    JIM_HEVC_NVENC,
    /// from `obs-nvenc` (deprecated)
    JIM_AV1_NVENC,
    /// from `obs-nvenc`
    OBS_NVENC_H264_SOFT,
    /// from `obs-nvenc`
    OBS_NVENC_HEVC_SOFT,
    /// from `obs-nvenc`
    OBS_NVENC_AV1_SOFT,
    /// from `obs-qsv11`
    OBS_QSV11,
    /// from `obs-qsv11`
    OBS_QSV11_SOFT,
    /// from `obs-qsv11`
    OBS_QSV11_V2,
    /// from `obs-qsv11`
    OBS_QSV11_SOFT_V2,
    /// from `obs-qsv11`
    OBS_QSV11_AV1,
    /// from `obs-qsv11`
    OBS_QSV11_AV1_SOFT,
    /// from `obs-qsv11`
    OBS_QSV11_HEVC,
    /// from `obs-qsv11`
    OBS_QSV11_HEVC_SOFT,
    /// from `obs-x264`
    OBS_X264,
    Other(String),
}

impl ObsVideoEncoderType {
    /// The identifier of the encoder.
    pub open spec fn spec_id(&self) -> Seq<char> {
        match self {
            ObsVideoEncoderType::H264_TEXTURE_AMF => "h264_texture_amf"@,
            ObsVideoEncoderType::H265_TEXTURE_AMF => "h265_texture_amf"@,
            ObsVideoEncoderType::AV1_TEXTURE_AMF => "av1_texture_amf"@,
            ObsVideoEncoderType::FFMPEG_VAAPI => "ffmpeg_vaapi"@,
            ObsVideoEncoderType::FFMPEG_VAAPI_TEX => "ffmpeg_vaapi_tex"@,
            ObsVideoEncoderType::AV1_FFMPEG_VAAPI => "av1_ffmpeg_vaapi"@,
            ObsVideoEncoderType::AV1_FFMPEG_VAAPI_TEX => "av1_ffmpeg_vaapi_tex"@,
            ObsVideoEncoderType::HEVC_FFMPEG_VAAPI => "hevc_ffmpeg_vaapi"@,
            ObsVideoEncoderType::HEVC_FFMPEG_VAAPI_TEX => "hevc_ffmpeg_vaapi_tex"@,
            ObsVideoEncoderType::FFMPEG_OPENH264 => "ffmpeg_openh264"@,
            ObsVideoEncoderType::FFMPEG_NVENC => "ffmpeg_nvenc"@,
            ObsVideoEncoderType::FFMPEG_HEVC_NVENC => "ffmpeg_hevc_nvenc"@,
            ObsVideoEncoderType::FFMPEG_SVT_AV1 => "ffmpeg_svt_av1"@,
            ObsVideoEncoderType::FFMPEG_AOM_AV1 => "ffmpeg_aom_av1"@,
            ObsVideoEncoderType::OBS_NVENC_H264_CUDA => "obs_nvenc_h264_cuda"@,
            ObsVideoEncoderType::OBS_NVENC_HEVC_CUDA => "obs_nvenc_hevc_cuda"@,
            ObsVideoEncoderType::OBS_NVENC_AV1_CUDA => "obs_nvenc_av1_cuda"@,
            ObsVideoEncoderType::OBS_NVENC_H264_TEX => "obs_nvenc_h264_tex"@,
            ObsVideoEncoderType::OBS_NVENC_HEVC_TEX => "obs_nvenc_hevc_tex"@,
            ObsVideoEncoderType::OBS_NVENC_AV1_TEX => "obs_nvenc_av1_tex"@,
            ObsVideoEncoderType::JIM_NVENC => "jim_nvenc"@,
            ObsVideoEncoderType::JIM_HEVC_NVENC => "jim_hevc_nvenc"@,
            ObsVideoEncoderType::JIM_AV1_NVENC => "jim_av1_nvenc"@,
            ObsVideoEncoderType::OBS_NVENC_H264_SOFT => "obs_nvenc_h264_soft"@,
            ObsVideoEncoderType::OBS_NVENC_HEVC_SOFT => "obs_nvenc_hevc_soft"@,
            ObsVideoEncoderType::OBS_NVENC_AV1_SOFT => "obs_nvenc_av1_soft"@,
            ObsVideoEncoderType::OBS_QSV11 => "obs_qsv11"@,
            ObsVideoEncoderType::OBS_QSV11_SOFT => "obs_qsv11_soft"@,
            ObsVideoEncoderType::OBS_QSV11_V2 => "obs_qsv11_v2"@,
            ObsVideoEncoderType::OBS_QSV11_SOFT_V2 => "obs_qsv11_soft_v2"@,
            ObsVideoEncoderType::OBS_QSV11_AV1 => "obs_qsv11_av1"@,
            ObsVideoEncoderType::OBS_QSV11_AV1_SOFT => "obs_qsv11_av1_soft"@,
            ObsVideoEncoderType::OBS_QSV11_HEVC => "obs_qsv11_hevc"@,
            ObsVideoEncoderType::OBS_QSV11_HEVC_SOFT => "obs_qsv11_hevc_soft"@,
            ObsVideoEncoderType::OBS_X264 => "obs_x264"@,
            ObsVideoEncoderType::Other(s) => s@,
        }
    }

    /// The named variant whose identifier is `s`, if there is one.
    pub open spec fn spec_known(s: Seq<char>) -> Option<ObsVideoEncoderType> {
        if s == "h264_texture_amf"@ {
            Some(ObsVideoEncoderType::H264_TEXTURE_AMF)
        } else if s == "h265_texture_amf"@ {
            Some(ObsVideoEncoderType::H265_TEXTURE_AMF)
        } else if s == "av1_texture_amf"@ {
            Some(ObsVideoEncoderType::AV1_TEXTURE_AMF)
        } else if s == "ffmpeg_vaapi"@ {
            Some(ObsVideoEncoderType::FFMPEG_VAAPI)
        } else if s == "ffmpeg_vaapi_tex"@ {
            Some(ObsVideoEncoderType::FFMPEG_VAAPI_TEX)
        } else if s == "av1_ffmpeg_vaapi"@ {
            Some(ObsVideoEncoderType::AV1_FFMPEG_VAAPI)
        } else if s == "av1_ffmpeg_vaapi_tex"@ {
            Some(ObsVideoEncoderType::AV1_FFMPEG_VAAPI_TEX)
        } else if s == "hevc_ffmpeg_vaapi"@ {
            Some(ObsVideoEncoderType::HEVC_FFMPEG_VAAPI)
        } else if s == "hevc_ffmpeg_vaapi_tex"@ {
            Some(ObsVideoEncoderType::HEVC_FFMPEG_VAAPI_TEX)
        } else if s == "ffmpeg_openh264"@ {
            Some(ObsVideoEncoderType::FFMPEG_OPENH264)
        } else if s == "ffmpeg_nvenc"@ {
            Some(ObsVideoEncoderType::FFMPEG_NVENC)
        } else if s == "ffmpeg_hevc_nvenc"@ {
            Some(ObsVideoEncoderType::FFMPEG_HEVC_NVENC)
        } else if s == "ffmpeg_svt_av1"@ {
            Some(ObsVideoEncoderType::FFMPEG_SVT_AV1)
        } else if s == "ffmpeg_aom_av1"@ {
            Some(ObsVideoEncoderType::FFMPEG_AOM_AV1)
        } else if s == "obs_nvenc_h264_cuda"@ {
            Some(ObsVideoEncoderType::OBS_NVENC_H264_CUDA)
        } else if s == "obs_nvenc_hevc_cuda"@ {
            Some(ObsVideoEncoderType::OBS_NVENC_HEVC_CUDA)
        } else if s == "obs_nvenc_av1_cuda"@ {
            Some(ObsVideoEncoderType::OBS_NVENC_AV1_CUDA)
        } else if s == "obs_nvenc_h264_tex"@ {
            Some(ObsVideoEncoderType::OBS_NVENC_H264_TEX)
        } else if s == "obs_nvenc_hevc_tex"@ {
            Some(ObsVideoEncoderType::OBS_NVENC_HEVC_TEX)
        } else if s == "obs_nvenc_av1_tex"@ {
            Some(ObsVideoEncoderType::OBS_NVENC_AV1_TEX)
        } else if s == "jim_nvenc"@ {
            Some(ObsVideoEncoderType::JIM_NVENC)
        } else if s == "jim_hevc_nvenc"@ {
            Some(ObsVideoEncoderType::JIM_HEVC_NVENC)
        } else if s == "jim_av1_nvenc"@ {
            Some(ObsVideoEncoderType::JIM_AV1_NVENC)
        } else if s == "obs_nvenc_h264_soft"@ {
            Some(ObsVideoEncoderType::OBS_NVENC_H264_SOFT)
        } else if s == "obs_nvenc_hevc_soft"@ {
            Some(ObsVideoEncoderType::OBS_NVENC_HEVC_SOFT)
        } else if s == "obs_nvenc_av1_soft"@ {
            Some(ObsVideoEncoderType::OBS_NVENC_AV1_SOFT)
        } else if s == "obs_qsv11"@ {
            Some(ObsVideoEncoderType::OBS_QSV11)
        } else if s == "obs_qsv11_soft"@ {
            Some(ObsVideoEncoderType::OBS_QSV11_SOFT)
        } else if s == "obs_qsv11_v2"@ {
            Some(ObsVideoEncoderType::OBS_QSV11_V2)
        } else if s == "obs_qsv11_soft_v2"@ {
            Some(ObsVideoEncoderType::OBS_QSV11_SOFT_V2)
        } else if s == "obs_qsv11_av1"@ {
            Some(ObsVideoEncoderType::OBS_QSV11_AV1)
        } else if s == "obs_qsv11_av1_soft"@ {
            Some(ObsVideoEncoderType::OBS_QSV11_AV1_SOFT)
        } else if s == "obs_qsv11_hevc"@ {
            Some(ObsVideoEncoderType::OBS_QSV11_HEVC)
        } else if s == "obs_qsv11_hevc_soft"@ {
            Some(ObsVideoEncoderType::OBS_QSV11_HEVC_SOFT)
        } else if s == "obs_x264"@ {
            Some(ObsVideoEncoderType::OBS_X264)
        } else {
            None
        }
    }

    /// Reads an encoder identifier: the named variant when there is one,
    /// otherwise `Other` with the identifier. Never fails.
    pub fn from_id(s: &str) -> (r: ObsVideoEncoderType)
        ensures
            ObsVideoEncoderType::spec_known(s@) matches Some(v) ==> r == v,
            ObsVideoEncoderType::spec_known(s@) is None ==> (r matches ObsVideoEncoderType::Other(o) && o@ == s@),
            r.spec_id() == s@,
    {
        proof {
            lemma_video_encoder_id_roundtrip(s@);
        }
        if str_eq(s, "h264_texture_amf") {
            ObsVideoEncoderType::H264_TEXTURE_AMF
        } else if str_eq(s, "h265_texture_amf") {
            ObsVideoEncoderType::H265_TEXTURE_AMF
        } else if str_eq(s, "av1_texture_amf") {
            ObsVideoEncoderType::AV1_TEXTURE_AMF
        } else if str_eq(s, "ffmpeg_vaapi") {
            ObsVideoEncoderType::FFMPEG_VAAPI
        } else if str_eq(s, "ffmpeg_vaapi_tex") {
            ObsVideoEncoderType::FFMPEG_VAAPI_TEX
        } else if str_eq(s, "av1_ffmpeg_vaapi") {
            ObsVideoEncoderType::AV1_FFMPEG_VAAPI
        } else if str_eq(s, "av1_ffmpeg_vaapi_tex") {
            ObsVideoEncoderType::AV1_FFMPEG_VAAPI_TEX
        } else if str_eq(s, "hevc_ffmpeg_vaapi") {
            ObsVideoEncoderType::HEVC_FFMPEG_VAAPI
        } else if str_eq(s, "hevc_ffmpeg_vaapi_tex") {
            ObsVideoEncoderType::HEVC_FFMPEG_VAAPI_TEX
        } else if str_eq(s, "ffmpeg_openh264") {
            ObsVideoEncoderType::FFMPEG_OPENH264
        } else if str_eq(s, "ffmpeg_nvenc") {
            ObsVideoEncoderType::FFMPEG_NVENC
        } else if str_eq(s, "ffmpeg_hevc_nvenc") {
            ObsVideoEncoderType::FFMPEG_HEVC_NVENC
        } else if str_eq(s, "ffmpeg_svt_av1") {
            ObsVideoEncoderType::FFMPEG_SVT_AV1
        } else if str_eq(s, "ffmpeg_aom_av1") {
            ObsVideoEncoderType::FFMPEG_AOM_AV1
        } else if str_eq(s, "obs_nvenc_h264_cuda") {
            ObsVideoEncoderType::OBS_NVENC_H264_CUDA
        } else if str_eq(s, "obs_nvenc_hevc_cuda") {
            ObsVideoEncoderType::OBS_NVENC_HEVC_CUDA
        } else if str_eq(s, "obs_nvenc_av1_cuda") {
            ObsVideoEncoderType::OBS_NVENC_AV1_CUDA
        } else if str_eq(s, "obs_nvenc_h264_tex") {
            ObsVideoEncoderType::OBS_NVENC_H264_TEX
        } else if str_eq(s, "obs_nvenc_hevc_tex") {
            ObsVideoEncoderType::OBS_NVENC_HEVC_TEX
        } else if str_eq(s, "obs_nvenc_av1_tex") {
            ObsVideoEncoderType::OBS_NVENC_AV1_TEX
        } else if str_eq(s, "jim_nvenc") {
            ObsVideoEncoderType::JIM_NVENC
        } else if str_eq(s, "jim_hevc_nvenc") {
            ObsVideoEncoderType::JIM_HEVC_NVENC
        } else if str_eq(s, "jim_av1_nvenc") {
            ObsVideoEncoderType::JIM_AV1_NVENC
        } else if str_eq(s, "obs_nvenc_h264_soft") {
            ObsVideoEncoderType::OBS_NVENC_H264_SOFT
        } else if str_eq(s, "obs_nvenc_hevc_soft") {
            ObsVideoEncoderType::OBS_NVENC_HEVC_SOFT
        } else if str_eq(s, "obs_nvenc_av1_soft") {
            ObsVideoEncoderType::OBS_NVENC_AV1_SOFT
        } else if str_eq(s, "obs_qsv11") {
            ObsVideoEncoderType::OBS_QSV11
        } else if str_eq(s, "obs_qsv11_soft") {
            ObsVideoEncoderType::OBS_QSV11_SOFT
        } else if str_eq(s, "obs_qsv11_v2") {
            ObsVideoEncoderType::OBS_QSV11_V2
        } else if str_eq(s, "obs_qsv11_soft_v2") {
            ObsVideoEncoderType::OBS_QSV11_SOFT_V2
        } else if str_eq(s, "obs_qsv11_av1") {
            ObsVideoEncoderType::OBS_QSV11_AV1
        } else if str_eq(s, "obs_qsv11_av1_soft") {
            ObsVideoEncoderType::OBS_QSV11_AV1_SOFT
        } else if str_eq(s, "obs_qsv11_hevc") {
            ObsVideoEncoderType::OBS_QSV11_HEVC
        } else if str_eq(s, "obs_qsv11_hevc_soft") {
            ObsVideoEncoderType::OBS_QSV11_HEVC_SOFT
        } else if str_eq(s, "obs_x264") {
            ObsVideoEncoderType::OBS_X264
        } else {
            ObsVideoEncoderType::Other(s.to_owned())
        }
    }

    /// Returns the identifier of the encoder, which libobs takes to create it.
    pub fn id(&self) -> (r: String)
        ensures
            r@ == self.spec_id(),
    {
        match self {
            ObsVideoEncoderType::H264_TEXTURE_AMF => "h264_texture_amf".to_owned(),
            ObsVideoEncoderType::H265_TEXTURE_AMF => "h265_texture_amf".to_owned(),
            ObsVideoEncoderType::AV1_TEXTURE_AMF => "av1_texture_amf".to_owned(),
            ObsVideoEncoderType::FFMPEG_VAAPI => "ffmpeg_vaapi".to_owned(),
            ObsVideoEncoderType::FFMPEG_VAAPI_TEX => "ffmpeg_vaapi_tex".to_owned(),
            ObsVideoEncoderType::AV1_FFMPEG_VAAPI => "av1_ffmpeg_vaapi".to_owned(),
            ObsVideoEncoderType::AV1_FFMPEG_VAAPI_TEX => "av1_ffmpeg_vaapi_tex".to_owned(),
            ObsVideoEncoderType::HEVC_FFMPEG_VAAPI => "hevc_ffmpeg_vaapi".to_owned(),
            ObsVideoEncoderType::HEVC_FFMPEG_VAAPI_TEX => "hevc_ffmpeg_vaapi_tex".to_owned(),
            ObsVideoEncoderType::FFMPEG_OPENH264 => "ffmpeg_openh264".to_owned(),
            ObsVideoEncoderType::FFMPEG_NVENC => "ffmpeg_nvenc".to_owned(),
            ObsVideoEncoderType::FFMPEG_HEVC_NVENC => "ffmpeg_hevc_nvenc".to_owned(),
            ObsVideoEncoderType::FFMPEG_SVT_AV1 => "ffmpeg_svt_av1".to_owned(),
            ObsVideoEncoderType::FFMPEG_AOM_AV1 => "ffmpeg_aom_av1".to_owned(),
            ObsVideoEncoderType::OBS_NVENC_H264_CUDA => "obs_nvenc_h264_cuda".to_owned(),
            ObsVideoEncoderType::OBS_NVENC_HEVC_CUDA => "obs_nvenc_hevc_cuda".to_owned(),
            ObsVideoEncoderType::OBS_NVENC_AV1_CUDA => "obs_nvenc_av1_cuda".to_owned(),
            ObsVideoEncoderType::OBS_NVENC_H264_TEX => "obs_nvenc_h264_tex".to_owned(),
            ObsVideoEncoderType::OBS_NVENC_HEVC_TEX => "obs_nvenc_hevc_tex".to_owned(),
            ObsVideoEncoderType::OBS_NVENC_AV1_TEX => "obs_nvenc_av1_tex".to_owned(),
            ObsVideoEncoderType::JIM_NVENC => "jim_nvenc".to_owned(),
            ObsVideoEncoderType::JIM_HEVC_NVENC => "jim_hevc_nvenc".to_owned(),
            ObsVideoEncoderType::JIM_AV1_NVENC => "jim_av1_nvenc".to_owned(),
            ObsVideoEncoderType::OBS_NVENC_H264_SOFT => "obs_nvenc_h264_soft".to_owned(),
            ObsVideoEncoderType::OBS_NVENC_HEVC_SOFT => "obs_nvenc_hevc_soft".to_owned(),
            ObsVideoEncoderType::OBS_NVENC_AV1_SOFT => "obs_nvenc_av1_soft".to_owned(),
            ObsVideoEncoderType::OBS_QSV11 => "obs_qsv11".to_owned(),
            ObsVideoEncoderType::OBS_QSV11_SOFT => "obs_qsv11_soft".to_owned(),
            ObsVideoEncoderType::OBS_QSV11_V2 => "obs_qsv11_v2".to_owned(),
            ObsVideoEncoderType::OBS_QSV11_SOFT_V2 => "obs_qsv11_soft_v2".to_owned(),
            ObsVideoEncoderType::OBS_QSV11_AV1 => "obs_qsv11_av1".to_owned(),
            ObsVideoEncoderType::OBS_QSV11_AV1_SOFT => "obs_qsv11_av1_soft".to_owned(),
            ObsVideoEncoderType::OBS_QSV11_HEVC => "obs_qsv11_hevc".to_owned(),
            ObsVideoEncoderType::OBS_QSV11_HEVC_SOFT => "obs_qsv11_hevc_soft".to_owned(),
            ObsVideoEncoderType::OBS_X264 => "obs_x264".to_owned(),
            ObsVideoEncoderType::Other(s) => s.clone(),
        }
    }
}

/// Reading an identifier and writing it back gives the same text.
pub proof fn lemma_video_encoder_id_roundtrip(s: Seq<char>)
    ensures
        ObsVideoEncoderType::spec_known(s) matches Some(k) ==> k.spec_id() == s,
{
}

/// Writing the identifier of a named variant and reading it back gives that variant.
pub proof fn lemma_video_encoder_known_roundtrip(v: ObsVideoEncoderType)
    requires
        !(v is Other),
    ensures
        ObsVideoEncoderType::spec_known(v.spec_id()) == Some(v),
{
    reveal_strlit("h264_texture_amf");
    reveal_strlit("h265_texture_amf");
    reveal_strlit("av1_texture_amf");
    reveal_strlit("ffmpeg_vaapi");
    reveal_strlit("ffmpeg_vaapi_tex");
    reveal_strlit("av1_ffmpeg_vaapi");
    reveal_strlit("av1_ffmpeg_vaapi_tex");
    reveal_strlit("hevc_ffmpeg_vaapi");
    reveal_strlit("hevc_ffmpeg_vaapi_tex");
    reveal_strlit("ffmpeg_openh264");
    reveal_strlit("ffmpeg_nvenc");
    reveal_strlit("ffmpeg_hevc_nvenc");
    reveal_strlit("ffmpeg_svt_av1");
    reveal_strlit("ffmpeg_aom_av1");
    reveal_strlit("obs_nvenc_h264_cuda");
    reveal_strlit("obs_nvenc_hevc_cuda");
    reveal_strlit("obs_nvenc_av1_cuda");
    reveal_strlit("obs_nvenc_h264_tex");
    reveal_strlit("obs_nvenc_hevc_tex");
    reveal_strlit("obs_nvenc_av1_tex");
    reveal_strlit("jim_nvenc");
    reveal_strlit("jim_hevc_nvenc");
    reveal_strlit("jim_av1_nvenc");
    reveal_strlit("obs_nvenc_h264_soft");
    reveal_strlit("obs_nvenc_hevc_soft");
    reveal_strlit("obs_nvenc_av1_soft");
    reveal_strlit("obs_qsv11");
    reveal_strlit("obs_qsv11_soft");
    reveal_strlit("obs_qsv11_v2");
    reveal_strlit("obs_qsv11_soft_v2");
    reveal_strlit("obs_qsv11_av1");
    reveal_strlit("obs_qsv11_av1_soft");
    reveal_strlit("obs_qsv11_hevc");
    reveal_strlit("obs_qsv11_hevc_soft");
    reveal_strlit("obs_x264");
    assert("h264_texture_amf"@.len() == 16);
    assert("h265_texture_amf"@.len() == 16);
    assert("av1_texture_amf"@.len() == 15);
    assert("ffmpeg_vaapi"@.len() == 12);
    assert("ffmpeg_vaapi_tex"@.len() == 16);
    assert("av1_ffmpeg_vaapi"@.len() == 16);
    assert("av1_ffmpeg_vaapi_tex"@.len() == 20);
    assert("hevc_ffmpeg_vaapi"@.len() == 17);
    assert("hevc_ffmpeg_vaapi_tex"@.len() == 21);
    assert("ffmpeg_openh264"@.len() == 15);
    assert("ffmpeg_nvenc"@.len() == 12);
    assert("ffmpeg_hevc_nvenc"@.len() == 17);
    assert("ffmpeg_svt_av1"@.len() == 14);
    assert("ffmpeg_aom_av1"@.len() == 14);
    assert("obs_nvenc_h264_cuda"@.len() == 19);
    assert("obs_nvenc_hevc_cuda"@.len() == 19);
    assert("obs_nvenc_av1_cuda"@.len() == 18);
    assert("obs_nvenc_h264_tex"@.len() == 18);
    assert("obs_nvenc_hevc_tex"@.len() == 18);
    assert("obs_nvenc_av1_tex"@.len() == 17);
    assert("jim_nvenc"@.len() == 9);
    assert("jim_hevc_nvenc"@.len() == 14);
    assert("jim_av1_nvenc"@.len() == 13);
    assert("obs_nvenc_h264_soft"@.len() == 19);
    assert("obs_nvenc_hevc_soft"@.len() == 19);
    assert("obs_nvenc_av1_soft"@.len() == 18);
    assert("obs_qsv11"@.len() == 9);
    assert("obs_qsv11_soft"@.len() == 14);
    assert("obs_qsv11_v2"@.len() == 12);
    assert("obs_qsv11_soft_v2"@.len() == 17);
    assert("obs_qsv11_av1"@.len() == 13);
    assert("obs_qsv11_av1_soft"@.len() == 18);
    assert("obs_qsv11_hevc"@.len() == 14);
    assert("obs_qsv11_hevc_soft"@.len() == 19);
    assert("obs_x264"@.len() == 8);
    assert("h264_texture_amf"@[3] != "h265_texture_amf"@[3]);
    assert("h264_texture_amf"@[0] != "ffmpeg_vaapi_tex"@[0]);
    assert("h264_texture_amf"@[0] != "av1_ffmpeg_vaapi"@[0]);
    assert("h265_texture_amf"@[0] != "ffmpeg_vaapi_tex"@[0]);
    assert("h265_texture_amf"@[0] != "av1_ffmpeg_vaapi"@[0]);
    assert("av1_texture_amf"@[0] != "ffmpeg_openh264"@[0]);
    assert("ffmpeg_vaapi"@[7] != "ffmpeg_nvenc"@[7]);
    assert("ffmpeg_vaapi"@[0] != "obs_qsv11_v2"@[0]);
    assert("ffmpeg_vaapi_tex"@[0] != "av1_ffmpeg_vaapi"@[0]);
    assert("hevc_ffmpeg_vaapi"@[0] != "ffmpeg_hevc_nvenc"@[0]);
    assert("hevc_ffmpeg_vaapi"@[0] != "obs_nvenc_av1_tex"@[0]);
    assert("hevc_ffmpeg_vaapi"@[0] != "obs_qsv11_soft_v2"@[0]);
    assert("ffmpeg_nvenc"@[0] != "obs_qsv11_v2"@[0]);
    assert("ffmpeg_hevc_nvenc"@[0] != "obs_nvenc_av1_tex"@[0]);
    assert("ffmpeg_hevc_nvenc"@[0] != "obs_qsv11_soft_v2"@[0]);
    assert("ffmpeg_svt_av1"@[7] != "ffmpeg_aom_av1"@[7]);
    assert("ffmpeg_svt_av1"@[0] != "jim_hevc_nvenc"@[0]);
    assert("ffmpeg_svt_av1"@[0] != "obs_qsv11_soft"@[0]);
    assert("ffmpeg_svt_av1"@[0] != "obs_qsv11_hevc"@[0]);
    assert("ffmpeg_aom_av1"@[0] != "jim_hevc_nvenc"@[0]);
    assert("ffmpeg_aom_av1"@[0] != "obs_qsv11_soft"@[0]);
    assert("ffmpeg_aom_av1"@[0] != "obs_qsv11_hevc"@[0]);
    assert("obs_nvenc_h264_cuda"@[11] != "obs_nvenc_hevc_cuda"@[11]);
    assert("obs_nvenc_h264_cuda"@[15] != "obs_nvenc_h264_soft"@[15]);
    assert("obs_nvenc_h264_cuda"@[11] != "obs_nvenc_hevc_soft"@[11]);
    assert("obs_nvenc_h264_cuda"@[4] != "obs_qsv11_hevc_soft"@[4]);
    assert("obs_nvenc_hevc_cuda"@[11] != "obs_nvenc_h264_soft"@[11]);
    assert("obs_nvenc_hevc_cuda"@[15] != "obs_nvenc_hevc_soft"@[15]);
    assert("obs_nvenc_hevc_cuda"@[4] != "obs_qsv11_hevc_soft"@[4]);
    assert("obs_nvenc_av1_cuda"@[10] != "obs_nvenc_h264_tex"@[10]);
    assert("obs_nvenc_av1_cuda"@[10] != "obs_nvenc_hevc_tex"@[10]);
    assert("obs_nvenc_av1_cuda"@[14] != "obs_nvenc_av1_soft"@[14]);
    assert("obs_nvenc_av1_cuda"@[4] != "obs_qsv11_av1_soft"@[4]);
    assert("obs_nvenc_h264_tex"@[11] != "obs_nvenc_hevc_tex"@[11]);
    assert("obs_nvenc_h264_tex"@[10] != "obs_nvenc_av1_soft"@[10]);
    assert("obs_nvenc_h264_tex"@[4] != "obs_qsv11_av1_soft"@[4]);
    assert("obs_nvenc_hevc_tex"@[10] != "obs_nvenc_av1_soft"@[10]);
    assert("obs_nvenc_hevc_tex"@[4] != "obs_qsv11_av1_soft"@[4]);
    assert("obs_nvenc_av1_tex"@[4] != "obs_qsv11_soft_v2"@[4]);
    assert("jim_nvenc"@[0] != "obs_qsv11"@[0]);
    assert("jim_hevc_nvenc"@[0] != "obs_qsv11_soft"@[0]);
    assert("jim_hevc_nvenc"@[0] != "obs_qsv11_hevc"@[0]);
    assert("jim_av1_nvenc"@[0] != "obs_qsv11_av1"@[0]);
    assert("obs_nvenc_h264_soft"@[11] != "obs_nvenc_hevc_soft"@[11]);
    assert("obs_nvenc_h264_soft"@[4] != "obs_qsv11_hevc_soft"@[4]);
    assert("obs_nvenc_hevc_soft"@[4] != "obs_qsv11_hevc_soft"@[4]);
    assert("obs_nvenc_av1_soft"@[4] != "obs_qsv11_av1_soft"@[4]);
    assert("obs_qsv11_soft"@[10] != "obs_qsv11_hevc"@[10]);
    match v {
        ObsVideoEncoderType::H264_TEXTURE_AMF => {}
        ObsVideoEncoderType::H265_TEXTURE_AMF => {}
        ObsVideoEncoderType::AV1_TEXTURE_AMF => {}
        ObsVideoEncoderType::FFMPEG_VAAPI => {}
        ObsVideoEncoderType::FFMPEG_VAAPI_TEX => {}
        ObsVideoEncoderType::AV1_FFMPEG_VAAPI => {}
        ObsVideoEncoderType::AV1_FFMPEG_VAAPI_TEX => {}
        ObsVideoEncoderType::HEVC_FFMPEG_VAAPI => {}
        ObsVideoEncoderType::HEVC_FFMPEG_VAAPI_TEX => {}
        ObsVideoEncoderType::FFMPEG_OPENH264 => {}
        ObsVideoEncoderType::FFMPEG_NVENC => {}
        ObsVideoEncoderType::FFMPEG_HEVC_NVENC => {}
        ObsVideoEncoderType::FFMPEG_SVT_AV1 => {}
        ObsVideoEncoderType::FFMPEG_AOM_AV1 => {}
        ObsVideoEncoderType::OBS_NVENC_H264_CUDA => {}
        ObsVideoEncoderType::OBS_NVENC_HEVC_CUDA => {}
        ObsVideoEncoderType::OBS_NVENC_AV1_CUDA => {}
        ObsVideoEncoderType::OBS_NVENC_H264_TEX => {}
        ObsVideoEncoderType::OBS_NVENC_HEVC_TEX => {}
        ObsVideoEncoderType::OBS_NVENC_AV1_TEX => {}
        ObsVideoEncoderType::JIM_NVENC => {}
        ObsVideoEncoderType::JIM_HEVC_NVENC => {}
        ObsVideoEncoderType::JIM_AV1_NVENC => {}
        ObsVideoEncoderType::OBS_NVENC_H264_SOFT => {}
        ObsVideoEncoderType::OBS_NVENC_HEVC_SOFT => {}
        ObsVideoEncoderType::OBS_NVENC_AV1_SOFT => {}
        ObsVideoEncoderType::OBS_QSV11 => {}
        ObsVideoEncoderType::OBS_QSV11_SOFT => {}
        ObsVideoEncoderType::OBS_QSV11_V2 => {}
        ObsVideoEncoderType::OBS_QSV11_SOFT_V2 => {}
        ObsVideoEncoderType::OBS_QSV11_AV1 => {}
        ObsVideoEncoderType::OBS_QSV11_AV1_SOFT => {}
        ObsVideoEncoderType::OBS_QSV11_HEVC => {}
        ObsVideoEncoderType::OBS_QSV11_HEVC_SOFT => {}
        ObsVideoEncoderType::OBS_X264 => {}
        ObsVideoEncoderType::Other(_) => {}
    }
}

/// Identifiers of the audio encoders that OBS plug-ins provide; `Other` holds any
/// other identifier.
#[allow(non_camel_case_types)]
#[derive(Debug, Clone, PartialEq, Eq, PartialOrd, Ord)]
pub enum ObsAudioEncoderType {
    /// from `obs-ffmpeg`
    FFMPEG_AAC,
    /// from `obs-ffmpeg`
    FFMPEG_OPUS,
    /// from `obs-ffmpeg`
    FFMPEG_PCM_S16LE,
    /// from `obs-ffmpeg`
    FFMPEG_PCM_S24LE,
    /// from `obs-ffmpeg`
    FFMPEG_PCM_F32LE,
    /// from `obs-ffmpeg`
    FFMPEG_ALAC,
    /// from `obs-ffmpeg`
    FFMPEG_FLAC,
    /// from `obs-libfdk`
    LIBFDK_AAC,
    Other(String),
}

impl ObsAudioEncoderType {
    /// The identifier of the encoder.
    pub open spec fn spec_id(&self) -> Seq<char> {
        match self {
            ObsAudioEncoderType::FFMPEG_AAC => "ffmpeg_aac"@,
            ObsAudioEncoderType::FFMPEG_OPUS => "ffmpeg_opus"@,
            ObsAudioEncoderType::FFMPEG_PCM_S16LE => "ffmpeg_pcm_s16le"@,
            ObsAudioEncoderType::FFMPEG_PCM_S24LE => "ffmpeg_pcm_s24le"@,
            ObsAudioEncoderType::FFMPEG_PCM_F32LE => "ffmpeg_pcm_f32le"@,
            ObsAudioEncoderType::FFMPEG_ALAC => "ffmpeg_alac"@,
            ObsAudioEncoderType::FFMPEG_FLAC => "ffmpeg_flac"@,
            ObsAudioEncoderType::LIBFDK_AAC => "libfdk_aac"@,
            ObsAudioEncoderType::Other(s) => s@,
        }
    }

    /// The named variant whose identifier is `s`, if there is one.
    pub open spec fn spec_known(s: Seq<char>) -> Option<ObsAudioEncoderType> {
        if s == "ffmpeg_aac"@ {
            Some(ObsAudioEncoderType::FFMPEG_AAC)
        } else if s == "ffmpeg_opus"@ {
            Some(ObsAudioEncoderType::FFMPEG_OPUS)
        } else if s == "ffmpeg_pcm_s16le"@ {
            Some(ObsAudioEncoderType::FFMPEG_PCM_S16LE)
        } else if s == "ffmpeg_pcm_s24le"@ {
            Some(ObsAudioEncoderType::FFMPEG_PCM_S24LE)
        } else if s == "ffmpeg_pcm_f32le"@ {
            Some(ObsAudioEncoderType::FFMPEG_PCM_F32LE)
        } else if s == "ffmpeg_alac"@ {
            Some(ObsAudioEncoderType::FFMPEG_ALAC)
        } else if s == "ffmpeg_flac"@ {
            Some(ObsAudioEncoderType::FFMPEG_FLAC)
        } else if s == "libfdk_aac"@ {
            Some(ObsAudioEncoderType::LIBFDK_AAC)
        } else {
            None
        }
    }

    /// Reads an encoder identifier: the named variant when there is one,
    /// otherwise `Other` with the identifier. Never fails.
    pub fn from_id(s: &str) -> (r: ObsAudioEncoderType)
        ensures
            ObsAudioEncoderType::spec_known(s@) matches Some(v) ==> r == v,
            ObsAudioEncoderType::spec_known(s@) is None ==> (r matches ObsAudioEncoderType::Other(o) && o@ == s@),
            r.spec_id() == s@,
    {
        proof {
            lemma_audio_encoder_id_roundtrip(s@);
        }
        if str_eq(s, "ffmpeg_aac") {
            ObsAudioEncoderType::FFMPEG_AAC
        } else if str_eq(s, "ffmpeg_opus") {
            ObsAudioEncoderType::FFMPEG_OPUS
        } else if str_eq(s, "ffmpeg_pcm_s16le") {
            ObsAudioEncoderType::FFMPEG_PCM_S16LE
        } else if str_eq(s, "ffmpeg_pcm_s24le") {
            ObsAudioEncoderType::FFMPEG_PCM_S24LE
        } else if str_eq(s, "ffmpeg_pcm_f32le") {
            ObsAudioEncoderType::FFMPEG_PCM_F32LE
        } else if str_eq(s, "ffmpeg_alac") {
            ObsAudioEncoderType::FFMPEG_ALAC
        } else if str_eq(s, "ffmpeg_flac") {
            ObsAudioEncoderType::FFMPEG_FLAC
        } else if str_eq(s, "libfdk_aac") {
            ObsAudioEncoderType::LIBFDK_AAC
        } else {
            ObsAudioEncoderType::Other(s.to_owned())
        }
    }

    /// Returns the identifier of the encoder, which libobs takes to create it.
    pub fn id(&self) -> (r: String)
        ensures
            r@ == self.spec_id(),
    {
        match self {
            ObsAudioEncoderType::FFMPEG_AAC => "ffmpeg_aac".to_owned(),
            ObsAudioEncoderType::FFMPEG_OPUS => "ffmpeg_opus".to_owned(),
            ObsAudioEncoderType::FFMPEG_PCM_S16LE => "ffmpeg_pcm_s16le".to_owned(),
            ObsAudioEncoderType::FFMPEG_PCM_S24LE => "ffmpeg_pcm_s24le".to_owned(),
            ObsAudioEncoderType::FFMPEG_PCM_F32LE => "ffmpeg_pcm_f32le".to_owned(),
            ObsAudioEncoderType::FFMPEG_ALAC => "ffmpeg_alac".to_owned(),
            ObsAudioEncoderType::FFMPEG_FLAC => "ffmpeg_flac".to_owned(),
            ObsAudioEncoderType::LIBFDK_AAC => "libfdk_aac".to_owned(),
            ObsAudioEncoderType::Other(s) => s.clone(),
        }
    }
}

/// Reading an identifier and writing it back gives the same text.
pub proof fn lemma_audio_encoder_id_roundtrip(s: Seq<char>)
    ensures
        ObsAudioEncoderType::spec_known(s) matches Some(k) ==> k.spec_id() == s,
{
}

/// Writing the identifier of a named variant and reading it back gives that variant.
pub proof fn lemma_audio_encoder_known_roundtrip(v: ObsAudioEncoderType)
    requires
        !(v is Other),
    ensures
        ObsAudioEncoderType::spec_known(v.spec_id()) == Some(v),
{
    reveal_strlit("ffmpeg_aac");
    reveal_strlit("ffmpeg_opus");
    reveal_strlit("ffmpeg_pcm_s16le");
    reveal_strlit("ffmpeg_pcm_s24le");
    reveal_strlit("ffmpeg_pcm_f32le");
    reveal_strlit("ffmpeg_alac");
    reveal_strlit("ffmpeg_flac");
    reveal_strlit("libfdk_aac");
    assert("ffmpeg_aac"@.len() == 10);
    assert("ffmpeg_opus"@.len() == 11);
    assert("ffmpeg_pcm_s16le"@.len() == 16);
    assert("ffmpeg_pcm_s24le"@.len() == 16);
    assert("ffmpeg_pcm_f32le"@.len() == 16);
    assert("ffmpeg_alac"@.len() == 11);
    assert("ffmpeg_flac"@.len() == 11);
    assert("libfdk_aac"@.len() == 10);
    assert("ffmpeg_aac"@[0] != "libfdk_aac"@[0]);
    assert("ffmpeg_opus"@[7] != "ffmpeg_alac"@[7]);
    assert("ffmpeg_opus"@[7] != "ffmpeg_flac"@[7]);
    assert("ffmpeg_pcm_s16le"@[12] != "ffmpeg_pcm_s24le"@[12]);
    assert("ffmpeg_pcm_s16le"@[11] != "ffmpeg_pcm_f32le"@[11]);
    assert("ffmpeg_pcm_s24le"@[11] != "ffmpeg_pcm_f32le"@[11]);
    assert("ffmpeg_alac"@[7] != "ffmpeg_flac"@[7]);
    match v {
        ObsAudioEncoderType::FFMPEG_AAC => {}
        ObsAudioEncoderType::FFMPEG_OPUS => {}
        ObsAudioEncoderType::FFMPEG_PCM_S16LE => {}
        ObsAudioEncoderType::FFMPEG_PCM_S24LE => {}
        ObsAudioEncoderType::FFMPEG_PCM_F32LE => {}
        ObsAudioEncoderType::FFMPEG_ALAC => {}
        ObsAudioEncoderType::FFMPEG_FLAC => {}
        ObsAudioEncoderType::LIBFDK_AAC => {}
        ObsAudioEncoderType::Other(_) => {}
    }
}
/// Each named video encoder has the identifier of its own name, in lower case,
/// and that identifier is read as that encoder.
pub proof fn lemma_video_encoder_ids()
    ensures
        ObsVideoEncoderType::H264_TEXTURE_AMF.spec_id() == "h264_texture_amf"@,
        ObsVideoEncoderType::spec_known("h264_texture_amf"@) == Some(ObsVideoEncoderType::H264_TEXTURE_AMF),
        ObsVideoEncoderType::H265_TEXTURE_AMF.spec_id() == "h265_texture_amf"@,
        ObsVideoEncoderType::spec_known("h265_texture_amf"@) == Some(ObsVideoEncoderType::H265_TEXTURE_AMF),
        ObsVideoEncoderType::AV1_TEXTURE_AMF.spec_id() == "av1_texture_amf"@,
        ObsVideoEncoderType::spec_known("av1_texture_amf"@) == Some(ObsVideoEncoderType::AV1_TEXTURE_AMF),
        ObsVideoEncoderType::FFMPEG_VAAPI.spec_id() == "ffmpeg_vaapi"@,
        ObsVideoEncoderType::spec_known("ffmpeg_vaapi"@) == Some(ObsVideoEncoderType::FFMPEG_VAAPI),
        ObsVideoEncoderType::FFMPEG_VAAPI_TEX.spec_id() == "ffmpeg_vaapi_tex"@,
        ObsVideoEncoderType::spec_known("ffmpeg_vaapi_tex"@) == Some(ObsVideoEncoderType::FFMPEG_VAAPI_TEX),
        ObsVideoEncoderType::AV1_FFMPEG_VAAPI.spec_id() == "av1_ffmpeg_vaapi"@,
        ObsVideoEncoderType::spec_known("av1_ffmpeg_vaapi"@) == Some(ObsVideoEncoderType::AV1_FFMPEG_VAAPI),
        ObsVideoEncoderType::AV1_FFMPEG_VAAPI_TEX.spec_id() == "av1_ffmpeg_vaapi_tex"@,
        ObsVideoEncoderType::spec_known("av1_ffmpeg_vaapi_tex"@) == Some(ObsVideoEncoderType::AV1_FFMPEG_VAAPI_TEX),
        ObsVideoEncoderType::HEVC_FFMPEG_VAAPI.spec_id() == "hevc_ffmpeg_vaapi"@,
        ObsVideoEncoderType::spec_known("hevc_ffmpeg_vaapi"@) == Some(ObsVideoEncoderType::HEVC_FFMPEG_VAAPI),
        ObsVideoEncoderType::HEVC_FFMPEG_VAAPI_TEX.spec_id() == "hevc_ffmpeg_vaapi_tex"@,
        ObsVideoEncoderType::spec_known("hevc_ffmpeg_vaapi_tex"@) == Some(ObsVideoEncoderType::HEVC_FFMPEG_VAAPI_TEX),
        ObsVideoEncoderType::FFMPEG_OPENH264.spec_id() == "ffmpeg_openh264"@,
        ObsVideoEncoderType::spec_known("ffmpeg_openh264"@) == Some(ObsVideoEncoderType::FFMPEG_OPENH264),
        ObsVideoEncoderType::FFMPEG_NVENC.spec_id() == "ffmpeg_nvenc"@,
        ObsVideoEncoderType::spec_known("ffmpeg_nvenc"@) == Some(ObsVideoEncoderType::FFMPEG_NVENC),
        ObsVideoEncoderType::FFMPEG_HEVC_NVENC.spec_id() == "ffmpeg_hevc_nvenc"@,
        ObsVideoEncoderType::spec_known("ffmpeg_hevc_nvenc"@) == Some(ObsVideoEncoderType::FFMPEG_HEVC_NVENC),
        ObsVideoEncoderType::FFMPEG_SVT_AV1.spec_id() == "ffmpeg_svt_av1"@,
        ObsVideoEncoderType::spec_known("ffmpeg_svt_av1"@) == Some(ObsVideoEncoderType::FFMPEG_SVT_AV1),
        ObsVideoEncoderType::FFMPEG_AOM_AV1.spec_id() == "ffmpeg_aom_av1"@,
        ObsVideoEncoderType::spec_known("ffmpeg_aom_av1"@) == Some(ObsVideoEncoderType::FFMPEG_AOM_AV1),
        ObsVideoEncoderType::OBS_NVENC_H264_CUDA.spec_id() == "obs_nvenc_h264_cuda"@,
        ObsVideoEncoderType::spec_known("obs_nvenc_h264_cuda"@) == Some(ObsVideoEncoderType::OBS_NVENC_H264_CUDA),
        ObsVideoEncoderType::OBS_NVENC_HEVC_CUDA.spec_id() == "obs_nvenc_hevc_cuda"@,
        ObsVideoEncoderType::spec_known("obs_nvenc_hevc_cuda"@) == Some(ObsVideoEncoderType::OBS_NVENC_HEVC_CUDA),
        ObsVideoEncoderType::OBS_NVENC_AV1_CUDA.spec_id() == "obs_nvenc_av1_cuda"@,
        ObsVideoEncoderType::spec_known("obs_nvenc_av1_cuda"@) == Some(ObsVideoEncoderType::OBS_NVENC_AV1_CUDA),
        ObsVideoEncoderType::OBS_NVENC_H264_TEX.spec_id() == "obs_nvenc_h264_tex"@,
        ObsVideoEncoderType::spec_known("obs_nvenc_h264_tex"@) == Some(ObsVideoEncoderType::OBS_NVENC_H264_TEX),
        ObsVideoEncoderType::OBS_NVENC_HEVC_TEX.spec_id() == "obs_nvenc_hevc_tex"@,
        ObsVideoEncoderType::spec_known("obs_nvenc_hevc_tex"@) == Some(ObsVideoEncoderType::OBS_NVENC_HEVC_TEX),
        ObsVideoEncoderType::OBS_NVENC_AV1_TEX.spec_id() == "obs_nvenc_av1_tex"@,
        ObsVideoEncoderType::spec_known("obs_nvenc_av1_tex"@) == Some(ObsVideoEncoderType::OBS_NVENC_AV1_TEX),
        ObsVideoEncoderType::JIM_NVENC.spec_id() == "jim_nvenc"@,
        ObsVideoEncoderType::spec_known("jim_nvenc"@) == Some(ObsVideoEncoderType::JIM_NVENC),
        ObsVideoEncoderType::JIM_HEVC_NVENC.spec_id() == "jim_hevc_nvenc"@,
        ObsVideoEncoderType::spec_known("jim_hevc_nvenc"@) == Some(ObsVideoEncoderType::JIM_HEVC_NVENC),
        ObsVideoEncoderType::JIM_AV1_NVENC.spec_id() == "jim_av1_nvenc"@,
        ObsVideoEncoderType::spec_known("jim_av1_nvenc"@) == Some(ObsVideoEncoderType::JIM_AV1_NVENC),
        ObsVideoEncoderType::OBS_NVENC_H264_SOFT.spec_id() == "obs_nvenc_h264_soft"@,
        ObsVideoEncoderType::spec_known("obs_nvenc_h264_soft"@) == Some(ObsVideoEncoderType::OBS_NVENC_H264_SOFT),
        ObsVideoEncoderType::OBS_NVENC_HEVC_SOFT.spec_id() == "obs_nvenc_hevc_soft"@,
        ObsVideoEncoderType::spec_known("obs_nvenc_hevc_soft"@) == Some(ObsVideoEncoderType::OBS_NVENC_HEVC_SOFT),
        ObsVideoEncoderType::OBS_NVENC_AV1_SOFT.spec_id() == "obs_nvenc_av1_soft"@,
        ObsVideoEncoderType::spec_known("obs_nvenc_av1_soft"@) == Some(ObsVideoEncoderType::OBS_NVENC_AV1_SOFT),
        ObsVideoEncoderType::OBS_QSV11.spec_id() == "obs_qsv11"@,
        ObsVideoEncoderType::spec_known("obs_qsv11"@) == Some(ObsVideoEncoderType::OBS_QSV11),
        ObsVideoEncoderType::OBS_QSV11_SOFT.spec_id() == "obs_qsv11_soft"@,
        ObsVideoEncoderType::spec_known("obs_qsv11_soft"@) == Some(ObsVideoEncoderType::OBS_QSV11_SOFT),
        ObsVideoEncoderType::OBS_QSV11_V2.spec_id() == "obs_qsv11_v2"@,
        ObsVideoEncoderType::spec_known("obs_qsv11_v2"@) == Some(ObsVideoEncoderType::OBS_QSV11_V2),
        ObsVideoEncoderType::OBS_QSV11_SOFT_V2.spec_id() == "obs_qsv11_soft_v2"@,
        ObsVideoEncoderType::spec_known("obs_qsv11_soft_v2"@) == Some(ObsVideoEncoderType::OBS_QSV11_SOFT_V2),
        ObsVideoEncoderType::OBS_QSV11_AV1.spec_id() == "obs_qsv11_av1"@,
        ObsVideoEncoderType::spec_known("obs_qsv11_av1"@) == Some(ObsVideoEncoderType::OBS_QSV11_AV1),
        ObsVideoEncoderType::OBS_QSV11_AV1_SOFT.spec_id() == "obs_qsv11_av1_soft"@,
        ObsVideoEncoderType::spec_known("obs_qsv11_av1_soft"@) == Some(ObsVideoEncoderType::OBS_QSV11_AV1_SOFT),
        ObsVideoEncoderType::OBS_QSV11_HEVC.spec_id() == "obs_qsv11_hevc"@,
        ObsVideoEncoderType::spec_known("obs_qsv11_hevc"@) == Some(ObsVideoEncoderType::OBS_QSV11_HEVC),
        ObsVideoEncoderType::OBS_QSV11_HEVC_SOFT.spec_id() == "obs_qsv11_hevc_soft"@,
        ObsVideoEncoderType::spec_known("obs_qsv11_hevc_soft"@) == Some(ObsVideoEncoderType::OBS_QSV11_HEVC_SOFT),
        ObsVideoEncoderType::OBS_X264.spec_id() == "obs_x264"@,
        ObsVideoEncoderType::spec_known("obs_x264"@) == Some(ObsVideoEncoderType::OBS_X264),
{
    lemma_video_encoder_known_roundtrip(ObsVideoEncoderType::H264_TEXTURE_AMF);
    lemma_video_encoder_known_roundtrip(ObsVideoEncoderType::H265_TEXTURE_AMF);
    lemma_video_encoder_known_roundtrip(ObsVideoEncoderType::AV1_TEXTURE_AMF);
    lemma_video_encoder_known_roundtrip(ObsVideoEncoderType::FFMPEG_VAAPI);
    lemma_video_encoder_known_roundtrip(ObsVideoEncoderType::FFMPEG_VAAPI_TEX);
    lemma_video_encoder_known_roundtrip(ObsVideoEncoderType::AV1_FFMPEG_VAAPI);
    lemma_video_encoder_known_roundtrip(ObsVideoEncoderType::AV1_FFMPEG_VAAPI_TEX);
    lemma_video_encoder_known_roundtrip(ObsVideoEncoderType::HEVC_FFMPEG_VAAPI);
    lemma_video_encoder_known_roundtrip(ObsVideoEncoderType::HEVC_FFMPEG_VAAPI_TEX);
    lemma_video_encoder_known_roundtrip(ObsVideoEncoderType::FFMPEG_OPENH264);
    lemma_video_encoder_known_roundtrip(ObsVideoEncoderType::FFMPEG_NVENC);
    lemma_video_encoder_known_roundtrip(ObsVideoEncoderType::FFMPEG_HEVC_NVENC);
    lemma_video_encoder_known_roundtrip(ObsVideoEncoderType::FFMPEG_SVT_AV1);
    lemma_video_encoder_known_roundtrip(ObsVideoEncoderType::FFMPEG_AOM_AV1);
    lemma_video_encoder_known_roundtrip(ObsVideoEncoderType::OBS_NVENC_H264_CUDA);
    lemma_video_encoder_known_roundtrip(ObsVideoEncoderType::OBS_NVENC_HEVC_CUDA);
    lemma_video_encoder_known_roundtrip(ObsVideoEncoderType::OBS_NVENC_AV1_CUDA);
    lemma_video_encoder_known_roundtrip(ObsVideoEncoderType::OBS_NVENC_H264_TEX);
    lemma_video_encoder_known_roundtrip(ObsVideoEncoderType::OBS_NVENC_HEVC_TEX);
    lemma_video_encoder_known_roundtrip(ObsVideoEncoderType::OBS_NVENC_AV1_TEX);
    lemma_video_encoder_known_roundtrip(ObsVideoEncoderType::JIM_NVENC);
    lemma_video_encoder_known_roundtrip(ObsVideoEncoderType::JIM_HEVC_NVENC);
    lemma_video_encoder_known_roundtrip(ObsVideoEncoderType::JIM_AV1_NVENC);
    lemma_video_encoder_known_roundtrip(ObsVideoEncoderType::OBS_NVENC_H264_SOFT);
    lemma_video_encoder_known_roundtrip(ObsVideoEncoderType::OBS_NVENC_HEVC_SOFT);
    lemma_video_encoder_known_roundtrip(ObsVideoEncoderType::OBS_NVENC_AV1_SOFT);
    lemma_video_encoder_known_roundtrip(ObsVideoEncoderType::OBS_QSV11);
    lemma_video_encoder_known_roundtrip(ObsVideoEncoderType::OBS_QSV11_SOFT);
    lemma_video_encoder_known_roundtrip(ObsVideoEncoderType::OBS_QSV11_V2);
    lemma_video_encoder_known_roundtrip(ObsVideoEncoderType::OBS_QSV11_SOFT_V2);
    lemma_video_encoder_known_roundtrip(ObsVideoEncoderType::OBS_QSV11_AV1);
    lemma_video_encoder_known_roundtrip(ObsVideoEncoderType::OBS_QSV11_AV1_SOFT);
    lemma_video_encoder_known_roundtrip(ObsVideoEncoderType::OBS_QSV11_HEVC);
    lemma_video_encoder_known_roundtrip(ObsVideoEncoderType::OBS_QSV11_HEVC_SOFT);
    lemma_video_encoder_known_roundtrip(ObsVideoEncoderType::OBS_X264);
}

/// Each named audio encoder has the identifier of its own name, in lower case,
/// and that identifier is read as that encoder.
pub proof fn lemma_audio_encoder_ids()
    ensures
        ObsAudioEncoderType::FFMPEG_AAC.spec_id() == "ffmpeg_aac"@,
        ObsAudioEncoderType::spec_known("ffmpeg_aac"@) == Some(ObsAudioEncoderType::FFMPEG_AAC),
        ObsAudioEncoderType::FFMPEG_OPUS.spec_id() == "ffmpeg_opus"@,
        ObsAudioEncoderType::spec_known("ffmpeg_opus"@) == Some(ObsAudioEncoderType::FFMPEG_OPUS),
        ObsAudioEncoderType::FFMPEG_PCM_S16LE.spec_id() == "ffmpeg_pcm_s16le"@,
        ObsAudioEncoderType::spec_known("ffmpeg_pcm_s16le"@) == Some(ObsAudioEncoderType::FFMPEG_PCM_S16LE),
        ObsAudioEncoderType::FFMPEG_PCM_S24LE.spec_id() == "ffmpeg_pcm_s24le"@,
        ObsAudioEncoderType::spec_known("ffmpeg_pcm_s24le"@) == Some(ObsAudioEncoderType::FFMPEG_PCM_S24LE),
        ObsAudioEncoderType::FFMPEG_PCM_F32LE.spec_id() == "ffmpeg_pcm_f32le"@,
        ObsAudioEncoderType::spec_known("ffmpeg_pcm_f32le"@) == Some(ObsAudioEncoderType::FFMPEG_PCM_F32LE),
        ObsAudioEncoderType::FFMPEG_ALAC.spec_id() == "ffmpeg_alac"@,
        ObsAudioEncoderType::spec_known("ffmpeg_alac"@) == Some(ObsAudioEncoderType::FFMPEG_ALAC),
        ObsAudioEncoderType::FFMPEG_FLAC.spec_id() == "ffmpeg_flac"@,
        ObsAudioEncoderType::spec_known("ffmpeg_flac"@) == Some(ObsAudioEncoderType::FFMPEG_FLAC),
        ObsAudioEncoderType::LIBFDK_AAC.spec_id() == "libfdk_aac"@,
        ObsAudioEncoderType::spec_known("libfdk_aac"@) == Some(ObsAudioEncoderType::LIBFDK_AAC),
{
    lemma_audio_encoder_known_roundtrip(ObsAudioEncoderType::FFMPEG_AAC);
    lemma_audio_encoder_known_roundtrip(ObsAudioEncoderType::FFMPEG_OPUS);
    lemma_audio_encoder_known_roundtrip(ObsAudioEncoderType::FFMPEG_PCM_S16LE);
    lemma_audio_encoder_known_roundtrip(ObsAudioEncoderType::FFMPEG_PCM_S24LE);
    lemma_audio_encoder_known_roundtrip(ObsAudioEncoderType::FFMPEG_PCM_F32LE);
    lemma_audio_encoder_known_roundtrip(ObsAudioEncoderType::FFMPEG_ALAC);
    lemma_audio_encoder_known_roundtrip(ObsAudioEncoderType::FFMPEG_FLAC);
    lemma_audio_encoder_known_roundtrip(ObsAudioEncoderType::LIBFDK_AAC);
}

} // verus!
