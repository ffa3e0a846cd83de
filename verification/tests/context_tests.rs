use libobs_wrapper::context::{
    any_output_active, check_video_reset, ensure_single_context, find_by_name, output_to_update,
    reset_status, reset_video_outcome, ObsVideoContext,
};
use libobs_wrapper::data::video::ObsVideoInfoBuilder;
use libobs_wrapper::enums::{ObsGraphicsModule, ObsResetVideoStatus};
use libobs_wrapper::utils::error::ObsError;

#[test]
fn reset_status_values() {
    assert_eq!(reset_status(0), ObsResetVideoStatus::Success);
    assert_eq!(reset_status(-2), ObsResetVideoStatus::NotSupported);
    assert_eq!(reset_status(-5), ObsResetVideoStatus::Failure);
    assert_eq!(reset_status(3), ObsResetVideoStatus::Failure);
    assert_eq!(reset_video_outcome(0), Ok(()));
    assert_eq!(
        reset_video_outcome(-4),
        Err(ObsError::ResetVideoFailure(ObsResetVideoStatus::CurrentlyActive))
    );
    assert_eq!(
        reset_video_outcome(-5),
        Err(ObsError::ResetVideoFailure(ObsResetVideoStatus::Failure))
    );
}

#[test]
fn video_reset_checks() {
    let gl = ObsVideoInfoBuilder::new(&Vec::new(), ObsGraphicsModule::OpenGL).build();
    let gl2 = ObsVideoInfoBuilder::new(&Vec::new(), ObsGraphicsModule::OpenGL).fps_num(60).build();
    let dx = ObsVideoInfoBuilder::new(&Vec::new(), ObsGraphicsModule::DirectX11).build();
    let idle = vec![Ok(false), Err(ObsError::NullPointer)];
    let busy = vec![Ok(false), Ok(true)];
    assert_eq!(check_video_reset(&gl, &gl2, &idle), Ok(()));
    assert_eq!(check_video_reset(&gl, &gl2, &Vec::new()), Ok(()));
    assert_eq!(check_video_reset(&gl, &gl2, &busy), Err(ObsError::ResetVideoFailureOutputActive));
    assert_eq!(check_video_reset(&gl, &dx, &busy), Err(ObsError::ResetVideoFailureGraphicsModule));
    assert!(!any_output_active(&idle));
    assert!(any_output_active(&busy));
}

#[test]
fn lookups_by_name() {
    let names = vec!["rec".to_string(), "stream".to_string(), "rec".to_string()];
    assert_eq!(find_by_name(&names, "rec"), Some(0));
    assert_eq!(find_by_name(&names, "stream"), Some(1));
    assert_eq!(find_by_name(&names, "replay"), None);
    assert_eq!(find_by_name(&Vec::new(), ""), None);
    assert_eq!(output_to_update(&names, "stream"), Ok(1));
    assert_eq!(output_to_update(&names, "x"), Err(ObsError::OutputNotFound));
}

#[test]
fn single_context() {
    assert_eq!(ensure_single_context(false), Ok(()));
    assert_eq!(ensure_single_context(true), Err(ObsError::ThreadFailure));
}

#[test]
fn video_context_keeps_accepted_settings() {
    let gl = ObsVideoInfoBuilder::new(&Vec::new(), ObsGraphicsModule::OpenGL).build();
    let gl60 = ObsVideoInfoBuilder::new(&Vec::new(), ObsGraphicsModule::OpenGL).fps_num(60).build();
    let gl24 = ObsVideoInfoBuilder::new(&Vec::new(), ObsGraphicsModule::OpenGL).fps_num(24).build();
    let dx = ObsVideoInfoBuilder::new(&Vec::new(), ObsGraphicsModule::DirectX11).build();
    let mut ctx = ObsVideoContext::new(gl);
    assert_eq!(ctx.info().get_fps_num(), 30);
    assert_eq!(ctx.check_reset(&dx, &Vec::new()), Err(ObsError::ResetVideoFailureGraphicsModule));
    assert_eq!(ctx.check_reset(&gl60, &vec![Ok(true)]), Err(ObsError::ResetVideoFailureOutputActive));
    assert_eq!(ctx.check_reset(&gl60, &Vec::new()), Ok(()));
    assert_eq!(ctx.complete_reset(gl60, 0), Ok(()));
    assert_eq!(ctx.info().get_fps_num(), 60);
    assert_eq!(
        ctx.complete_reset(gl24, -2),
        Err(ObsError::ResetVideoFailure(ObsResetVideoStatus::NotSupported))
    );
    assert_eq!(ctx.info().get_fps_num(), 60);
}
