use libobs_wrapper::bootstrap::options::{ObsBootstrapperOptions, GITHUB_REPO};
use libobs_wrapper::bootstrap::updater::{argument_list, updater_command_args};
use libobs_wrapper::bootstrap::version::{
    format_version, library_obs_version, should_update, split_chars, LIBOBS_API_MAJOR_VER,
    LIBOBS_API_MINOR_VER, LIBOBS_API_PATCH_VER,
};
use libobs_wrapper::bootstrap::{bootstrap_check, is_update_available, is_valid_installation};
use libobs_wrapper::utils::error::ObsError;

#[test]
fn options_defaults() {
    let o = ObsBootstrapperOptions::new();
    assert_eq!(o.get_repository(), "sshcrack/libobs-builds");
    assert_eq!(o.get_repository(), GITHUB_REPO);
    assert!(o.get_update());
    let d = ObsBootstrapperOptions::default();
    assert_eq!(d.get_repository(), GITHUB_REPO);
    assert!(d.get_update());
}

#[test]
fn options_setters() {
    let o = ObsBootstrapperOptions::new().set_repository("me/builds").set_update(false);
    assert_eq!(o.get_repository(), "me/builds");
    assert!(!o.get_update());
    let o = o.set_update(true);
    assert_eq!(o.get_repository(), "me/builds");
    assert!(o.get_update());
}

#[test]
fn targeted_version_text() {
    assert_eq!(library_obs_version(), "32.0.4");
    assert_eq!(LIBOBS_API_MAJOR_VER, 32);
    assert_eq!(LIBOBS_API_MINOR_VER, 0);
    assert_eq!(LIBOBS_API_PATCH_VER, 4);
    assert_eq!(format_version(1, 22, 333), "1.22.333");
    assert_eq!(format_version(0, 0, 0), "0.0.0");
    assert_eq!(format_version(u64::MAX, 10, 100), "18446744073709551615.10.100");
}

#[test]
fn should_update_decisions() {
    assert_eq!(should_update("32.0.4"), Ok(false));
    assert_eq!(should_update("32.0.5"), Ok(false));
    assert_eq!(should_update("32.0.3"), Ok(true));
    assert_eq!(should_update("31.0.4"), Ok(true));
    assert_eq!(should_update("32.1.0"), Ok(true));
    assert_eq!(should_update("+32.0.4"), Ok(false));
    assert_eq!(should_update("032.00.04"), Ok(false));
}

#[test]
fn should_update_rejects_other_texts() {
    for bad in ["", "32", "32.0", "32.0.4.1", "32..4", "32.0.x", "32.-0.4", " 32.0.4", "32.0.4 ", "+.0.4", "32.0.18446744073709551616"] {
        assert_eq!(
            should_update(bad),
            Err(ObsError::InvalidVersionString(bad.to_string())),
            "{}",
            bad
        );
    }
}

#[test]
fn formatted_versions_read_back() {
    let text = library_obs_version();
    assert_eq!(should_update(&text), Ok(false));
    assert_eq!(should_update(&format_version(33, 0, 0)), Ok(true));
    assert_eq!(should_update(&format_version(u64::MAX, u64::MAX, u64::MAX)), Ok(true));
}

#[test]
fn split_like_std() {
    for text in ["1.2.3", "", ".", "a..b", "x.", ".y", "no dots"] {
        let chars: Vec<char> = text.chars().collect();
        let ours: Vec<String> = split_chars(&chars, '.').into_iter().map(|p| p.into_iter().collect()).collect();
        let std: Vec<String> = text.split('.').map(|p| p.to_string()).collect();
        assert_eq!(ours, std, "{}", text);
    }
}

#[test]
fn installation_checks() {
    assert!(!is_valid_installation(&None));
    assert!(is_valid_installation(&Some("anything".to_string())));
    assert_eq!(is_update_available(&None), Ok(true));
    assert_eq!(is_update_available(&Some("32.0.4".to_string())), Ok(false));
    assert_eq!(is_update_available(&Some("30.2.1".to_string())), Ok(true));
    assert_eq!(
        is_update_available(&Some("bad".to_string())),
        Err(ObsError::InvalidVersionString("bad".to_string()))
    );
}

#[test]
fn bootstrap_check_follows_options() {
    let updating = ObsBootstrapperOptions::new();
    let fixed = ObsBootstrapperOptions::new().set_update(false);
    assert_eq!(bootstrap_check(&updating, &None), Ok(true));
    assert_eq!(bootstrap_check(&updating, &Some("32.0.4".to_string())), Ok(false));
    assert_eq!(bootstrap_check(&updating, &Some("1.0.0".to_string())), Ok(true));
    assert_eq!(bootstrap_check(&fixed, &None), Ok(true));
    assert_eq!(bootstrap_check(&fixed, &Some("garbage".to_string())), Ok(false));
    assert_eq!(bootstrap_check(&fixed, &Some("1.0.0".to_string())), Ok(false));
}

fn strings(v: &[&str]) -> Vec<String> {
    v.iter().map(|s| s.to_string()).collect()
}

#[test]
fn updater_argument_list_escapes_quotes() {
    let args = strings(&["app.exe", "a", "b\"c", ""]);
    assert_eq!(argument_list(&args, 1), "(a,b`\"c,)");
    assert_eq!(argument_list(&args, 4), "()");
    let same = strings(&["app.exe", "x"]);
    assert_eq!(argument_list(&same, 1), "(x)");
    let joined = args[1..].join(",").replace('"', "`\"");
    assert_eq!(argument_list(&args, 1), format!("({})", joined));
}

#[test]
fn updater_command_without_arguments() {
    let r = updater_command_args("/tmp/u.ps1", 4242, "/bin/app", false, &strings(&["/bin/app"]));
    assert_eq!(
        r,
        strings(&[
            "-ExecutionPolicy", "Bypass", "-NoProfile", "-WindowStyle", "Hidden", "-File",
            "/tmp/u.ps1", "-processPid", "4242", "-binary", "/bin/app",
        ])
    );
    let empty = updater_command_args("s", 0, "b", false, &Vec::new());
    assert_eq!(empty.len(), 11);
    assert_eq!(empty[8], "0");
}

#[test]
fn updater_command_with_restart_and_arguments() {
    let r = updater_command_args("s.ps1", 7, "app", true, &strings(&["app", "--x", "say \"hi\""]));
    assert_eq!(r.len(), 14);
    assert_eq!(r[11], "-restart");
    assert_eq!(r[12], "-arguments");
    assert_eq!(r[13], "(--x,say `\"hi`\")");
}
