use bulk_fetch::evaluate_move_path;

#[test]
fn move_path_evaluation_pass_path() {
    let test_target = "/usr/local/bin/test";
    let os_type = "windows";
    let result_path = evaluate_move_path(os_type, test_target.to_string());
    assert_eq!(test_target, result_path);
}

#[test]
fn move_path_evaluation_no_path_os_windows() {
    let test_target = "";
    let os_type = "windows";
    let result_path = evaluate_move_path(os_type, test_target.to_string());
    assert_eq!("M:/youtube/", result_path);
}

#[test]
fn move_path_evaluation_no_path_os_macos() {
    let test_target = "";
    let os_type = "macos";
    let result_path = evaluate_move_path(os_type, test_target.to_string());
    assert_eq!("/Volumes/huge/media/youtube/", result_path);
}

#[test]
fn move_path_evaluation_no_path_os_linux() {
    let result_path = evaluate_move_path("linux", String::new());
    assert_eq!("/home/phiro/huge/media/youtube/", result_path);
}

#[test]
fn move_path_evaluation_unknown_platform_is_empty() {
    let result_path = evaluate_move_path("freebsd", String::new());
    assert_eq!("", result_path);
}

#[test]
fn move_path_override_wins_on_every_platform() {
    for os_type in ["macos", "windows", "linux", "freebsd"] {
        let result_path = evaluate_move_path(os_type, "/custom/path".to_string());
        assert_eq!("/custom/path", result_path);
    }
}
