use xtask::action::Action;
use xtask::chip::{default_chips, Chip};
use xtask::orchestrate::{builder_args, error_exit_code, plan_run, select_chips, RunError};

#[test]
fn missing_sdk_environment_yields_its_own_error_before_any_action() {
    let args: Vec<String> = vec![];
    let r = plan_run(&args, None, true);
    assert_eq!(r, Err(RunError::MissingSdkPath));
}

#[test]
fn missing_marker_file_yields_the_other_error() {
    let args: Vec<String> = vec![];
    let r = plan_run(&args, Some("/sdk"), false);
    assert_eq!(r, Err(RunError::MissingVersionMarker));
}

#[test]
fn the_sdk_check_comes_before_the_marker_check() {
    let args: Vec<String> = vec![];
    let r = plan_run(&args, None, false);
    assert_eq!(r, Err(RunError::MissingSdkPath));
}

#[test]
fn the_two_precondition_exit_codes_are_distinct() {
    let sdk = error_exit_code(&RunError::MissingSdkPath);
    let marker = error_exit_code(&RunError::MissingVersionMarker);
    assert_eq!(sdk, Some(-2));
    assert_eq!(marker, Some(-1));
    assert_ne!(sdk, marker);
}

#[test]
fn an_unknown_chip_has_no_exit_code_of_its_own() {
    let e = RunError::UnknownChip { name: "esp99".to_string() };
    assert_eq!(error_exit_code(&e), None);
}

#[test]
fn no_arguments_selects_the_default_list() {
    let args: Vec<String> = vec![];
    let chips = select_chips(&args).unwrap();
    assert_eq!(chips, default_chips());
}

#[test]
fn arguments_select_exactly_the_named_chips() {
    let args = vec!["esp32c3".to_string(), "esp32".to_string()];
    let chips = select_chips(&args).unwrap();
    assert_eq!(chips, vec![Chip::Esp32c3, Chip::Esp32]);
}

#[test]
fn the_first_unknown_identifier_is_reported() {
    let args = vec![
        "esp32".to_string(),
        "esp99".to_string(),
        "bogus".to_string(),
    ];
    let r = select_chips(&args);
    assert_eq!(r, Err(RunError::UnknownChip { name: "esp99".to_string() }));
}

#[test]
fn an_unknown_chip_prevents_the_whole_run() {
    let args = vec!["esp32".to_string(), "esp99".to_string()];
    let r = plan_run(&args, Some("/sdk"), true);
    assert_eq!(r, Err(RunError::UnknownChip { name: "esp99".to_string() }));
}

#[test]
fn a_good_environment_plans_one_pipeline_per_chip_then_the_shared_tail() {
    let args = vec!["esp32c6".to_string()];
    let plan = plan_run(&args, Some("/sdk"), true).unwrap();
    let single = xtask::orchestrate::target_plan(Chip::Esp32c6, "/sdk");
    assert!(plan.len() > single.len());
    assert_eq!(&plan[..single.len()], &single[..]);
    let tail = &plan[single.len()..];
    assert!(matches!(tail[0], Action::CopyDirFiles { .. }));
    assert!(matches!(
        tail[tail.len() - 1],
        Action::RecordVersion { .. }
    ));
}

#[test]
fn the_version_stamp_ends_every_run_exactly_once() {
    let args: Vec<String> = vec![];
    let plan = plan_run(&args, Some("/sdk"), true).unwrap();
    let stamps = plan
        .iter()
        .filter(|a| matches!(a, Action::RecordVersion { .. }))
        .count();
    assert_eq!(stamps, 1);
    match plan.last().unwrap() {
        Action::RecordVersion { path } => assert_eq!(path, "version"),
        other => panic!("a run must end with the version stamp, not {:?}", other),
    }
}

#[test]
fn shared_headers_are_patched_after_the_copies() {
    let args = vec!["esp32".to_string()];
    let plan = plan_run(&args, Some("/sdk"), true).unwrap();
    let mut saw_event_header_patch = false;
    for action in &plan {
        if let Action::PatchFile { path, search, replace } = action {
            if path == "./include/esp_event.h" && search == "#include \"freertos/FreeRTOS.h\"" {
                assert_eq!(replace, "");
                saw_event_header_patch = true;
            }
        }
    }
    assert!(saw_event_header_patch);
}

#[test]
fn builder_is_invoked_with_target_select_and_build_directive() {
    let args = builder_args(Chip::Esp32s3);
    assert_eq!(args, vec!["-DIDF_TARGET=esp32s3".to_string(), "build".to_string()]);
}
