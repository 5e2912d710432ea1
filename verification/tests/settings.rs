use kaggle_tpu_companion::settings::Settings;

#[test]
fn defaults_are_the_official_profile() {
    let s = Settings::default();
    assert_eq!(s.context, 262144);
    assert_eq!(s.mtp, 3);
    assert_eq!(s.thinking, "xhigh");
    assert!(s.fast_start);
    assert!(s.text_only);
    assert_eq!(s.keepalive_min, 480);
    s.validate().unwrap();
}

#[test]
fn serve_args_match_profile_and_never_disable_tools() {
    let args = Settings::default().serve_args();
    let joined = args.join(" ");
    assert!(args.first().is_some());
    assert!(joined.contains("--max-model-len 262144"));
    assert!(joined.contains("--mtp 3"));
    assert!(joined.contains("--reasoning-effort xhigh"));
    assert!(joined.contains("--fast-start"));
    assert!(joined.contains("--text-only"));
    assert!(joined.contains("--keepalive-min 480"));
    assert!(!joined.contains("--no-tools"), "tools must stay enabled");
}

#[test]
fn rejects_absurd_combinations() {
    let mut s = Settings::default();
    s.context = 123;
    assert!(s.validate().is_err());

    let mut s = Settings::default();
    s.mtp = 99;
    assert!(s.validate().is_err());

    let mut s = Settings::default();
    s.thinking = "crazy".into();
    assert!(s.validate().is_err());

    let mut s = Settings::default();
    s.keepalive_min = 9000;
    assert!(s.validate().is_err());
}

#[test]
fn validation_messages_name_the_first_failing_check() {
    let mut s = Settings::default();
    s.context = 123;
    s.mtp = 99;
    assert_eq!(s.validate(), Err("Context must be one of: 131072, 262144".to_string()));

    let mut s = Settings::default();
    s.mtp = -1;
    assert_eq!(s.validate(), Err("MTP must be between 0 and 5".to_string()));

    let mut s = Settings::default();
    s.thinking = "crazy".into();
    assert_eq!(s.validate(), Err("Thinking must be one of: xhigh, medium, low".to_string()));

    let mut s = Settings::default();
    s.keepalive_min = 29;
    assert_eq!(
        s.validate(),
        Err("Keepalive must be between 30 and 540 min (Kaggle caps TPU sessions at 9 h)".to_string())
    );
}

#[test]
fn validation_accepts_the_edges_of_each_range() {
    let mut s = Settings::default();
    s.context = 131072;
    s.mtp = 0;
    s.thinking = "low".into();
    s.keepalive_min = 30;
    assert_eq!(s.validate(), Ok(()));
    s.mtp = 5;
    s.thinking = "medium".into();
    s.keepalive_min = 540;
    assert_eq!(s.validate(), Ok(()));
    s.mtp = 6;
    assert!(s.validate().is_err());
    s.mtp = 5;
    s.keepalive_min = 541;
    assert!(s.validate().is_err());
}

#[test]
fn serve_args_are_exact_and_optional_flags_follow_the_switches() {
    let args = Settings::default().serve_args();
    assert_eq!(
        args,
        vec![
            "--max-model-len", "262144", "--mtp", "3", "--reasoning-effort", "xhigh",
            "--keepalive-min", "480", "--fast-start", "--text-only",
        ]
    );
    let mut s = Settings::default();
    s.fast_start = false;
    s.text_only = false;
    s.context = 131072;
    s.mtp = 0;
    s.thinking = "low".into();
    s.keepalive_min = 30;
    assert_eq!(
        s.serve_args(),
        vec!["--max-model-len", "131072", "--mtp", "0", "--reasoning-effort", "low", "--keepalive-min", "30"]
    );
}

#[test]
fn serve_args_are_built_for_an_unvalidated_profile_too() {
    let mut s = Settings::default();
    s.context = 123;
    s.mtp = -7;
    s.thinking = "crazy".into();
    s.keepalive_min = 9999;
    s.fast_start = false;
    assert!(s.validate().is_err());
    assert_eq!(
        s.serve_args(),
        vec![
            "--max-model-len", "123", "--mtp", "-7", "--reasoning-effort", "crazy",
            "--keepalive-min", "9999", "--text-only",
        ]
    );
}

#[test]
fn a_thinking_level_reading_no_tools_is_not_passed_on() {
    let mut s = Settings::default();
    s.thinking = "--no-tools".into();
    let args = s.serve_args();
    assert_eq!(
        args,
        vec!["--max-model-len", "262144", "--mtp", "3", "--keepalive-min", "480", "--fast-start", "--text-only"]
    );
    assert!(!args.iter().any(|a| a == "--no-tools"));
}

#[test]
fn saving_checks_the_profile_then_the_project_root() {
    let mut s = Settings::default();
    assert_eq!(s.check_for_save(false), Ok(()));
    s.project_root = Some("C:\\repo".to_string());
    assert_eq!(s.check_for_save(true), Ok(()));
    assert_eq!(s.check_for_save(false), Err("project_root does not exist: C:\\repo".to_string()));
    s.mtp = 9;
    assert_eq!(s.check_for_save(false), Err("MTP must be between 0 and 5".to_string()));
}

#[test]
fn the_settings_file_holds_the_profile_under_camel_case_keys() {
    let text = Settings::default().file_text();
    assert_eq!(
        text,
        "{\n  \"context\": 262144,\n  \"fastStart\": true,\n  \"keepaliveMin\": 480,\n  \"mtp\": 3,\n  \"projectRoot\": null,\n  \"textOnly\": true,\n  \"thinking\": \"xhigh\"\n}"
    );
    let mut s = Settings::default();
    s.project_root = Some("C:\\repo".to_string());
    s.mtp = -2;
    let v: serde_json::Value = serde_json::from_str(&s.file_text()).unwrap();
    assert_eq!(v["projectRoot"], "C:\\repo");
    assert_eq!(v["mtp"], -2);
    assert_eq!(v["thinking"], "xhigh");
    assert_eq!(v.as_object().unwrap().len(), 7);
}
