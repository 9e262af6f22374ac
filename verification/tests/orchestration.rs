use tracing_allocator::threshold::{
    baseline_file, compare_with_baseline, resolve_baseline_plan, scan_test_args, BaselineRead,
    CheckThresholdError, Threshold,
};

#[test]
fn baseline_comparison_outcomes() {
    let cap = Threshold::cap(5);
    // A loaded record is compared; growth within the cap passes.
    let r = compare_with_baseline(&105_u64, &BaselineRead::Loaded(100), true, true, &cap);
    assert!(r.is_ok());
    // Growth beyond the cap is a regression, not an I/O failure.
    let r = compare_with_baseline(&106_u64, &BaselineRead::Loaded(100), true, true, &cap);
    match r.unwrap_err() {
        CheckThresholdError::Regression(e) => {
            assert_eq!(e.value, 106);
            assert_eq!(e.ref_value, 100);
        }
        other => panic!("expected a regression, got {:?}", other),
    }
    // A missing record establishes a baseline unless comparison is strict.
    let missing: BaselineRead<u64> = BaselineRead::NotFound;
    assert!(compare_with_baseline(&106_u64, &missing, true, false, &cap).is_ok());
    match compare_with_baseline(&106_u64, &missing, true, true, &cap).unwrap_err() {
        CheckThresholdError::IO(_) => {}
        other => panic!("expected an I/O failure, got {:?}", other),
    }
    // Unreadable and undecodable records keep their own error kinds.
    let unreadable: BaselineRead<u64> = BaselineRead::Unreadable("denied".to_owned());
    match compare_with_baseline(&0_u64, &unreadable, true, false, &cap).unwrap_err() {
        CheckThresholdError::IO(m) => assert_eq!(m, "denied"),
        other => panic!("expected an I/O failure, got {:?}", other),
    }
    let corrupt: BaselineRead<u64> = BaselineRead::Undecodable("bad record".to_owned());
    match compare_with_baseline(&0_u64, &corrupt, true, false, &cap).unwrap_err() {
        CheckThresholdError::Decode(m) => assert_eq!(m, "bad record"),
        other => panic!("expected a decode failure, got {:?}", other),
    }
    // Without a load request every read outcome passes.
    let r = compare_with_baseline(&10_u64, &corrupt, false, true, &cap);
    assert!(r.is_ok());
}

#[test]
fn plan_resolution_is_three_way() {
    let plan = resolve_baseline_plan(Some("given".to_owned()), None, false, "dflt".to_owned())
        .unwrap();
    assert_eq!(plan.baseline_dir, "given");
    assert!(plan.load_prev && plan.strict_compare && !plan.save_new);

    let plan = resolve_baseline_plan(None, Some("out".to_owned()), false, "dflt".to_owned())
        .unwrap();
    assert_eq!(plan.baseline_dir, "out");
    assert!(!plan.load_prev && !plan.strict_compare && plan.save_new);

    let plan = resolve_baseline_plan(None, None, false, "dflt".to_owned()).unwrap();
    assert_eq!(plan.baseline_dir, "dflt");
    assert!(!plan.load_prev && !plan.strict_compare && plan.save_new);

    let plan = resolve_baseline_plan(None, None, true, "dflt".to_owned()).unwrap();
    assert!(!plan.save_new);

    // More than one option is a configuration error.
    assert!(resolve_baseline_plan(
        Some("a".to_owned()),
        Some("b".to_owned()),
        false,
        "dflt".to_owned()
    )
    .is_none());
    assert!(resolve_baseline_plan(Some("a".to_owned()), None, true, "dflt".to_owned()).is_none());
    assert!(resolve_baseline_plan(None, Some("b".to_owned()), true, "dflt".to_owned()).is_none());
}

#[test]
fn baseline_file_names_the_record() {
    assert_eq!(baseline_file("target/mem", "my_test"), "target/mem/my_test.toml");
    assert_eq!(baseline_file("", "t"), "/t.toml");
}

#[test]
fn test_args_are_scanned_up_to_the_separator() {
    let args: Vec<String> = ["runner", "my_test", "--exact", "--", "-l", "dir", "spare"]
        .iter()
        .map(|s| s.to_string())
        .collect();
    assert_eq!(scan_test_args(&args), (1, true));

    let args: Vec<String> = ["runner", "a", "b"].iter().map(|s| s.to_string()).collect();
    assert_eq!(scan_test_args(&args), (2, false));

    let args: Vec<String> = ["runner"].iter().map(|s| s.to_string()).collect();
    assert_eq!(scan_test_args(&args), (0, false));

    let args: Vec<String> = ["runner", "--nocapture", "one", "--", "two"]
        .iter()
        .map(|s| s.to_string())
        .collect();
    assert_eq!(scan_test_args(&args), (1, false));
}
