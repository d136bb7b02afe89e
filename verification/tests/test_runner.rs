use platform_common::test::TestRunner as CommonRunner;
use platform_common::TestRunner;

#[test]
fn new_runner_is_empty() {
    let runner = TestRunner::new();
    assert_eq!(runner.passed(), 0);
    assert_eq!(runner.failed(), 0);
    assert_eq!(runner.total(), 0);
    assert!(runner.all_passed());
}

#[test]
fn default_runner_is_empty() {
    let runner = CommonRunner::default();
    assert_eq!(runner.total(), 0);
    assert!(runner.all_passed());
}

#[test]
fn record_counts_each_outcome() {
    let mut runner = TestRunner::new();
    runner.record("fan max rpm", true);
    runner.record("sensor temp", true);
    assert_eq!(runner.passed(), 2);
    assert_eq!(runner.failed(), 0);
    assert!(runner.all_passed());
    runner.record("voltage band", false);
    assert_eq!(runner.passed(), 2);
    assert_eq!(runner.failed(), 1);
    assert_eq!(runner.total(), 3);
    assert!(!runner.all_passed());
}

#[test]
fn one_failure_is_never_forgotten() {
    let mut runner = TestRunner::new();
    runner.record("first", false);
    for _ in 0..100 {
        runner.record("later", true);
    }
    assert!(!runner.all_passed());
    assert_eq!(runner.total(), 101);
    assert_eq!(runner.passed(), 100);
}
