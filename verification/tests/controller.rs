use rotate_mac_address::controller::{
    collate_errors, Notice, Outcome, RotationController, MAX_AMOUNT_OF_ERRORS,
};
use rotate_mac_address::jitter::Fraction;
use rotate_mac_address::text::join;
use rotate_mac_address::vendor::Vendor;

fn failure(description: &str) -> Outcome {
    Err(description.to_owned())
}

fn success() -> Outcome {
    Ok(("00:1b:77:12:34:56".to_owned(), Vendor::Intel))
}

fn remaining(notice: Notice) -> usize {
    match notice {
        Notice::Failed { remaining } => remaining,
        Notice::Changed { .. } => panic!("a failure was announced as a change"),
    }
}

#[test]
fn join_puts_the_separator_between_parts() {
    let parts = vec!["a".to_owned(), "bc".to_owned(), "".to_owned(), "d".to_owned()];
    assert_eq!(join(&parts, ", "), "a, bc, , d");
    assert_eq!(join(&parts, ""), "abcd");
    assert_eq!(join(&parts[..1].to_vec(), " "), "a");
    assert_eq!(join(&Vec::new(), " "), "");
}

#[test]
fn collated_errors_are_labelled_and_comma_separated() {
    let errors = vec![
        "No such file or directory (os error 2)".to_owned(),
        "Permission denied (os error 13)".to_owned(),
        "third".to_owned(),
    ];
    assert_eq!(
        collate_errors(errors),
        "Failures: No such file or directory (os error 2), Permission denied (os error 13), third"
    );
}

#[test]
fn collating_few_errors() {
    assert_eq!(collate_errors(Vec::new()), "Failures: ");
    assert_eq!(collate_errors(vec!["only".to_owned()]), "Failures: only");
    assert_eq!(collate_errors(vec!["a".to_owned(), "b".to_owned()]), "Failures: a, b");
}

#[test]
fn threshold_is_three() {
    assert_eq!(MAX_AMOUNT_OF_ERRORS, 3);
}

#[test]
fn controller_starts_running_without_failures() {
    let controller = RotationController::new();
    assert!(controller.is_running());
    assert_eq!(controller.failure_count(), 0);
    assert_eq!(controller.abort_error(), None);
}

#[test]
fn three_failures_in_a_row_abort() {
    let mut controller = RotationController::new();
    assert_eq!(remaining(controller.advance(failure("desc1"))), 2);
    assert!(controller.is_running());
    assert_eq!(controller.failure_count(), 1);
    assert_eq!(remaining(controller.advance(failure("desc2"))), 1);
    assert!(controller.is_running());
    assert_eq!(controller.failure_count(), 2);
    assert_eq!(controller.abort_error(), None);
    assert_eq!(remaining(controller.advance(failure("desc3"))), 0);
    assert!(!controller.is_running());
    assert_eq!(
        controller.abort_error(),
        Some("Failures: desc1, desc2, desc3".to_owned())
    );
}

#[test]
fn abort_message_keeps_the_order_of_failures() {
    let mut controller = RotationController::new();
    controller.advance(failure("zeta"));
    controller.advance(failure("alpha"));
    controller.advance(failure("mu"));
    assert_eq!(controller.abort_error(), Some("Failures: zeta, alpha, mu".to_owned()));
}

#[test]
fn success_after_one_failure_clears_the_log() {
    let mut controller = RotationController::new();
    controller.advance(failure("first"));
    match controller.advance(success()) {
        Notice::Changed { new_address, vendor } => {
            assert_eq!(new_address, "00:1b:77:12:34:56");
            assert_eq!(vendor, Vendor::Intel);
        }
        Notice::Failed { .. } => panic!("a change was announced as a failure"),
    }
    assert!(controller.is_running());
    assert_eq!(controller.failure_count(), 0);
    assert_eq!(remaining(controller.advance(failure("second"))), 2);
    assert_eq!(controller.failure_count(), 1);
}

#[test]
fn success_after_two_failures_clears_the_log() {
    let mut controller = RotationController::new();
    controller.advance(failure("first"));
    controller.advance(failure("second"));
    controller.advance(success());
    assert_eq!(controller.failure_count(), 0);
    assert_eq!(remaining(controller.advance(failure("third"))), 2);
    assert_eq!(remaining(controller.advance(failure("fourth"))), 1);
    assert!(controller.is_running());
    assert_eq!(remaining(controller.advance(failure("fifth"))), 0);
    assert_eq!(
        controller.abort_error(),
        Some("Failures: third, fourth, fifth".to_owned())
    );
}

#[test]
fn successes_alone_never_abort() {
    let mut controller = RotationController::new();
    for _ in 0..50 {
        controller.advance(success());
        assert!(controller.is_running());
        assert_eq!(controller.failure_count(), 0);
    }
}

#[test]
fn alternating_outcomes_never_abort() {
    let mut controller = RotationController::new();
    for _ in 0..50 {
        assert_eq!(remaining(controller.advance(failure("a"))), 2);
        assert_eq!(remaining(controller.advance(failure("b"))), 1);
        controller.advance(success());
        assert!(controller.is_running());
    }
}

#[test]
fn running_controller_waits_a_jittered_cycle() {
    let mut controller = RotationController::new();
    let highest = Fraction::new(1, 1).unwrap();
    let lowest = Fraction::new(0, 1).unwrap();
    assert_eq!(controller.wait_seconds(1800, highest), Some(2025));
    assert_eq!(controller.wait_seconds(1800, lowest), Some(1575));
    controller.advance(failure("a"));
    assert_eq!(controller.wait_seconds(1800, highest), Some(2025));
}

#[test]
fn aborted_controller_waits_for_nothing() {
    let mut controller = RotationController::new();
    controller.advance(failure("a"));
    controller.advance(failure("b"));
    controller.advance(failure("c"));
    assert_eq!(controller.wait_seconds(1800, Fraction::new(1, 2).unwrap()), None);
    assert_eq!(controller.failure_count(), 0);
}
