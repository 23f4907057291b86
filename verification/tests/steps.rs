use std::cell::Cell;
use verification_steps::{AlwaysFalse, AlwaysTrue, And, Or, VerificationError, VerificationStep};

/// A configurable step that records whether `verify` was invoked, so tests
/// can observe short-circuiting.
struct Node {
    succeed: bool,
    message: String,
    verified_called: Cell<bool>,
}

impl Node {
    fn new(succeed: bool, message: &str) -> Self {
        Self {
            succeed,
            message: String::from(message),
            verified_called: Cell::new(false),
        }
    }
}

impl VerificationStep for Node {
    fn verify(&self) -> Result<(), VerificationError> {
        self.verified_called.replace(true);
        if self.succeed {
            Ok(())
        } else {
            Err(VerificationError::from(self.message.clone()))
        }
    }
}

#[test]
fn and_succeeds() {
    let and = And::new(AlwaysTrue, AlwaysTrue);
    assert_eq!(and.verify(), Ok(()));
}

#[test]
fn and_short_circuits() {
    let and = And::new(Node::new(false, "First"), Node::new(true, "Second"));
    assert_eq!(and.verify(), Err(VerificationError::from("First")));
    let right = and.right();
    assert!(!right.verified_called.get());
}

#[test]
fn and_fails_on_tail() {
    let and = And::new(Node::new(true, "First"), Node::new(false, "Second"));
    assert_eq!(and.verify(), Err(VerificationError::from("Second")));
    let left = and.left();
    assert!(left.verified_called.get());
}

#[test]
fn or_fails_for_both_failing() {
    let or = Or::new(AlwaysFalse, AlwaysFalse);
    assert_eq!(or.verify(), Err(VerificationError::from("AlwaysFalse")));
}

#[test]
fn or_short_circuits() {
    let or = Or::new(Node::new(true, "First"), Node::new(false, "Second"));
    assert_eq!(or.verify(), Ok(()));
    let right = or.right();
    assert!(!right.verified_called.get());
}

#[test]
fn or_is_true_when_tail_is_true() {
    let or = Or::new(Node::new(false, "First"), Node::new(true, "Second"));
    assert_eq!(or.verify(), Ok(()));
    let left = or.left();
    assert!(left.verified_called.get());
}

#[test]
fn composing_or_and_and() {
    let or = Or::new(
        And::new(Node::new(true, "First"), Node::new(false, "Second")),
        Node::new(true, "Third"),
    );
    assert_eq!(or.verify(), Ok(()));
}

#[test]
fn composing_and_and_or() {
    let and = And::new(
        Or::new(Node::new(true, "First"), Node::new(false, "Second")),
        Node::new(true, "Third"),
    );
    assert_eq!(and.verify(), Ok(()));
}

#[test]
fn and_truth_table() {
    assert_eq!(And::new(AlwaysTrue, AlwaysTrue).verify(), Ok(()));
    assert!(And::new(AlwaysTrue, AlwaysFalse).verify().is_err());
    assert!(And::new(AlwaysFalse, AlwaysTrue).verify().is_err());
    assert!(And::new(AlwaysFalse, AlwaysFalse).verify().is_err());
}

#[test]
fn or_truth_table() {
    assert_eq!(Or::new(AlwaysTrue, AlwaysTrue).verify(), Ok(()));
    assert_eq!(Or::new(AlwaysTrue, AlwaysFalse).verify(), Ok(()));
    assert_eq!(Or::new(AlwaysFalse, AlwaysTrue).verify(), Ok(()));
    assert!(Or::new(AlwaysFalse, AlwaysFalse).verify().is_err());
}

#[test]
fn and_retains_first_failure_reason() {
    let and = And::new(Node::new(false, "First"), Node::new(false, "Second"));
    assert_eq!(and.verify(), Err(VerificationError::from("First")));
}

#[test]
fn or_reports_last_attempted_reason() {
    let or = Or::new(Node::new(false, "First"), Node::new(false, "Second"));
    assert_eq!(or.verify(), Err(VerificationError::from("Second")));
}

#[test]
fn repeated_verification_is_stable() {
    let tree = Or::new(And::new(AlwaysTrue, AlwaysFalse), AlwaysFalse);
    let first = tree.verify();
    let second = tree.verify();
    let third = tree.verify();
    assert_eq!(first, second);
    assert_eq!(second, third);
    assert_eq!(third, Err(VerificationError::from("AlwaysFalse")));
}

#[test]
fn accessors_return_children() {
    let and = And::new(AlwaysTrue, AlwaysFalse);
    assert_eq!(and.left(), &AlwaysTrue);
    assert_eq!(and.right(), &AlwaysFalse);
    let or = Or::new(AlwaysFalse, AlwaysTrue);
    assert_eq!(or.left(), &AlwaysFalse);
    assert_eq!(or.right(), &AlwaysTrue);
}

#[test]
fn error_equality_is_by_reason() {
    assert_eq!(
        VerificationError::from("reason"),
        VerificationError::from(String::from("reason"))
    );
    assert_ne!(
        VerificationError::from("reason"),
        VerificationError::from("other")
    );
}

#[test]
fn leaf_outcomes() {
    assert_eq!(AlwaysTrue.verify(), Ok(()));
    assert_eq!(
        AlwaysFalse.verify(),
        Err(VerificationError::from("AlwaysFalse"))
    );
}
