//! Composable verification checks.
//!
//! A [`VerificationStep`] is anything that can attempt a single check and
//! report success or a failure reason. Steps are combined into expression
//! trees with the short-circuiting [`And`] and [`Or`] combinators; the whole
//! tree is itself a step, so composites nest arbitrarily.

use vstd::prelude::*;

verus! {

/// A failed verification, carrying a human-readable reason.
///
/// Two errors are equal exactly when their reasons are equal; the reason text
/// is the sole diagnostic payload. The view of an error is its reason.
#[derive(Debug, Eq, PartialEq)]
pub struct VerificationError(String);

impl View for VerificationError {
    type V = Seq<char>;

    closed spec fn view(&self) -> Seq<char> {
        self.0@
    }
}

impl From<&str> for VerificationError {
    /// Builds an error whose reason is `message`.
    fn from(message: &str) -> (r: Self)
        ensures
            r@ == message@,
    {
        VerificationError(message.to_owned())
    }
}

// The error holds a fresh owned copy of the borrowed message, so no
// particular value can stand as `from_spec` here; the conversion's contract
// is the `ensures` on `from` above, stated over the view.
impl vstd::std_specs::convert::FromSpecImpl<&str> for VerificationError {
    open spec fn obeys_from_spec() -> bool {
        false
    }

    open spec fn from_spec(v: &str) -> Self {
        arbitrary()
    }
}

impl From<String> for VerificationError {
    /// Builds an error whose reason is `message`.
    fn from(message: String) -> (r: Self)
        ensures
            r@ == message@,
    {
        VerificationError(message)
    }
}

impl vstd::std_specs::convert::FromSpecImpl<String> for VerificationError {
    open spec fn obeys_from_spec() -> bool {
        true
    }

    closed spec fn from_spec(v: String) -> Self {
        VerificationError(v)
    }
}

/// The outcome a verification attempt reports, at the specification level:
/// success, or the failure reason as a sequence of characters.
pub open spec fn outcome_of(r: Result<(), VerificationError>) -> Result<(), Seq<char>> {
    match r {
        Ok(()) => Ok(()),
        Err(e) => Err(e@),
    }
}

/// A single verification step.
///
/// Steps can be chained together using the [`And`] and [`Or`] combinators.
/// A step's outcome is a function of its own immutable state alone, fixed by
/// [`VerificationStep::spec_verify`]; `verify` may be called any number of
/// times and always reports that outcome.
pub trait VerificationStep {
    /// The outcome that `verify` reports, determined by the step's state.
    ///
    /// The default leaves the outcome unspecified; an implementor overrides
    /// it to state what its own `verify` reports.
    open spec fn spec_verify(&self) -> Result<(), Seq<char>> {
        arbitrary()
    }

    /// Performs the verification operation for this step.
    ///
    /// When verification fails, the [`VerificationError`] carries a message
    /// communicating the cause of the failure.
    fn verify(&self) -> (r: Result<(), VerificationError>)
        ensures
            outcome_of(r) == self.spec_verify(),
    ;
}

/// The conjunction of two outcomes: the first failure wins, in left-to-right
/// order; if the left succeeds, the right outcome stands verbatim.
pub open spec fn and_outcome(
    l: Result<(), Seq<char>>,
    r: Result<(), Seq<char>>,
) -> Result<(), Seq<char>> {
    match l {
        Ok(()) => r,
        Err(m) => Err(m),
    }
}

/// The disjunction of two outcomes: a left success wins; otherwise the right
/// outcome stands verbatim, so when both fail the right reason surfaces.
pub open spec fn or_outcome(
    l: Result<(), Seq<char>>,
    r: Result<(), Seq<char>>,
) -> Result<(), Seq<char>> {
    match l {
        Ok(()) => Ok(()),
        Err(_) => r,
    }
}

/// Performs a logical and of two [`VerificationStep`]s.
///
/// This is a short-circuiting operation: if the `left` side fails, the
/// `right` side is *not* exercised.
#[derive(Debug)]
pub struct And<L, R> {
    left: L,
    right: R,
}

impl<L: VerificationStep, R: VerificationStep> And<L, R> {
    /// The left child, at the specification level.
    pub closed spec fn spec_left(&self) -> L {
        self.left
    }

    /// The right child, at the specification level.
    pub closed spec fn spec_right(&self) -> R {
        self.right
    }

    /// Creates a new [`And`] instance.
    ///
    /// # Arguments:
    /// * `left` - The left, or first, [`VerificationStep`] to perform. If
    ///   this fails, the `right` will not be attempted.
    /// * `right` - The right, or second, [`VerificationStep`] to perform.
    pub fn new(left: L, right: R) -> (r: Self)
        ensures
            r.spec_left() == left,
            r.spec_right() == right,
    {
        And { left, right }
    }

    /// The left side of this logical and instance.
    pub fn left(&self) -> (r: &L)
        ensures
            *r == self.spec_left(),
    {
        &self.left
    }

    /// The right side of this logical and instance.
    pub fn right(&self) -> (r: &R)
        ensures
            *r == self.spec_right(),
    {
        &self.right
    }
}

impl<L: VerificationStep, R: VerificationStep> VerificationStep for And<L, R> {
    open spec fn spec_verify(&self) -> Result<(), Seq<char>> {
        and_outcome(self.spec_left().spec_verify(), self.spec_right().spec_verify())
    }

    fn verify(&self) -> (r: Result<(), VerificationError>) {
        match self.left.verify() {
            Ok(()) => self.right.verify(),
            Err(e) => Err(e),
        }
    }
}

/// Performs a logical or of two [`VerificationStep`]s.
///
/// This is a short-circuiting operation: if the `left` side succeeds, the
/// `right` side is *not* exercised.
#[derive(Debug)]
pub struct Or<L, R> {
    left: L,
    right: R,
}

impl<L: VerificationStep, R: VerificationStep> Or<L, R> {
    /// The left child, at the specification level.
    pub closed spec fn spec_left(&self) -> L {
        self.left
    }

    /// The right child, at the specification level.
    pub closed spec fn spec_right(&self) -> R {
        self.right
    }

    /// Creates a new [`Or`] instance.
    ///
    /// # Arguments:
    /// * `left` - The left, or first, [`VerificationStep`] to perform. If
    ///   this succeeds, the `right` will not be attempted.
    /// * `right` - The right, or second, [`VerificationStep`] to perform.
    pub fn new(left: L, right: R) -> (r: Self)
        ensures
            r.spec_left() == left,
            r.spec_right() == right,
    {
        Or { left, right }
    }

    /// The left side of this logical or instance.
    pub fn left(&self) -> (r: &L)
        ensures
            *r == self.spec_left(),
    {
        &self.left
    }

    /// The right side of this logical or instance.
    pub fn right(&self) -> (r: &R)
        ensures
            *r == self.spec_right(),
    {
        &self.right
    }
}

impl<L: VerificationStep, R: VerificationStep> VerificationStep for Or<L, R> {
    open spec fn spec_verify(&self) -> Result<(), Seq<char>> {
        or_outcome(self.spec_left().spec_verify(), self.spec_right().spec_verify())
    }

    fn verify(&self) -> (r: Result<(), VerificationError>) {
        match self.left.verify() {
            Ok(()) => Ok(()),
            Err(_) => self.right.verify(),
        }
    }
}

/// Always succeeds for the [`VerificationStep::verify()`] operation.
#[derive(Debug, Eq, PartialEq)]
pub struct AlwaysTrue;

impl VerificationStep for AlwaysTrue {
    open spec fn spec_verify(&self) -> Result<(), Seq<char>> {
        Ok(())
    }

    fn verify(&self) -> (r: Result<(), VerificationError>) {
        Ok(())
    }
}

/// Always fails for the [`VerificationStep::verify()`] operation, with the
/// fixed reason `"AlwaysFalse"`.
#[derive(Debug, Eq, PartialEq)]
pub struct AlwaysFalse;

impl VerificationStep for AlwaysFalse {
    open spec fn spec_verify(&self) -> Result<(), Seq<char>> {
        Err("AlwaysFalse"@)
    }

    fn verify(&self) -> (r: Result<(), VerificationError>) {
        Err(VerificationError::from("AlwaysFalse"))
    }
}

/// Law: a conjunction succeeds exactly when both of its children succeed.
pub proof fn lemma_and_succeeds_iff<L: VerificationStep, R: VerificationStep>(a: And<L, R>)
    ensures
        a.spec_verify() is Ok <==> (a.spec_left().spec_verify() is Ok
            && a.spec_right().spec_verify() is Ok),
{
}

/// Law: a disjunction succeeds exactly when at least one child succeeds.
pub proof fn lemma_or_succeeds_iff<L: VerificationStep, R: VerificationStep>(a: Or<L, R>)
    ensures
        a.spec_verify() is Ok <==> (a.spec_left().spec_verify() is Ok
            || a.spec_right().spec_verify() is Ok),
{
}

/// Law: a conjunction retains the first failure encountered in left-to-right
/// order — a failing left child's reason wins; when the left child succeeds,
/// the right child's outcome stands verbatim.
pub proof fn lemma_and_first_failure<L: VerificationStep, R: VerificationStep>(a: And<L, R>)
    ensures
        a.spec_left().spec_verify() is Err ==> a.spec_verify() == a.spec_left().spec_verify(),
        a.spec_left().spec_verify() is Ok ==> a.spec_verify() == a.spec_right().spec_verify(),
{
}

/// Law: when the left child of a disjunction fails, the right child's outcome
/// stands verbatim — so when both fail, the right (last attempted) reason is
/// the one that surfaces and the left reason is discarded.
pub proof fn lemma_or_last_failure<L: VerificationStep, R: VerificationStep>(a: Or<L, R>)
    ensures
        a.spec_left().spec_verify() is Err ==> a.spec_verify() == a.spec_right().spec_verify(),
        a.spec_left().spec_verify() is Ok ==> a.spec_verify() is Ok,
{
}

/// Law: verification is deterministic — any two results that `verify` is
/// permitted to report for the same unchanged step carry the same outcome, so
/// repeated calls on a tree of such steps always agree.
pub proof fn lemma_verify_deterministic<S: VerificationStep>(
    s: S,
    r1: Result<(), VerificationError>,
    r2: Result<(), VerificationError>,
)
    requires
        outcome_of(r1) == s.spec_verify(),
        outcome_of(r2) == s.spec_verify(),
    ensures
        outcome_of(r1) == outcome_of(r2),
{
}

} // verus!
