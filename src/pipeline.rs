use crate::domain::{opt_view, parse_submission, submission_error, NewSubscriber, ValidationError};
use crate::email_client::{classify_delivery, spec_classify_delivery, DeliveryError, TransportOutcome};
use crate::subscriptions::{confirmation_email, confirmation_link_of, html_body_of, text_body_of, ConfirmationEmail};
use crate::token::{generate_subscription_token, is_subscription_token};
use vstd::prelude::*;

verus! {

/// Which of the three kinds of failure ended a signup.
#[derive(Clone, Copy, Debug, PartialEq, Eq, Structural)]
pub enum FailureKind {
    Validation,
    Storage,
    Delivery,
}

/// Where a signup stands. It only moves forward; `Failed` absorbs.
#[derive(Clone, Copy, Debug, PartialEq, Eq, Structural)]
pub enum Stage {
    Received,
    Validated,
    Persisted,
    TokenStored,
    Committed,
    EmailSent,
    Succeeded,
    Failed(FailureKind),
}

/// The stage that a successful step leads to.
pub open spec fn successor(stage: Stage) -> Stage {
    match stage {
        Stage::Received => Stage::Validated,
        Stage::Validated => Stage::Persisted,
        Stage::Persisted => Stage::TokenStored,
        Stage::TokenStored => Stage::Committed,
        Stage::Committed => Stage::EmailSent,
        Stage::EmailSent => Stage::Succeeded,
        Stage::Succeeded => Stage::Succeeded,
        Stage::Failed(k) => Stage::Failed(k),
    }
}

/// The kind of failure when the step out of `stage` fails: validation,
/// then the three storage steps (insert, token, commit), then delivery.
pub open spec fn failure_leaving(stage: Stage) -> FailureKind {
    match stage {
        Stage::Received => FailureKind::Validation,
        Stage::Committed => FailureKind::Delivery,
        Stage::Failed(k) => k,
        _ => FailureKind::Storage,
    }
}

/// The next stage when the step out of `stage` succeeded (`ok`) or not.
/// Reaching `Succeeded` from `EmailSent` cannot fail.
pub open spec fn next_stage(stage: Stage, ok: bool) -> Stage {
    match stage {
        Stage::Failed(k) => Stage::Failed(k),
        Stage::Succeeded => Stage::Succeeded,
        Stage::EmailSent => Stage::Succeeded,
        _ => if ok {
            successor(stage)
        } else {
            Stage::Failed(failure_leaving(stage))
        },
    }
}

/// The stage after a run of steps with the outcomes `oks`.
pub open spec fn run(stage: Stage, oks: Seq<bool>) -> Stage
    decreases oks.len(),
{
    if oks.len() == 0 {
        stage
    } else {
        run(next_stage(stage, oks[0]), oks.drop_first())
    }
}

/// Whether the transaction holding the subscriber and its token has
/// committed by the time a signup is in `stage`.
pub open spec fn is_committed(stage: Stage) -> bool {
    match stage {
        Stage::Committed | Stage::EmailSent | Stage::Succeeded => true,
        Stage::Failed(k) => k == FailureKind::Delivery,
        _ => false,
    }
}

/// The HTTP status answered in `stage`, once the signup has ended.
pub open spec fn status_of(stage: Stage) -> Option<u16> {
    match stage {
        Stage::Succeeded => Some(200u16),
        Stage::Failed(FailureKind::Validation) => Some(400u16),
        Stage::Failed(_) => Some(500u16),
        _ => None,
    }
}

/// Moves a stage on by one step.
pub fn advance(stage: Stage, ok: bool) -> (r: Stage)
    ensures
        r == next_stage(stage, ok),
{
    match stage {
        Stage::Failed(k) => Stage::Failed(k),
        Stage::Succeeded | Stage::EmailSent => Stage::Succeeded,
        Stage::Received => if ok {
            Stage::Validated
        } else {
            Stage::Failed(FailureKind::Validation)
        },
        Stage::Validated => if ok {
            Stage::Persisted
        } else {
            Stage::Failed(FailureKind::Storage)
        },
        Stage::Persisted => if ok {
            Stage::TokenStored
        } else {
            Stage::Failed(FailureKind::Storage)
        },
        Stage::TokenStored => if ok {
            Stage::Committed
        } else {
            Stage::Failed(FailureKind::Storage)
        },
        Stage::Committed => if ok {
            Stage::EmailSent
        } else {
            Stage::Failed(FailureKind::Delivery)
        },
    }
}

/// The HTTP status for `stage`: `200` on success, `400` for invalid input,
/// `500` for a storage or delivery failure, none while still running.
pub fn response_status(stage: Stage) -> (r: Option<u16>)
    ensures
        r == status_of(stage),
{
    match stage {
        Stage::Succeeded => Some(200),
        Stage::Failed(FailureKind::Validation) => Some(400),
        Stage::Failed(_) => Some(500),
        _ => None,
    }
}

/// Once a signup has failed or succeeded, further steps change nothing.
pub proof fn lemma_end_is_final(stage: Stage, oks: Seq<bool>)
    requires
        stage is Failed || stage is Succeeded,
    ensures
        run(stage, oks) == stage,
    decreases oks.len(),
{
    if oks.len() > 0 {
        lemma_end_is_final(stage, oks.drop_first());
    }
}

/// The first steps of `oks` all succeeded.
pub open spec fn first_ok(oks: Seq<bool>, n: int) -> bool {
    n <= oks.len() && forall|i: int| 0 <= i < n ==> #[trigger] oks[i]
}

/// The stage that a signup reaches from `Received`, step outcome by step
/// outcome: the first failed step decides the failure.
proof fn lemma_run_from_received(oks: Seq<bool>)
    ensures
        oks.len() == 0 ==> run(Stage::Received, oks) == Stage::Received,
        oks.len() >= 1 && !oks[0] ==> run(Stage::Received, oks) == Stage::Failed(
            FailureKind::Validation,
        ),
        first_ok(oks, 1) && oks.len() == 1 ==> run(Stage::Received, oks) == Stage::Validated,
        first_ok(oks, 1) && oks.len() >= 2 && !oks[1] ==> run(Stage::Received, oks)
            == Stage::Failed(FailureKind::Storage),
        first_ok(oks, 2) && oks.len() == 2 ==> run(Stage::Received, oks) == Stage::Persisted,
        first_ok(oks, 2) && oks.len() >= 3 && !oks[2] ==> run(Stage::Received, oks)
            == Stage::Failed(FailureKind::Storage),
        first_ok(oks, 3) && oks.len() == 3 ==> run(Stage::Received, oks) == Stage::TokenStored,
        first_ok(oks, 3) && oks.len() >= 4 && !oks[3] ==> run(Stage::Received, oks)
            == Stage::Failed(FailureKind::Storage),
        first_ok(oks, 4) && oks.len() == 4 ==> run(Stage::Received, oks) == Stage::Committed,
        first_ok(oks, 4) && oks.len() >= 5 && !oks[4] ==> run(Stage::Received, oks)
            == Stage::Failed(FailureKind::Delivery),
        first_ok(oks, 5) && oks.len() == 5 ==> run(Stage::Received, oks) == Stage::EmailSent,
        first_ok(oks, 5) && oks.len() >= 6 ==> run(Stage::Received, oks) == Stage::Succeeded,
{
    reveal_with_fuel(stage_after, 7);
    let n = oks.len();
    if n == 0 {
        return;
    }
    if first_ok(oks, 5) && n >= 6 {
        lemma_fail_or_end_at(oks, 5);
        return;
    }
    if first_ok(oks, n as int) {
        lemma_ok_steps(0, oks, n);
        assert(oks.subrange(n as int, n as int) =~= Seq::<bool>::empty());
        return;
    }
    if !oks[0] {
        lemma_fail_or_end_at(oks, 0);
    } else if !oks[1] {
        lemma_fail_or_end_at(oks, 1);
    } else if !oks[2] {
        lemma_fail_or_end_at(oks, 2);
    } else if !oks[3] {
        lemma_fail_or_end_at(oks, 3);
    } else {
        assert(!oks[4]);
        lemma_fail_or_end_at(oks, 4);
    }
}

/// The stage reached from `Received` after `n` successful steps.
pub open spec fn stage_after(n: nat) -> Stage
    decreases n,
{
    if n == 0 {
        Stage::Received
    } else {
        successor(stage_after((n - 1) as nat))
    }
}

proof fn lemma_stage_after_not_failed(n: nat)
    ensures
        stage_after(n) !is Failed,
    decreases n,
{
    if n > 0 {
        lemma_stage_after_not_failed((n - 1) as nat);
    }
}

/// `n` successful steps move a signup from `stage_after(i)` to
/// `stage_after(i + n)`.
proof fn lemma_ok_steps(i: nat, oks: Seq<bool>, n: nat)
    requires
        first_ok(oks, n as int),
    ensures
        run(stage_after(i), oks) == run(stage_after(i + n), oks.subrange(n as int, oks.len() as int)),
    decreases n,
{
    if n == 0 {
        assert(oks.subrange(0, oks.len() as int) =~= oks);
    } else {
        lemma_stage_after_not_failed(i);
        assert(next_stage(stage_after(i), oks[0]) == stage_after(i + 1));
        let rest = oks.drop_first();
        assert(first_ok(rest, n - 1)) by {
            assert forall|j: int| 0 <= j < n - 1 implies #[trigger] rest[j] by {
                assert(rest[j] == oks[j + 1]);
            }
        }
        lemma_ok_steps(i + 1, rest, (n - 1) as nat);
        assert(rest.subrange(n - 1, rest.len() as int) =~= oks.subrange(n as int, oks.len() as int));
    }
}

/// After `k` successful steps, the step at `k` decides: past the last step
/// that can fail, or on a failure, the signup is over.
proof fn lemma_fail_or_end_at(oks: Seq<bool>, k: nat)
    requires
        first_ok(oks, k as int),
        k < oks.len(),
        k >= 5 || !oks[k as int],
    ensures
        run(Stage::Received, oks) == next_stage(stage_after(k), oks[k as int]),
        next_stage(stage_after(k), oks[k as int]) is Failed || next_stage(stage_after(k), oks[k as int]) is Succeeded,
{
    reveal_with_fuel(stage_after, 7);
    lemma_stage_after_not_failed(k);
    lemma_ok_steps(0, oks, k);
    let rest = oks.subrange(k as int, oks.len() as int);
    assert(rest[0] == oks[k as int]);
    let next = next_stage(stage_after(k), rest[0]);
    assert(run(stage_after(k), rest) == run(next, rest.drop_first()));
    if k >= 5 {
        assert(stage_after(k) is EmailSent || stage_after(k) is Succeeded) by {
            lemma_stage_after_late(k);
        }
    }
    lemma_end_is_final(next, rest.drop_first());
}

proof fn lemma_stage_after_late(k: nat)
    requires
        k >= 5,
    ensures
        stage_after(k) is EmailSent || stage_after(k) is Succeeded,
    decreases k,
{
    reveal_with_fuel(stage_after, 7);
    if k > 5 {
        lemma_stage_after_late((k - 1) as nat);
    }
}

/// When every step succeeds (valid input, insert, token, commit, email),
/// the signup succeeds, answers `200`, and the subscriber is committed.
pub proof fn lemma_all_steps_succeed(oks: Seq<bool>)
    requires
        oks.len() >= 6,
        first_ok(oks, 5),
    ensures
        run(Stage::Received, oks) == Stage::Succeeded,
        status_of(run(Stage::Received, oks)) == Some(200u16),
        is_committed(run(Stage::Received, oks)),
{
    lemma_run_from_received(oks);
}

/// The subscriber and its token are committed exactly when validation and
/// the three storage steps (insert, token, commit) all succeeded.
pub proof fn lemma_committed_iff_storage_succeeded(oks: Seq<bool>)
    ensures
        is_committed(run(Stage::Received, oks)) <==> first_ok(oks, 4),
{
    lemma_run_from_received(oks);
    if oks.len() >= 4 && !first_ok(oks, 4) {
        if !oks[0] {
        } else if !oks[1] {
        } else if !oks[2] {
        } else {
            assert(!oks[3]);
        }
    }
}

/// A storage failure (a refused insert such as a duplicate email, a failed
/// token insert or a failed commit) answers `500` and leaves nothing of this
/// signup committed.
pub proof fn lemma_storage_failure_commits_nothing(oks: Seq<bool>)
    requires
        run(Stage::Received, oks) == Stage::Failed(FailureKind::Storage),
    ensures
        status_of(run(Stage::Received, oks)) == Some(500u16),
        !is_committed(run(Stage::Received, oks)),
        !first_ok(oks, 4),
{
    lemma_committed_iff_storage_succeeded(oks);
}

/// A delivery failure answers `500`, and comes only after the subscriber and
/// its token were committed, which stay so.
pub proof fn lemma_delivery_failure_keeps_subscriber(oks: Seq<bool>)
    requires
        run(Stage::Received, oks) == Stage::Failed(FailureKind::Delivery),
    ensures
        status_of(run(Stage::Received, oks)) == Some(500u16),
        is_committed(run(Stage::Received, oks)),
        first_ok(oks, 4),
        !oks[4],
{
    lemma_run_from_received(oks);
    lemma_committed_iff_storage_succeeded(oks);
}

/// A failed validation answers `400` and stores nothing.
pub proof fn lemma_validation_failure_stores_nothing(oks: Seq<bool>)
    requires
        oks.len() >= 1,
        !oks[0],
    ensures
        run(Stage::Received, oks) == Stage::Failed(FailureKind::Validation),
        status_of(run(Stage::Received, oks)) == Some(400u16),
        !is_committed(run(Stage::Received, oks)),
{
    lemma_run_from_received(oks);
}

/// Why a storage step failed.
#[derive(Clone, Copy, Debug, PartialEq, Eq, Structural)]
pub enum StorageError {
    /// No transaction could be opened (pool exhausted, connection lost).
    TransactionUnavailable,
    /// A unique constraint refused the row (a known email, a reused token).
    UniqueViolation,
    /// Any other fault of a query or of the commit.
    Query,
}

/// Why a signup failed, with the cause that the failing step reported.
#[derive(Clone, Copy, Debug, PartialEq, Eq, Structural)]
pub enum SignupError {
    Validation(ValidationError),
    Storage(StorageError),
    Delivery(DeliveryError),
}

pub open spec fn kind_of(e: SignupError) -> FailureKind {
    match e {
        SignupError::Validation(_) => FailureKind::Validation,
        SignupError::Storage(_) => FailureKind::Storage,
        SignupError::Delivery(_) => FailureKind::Delivery,
    }
}

/// What the caller must do next for a signup.
#[derive(Debug)]
pub enum Action {
    /// Open a transaction and insert the subscriber with this status.
    InsertSubscriber { subscriber_id: u128, email: String, name: String, status: String },
    /// Insert the token for the subscriber, in the same transaction.
    StoreToken { subscriber_id: u128, token: String },
    /// Commit the transaction.
    Commit,
    /// Send the confirmation email.
    SendEmail(ConfirmationEmail),
    /// Roll the open transaction back, then answer with this status.
    RollBack(u16),
    /// Answer with this status.
    Respond(u16),
}

/// The status of a subscriber who has not confirmed yet.
pub open spec fn pending_confirmation() -> Seq<char> {
    "pending_confirmation"@
}

/// Relies on uuid's `Uuid::new_v4`, a random identifier, read as a `u128`.
#[verifier::external_body]
fn new_subscriber_id() -> (r: u128) {
    uuid::Uuid::new_v4().as_u128()
}

/// One signup on its way through the pipeline.
#[derive(Debug)]
pub struct Signup {
    stage: Stage,
    subscriber: Option<NewSubscriber>,
    subscriber_id: u128,
    token: String,
    base_url: String,
    error: Option<SignupError>,
}

pub struct SignupView {
    pub stage: Stage,
    pub email: Seq<char>,
    pub name: Seq<char>,
    pub subscriber_id: u128,
    pub token: Seq<char>,
    pub base_url: Seq<char>,
    pub error: Option<SignupError>,
}

impl View for Signup {
    type V = SignupView;

    closed spec fn view(&self) -> SignupView {
        SignupView {
            stage: self.stage,
            email: match self.subscriber {
                Some(s) => s.email@,
                None => Seq::empty(),
            },
            name: match self.subscriber {
                Some(s) => s.name@,
                None => Seq::empty(),
            },
            subscriber_id: self.subscriber_id,
            token: self.token@,
            base_url: self.base_url@,
            error: self.error,
        }
    }
}

pub open spec fn holds_subscriber(stage: Stage) -> bool {
    stage is Validated || stage is Persisted || stage is TokenStored || stage is Committed
}

pub open spec fn holds_token(stage: Stage) -> bool {
    stage is Persisted || stage is TokenStored || stage is Committed
}

impl Signup {
    /// The stage is never `Received` (validation happens at the start), a
    /// subscriber is held from validation to delivery, a generated token from
    /// the insert on, and the error is there exactly when the signup failed.
    pub closed spec fn wf(&self) -> bool {
        &&& self.stage !is Received
        &&& holds_subscriber(self.stage) ==> self.subscriber is Some
        &&& holds_token(self.stage) ==> is_subscription_token(self.token@)
        &&& (self.stage is Failed <==> self.error is Some)
        &&& self.stage is Failed ==> self.stage->Failed_0 == kind_of(self.error->Some_0)
    }

    /// Validates a submission. A valid one asks for the subscriber to be
    /// inserted under `subscriber_id`; an invalid one answers `400`.
    pub fn start_with_id(
        name: Option<String>,
        email: Option<String>,
        base_url: String,
        subscriber_id: u128,
    ) -> (r: (Signup, Action))
        ensures
            r.0.wf(),
            r.0@.base_url == base_url@,
            r.0@.stage == next_stage(
                Stage::Received,
                submission_error(opt_view(name), opt_view(email)) is None,
            ),
            submission_error(opt_view(name), opt_view(email)) is None ==> {
                &&& r.0@.subscriber_id == subscriber_id
                &&& Some(r.0@.name) == opt_view(name)
                &&& Some(r.0@.email) == opt_view(email)
                &&& r.1 matches Action::InsertSubscriber { subscriber_id, email: e, name: n, status }
                    && subscriber_id == r.0@.subscriber_id && e@ == r.0@.email && n@ == r.0@.name
                    && status@ == pending_confirmation()
            },
            submission_error(opt_view(name), opt_view(email)) is Some ==> {
                &&& r.0@.error == Some(
                    SignupError::Validation(submission_error(opt_view(name), opt_view(email))->Some_0),
                )
                &&& r.1 == Action::Respond(400u16)
            },
    {
        match parse_submission(name, email) {
            Ok(subscriber) => {
                let email = String::from_str(subscriber.email.as_str());
                let name = String::from_str(subscriber.name.as_str());
                let signup = Signup {
                    stage: Stage::Validated,
                    subscriber: Some(subscriber),
                    subscriber_id,
                    token: String::new(),
                    base_url,
                    error: None,
                };
                let status = String::from_str("pending_confirmation");
                (signup, Action::InsertSubscriber { subscriber_id, email, name, status })
            },
            Err(e) => {
                let signup = Signup {
                    stage: Stage::Failed(FailureKind::Validation),
                    subscriber: None,
                    subscriber_id: 0,
                    token: String::new(),
                    base_url,
                    error: Some(SignupError::Validation(e)),
                };
                (signup, Action::Respond(400))
            },
        }
    }

    /// Takes the outcome of the pending storage step (insert, token insert or
    /// commit). On success: after the insert, `fresh_token` is to be stored;
    /// after the token, the transaction is to be committed; after the commit,
    /// the confirmation email is to be sent. On failure the signup fails with
    /// the storage error; the open transaction is rolled back, but for a failed
    /// commit, and the answer is `500`.
    pub fn record_storage_outcome_with_token(
        &mut self,
        outcome: Result<(), StorageError>,
        fresh_token: String,
    ) -> (a: Action)
        requires
            old(self)@.stage is Validated && outcome is Ok ==> is_subscription_token(fresh_token@),
            old(self).wf(),
            old(self)@.stage is Validated || old(self)@.stage is Persisted || old(
                self,
            )@.stage is TokenStored,
        ensures
            final(self).wf(),
            final(self)@.stage == next_stage(old(self)@.stage, outcome is Ok),
            final(self)@.email == old(self)@.email,
            final(self)@.name == old(self)@.name,
            final(self)@.subscriber_id == old(self)@.subscriber_id,
            final(self)@.base_url == old(self)@.base_url,
            outcome is Err ==> {
                &&& final(self)@.error == Some(SignupError::Storage(outcome->Err_0))
                &&& old(self)@.stage is TokenStored ==> a == Action::Respond(500u16)
                &&& old(self)@.stage !is TokenStored ==> a == Action::RollBack(500u16)
            },
            outcome is Ok && old(self)@.stage is Validated ==> {
                &&& final(self)@.token == fresh_token@
                &&& a matches Action::StoreToken { subscriber_id, token } && subscriber_id == old(
                    self,
                )@.subscriber_id && token@ == final(self)@.token
            },
            outcome is Ok && old(self)@.stage is Persisted ==> {
                &&& final(self)@.token == old(self)@.token
                &&& a matches Action::Commit
            },
            outcome is Ok && old(self)@.stage is TokenStored ==> {
                &&& final(self)@.token == old(self)@.token
                &&& a matches Action::SendEmail(m) && m.recipient@ == old(self)@.email
                    && m.subject@ == "Welcome!"@ && m.text_body@ == text_body_of(
                    confirmation_link_of(old(self)@.base_url, old(self)@.token),
                ) && m.html_body@ == html_body_of(
                    confirmation_link_of(old(self)@.base_url, old(self)@.token),
                )
            },
    {
        let before = self.stage;
        match outcome {
            Err(e) => {
                self.stage = Stage::Failed(FailureKind::Storage);
                self.error = Some(SignupError::Storage(e));
                match before {
                    Stage::TokenStored => Action::Respond(500),
                    _ => Action::RollBack(500),
                }
            },
            Ok(()) => match before {
                Stage::Validated => {
                    self.token = fresh_token;
                    self.stage = Stage::Persisted;
                    Action::StoreToken {
                        subscriber_id: self.subscriber_id,
                        token: self.token.clone(),
                    }
                },
                Stage::Persisted => {
                    self.stage = Stage::TokenStored;
                    Action::Commit
                },
                _ => {
                    self.stage = Stage::Committed;
                    let subscriber = self.subscriber.as_ref().unwrap();
                    let m = confirmation_email(
                        &subscriber.email,
                        self.base_url.as_str(),
                        self.token.as_str(),
                    );
                    Action::SendEmail(m)
                },
            },
        }
    }

    /// Validates a submission; a valid one is to be inserted under a fresh
    /// random identifier (see `start_with_id`).
    pub fn start(name: Option<String>, email: Option<String>, base_url: String) -> (r: (
        Signup,
        Action,
    ))
        ensures
            r.0.wf(),
            r.0@.base_url == base_url@,
            r.0@.stage == next_stage(
                Stage::Received,
                submission_error(opt_view(name), opt_view(email)) is None,
            ),
            submission_error(opt_view(name), opt_view(email)) is None ==> {
                &&& Some(r.0@.name) == opt_view(name)
                &&& Some(r.0@.email) == opt_view(email)
                &&& r.1 matches Action::InsertSubscriber { subscriber_id, email: e, name: n, status }
                    && subscriber_id == r.0@.subscriber_id && e@ == r.0@.email && n@ == r.0@.name
                    && status@ == pending_confirmation()
            },
            submission_error(opt_view(name), opt_view(email)) is Some ==> {
                &&& r.0@.error == Some(
                    SignupError::Validation(submission_error(opt_view(name), opt_view(email))->Some_0),
                )
                &&& r.1 == Action::Respond(400u16)
            },
    {
        Signup::start_with_id(name, email, base_url, new_subscriber_id())
    }

    /// As `record_storage_outcome_with_token`, with a freshly generated token
    /// when the insert succeeded.
    pub fn record_storage_outcome(&mut self, outcome: Result<(), StorageError>) -> (a: Action)
        requires
            old(self).wf(),
            old(self)@.stage is Validated || old(self)@.stage is Persisted || old(
                self,
            )@.stage is TokenStored,
        ensures
            final(self).wf(),
            final(self)@.stage == next_stage(old(self)@.stage, outcome is Ok),
            final(self)@.email == old(self)@.email,
            final(self)@.name == old(self)@.name,
            final(self)@.subscriber_id == old(self)@.subscriber_id,
            final(self)@.base_url == old(self)@.base_url,
            outcome is Err ==> {
                &&& final(self)@.error == Some(SignupError::Storage(outcome->Err_0))
                &&& old(self)@.stage is TokenStored ==> a == Action::Respond(500u16)
                &&& old(self)@.stage !is TokenStored ==> a == Action::RollBack(500u16)
            },
            outcome is Ok && old(self)@.stage is Validated ==> {
                &&& is_subscription_token(final(self)@.token)
                &&& a matches Action::StoreToken { subscriber_id, token } && subscriber_id == old(
                    self,
                )@.subscriber_id && token@ == final(self)@.token
            },
            outcome is Ok && old(self)@.stage is Persisted ==> {
                &&& final(self)@.token == old(self)@.token
                &&& a matches Action::Commit
            },
            outcome is Ok && old(self)@.stage is TokenStored ==> {
                &&& final(self)@.token == old(self)@.token
                &&& a matches Action::SendEmail(m) && m.recipient@ == old(self)@.email
                    && m.subject@ == "Welcome!"@ && m.text_body@ == text_body_of(
                    confirmation_link_of(old(self)@.base_url, old(self)@.token),
                ) && m.html_body@ == html_body_of(
                    confirmation_link_of(old(self)@.base_url, old(self)@.token),
                )
            },
    {
        let fresh_token = if self.stage == Stage::Validated && outcome.is_ok() {
            generate_subscription_token()
        } else {
            String::new()
        };
        self.record_storage_outcome_with_token(outcome, fresh_token)
    }

    /// Takes what came back from the email provider. A delivery ends the
    /// signup in success (`200`); anything else fails it with the delivery
    /// error (`500`), the committed subscriber staying as it is.
    pub fn record_delivery_outcome(&mut self, outcome: TransportOutcome) -> (a: Action)
        requires
            old(self).wf(),
            old(self)@.stage is Committed,
        ensures
            final(self).wf(),
            final(self)@.stage == next_stage(
                next_stage(Stage::Committed, spec_classify_delivery(outcome) is Ok),
                true,
            ),
            final(self)@.email == old(self)@.email,
            final(self)@.name == old(self)@.name,
            final(self)@.subscriber_id == old(self)@.subscriber_id,
            final(self)@.token == old(self)@.token,
            final(self)@.base_url == old(self)@.base_url,
            spec_classify_delivery(outcome) is Ok ==> a == Action::Respond(200u16),
            spec_classify_delivery(outcome) is Err ==> {
                &&& final(self)@.error == Some(
                    SignupError::Delivery(spec_classify_delivery(outcome)->Err_0),
                )
                &&& a == Action::Respond(500u16)
            },
    {
        match classify_delivery(outcome) {
            Ok(()) => {
                self.stage = advance(advance(Stage::Committed, true), true);
                Action::Respond(200)
            },
            Err(e) => {
                self.stage = Stage::Failed(FailureKind::Delivery);
                self.error = Some(SignupError::Delivery(e));
                Action::Respond(500)
            },
        }
    }

    pub fn stage(&self) -> (r: Stage)
        ensures
            r == self@.stage,
    {
        self.stage
    }

    pub fn error(&self) -> (r: Option<SignupError>)
        ensures
            r == self@.error,
    {
        self.error
    }

    pub fn token(&self) -> (r: &str)
        ensures
            r@ == self@.token,
    {
        self.token.as_str()
    }
}

} // verus!
