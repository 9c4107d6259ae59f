//! Fetching one file until its hash is the expected one: the decisions of
//! the retry loop, step by step. Whoever runs the loop reads the cache,
//! fetches and writes; what was read comes back here and decides what
//! happens next.

use crate::launcher::LauncherError;
use crate::text::same_text;
use sha1::Sha1;
use vstd::prelude::*;

verus! {

/// The SHA-1 hash of the bytes in lower-case hexadecimal, as
/// `sha1::Sha1::hexdigest` gives it.
pub uninterp spec fn sha1_hex(bytes: Seq<u8>) -> Seq<char>;

/// Hashes the bytes with `sha1::Sha1::from` and `Sha1::hexdigest`. Trusted:
/// the result is the hash of exactly these bytes.
#[verifier::external_body]
fn hex_digest(bytes: &[u8]) -> (r: String)
    ensures
        r@ == sha1_hex(bytes@),
{
    Sha1::from(bytes).hexdigest()
}

/// One file to fetch.
#[derive(Clone, Debug)]
pub struct FetchPlan {
    pub url: String,
    /// The hash that the file's bytes must have.
    pub expected_hash: String,
    /// How many times the file is fetched at most.
    pub max_tries: u32,
}

/// What an attempt to get the file's bytes gave.
#[derive(Clone, Debug, PartialEq, Eq)]
pub enum Outcome {
    /// Bytes with the expected hash.
    Matches,
    /// Bytes with another hash.
    Differs,
    /// No bytes; the text says why.
    Missing(String),
}

/// Where the loop stands, while it waits for bytes.
#[derive(Clone, Copy, Debug, PartialEq, Eq, Structural)]
pub enum FetchState {
    /// The file at the destination is being read.
    CheckingCache,
    /// Fetch number `tries` is under way.
    Fetching { tries: u32 },
    /// The bytes of fetch number `tries` were written and are read back.
    Confirming { tries: u32 },
}

/// What the loop's runner does next.
#[derive(Clone, Copy, Debug, PartialEq, Eq, Structural)]
pub enum Request {
    /// Fetch the bytes from the url.
    Fetch,
    /// Write the fetched bytes to a temporary file, move it to the
    /// destination, and read the destination back.
    Write,
}

/// One decision of the loop.
#[derive(Debug, PartialEq, Eq)]
pub enum Step {
    /// Do what is requested and come back with its outcome.
    Continue(FetchState, Request),
    /// The loop is over.
    Done(Result<(), LauncherError>),
}

/// What bytes that were read, or the failure to read any, amount to.
pub open spec fn classified(read: Result<Vec<u8>, String>, expected_hash: Seq<char>) -> Outcome {
    match read {
        Ok(bytes) => if sha1_hex(bytes@) == expected_hash {
            Outcome::Matches
        } else {
            Outcome::Differs
        },
        Err(reason) => Outcome::Missing(reason),
    }
}

/// The number of fetches made when the loop stands in a state.
pub open spec fn tries_of(state: FetchState) -> nat {
    match state {
        FetchState::CheckingCache => 0,
        FetchState::Fetching { tries } => tries as nat,
        FetchState::Confirming { tries } => tries as nat,
    }
}

/// The states that a loop for the plan can stand in.
pub open spec fn state_valid(state: FetchState, plan: FetchPlan) -> bool {
    state is CheckingCache || 1 <= tries_of(state) <= plan.max_tries
}

/// What follows when `tries` fetches have been made and the last one, if
/// any, did not give the expected bytes: another fetch while any is left,
/// else the checksum failure.
pub open spec fn after_mismatch(plan: FetchPlan, tries: u32) -> Step {
    if tries < plan.max_tries {
        Step::Continue(FetchState::Fetching { tries: (tries + 1) as u32 }, Request::Fetch)
    } else {
        Step::Done(
            Err(LauncherError::ChecksumFailure { hash: plan.expected_hash, url: plan.url, tries }),
        )
    }
}

/// The decision of the loop in a state, given the outcome of what it last
/// asked for.
pub open spec fn step(plan: FetchPlan, state: FetchState, outcome: Outcome) -> Step {
    match state {
        FetchState::CheckingCache => match outcome {
            Outcome::Matches => Step::Done(Ok(())),
            _ => after_mismatch(plan, 0),
        },
        FetchState::Fetching { tries } => match outcome {
            Outcome::Matches => Step::Continue(FetchState::Confirming { tries }, Request::Write),
            Outcome::Differs => after_mismatch(plan, tries),
            Outcome::Missing(reason) => if tries < plan.max_tries {
                after_mismatch(plan, tries)
            } else {
                Step::Done(Err(LauncherError::FetchError { inner: reason, item: plan.url }))
            },
        },
        FetchState::Confirming { tries } => match outcome {
            Outcome::Matches => Step::Done(Ok(())),
            Outcome::Differs => after_mismatch(plan, tries),
            Outcome::Missing(reason) => Step::Done(Err(LauncherError::IoError(reason))),
        },
    }
}

/// How many fetches the loop asks for while it is fed the outcomes in
/// order, from a state on.
pub open spec fn fetches(plan: FetchPlan, state: FetchState, outcomes: Seq<Outcome>) -> nat
    decreases outcomes.len(),
{
    if outcomes.len() == 0 {
        0
    } else {
        match step(plan, state, outcomes[0]) {
            Step::Continue(next, request) => (if request == Request::Fetch {
                1nat
            } else {
                0nat
            }) + fetches(plan, next, outcomes.drop_first()),
            Step::Done(_) => 0,
        }
    }
}

/// How many writes the loop asks for while it is fed the outcomes in order,
/// from a state on.
pub open spec fn writes(plan: FetchPlan, state: FetchState, outcomes: Seq<Outcome>) -> nat
    decreases outcomes.len(),
{
    if outcomes.len() == 0 {
        0
    } else {
        match step(plan, state, outcomes[0]) {
            Step::Continue(next, request) => (if request == Request::Write {
                1nat
            } else {
                0nat
            }) + writes(plan, next, outcomes.drop_first()),
            Step::Done(_) => 0,
        }
    }
}

/// How the loop ends when it is fed the outcomes in order, from a state on;
/// nothing where they run out before it ends.
pub open spec fn end_of(plan: FetchPlan, state: FetchState, outcomes: Seq<Outcome>) -> Option<
    Result<(), LauncherError>,
>
    decreases outcomes.len(),
{
    if outcomes.len() == 0 {
        None
    } else {
        match step(plan, state, outcomes[0]) {
            Step::Continue(next, _) => end_of(plan, next, outcomes.drop_first()),
            Step::Done(result) => Some(result),
        }
    }
}

/// The state in which every loop begins: the runner reads the file at the
/// destination first.
pub fn begin() -> (r: FetchState)
    ensures
        r == FetchState::CheckingCache,
{
    FetchState::CheckingCache
}

/// Whether a computed hash is the expected one.
pub fn hash_matches(actual: &str, expected_hash: &str) -> (r: bool)
    ensures
        r == (actual@ == expected_hash@),
{
    same_text(actual, expected_hash)
}

/// Says what bytes that were read, or the failure to read any, amount to.
pub fn classify(read: Result<Vec<u8>, String>, expected_hash: &str) -> (r: Outcome)
    ensures
        r == classified(read, expected_hash@),
{
    match read {
        Ok(bytes) => {
            let actual = hex_digest(bytes.as_slice());
            if hash_matches(actual.as_str(), expected_hash) {
                Outcome::Matches
            } else {
                Outcome::Differs
            }
        },
        Err(reason) => Outcome::Missing(reason),
    }
}

/// Decides what follows a failed attempt.
fn retry_or_fail(plan: &FetchPlan, tries: u32) -> (r: Step)
    ensures
        r == after_mismatch(*plan, tries),
{
    if tries < plan.max_tries {
        Step::Continue(FetchState::Fetching { tries: tries + 1 }, Request::Fetch)
    } else {
        Step::Done(
            Err(
                LauncherError::ChecksumFailure {
                    hash: plan.expected_hash.clone(),
                    url: plan.url.clone(),
                    tries,
                },
            ),
        )
    }
}

/// Decides what the loop does next, given the outcome of what it last
/// asked for. A file at the destination with the expected hash ends the
/// loop at once with success. Else the file is fetched, at most
/// `max_tries` times; fetched bytes with the expected hash are written and
/// read back, and the loop succeeds when what was read back has the
/// expected hash too.
pub fn next_step(plan: &FetchPlan, state: FetchState, outcome: Outcome) -> (r: Step)
    ensures
        r == step(*plan, state, outcome),
{
    match state {
        FetchState::CheckingCache => match outcome {
            Outcome::Matches => Step::Done(Ok(())),
            _ => retry_or_fail(plan, 0),
        },
        FetchState::Fetching { tries } => match outcome {
            Outcome::Matches => Step::Continue(FetchState::Confirming { tries }, Request::Write),
            Outcome::Differs => retry_or_fail(plan, tries),
            Outcome::Missing(reason) => {
                if tries < plan.max_tries {
                    retry_or_fail(plan, tries)
                } else {
                    Step::Done(
                        Err(LauncherError::FetchError { inner: reason, item: plan.url.clone() }),
                    )
                }
            },
        },
        FetchState::Confirming { tries } => match outcome {
            Outcome::Matches => Step::Done(Ok(())),
            Outcome::Differs => retry_or_fail(plan, tries),
            Outcome::Missing(reason) => Step::Done(Err(LauncherError::IoError(reason))),
        },
    }
}

/// Decides what the loop does next, given the bytes that were read, or the
/// reason why none were.
pub fn advance(plan: &FetchPlan, state: FetchState, read: Result<Vec<u8>, String>) -> (r: Step)
    ensures
        r == step(*plan, state, classified(read, plan.expected_hash@)),
{
    let outcome = classify(read, plan.expected_hash.as_str());
    next_step(plan, state, outcome)
}

/// A step keeps the loop in the states of its plan.
pub proof fn lemma_step_keeps_valid(plan: FetchPlan, state: FetchState, outcome: Outcome)
    requires
        state_valid(state, plan),
    ensures
        step(plan, state, outcome) matches Step::Continue(next, request) ==> {
            &&& state_valid(next, plan)
            &&& request == Request::Fetch ==> tries_of(next) == tries_of(state) + 1
            &&& request == Request::Write ==> tries_of(next) == tries_of(state)
        },
{
}

/// The loop succeeds only on bytes with the expected hash, and fails with a
/// checksum failure only when bytes were wrong or absent and `max_tries`
/// fetches have been made.
pub proof fn lemma_step_ends(plan: FetchPlan, state: FetchState, outcome: Outcome)
    requires
        state_valid(state, plan),
    ensures
        step(plan, state, outcome) matches Step::Done(Ok(_)) ==> outcome is Matches,
        step(plan, state, outcome) matches Step::Done(
            Err(LauncherError::ChecksumFailure { hash, url, tries }),
        ) ==> {
            &&& !(outcome is Matches)
            &&& tries == plan.max_tries
            &&& tries_of(state) == plan.max_tries
            &&& hash == plan.expected_hash
            &&& url == plan.url
        },
{
}

/// Whatever the outcomes, the loop never fetches more than `max_tries`
/// times, and it ends in a checksum failure only after exactly `max_tries`
/// fetches, which the failure reports.
pub proof fn lemma_checksum_failure_after_max_tries(
    plan: FetchPlan,
    state: FetchState,
    outcomes: Seq<Outcome>,
)
    requires
        state_valid(state, plan),
    ensures
        tries_of(state) + fetches(plan, state, outcomes) <= plan.max_tries,
        end_of(plan, state, outcomes) matches Some(
            Err(LauncherError::ChecksumFailure { hash, url, tries }),
        ) ==> tries == plan.max_tries && tries_of(state) + fetches(plan, state, outcomes)
            == plan.max_tries,
    decreases outcomes.len(),
{
    if outcomes.len() > 0 {
        lemma_step_keeps_valid(plan, state, outcomes[0]);
        lemma_step_ends(plan, state, outcomes[0]);
        match step(plan, state, outcomes[0]) {
            Step::Continue(next, _) => {
                lemma_checksum_failure_after_max_tries(plan, next, outcomes.drop_first());
            },
            Step::Done(_) => {},
        }
    }
}

/// A file that is already at the destination with the expected hash ends
/// the loop with success, without a fetch and without a write.
pub proof fn lemma_cache_hit(plan: FetchPlan, outcomes: Seq<Outcome>)
    requires
        outcomes.len() > 0,
        outcomes[0] is Matches,
    ensures
        end_of(plan, FetchState::CheckingCache, outcomes) == Some(Ok::<(), LauncherError>(())),
        fetches(plan, FetchState::CheckingCache, outcomes) == 0,
        writes(plan, FetchState::CheckingCache, outcomes) == 0,
{
}

/// A loop that ends with success has last read bytes with the expected
/// hash: the file at the destination before any fetch, or the file that
/// was written, read back.
pub proof fn lemma_success_was_verified(plan: FetchPlan, state: FetchState, outcomes: Seq<Outcome>)
    requires
        end_of(plan, state, outcomes) == Some(Ok::<(), LauncherError>(())),
    ensures
        exists|i: int| 0 <= i < outcomes.len() && (#[trigger] outcomes[i]) is Matches,
    decreases outcomes.len(),
{
    if outcomes.len() > 0 {
        match step(plan, state, outcomes[0]) {
            Step::Continue(next, _) => {
                let rest = outcomes.drop_first();
                lemma_success_was_verified(plan, next, rest);
                let i = choose|i: int| 0 <= i < rest.len() && (#[trigger] rest[i]) is Matches;
                assert(outcomes[i + 1] == rest[i]);
            },
            Step::Done(_) => {
                assert(outcomes[0] is Matches);
            },
        }
    }
}

} // verus!
