//! Getting hold of an API client: the scopes to ask for, and the policy by
//! which the exchange of the cached refresh token is attempted again after a
//! failure.
//!
//! The exchange itself is the caller's. The policy is a small state machine,
//! [`Acquisition`]: it says what to do next, and is told how that went. With
//! retries, a failed attempt is followed by a fixed delay and another
//! attempt, up to `RETRIES` more attempts after the first; without, a single
//! failed attempt ends the acquisition.

use vstd::prelude::*;
use crate::cache::{ron_text_of_str, spec_write_token, write_token, CacheWrite};
use crate::error::Error;

verus! {

/// How many tracks one request to the service may name.
pub const CHUNK_SIZE: usize = 100;

/// The identifier of this application at the service.
pub const CLIENT_ID: &'static str = "b91f8140e4014e0eaf126d0bb043f59c";

/// Where the redirect of the authentication flow is awaited.
pub const LOOPBACK_ADDRESS: &'static str = "127.0.0.1:8080";

/// The address the authentication flow redirects to.
pub const REDIRECT_URL: &'static str = "http://127.0.0.1:8080";

/// How many attempts may follow a failed first attempt.
pub const RETRIES: usize = 10;

/// How many seconds pass between a failed attempt and what follows it.
pub const RETRY_DELAY: u64 = 2;

/// The scopes the client asks for.
pub open spec fn spec_scopes() -> Seq<Seq<char>> {
    seq![
        "playlist-read-private"@,
        "playlist-modify-private"@,
        "user-library-modify"@,
        "user-read-currently-playing"@,
    ]
}

/// Returns the scopes the client asks for.
pub fn scopes() -> (scopes: Vec<&'static str>)
    ensures
        scopes@.len() == 4,
        scopes@.map_values(|s: &'static str| s@) == spec_scopes(),
{
    let scopes = vec![
        "playlist-read-private",
        "playlist-modify-private",
        "user-library-modify",
        "user-read-currently-playing",
    ];
    assert(scopes@.map_values(|s: &'static str| s@) =~= spec_scopes());
    scopes
}

/// Returns the write that stores the refresh token a client holds after an
/// acquisition. Fails with `NoRefreshToken` where the client holds none, and
/// with `PersistenceFailed` where the token cannot be encoded.
pub fn save_token(refresh_token: Option<&str>) -> (write: Result<CacheWrite, Error>)
    ensures
        match refresh_token {
            Some(token) => spec_write_token(write, ron_text_of_str(token@)),
            None => write == Err::<CacheWrite, Error>(Error::NoRefreshToken),
        },
{
    match refresh_token {
        Some(token) => write_token(token),
        None => Err(Error::NoRefreshToken),
    }
}

/// What an acquisition asks of its caller next.
#[derive(Clone, Copy, Debug, PartialEq, Eq, Structural)]
pub enum Step {
    /// Make one attempt, and report how it went.
    Attempt,
    /// Let `seconds` pass, and report that they have.
    Wait { seconds: u64 },
    /// Nothing more: the last attempt succeeded.
    Connected,
    /// Nothing more: the acquisition failed with `error`.
    Failed { error: Error },
}

/// The state of an acquisition, as contracts see it.
pub struct AcquisitionState {
    /// Whether a failed attempt is followed by another.
    pub retry: bool,
    /// How many attempts have been made.
    pub attempts: nat,
    /// What the caller is to do next.
    pub step: Step,
}

/// The state in which an acquisition starts.
pub open spec fn spec_start(retry: bool) -> AcquisitionState {
    AcquisitionState { retry, attempts: 0, step: Step::Attempt }
}

/// The state after an attempt that was asked for: a success ends the
/// acquisition; a failure ends it where there are no retries, and otherwise
/// asks for the delay. Where no attempt was asked for, nothing changes.
pub open spec fn spec_attempted(state: AcquisitionState, succeeded: bool) -> AcquisitionState {
    if state.step != Step::Attempt {
        state
    } else if succeeded {
        AcquisitionState { attempts: state.attempts + 1, step: Step::Connected, ..state }
    } else if state.retry {
        AcquisitionState {
            attempts: state.attempts + 1,
            step: Step::Wait { seconds: RETRY_DELAY },
            ..state
        }
    } else {
        AcquisitionState {
            attempts: state.attempts + 1,
            step: Step::Failed { error: Error::AuthenticationFailed },
            ..state
        }
    }
}

/// The state after a delay that was asked for: another attempt, unless
/// `RETRIES` attempts have followed the first already, which ends the
/// acquisition. Where no delay was asked for, nothing changes.
pub open spec fn spec_waited(state: AcquisitionState) -> AcquisitionState {
    if !(state.step is Wait) {
        state
    } else if state.attempts > RETRIES {
        AcquisitionState { step: Step::Failed { error: Error::TooManyRetries }, ..state }
    } else {
        AcquisitionState { step: Step::Attempt, ..state }
    }
}

/// The state in which an acquisition that starts in `state` stops, when its
/// attempts go as `outcomes` says, first to last, and every delay it asks
/// for passes: it stops when it has ended or `outcomes` has run out.
pub open spec fn spec_run(state: AcquisitionState, outcomes: Seq<bool>) -> AcquisitionState
    decreases outcomes.len(),
{
    if state.step != Step::Attempt || outcomes.len() == 0 {
        state
    } else {
        spec_run(spec_waited(spec_attempted(state, outcomes[0])), outcomes.drop_first())
    }
}

/// An acquisition in progress.
#[derive(Clone, Copy, Debug)]
pub struct Acquisition {
    retry: bool,
    attempts: usize,
    step: Step,
}

impl View for Acquisition {
    type V = AcquisitionState;

    closed spec fn view(&self) -> AcquisitionState {
        AcquisitionState { retry: self.retry, attempts: self.attempts as nat, step: self.step }
    }
}

impl Acquisition {
    /// An attempt is only asked for while fewer than all attempts are made.
    #[verifier::type_invariant]
    closed spec fn well_formed(self) -> bool {
        &&& self.attempts <= RETRIES + 1
        &&& self.step == Step::Attempt ==> self.attempts <= RETRIES
    }

    /// Starts an acquisition, with or without retries.
    pub fn new(retry: bool) -> (acquisition: Acquisition)
        ensures
            acquisition@ == spec_start(retry),
    {
        Acquisition { retry, attempts: 0, step: Step::Attempt }
    }

    /// Returns what the caller is to do next.
    pub fn step(&self) -> (step: Step)
        ensures
            step == self@.step,
    {
        self.step
    }

    /// Returns how many attempts have been made.
    pub fn attempts(&self) -> (attempts: usize)
        ensures
            attempts == self@.attempts,
    {
        self.attempts
    }

    /// Takes in the outcome of an attempt.
    pub fn attempted(&mut self, succeeded: bool)
        ensures
            final(self)@ == spec_attempted(old(self)@, succeeded),
    {
        proof {
            use_type_invariant(&*self);
        }
        match self.step {
            Step::Attempt => {
                let step = if succeeded {
                    Step::Connected
                } else if self.retry {
                    Step::Wait { seconds: RETRY_DELAY }
                } else {
                    Step::Failed { error: Error::AuthenticationFailed }
                };
                *self = Acquisition { retry: self.retry, attempts: self.attempts + 1, step };
            },
            _ => {},
        }
    }

    /// Takes in that a delay has passed.
    pub fn waited(&mut self)
        ensures
            final(self)@ == spec_waited(old(self)@),
    {
        proof {
            use_type_invariant(&*self);
        }
        match self.step {
            Step::Wait { .. } => {
                let step = if self.attempts > RETRIES {
                    Step::Failed { error: Error::TooManyRetries }
                } else {
                    Step::Attempt
                };
                *self = Acquisition { retry: self.retry, attempts: self.attempts, step };
            },
            _ => {},
        }
    }
}

/// Whether each attempt succeeded, for attempts that returned `outcomes`.
pub open spec fn successes<C>(outcomes: Seq<Option<C>>) -> Seq<bool> {
    outcomes.map_values(|outcome: Option<C>| outcome is Some)
}

/// What `acquire` returns when the calls of `attempt` returned `outcomes`,
/// first to last: the policy has run through exactly these attempts and has
/// ended; where it ended connected, the client is what the last attempt
/// returned, and where it ended failed, the error is the policy's.
pub open spec fn acquired_by<C, A: Fn() -> Option<C>>(
    attempt: A,
    retry: bool,
    outcomes: Seq<Option<C>>,
    client: Result<C, Error>,
) -> bool {
    let end = spec_run(spec_start(retry), successes(outcomes));
    &&& forall|i: int| 0 <= i < outcomes.len() ==> call_ensures(attempt, (), #[trigger] outcomes[i])
    &&& end.attempts == outcomes.len()
    &&& match client {
        Ok(client) => end.step == Step::Connected && outcomes.len() > 0 && outcomes.last()
            == Some(client),
        Err(error) => end.step == (Step::Failed { error }),
    }
}

/// Acquires a client: calls `attempt` until it returns one or the policy
/// gives up, and calls `wait` with the delay after each failed attempt of an
/// acquisition with retries. Without retries a failed attempt fails the
/// acquisition with `AuthenticationFailed`; with retries the acquisition
/// fails with `TooManyRetries` once the first attempt and `RETRIES` more
/// have failed.
pub fn acquire<C, A: Fn() -> Option<C>, W: Fn(u64)>(retry: bool, attempt: A, wait: W) -> (client:
    Result<C, Error>)
    requires
        call_requires(attempt, ()),
        call_requires(wait, (RETRY_DELAY,)),
    ensures
        exists|outcomes: Seq<Option<C>>| #[trigger] acquired_by(attempt, retry, outcomes, client),
{
    let mut acquisition = Acquisition::new(retry);
    let mut found: Option<C> = None;
    let ghost mut outcomes: Seq<Option<C>> = Seq::empty();
    loop
        invariant
            call_requires(attempt, ()),
            call_requires(wait, (RETRY_DELAY,)),
            acquisition@.step is Wait ==> acquisition@.step == (Step::Wait { seconds: RETRY_DELAY }),
            acquisition@.step == Step::Connected ==> found is Some && outcomes.len() > 0
                && outcomes.last() == found,
            acquisition@.attempts <= RETRIES + 1,
            acquisition@.attempts == outcomes.len(),
            spec_waited(acquisition@) == spec_run(spec_start(retry), successes(outcomes)),
            forall|i: int|
                0 <= i < outcomes.len() ==> call_ensures(attempt, (), #[trigger] outcomes[i]),
        decreases
                2 * (RETRIES + 1 - acquisition@.attempts) + (if acquisition@.step is Wait {
                    1nat
                } else {
                    0nat
                }),
    {
        proof {
            use_type_invariant(&acquisition);
        }
        match acquisition.step() {
            Step::Attempt => {
                let outcome = attempt();
                proof {
                    lemma_run_one_more(spec_start(retry), successes(outcomes), outcome is Some);
                    assert(successes(outcomes.push(outcome)) =~= successes(outcomes).push(
                        outcome is Some,
                    ));
                    outcomes = outcomes.push(outcome);
                }
                acquisition.attempted(outcome.is_some());
                found = outcome;
                proof {
                    use_type_invariant(&acquisition);
                }
            },
            Step::Wait { seconds } => {
                wait(seconds);
                acquisition.waited();
                proof {
                    use_type_invariant(&acquisition);
                }
            },
            Step::Connected => {
                let client = found.unwrap();
                assert(acquired_by(attempt, retry, outcomes, Ok::<C, Error>(client)));
                return Ok(client);
            },
            Step::Failed { error } => {
                assert(acquired_by(attempt, retry, outcomes, Err::<C, Error>(error)));
                return Err(error);
            },
        }
    }
}

/// One more attempt after a run that has not ended is one more step.
pub proof fn lemma_run_one_more(state: AcquisitionState, outcomes: Seq<bool>, next: bool)
    ensures
        spec_run(state, outcomes.push(next)) == if spec_run(state, outcomes).step == Step::Attempt {
            spec_waited(spec_attempted(spec_run(state, outcomes), next))
        } else {
            spec_run(state, outcomes)
        },
    decreases outcomes.len(),
{
    if state.step != Step::Attempt {
    } else if outcomes.len() == 0 {
        assert(outcomes.push(next).drop_first() =~= outcomes);
        assert(outcomes.push(next)[0] == next);
    } else {
        let after = spec_waited(spec_attempted(state, outcomes[0]));
        assert(outcomes.push(next).drop_first() =~= outcomes.drop_first().push(next));
        assert(outcomes.push(next)[0] == outcomes[0]);
        lemma_run_one_more(after, outcomes.drop_first(), next);
    }
}

/// The retry bound is exact: where the first attempt and the `RETRIES` that
/// follow it all fail, an acquisition with retries makes exactly these
/// `RETRIES + 1` attempts and fails with `TooManyRetries`, however many more
/// outcomes there would be.
pub proof fn lemma_failures_exhaust_retries(outcomes: Seq<bool>)
    requires
        outcomes.len() >= RETRIES + 1,
        forall|i: int| 0 <= i <= RETRIES ==> !outcomes[i],
    ensures
        spec_run(spec_start(true), outcomes) == (AcquisitionState {
            retry: true,
            attempts: (RETRIES + 1) as nat,
            step: Step::Failed { error: Error::TooManyRetries },
        }),
{
    lemma_failures_from(spec_start(true), outcomes);
}

/// The first success ends the acquisition: where attempt number `at`
/// (counted from zero) is the first to succeed, and the policy gets that
/// far, the acquisition ends connected after exactly `at + 1` attempts,
/// whatever the outcomes after it would be. With retries the policy gets as
/// far as attempt `RETRIES`; without, only the first attempt is made.
pub proof fn lemma_first_success_connects(retry: bool, outcomes: Seq<bool>, at: int)
    requires
        0 <= at < outcomes.len(),
        outcomes[at],
        forall|i: int| 0 <= i < at ==> !outcomes[i],
        if retry {
            at <= RETRIES
        } else {
            at == 0
        },
    ensures
        spec_run(spec_start(retry), outcomes) == (AcquisitionState {
            retry,
            attempts: (at + 1) as nat,
            step: Step::Connected,
        }),
{
    lemma_success_from(spec_start(retry), outcomes, at);
}

/// Without retries a failed first attempt fails the acquisition: exactly
/// one attempt is made, and the error is `AuthenticationFailed`.
pub proof fn lemma_single_attempt_without_retry(outcomes: Seq<bool>)
    requires
        outcomes.len() >= 1,
        !outcomes[0],
    ensures
        spec_run(spec_start(false), outcomes) == (AcquisitionState {
            retry: false,
            attempts: 1,
            step: Step::Failed { error: Error::AuthenticationFailed },
        }),
{
    let after = spec_waited(spec_attempted(spec_start(false), outcomes[0]));
    assert(spec_run(after, outcomes.drop_first()) == after);
}

/// Where every attempt that is left fails, an acquisition with retries
/// ends failed after `RETRIES + 1` attempts in all.
proof fn lemma_failures_from(state: AcquisitionState, outcomes: Seq<bool>)
    requires
        state.retry,
        state.step == Step::Attempt,
        state.attempts <= RETRIES,
        outcomes.len() >= RETRIES + 1 - state.attempts,
        forall|i: int| 0 <= i < RETRIES + 1 - state.attempts ==> !outcomes[i],
    ensures
        spec_run(state, outcomes) == (AcquisitionState {
            retry: true,
            attempts: (RETRIES + 1) as nat,
            step: Step::Failed { error: Error::TooManyRetries },
        }),
    decreases RETRIES + 1 - state.attempts,
{
    let after = spec_waited(spec_attempted(state, outcomes[0]));
    let rest = outcomes.drop_first();
    if state.attempts < RETRIES {
        assert forall|i: int| 0 <= i < RETRIES + 1 - after.attempts implies !rest[i] by {
            assert(rest[i] == outcomes[i + 1]);
        }
        lemma_failures_from(after, rest);
    } else {
        assert(spec_run(after, rest) == after);
    }
}

/// Where the attempt `at` places on is the first to succeed and the policy
/// gets that far, the acquisition ends connected after it.
proof fn lemma_success_from(state: AcquisitionState, outcomes: Seq<bool>, at: int)
    requires
        state.step == Step::Attempt,
        0 <= at < outcomes.len(),
        outcomes[at],
        forall|i: int| 0 <= i < at ==> !outcomes[i],
        if state.retry {
            state.attempts + at <= RETRIES
        } else {
            at == 0
        },
    ensures
        spec_run(state, outcomes) == (AcquisitionState {
            retry: state.retry,
            attempts: (state.attempts + at + 1) as nat,
            step: Step::Connected,
        }),
    decreases at,
{
    let after = spec_waited(spec_attempted(state, outcomes[0]));
    let rest = outcomes.drop_first();
    if at == 0 {
        assert(spec_run(after, rest) == after);
    } else {
        assert(rest[at - 1] == outcomes[at]);
        assert forall|i: int| 0 <= i < at - 1 implies !rest[i] by {
            assert(rest[i] == outcomes[i + 1]);
        }
        lemma_success_from(after, rest, at - 1);
    }
}

} // verus!
