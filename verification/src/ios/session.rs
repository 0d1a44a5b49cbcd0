//! The native protocol of a physical device: what its status codes mean,
//! which target its architecture stands for, and the order of the steps of
//! a session.

use vstd::prelude::*;
use crate::errors::{Error, ErrorKind};
use crate::invocation::signed_decimal;
use crate::numeral::to_decimal;
use crate::text::{concat, same};

verus! {

// ---------------------------------------------------------------------------
// Architectures
// ---------------------------------------------------------------------------

/// The architecture of the target triple of a device that reports the
/// architecture `reported`: `aarch64` for the 64-bit variants, `armv7` for
/// every other.
pub open spec fn triple_arch(reported: Seq<char>) -> Seq<char> {
    if reported == "arm64"@ || reported == "arm64e"@ {
        "aarch64"@
    } else {
        "armv7"@
    }
}

/// The target triple of a device that reports the architecture `reported`.
pub open spec fn triple_of(reported: Seq<char>) -> Seq<char> {
    triple_arch(reported) + "-apple-ios"@
}

/// The target triple of a device that reports the architecture `reported`.
pub fn target_triple(reported: &str) -> (r: String)
    ensures
        r@ == triple_of(reported@),
{
    if same(reported, "arm64") || same(reported, "arm64e") {
        concat("aarch64", "-apple-ios")
    } else {
        concat("armv7", "-apple-ios")
    }
}

// ---------------------------------------------------------------------------
// Status codes
// ---------------------------------------------------------------------------

/// 0xe80000e2: the device is locked.
pub const DEVICE_LOCKED: i32 = -402652958;

/// 0xe80000be: the application identifier does not match the entitlements.
pub const MISMATCHED_APPLICATION_IDENTIFIER: i32 = -402652994;

/// 0xe8000087: the executable is built for another architecture.
pub const ARCHITECTURE_MISMATCH: i32 = -402653049;

/// 0xe8008015: no valid provisioning profile for the executable.
pub const NO_PROVISIONING_PROFILE: i32 = -402620395;

/// 0xe8008016: the executable is signed with invalid entitlements.
pub const INVALID_ENTITLEMENTS: i32 = -402620394;

/// 0xe800007f: the device's system is too old.
pub const OS_VERSION_TOO_LOW: i32 = -402653057;

/// 0xe8000007: an argument is invalid.
pub const INVALID_ARGUMENT: i32 = -402653177;

/// What a status code other than 0 tells the user.
pub open spec fn diagnostic(code: i32) -> Seq<char> {
    if code == DEVICE_LOCKED {
        "error: Device is locked."@
    } else if code == MISMATCHED_APPLICATION_IDENTIFIER {
        "error: the application identifier does not match the entitlements of the provisioning profile."@
    } else if code == ARCHITECTURE_MISMATCH {
        "error: Architecture mismatch."@
    } else if code == NO_PROVISIONING_PROFILE {
        "error: A valid provisioning profile for this executable was not found."@
    } else if code == INVALID_ENTITLEMENTS {
        "error: The executable was signed with invalid entitlements."@
    } else if code == OS_VERSION_TOO_LOW {
        "error: The device OS version is too low."@
    } else if code == INVALID_ARGUMENT {
        "error: Invalid argument."@
    } else {
        "unrecognized native error `"@ + signed_decimal(code as int) + "`"@
    }
}

/// What the status code of a device operation means: 0 is success, every
/// other code is a failure with its diagnostic.
pub fn native_status(code: i32) -> (r: Result<(), Error>)
    ensures
        code == 0 ==> r is Ok,
        code != 0 ==> r is Err && r->Err_0.is(ErrorKind::Transport, diagnostic(code)),
{
    if code == 0 {
        return Ok(());
    }
    let message: String = if code == DEVICE_LOCKED {
        "error: Device is locked.".to_owned()
    } else if code == MISMATCHED_APPLICATION_IDENTIFIER {
        "error: the application identifier does not match the entitlements of the provisioning profile.".to_owned()
    } else if code == ARCHITECTURE_MISMATCH {
        "error: Architecture mismatch.".to_owned()
    } else if code == NO_PROVISIONING_PROFILE {
        "error: A valid provisioning profile for this executable was not found.".to_owned()
    } else if code == INVALID_ENTITLEMENTS {
        "error: The executable was signed with invalid entitlements.".to_owned()
    } else if code == OS_VERSION_TOO_LOW {
        "error: The device OS version is too low.".to_owned()
    } else if code == INVALID_ARGUMENT {
        "error: Invalid argument.".to_owned()
    } else {
        let wide: i64 = code as i64;
        let digits = if wide < 0 {
            proof {
                reveal_strlit("-");
                assert("-"@ == seq!['-']);
            }
            concat("-", to_decimal((0 - wide) as u64).as_str())
        } else {
            to_decimal(wide as u64)
        };
        let mut m = "unrecognized native error `".to_owned();
        m.append(digits.as_str());
        m.append("`");
        m
    };
    Err(Error::new(ErrorKind::Transport, message.as_str()))
}

// ---------------------------------------------------------------------------
// Sessions
// ---------------------------------------------------------------------------

/// Where a session stands.
#[derive(Clone, Copy, Debug, PartialEq, Eq, Structural)]
pub enum SessionState {
    /// Nothing has been done.
    Disconnected,
    /// The device is connected.
    Connected,
    /// The pairing with the device has been validated.
    PairValidated,
    /// The session is started; operations are carried out.
    SessionStarted,
    /// The operations are over or one has failed: the session is to be
    /// ended.
    Ending,
    /// The session has been ended: the device is to be disconnected.
    SessionEnded,
    /// A step before the start of the session has failed after the
    /// connection was made: the device is to be disconnected.
    Abandoned,
    /// Everything is done.
    Closed,
}

/// What is to be done next.
#[derive(Clone, Copy, Debug, PartialEq, Eq, Structural)]
pub enum SessionAction {
    Connect,
    ValidatePair,
    StartSession,
    /// The operation with this number, counted from 0.
    Operate(usize),
    EndSession,
    Disconnect,
    /// Nothing: the session is over.
    Finish,
}

/// A session as the contracts see it: where it stands and what has been
/// done.
pub struct SessionModel {
    pub state: SessionState,
    /// The number of operations to carry out.
    pub operations: nat,
    /// The number of operations carried out with success.
    pub done: nat,
    /// Whether the session was started.
    pub started: bool,
    /// How often the session was ended.
    pub session_ends: nat,
    /// How often the device was disconnected.
    pub disconnects: nat,
    /// Whether a step other than those of the teardown has failed.
    pub failed: bool,
}

impl SessionModel {
    /// The session of `operations` operations before its first step.
    pub open spec fn initial(operations: nat) -> SessionModel {
        SessionModel {
            state: SessionState::Disconnected,
            operations,
            done: 0,
            started: false,
            session_ends: 0,
            disconnects: 0,
            failed: false,
        }
    }

    /// What is to be done next.
    pub open spec fn action(self) -> SessionAction {
        match self.state {
            SessionState::Disconnected => SessionAction::Connect,
            SessionState::Connected => SessionAction::ValidatePair,
            SessionState::PairValidated => SessionAction::StartSession,
            SessionState::SessionStarted => SessionAction::Operate(self.done as usize),
            SessionState::Ending => SessionAction::EndSession,
            SessionState::SessionEnded => SessionAction::Disconnect,
            SessionState::Abandoned => SessionAction::Disconnect,
            SessionState::Closed => SessionAction::Finish,
        }
    }

    /// The session after its next action has been carried out, with
    /// success or without.
    pub open spec fn step(self, success: bool) -> SessionModel {
        match self.state {
            SessionState::Disconnected => if success {
                SessionModel { state: SessionState::Connected, ..self }
            } else {
                SessionModel { state: SessionState::Closed, failed: true, ..self }
            },
            SessionState::Connected => if success {
                SessionModel { state: SessionState::PairValidated, ..self }
            } else {
                SessionModel { state: SessionState::Abandoned, failed: true, ..self }
            },
            SessionState::PairValidated => if success {
                SessionModel {
                    state: if self.operations == 0 {
                        SessionState::Ending
                    } else {
                        SessionState::SessionStarted
                    },
                    started: true,
                    ..self
                }
            } else {
                SessionModel { state: SessionState::Abandoned, failed: true, ..self }
            },
            SessionState::SessionStarted => if success {
                SessionModel {
                    state: if self.done + 1 >= self.operations {
                        SessionState::Ending
                    } else {
                        SessionState::SessionStarted
                    },
                    done: self.done + 1,
                    ..self
                }
            } else {
                SessionModel { state: SessionState::Ending, failed: true, ..self }
            },
            SessionState::Ending => SessionModel {
                state: SessionState::SessionEnded,
                session_ends: self.session_ends + 1,
                ..self
            },
            SessionState::SessionEnded => SessionModel {
                state: SessionState::Closed,
                disconnects: self.disconnects + 1,
                ..self
            },
            SessionState::Abandoned => SessionModel {
                state: SessionState::Closed,
                disconnects: self.disconnects + 1,
                ..self
            },
            SessionState::Closed => self,
        }
    }

    /// What holds of every session that was taken from its first step on:
    /// the session is ended once it is started and its operations are over,
    /// the device is disconnected after that, and neither happens twice.
    pub open spec fn wf(self) -> bool {
        &&& self.done <= self.operations
        &&& match self.state {
            SessionState::Disconnected | SessionState::Connected | SessionState::PairValidated => {
                !self.started && self.session_ends == 0 && self.disconnects == 0 && self.done == 0
                    && !self.failed
            },
            SessionState::SessionStarted => {
                self.started && self.session_ends == 0 && self.disconnects == 0 && self.done
                    < self.operations && !self.failed
            },
            SessionState::Ending => {
                self.started && self.session_ends == 0 && self.disconnects == 0 && (self.failed
                    || self.done == self.operations)
            },
            SessionState::SessionEnded => {
                self.started && self.session_ends == 1 && self.disconnects == 0
            },
            SessionState::Abandoned => {
                !self.started && self.session_ends == 0 && self.disconnects == 0 && self.failed
            },
            SessionState::Closed => {
                if self.started {
                    self.session_ends == 1 && self.disconnects == 1
                } else {
                    self.session_ends == 0 && self.disconnects <= 1 && self.failed
                }
            },
        }
    }

    /// The session after the actions whose outcomes are `outcomes`, in
    /// order.
    pub open spec fn after(self, outcomes: Seq<bool>) -> SessionModel
        decreases outcomes.len(),
    {
        if outcomes.len() == 0 {
            self
        } else {
            self.after(outcomes.drop_last()).step(outcomes.last())
        }
    }
}

/// Every step keeps what holds of a session.
pub proof fn lemma_step_wf(m: SessionModel, success: bool)
    requires
        m.wf(),
    ensures
        m.step(success).wf(),
{
}

/// Whatever the outcomes of its steps, a session that was started and is
/// closed was ended exactly once and then disconnected exactly once; and a
/// session is never disconnected before it is ended.
pub proof fn lemma_teardown_once(operations: nat, outcomes: Seq<bool>)
    ensures
        ({
            let m = SessionModel::initial(operations).after(outcomes);
            &&& m.wf()
            &&& m.state == SessionState::Closed && m.started ==> m.session_ends == 1
                && m.disconnects == 1
            &&& m.started && m.disconnects == 1 ==> m.session_ends == 1
            &&& m.session_ends <= 1 && m.disconnects <= 1
        }),
    decreases outcomes.len(),
{
    if outcomes.len() > 0 {
        lemma_teardown_once(operations, outcomes.drop_last());
        lemma_step_wf(SessionModel::initial(operations).after(outcomes.drop_last()), outcomes.last());
    }
}

/// The number of steps within which a started session is closed.
pub open spec fn steps_to_close(m: SessionModel) -> nat {
    match m.state {
        SessionState::SessionStarted => (m.operations - m.done + 2) as nat,
        SessionState::Ending => 2,
        SessionState::SessionEnded => 1,
        _ => 0,
    }
}

/// A session that has started reaches its end within the steps that its
/// operations and the teardown take: after that many steps it is closed,
/// ended once and disconnected once, whatever the outcomes of the steps.
pub proof fn lemma_session_closes(m: SessionModel, outcomes: Seq<bool>)
    requires
        m.wf(),
        m.started,
        outcomes.len() >= steps_to_close(m),
    ensures
        m.after(outcomes).state == SessionState::Closed,
        m.after(outcomes).session_ends == 1,
        m.after(outcomes).disconnects == 1,
    decreases outcomes.len(),
{
    if m.state == SessionState::Closed {
        lemma_closed_stays(m, outcomes);
    } else {
        lemma_after_front(m, outcomes);
        lemma_step_wf(m, outcomes[0]);
        lemma_session_closes(m.step(outcomes[0]), outcomes.skip(1));
    }
}

/// The number of steps within which any session is closed.
pub open spec fn steps_to_end(m: SessionModel) -> nat {
    match m.state {
        SessionState::Disconnected => m.operations + 5,
        SessionState::Connected => m.operations + 4,
        SessionState::PairValidated => m.operations + 3,
        SessionState::SessionStarted => (m.operations - m.done + 2) as nat,
        SessionState::Ending => 2,
        SessionState::SessionEnded => 1,
        SessionState::Abandoned => 1,
        SessionState::Closed => 0,
    }
}

/// Every session is closed after the steps that connecting, its operations
/// and the teardown take, whatever the outcomes of the steps.
pub proof fn lemma_session_ends(m: SessionModel, outcomes: Seq<bool>)
    requires
        m.wf(),
        outcomes.len() >= steps_to_end(m),
    ensures
        m.after(outcomes).state == SessionState::Closed,
        m.after(outcomes).wf(),
    decreases outcomes.len(),
{
    if m.state == SessionState::Closed {
        lemma_closed_stays(m, outcomes);
    } else {
        lemma_after_front(m, outcomes);
        lemma_step_wf(m, outcomes[0]);
        lemma_session_ends(m.step(outcomes[0]), outcomes.skip(1));
    }
}

/// The session after some steps is the session after the first of them,
/// taken through the others.
pub proof fn lemma_after_front(m: SessionModel, outcomes: Seq<bool>)
    requires
        outcomes.len() > 0,
    ensures
        m.after(outcomes) == m.step(outcomes[0]).after(outcomes.skip(1)),
    decreases outcomes.len(),
{
    if outcomes.len() == 1 {
        assert(outcomes.drop_last().len() == 0);
        assert(outcomes.skip(1).len() == 0);
        assert(outcomes.last() == outcomes[0]);
    } else {
        lemma_after_front(m, outcomes.drop_last());
        assert(outcomes.drop_last().skip(1) == outcomes.skip(1).drop_last());
        assert(outcomes.drop_last()[0] == outcomes[0]);
        assert(outcomes.skip(1).last() == outcomes.last());
    }
}

/// A closed session stays as it is.
pub proof fn lemma_closed_stays(m: SessionModel, outcomes: Seq<bool>)
    requires
        m.state == SessionState::Closed,
    ensures
        m.after(outcomes) == m,
    decreases outcomes.len(),
{
    if outcomes.len() > 0 {
        lemma_closed_stays(m, outcomes.drop_last());
    }
}

/// A session with a device: it says what is to be done next, is told how
/// that went, and keeps the first failure and the failures of the
/// teardown apart.
#[derive(Debug)]
pub struct Session {
    state: SessionState,
    operations: usize,
    done: usize,
    started: bool,
    session_ends: usize,
    disconnects: usize,
    primary: Option<Error>,
    warnings: Vec<Error>,
}

impl View for Session {
    type V = SessionModel;

    closed spec fn view(&self) -> SessionModel {
        SessionModel {
            state: self.state,
            operations: self.operations as nat,
            done: self.done as nat,
            started: self.started,
            session_ends: self.session_ends as nat,
            disconnects: self.disconnects as nat,
            failed: self.primary is Some,
        }
    }
}

impl Session {
    /// The first failure of a step other than those of the teardown.
    pub closed spec fn primary(&self) -> Option<Error> {
        self.primary
    }

    /// The failures of the steps of the teardown, in order.
    pub closed spec fn warnings(&self) -> Seq<Error> {
        self.warnings@
    }

    /// Whether the step that is next belongs to the teardown.
    pub open spec fn in_teardown(m: SessionModel) -> bool {
        m.state == SessionState::Ending || m.state == SessionState::SessionEnded || m.state
            == SessionState::Abandoned
    }

    /// A session of `operations` operations, before its first step.
    pub fn new(operations: usize) -> (r: Session)
        ensures
            r@ == SessionModel::initial(operations as nat),
            r@.wf(),
            r.primary() is None,
            r.warnings().len() == 0,
    {
        Session {
            state: SessionState::Disconnected,
            operations,
            done: 0,
            started: false,
            session_ends: 0,
            disconnects: 0,
            primary: None,
            warnings: Vec::new(),
        }
    }

    /// What is to be done next.
    pub fn next_action(&self) -> (r: SessionAction)
        ensures
            r == self@.action(),
    {
        match self.state {
            SessionState::Disconnected => SessionAction::Connect,
            SessionState::Connected => SessionAction::ValidatePair,
            SessionState::PairValidated => SessionAction::StartSession,
            SessionState::SessionStarted => SessionAction::Operate(self.done),
            SessionState::Ending => SessionAction::EndSession,
            SessionState::SessionEnded => SessionAction::Disconnect,
            SessionState::Abandoned => SessionAction::Disconnect,
            SessionState::Closed => SessionAction::Finish,
        }
    }

    /// Takes note of how the action that was next went. A failure of the
    /// teardown is kept as a warning; the first other failure is kept as
    /// the session's failure and leads to the teardown.
    pub fn record(&mut self, outcome: Result<(), Error>)
        requires
            old(self)@.wf(),
        ensures
            final(self)@ == old(self)@.step(outcome is Ok),
            final(self)@.wf(),
            old(self)@.state != SessionState::Closed && !Self::in_teardown(old(self)@) ==> {
                &&& final(self).warnings() == old(self).warnings()
                &&& final(self).primary() == (match outcome {
                    Ok(_) => old(self).primary(),
                    Err(e) => Some(e),
                })
            },
            Self::in_teardown(old(self)@) ==> {
                &&& final(self).primary() == old(self).primary()
                &&& final(self).warnings() == (match outcome {
                    Ok(_) => old(self).warnings(),
                    Err(e) => old(self).warnings().push(e),
                })
            },
            old(self)@.state == SessionState::Closed ==> {
                &&& final(self).primary() == old(self).primary()
                &&& final(self).warnings() == old(self).warnings()
            },
    {
        proof {
            lemma_step_wf(self@, outcome is Ok);
        }
        match self.state {
            SessionState::Disconnected => {
                match outcome {
                    Ok(_) => {
                        self.state = SessionState::Connected;
                    },
                    Err(e) => {
                        self.primary = Some(e);
                        self.state = SessionState::Closed;
                    },
                }
            },
            SessionState::Connected => {
                match outcome {
                    Ok(_) => {
                        self.state = SessionState::PairValidated;
                    },
                    Err(e) => {
                        self.primary = Some(e);
                        self.state = SessionState::Abandoned;
                    },
                }
            },
            SessionState::PairValidated => {
                match outcome {
                    Ok(_) => {
                        self.started = true;
                        self.state = if self.operations == 0 {
                            SessionState::Ending
                        } else {
                            SessionState::SessionStarted
                        };
                    },
                    Err(e) => {
                        self.primary = Some(e);
                        self.state = SessionState::Abandoned;
                    },
                }
            },
            SessionState::SessionStarted => {
                match outcome {
                    Ok(_) => {
                        self.done = self.done + 1;
                        if self.done >= self.operations {
                            self.state = SessionState::Ending;
                        }
                    },
                    Err(e) => {
                        self.primary = Some(e);
                        self.state = SessionState::Ending;
                    },
                }
            },
            SessionState::Ending => {
                match outcome {
                    Ok(_) => {},
                    Err(e) => {
                        self.warnings.push(e);
                    },
                }
                self.session_ends = self.session_ends + 1;
                self.state = SessionState::SessionEnded;
            },
            SessionState::SessionEnded => {
                match outcome {
                    Ok(_) => {},
                    Err(e) => {
                        self.warnings.push(e);
                    },
                }
                self.disconnects = self.disconnects + 1;
                self.state = SessionState::Closed;
            },
            SessionState::Abandoned => {
                match outcome {
                    Ok(_) => {},
                    Err(e) => {
                        self.warnings.push(e);
                    },
                }
                self.disconnects = self.disconnects + 1;
                self.state = SessionState::Closed;
            },
            SessionState::Closed => {},
        }
    }

    /// What came of the session: its first failure, if it had one, and the
    /// failures of the teardown, which never stand in for it.
    pub fn finish(self) -> (r: (Result<(), Error>, Vec<Error>))
        ensures
            r.0 == (match self.primary() {
                Some(e) => Err::<(), Error>(e),
                None => Ok::<(), Error>(()),
            }),
            r.1@ == self.warnings(),
    {
        let result = match self.primary {
            Some(e) => Err(e),
            None => Ok(()),
        };
        (result, self.warnings)
    }
}

} // verus!
