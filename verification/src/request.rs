//! The path of one request through a pipeline.
//!
//! A request is taken through the stages one step at a time. Each step names
//! the work that is due ([`Pipeline::action`]), and the next step takes what
//! came of it ([`Pipeline::step`]): the caller does the work, the pipeline
//! decides. Where the answers of both gates are known beforehand,
//! [`Pipeline::traverse`] walks the whole path at once.

use crate::app::{Pipeline, Plan};
use crate::stage::StageKind;
use vstd::prelude::*;

verus! {

/// What the authenticator says of the credential that a request presents.
#[derive(Clone, Copy, Debug, PartialEq, Eq, Structural)]
pub enum AuthVerdict {
    /// The credential is valid.
    Accepted,
    /// The credential is missing or invalid.
    Rejected,
}

/// What the cross-origin policy says of a request.
#[derive(Clone, Copy, Debug, PartialEq, Eq, Structural)]
pub enum CorsVerdict {
    /// The request may go on.
    Allowed,
    /// The request is a pre-flight request, which the policy answers itself.
    Preflight,
    /// Origin or method is not permitted.
    Denied,
}

/// What came of the work that a step asked for.
#[derive(Clone, Copy, Debug, PartialEq, Eq, Structural)]
pub enum Reply {
    /// The work gives no verdict, or none was done.
    Nothing,
    /// The authenticator has judged the credential.
    Credential(AuthVerdict),
    /// The cross-origin policy has judged the request.
    Origin(CorsVerdict),
}

/// A response that a gate gives in place of the application.
#[derive(Clone, Copy, Debug, PartialEq, Eq, Structural)]
pub enum EarlyResponse {
    /// The authentication stage turned the request away.
    AuthenticationRejected,
    /// The cross-origin stage turned the request away.
    CorsRejected,
    /// The cross-origin stage answered a pre-flight request.
    CorsPreflight,
}

/// How a request ends.
#[derive(Clone, Copy, Debug, PartialEq, Eq, Structural)]
pub enum Outcome {
    /// The request reached the application, whose response goes out as it is.
    Dispatched,
    /// A gate answered, and the application never saw the request.
    Early(EarlyResponse),
}

/// Where a request stands.
#[derive(Clone, Copy, Debug, PartialEq, Eq, Structural)]
pub enum RequestState {
    /// The request has come in. The authentication stage is next.
    Received,
    /// The request is past authentication. The cross-origin stage is next.
    Authenticated,
    /// The request is past the cross-origin stage. The metrics stage is next.
    CorsCleared,
    /// The request is past the metrics stage. The logging stage is next.
    Metered,
    /// A gate has answered. Only the logging stage is still to come.
    ShortCircuited(EarlyResponse),
    /// The log entry is written. The response is still to be given.
    Logged(Outcome),
    /// The request is done.
    Terminal(Outcome),
}

/// The work that a step asks of the caller.
#[derive(Clone, Copy, Debug, PartialEq, Eq, Structural)]
pub enum Action {
    /// Nothing: the stage is a pass-through.
    Forward,
    /// Have the authenticator judge the bearer credential.
    Authenticate,
    /// Have the cross-origin policy judge the request.
    EvaluateCrossOrigin,
    /// Record one observation with the metrics collector.
    RecordObservation,
    /// Write the log entry, which tells how the request ends.
    WriteLog(Outcome),
    /// Hand the request to the application and return its response unchanged.
    Dispatch,
    /// Give the early response.
    Respond(EarlyResponse),
}

impl Outcome {
    /// The work that gives the response of a request with this outcome.
    pub open spec fn last_action(self) -> Action {
        match self {
            Outcome::Dispatched => Action::Dispatch,
            Outcome::Early(response) => Action::Respond(response),
        }
    }
}

impl RequestState {
    /// The stage that acts on a request in this state. Once the log entry is
    /// written, none does.
    pub open spec fn stage(self) -> Option<StageKind> {
        match self {
            RequestState::Received => Some(StageKind::Authentication),
            RequestState::Authenticated => Some(StageKind::CrossOrigin),
            RequestState::CorsCleared => Some(StageKind::Metrics),
            RequestState::Metered => Some(StageKind::Logging),
            RequestState::ShortCircuited(_) => Some(StageKind::Logging),
            RequestState::Logged(_) => None,
            RequestState::Terminal(_) => None,
        }
    }

    /// A bound on the number of steps that are left.
    pub open spec fn distance(self) -> nat {
        match self {
            RequestState::Received => 5,
            RequestState::Authenticated => 4,
            RequestState::CorsCleared => 3,
            RequestState::Metered => 2,
            RequestState::ShortCircuited(_) => 2,
            RequestState::Logged(_) => 1,
            RequestState::Terminal(_) => 0,
        }
    }

    /// The state of a request that has just come in.
    pub fn start() -> (state: RequestState)
        ensures
            state == RequestState::Received,
    {
        RequestState::Received
    }

    /// How the request ended, once it is done.
    pub fn outcome(&self) -> (outcome: Option<Outcome>)
        ensures
            outcome == match *self {
                RequestState::Terminal(end) => Some(end),
                _ => None,
            },
    {
        match self {
            RequestState::Terminal(end) => Some(*end),
            _ => None,
        }
    }
}

/// What the collaborators answer to the given work, for a request of which
/// the authenticator says `credential` and the cross-origin policy `origin`.
pub open spec fn answer(action: Action, credential: AuthVerdict, origin: CorsVerdict) -> Reply {
    match action {
        Action::Authenticate => Reply::Credential(credential),
        Action::EvaluateCrossOrigin => Reply::Origin(origin),
        _ => Reply::Nothing,
    }
}

impl Plan {
    /// The work that is due in the given state. A request that is done asks
    /// for none.
    pub open spec fn pending(self, state: RequestState) -> Option<Action> {
        match state {
            RequestState::Received => Some(
                if self.authentication {
                    Action::Authenticate
                } else {
                    Action::Forward
                },
            ),
            RequestState::Authenticated => Some(
                if self.cross_origin {
                    Action::EvaluateCrossOrigin
                } else {
                    Action::Forward
                },
            ),
            RequestState::CorsCleared => Some(
                if self.metrics {
                    Action::RecordObservation
                } else {
                    Action::Forward
                },
            ),
            RequestState::Metered => Some(Action::WriteLog(Outcome::Dispatched)),
            RequestState::ShortCircuited(response) => Some(
                Action::WriteLog(Outcome::Early(response)),
            ),
            RequestState::Logged(outcome) => Some(outcome.last_action()),
            RequestState::Terminal(_) => None,
        }
    }

    /// The state that follows the given one, once the work that was due has
    /// been answered by `reply`.
    ///
    /// An active gate lets a request pass on the approval of its own
    /// collaborator and on nothing else. A pass-through stage and an observer
    /// hand the request on whatever the reply is. A gate that answers sends
    /// the request straight to the logging stage.
    pub open spec fn next(self, state: RequestState, reply: Reply) -> RequestState {
        match state {
            RequestState::Received => if !self.authentication || reply == Reply::Credential(
                AuthVerdict::Accepted,
            ) {
                RequestState::Authenticated
            } else {
                RequestState::ShortCircuited(EarlyResponse::AuthenticationRejected)
            },
            RequestState::Authenticated => if !self.cross_origin || reply == Reply::Origin(
                CorsVerdict::Allowed,
            ) {
                RequestState::CorsCleared
            } else if reply == Reply::Origin(CorsVerdict::Preflight) {
                RequestState::ShortCircuited(EarlyResponse::CorsPreflight)
            } else {
                RequestState::ShortCircuited(EarlyResponse::CorsRejected)
            },
            RequestState::CorsCleared => RequestState::Metered,
            RequestState::Metered => RequestState::Logged(Outcome::Dispatched),
            RequestState::ShortCircuited(response) => RequestState::Logged(
                Outcome::Early(response),
            ),
            RequestState::Logged(outcome) => RequestState::Terminal(outcome),
            RequestState::Terminal(outcome) => RequestState::Terminal(outcome),
        }
    }

    /// Whether a request with the given credential gets past authentication.
    pub open spec fn admits(self, credential: AuthVerdict) -> bool {
        !self.authentication || credential is Accepted
    }

    /// Whether a request gets past the cross-origin stage, once it is there.
    pub open spec fn clears(self, origin: CorsVerdict) -> bool {
        !self.cross_origin || origin is Allowed
    }

    /// How a request ends of which the authenticator says `credential` and
    /// the cross-origin policy `origin`.
    pub open spec fn outcome(self, credential: AuthVerdict, origin: CorsVerdict) -> Outcome {
        if !self.admits(credential) {
            Outcome::Early(EarlyResponse::AuthenticationRejected)
        } else if self.clears(origin) {
            Outcome::Dispatched
        } else if origin is Preflight {
            Outcome::Early(EarlyResponse::CorsPreflight)
        } else {
            Outcome::Early(EarlyResponse::CorsRejected)
        }
    }

    /// The work that such a request causes, in the order in which it is
    /// done. Pass-through stages cause none.
    pub open spec fn effects(self, credential: AuthVerdict, origin: CorsVerdict) -> Seq<Action> {
        let outcome = self.outcome(credential, origin);
        let authentication = if self.authentication {
            seq![Action::Authenticate]
        } else {
            Seq::empty()
        };
        let cross_origin = if self.cross_origin && self.admits(credential) {
            seq![Action::EvaluateCrossOrigin]
        } else {
            Seq::empty()
        };
        let metrics = if self.metrics && outcome is Dispatched {
            seq![Action::RecordObservation]
        } else {
            Seq::empty()
        };
        authentication + cross_origin + metrics + seq![
            Action::WriteLog(outcome),
            outcome.last_action(),
        ]
    }

    /// The work that is still to be done for a request in the given state,
    /// when each step is answered as [`answer`] says.
    pub open spec fn effects_from(
        self,
        state: RequestState,
        credential: AuthVerdict,
        origin: CorsVerdict,
    ) -> Seq<Action>
        decreases state.distance(),
    {
        match self.pending(state) {
            None => Seq::empty(),
            Some(action) => {
                let rest = self.effects_from(
                    self.next(state, answer(action, credential, origin)),
                    credential,
                    origin,
                );
                if action is Forward {
                    rest
                } else {
                    seq![action] + rest
                }
            },
        }
    }

    /// The state in which a request in the given state comes to rest, when
    /// each step is answered as [`answer`] says.
    pub open spec fn end_from(
        self,
        state: RequestState,
        credential: AuthVerdict,
        origin: CorsVerdict,
    ) -> RequestState
        decreases state.distance(),
    {
        match self.pending(state) {
            None => state,
            Some(action) => self.end_from(
                self.next(state, answer(action, credential, origin)),
                credential,
                origin,
            ),
        }
    }
}

impl<C, M, A> Pipeline<C, M, A> {
    /// The work that is due in the given state: `None` once the request is
    /// done.
    pub fn action(&self, state: RequestState) -> (action: Option<Action>)
        ensures
            action == self@.pending(state),
    {
        let plan = self.plan();
        match state {
            RequestState::Received => Some(
                if plan.authentication {
                    Action::Authenticate
                } else {
                    Action::Forward
                },
            ),
            RequestState::Authenticated => Some(
                if plan.cross_origin {
                    Action::EvaluateCrossOrigin
                } else {
                    Action::Forward
                },
            ),
            RequestState::CorsCleared => Some(
                if plan.metrics {
                    Action::RecordObservation
                } else {
                    Action::Forward
                },
            ),
            RequestState::Metered => Some(Action::WriteLog(Outcome::Dispatched)),
            RequestState::ShortCircuited(response) => Some(
                Action::WriteLog(Outcome::Early(response)),
            ),
            RequestState::Logged(Outcome::Dispatched) => Some(Action::Dispatch),
            RequestState::Logged(Outcome::Early(response)) => Some(Action::Respond(response)),
            RequestState::Terminal(_) => None,
        }
    }

    /// Takes a request one step on: from `state`, with `reply` for what came
    /// of the work that was due there, to the state that follows and the work
    /// that is due next.
    pub fn step(&self, state: RequestState, reply: Reply) -> (after: (
        RequestState,
        Option<Action>,
    ))
        ensures
            after.0 == self@.next(state, reply),
            after.1 == self@.pending(after.0),
    {
        let plan = self.plan();
        let following = match state {
            RequestState::Received => {
                let accepted = match reply {
                    Reply::Credential(AuthVerdict::Accepted) => true,
                    _ => false,
                };
                if !plan.authentication || accepted {
                    RequestState::Authenticated
                } else {
                    RequestState::ShortCircuited(EarlyResponse::AuthenticationRejected)
                }
            },
            RequestState::Authenticated => {
                if !plan.cross_origin {
                    RequestState::CorsCleared
                } else {
                    match reply {
                        Reply::Origin(CorsVerdict::Allowed) => RequestState::CorsCleared,
                        Reply::Origin(CorsVerdict::Preflight) => RequestState::ShortCircuited(
                            EarlyResponse::CorsPreflight,
                        ),
                        _ => RequestState::ShortCircuited(EarlyResponse::CorsRejected),
                    }
                }
            },
            RequestState::CorsCleared => RequestState::Metered,
            RequestState::Metered => RequestState::Logged(Outcome::Dispatched),
            RequestState::ShortCircuited(response) => RequestState::Logged(
                Outcome::Early(response),
            ),
            RequestState::Logged(outcome) => RequestState::Terminal(outcome),
            RequestState::Terminal(outcome) => RequestState::Terminal(outcome),
        };
        (following, self.action(following))
    }

    /// Walks a request through all the stages, for a request of which the
    /// authenticator says `credential` and the cross-origin policy `origin`.
    /// A verdict is only looked at where its stage is active and reached.
    pub fn traverse(&self, credential: AuthVerdict, origin: CorsVerdict) -> (traversal: Traversal)
        ensures
            traversal.outcome == self@.outcome(credential, origin),
            traversal.effects@ == self@.effects(credential, origin),
    {
        let mut state = RequestState::start();
        let mut due = self.action(state);
        let mut effects: Vec<Action> = Vec::new();
        proof {
            crate::laws::lemma_steps_agree(self@, credential, origin);
        }
        while due.is_some()
            invariant
                due == self@.pending(state),
                effects@ + self@.effects_from(state, credential, origin) == self@.effects(
                    credential,
                    origin,
                ),
                self@.end_from(state, credential, origin) == RequestState::Terminal(
                    self@.outcome(credential, origin),
                ),
            decreases state.distance(),
        {
            let action = due.unwrap();
            let reply = reply_to(action, credential, origin);
            let ghost rest = self@.effects_from(self@.next(state, reply), credential, origin);
            match action {
                Action::Forward => {},
                _ => {
                    assert(effects@.push(action) + rest =~= effects@ + (seq![action] + rest));
                    effects.push(action);
                },
            }
            let after = self.step(state, reply);
            state = after.0;
            due = after.1;
        }
        assert(effects@ + Seq::<Action>::empty() =~= effects@);
        match state {
            RequestState::Terminal(outcome) => Traversal { outcome, effects },
            _ => vstd::pervasive::unreached(),
        }
    }
}

/// The reply of the collaborators to the given work, for a request of which
/// the authenticator says `credential` and the cross-origin policy `origin`.
pub fn reply_to(action: Action, credential: AuthVerdict, origin: CorsVerdict) -> (reply: Reply)
    ensures
        reply == answer(action, credential, origin),
{
    match action {
        Action::Authenticate => Reply::Credential(credential),
        Action::EvaluateCrossOrigin => Reply::Origin(origin),
        _ => Reply::Nothing,
    }
}

/// The whole path of one request.
#[derive(Debug, PartialEq, Eq)]
pub struct Traversal {
    /// How the request ended.
    pub outcome: Outcome,
    /// The work that the request caused, in the order in which it was done.
    pub effects: Vec<Action>,
}

} // verus!
