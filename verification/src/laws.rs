//! What holds of every pipeline and of every request.

use crate::app::{AppOptions, Pipeline, Plan};
use crate::request::{
    Action, AuthVerdict, CorsVerdict, EarlyResponse, Outcome, Reply, RequestState,
};
use crate::stage::{stage_order, StageKind};
use vstd::prelude::*;

verus! {

/// The active stages of a plan are the stages of [`stage_order`] that the
/// plan includes, in that order: a concern that is switched off leaves the
/// order of the others as it was.
pub proof fn lemma_stages_follow_order(plan: Plan)
    ensures
        plan.stages() == stage_order().filter(|kind: StageKind| plan.includes(kind)),
        forall|kind: StageKind| plan.stages().contains(kind) <==> plan.includes(kind),
        forall|i: int, j: int|
            0 <= i < j < plan.stages().len() ==> plan.stages()[i].position()
                < plan.stages()[j].position(),
{
    let keep = |kind: StageKind| plan.includes(kind);
    let all = stage_order();
    reveal_with_fuel(Seq::filter, 5);
    assert(all.drop_last().drop_last().drop_last().drop_last() =~= Seq::empty());
    assert(all.drop_last().drop_last().drop_last() =~= seq![StageKind::Authentication]);
    assert(all.drop_last().drop_last() =~= seq![
        StageKind::Authentication,
        StageKind::CrossOrigin,
    ]);
    assert(all.drop_last() =~= seq![
        StageKind::Authentication,
        StageKind::CrossOrigin,
        StageKind::Metrics,
    ]);
    assert(all.filter(keep) =~= plan.stages());
    assert forall|kind: StageKind| plan.stages().contains(kind) <==> plan.includes(kind) by {
        let stages = plan.stages();
        if plan.includes(kind) {
            match kind {
                StageKind::Authentication => {
                    assert(stages[0] == kind);
                },
                StageKind::CrossOrigin => {
                    assert(stages[if plan.authentication { 1int } else { 0int }] == kind);
                },
                StageKind::Metrics => {
                    assert(stages[stages.len() - 2] == kind);
                },
                StageKind::Logging => {
                    assert(stages[stages.len() - 1] == kind);
                },
            }
        }
    }
}

/// The steps follow the order of the stages. A request starts before the
/// first stage of [`stage_order`]. A stage asks for work exactly when the plan
/// includes it. A stage that lets the request pass hands it to the stage that
/// comes next in the order, only an active gate can answer in its place, and
/// after the logging stage no stage is left.
pub proof fn lemma_steps_follow_stage_order(plan: Plan, state: RequestState, reply: Reply)
    ensures
        RequestState::Received.stage() == Some(stage_order()[0]),
        state.stage() matches Some(kind) ==> {
            let after = plan.next(state, reply);
            &&& (plan.pending(state) == Some(Action::Forward)) == !plan.includes(kind)
            &&& after is ShortCircuited ==> kind.is_gate() && plan.includes(kind)
            &&& !(after is ShortCircuited) && !(kind is Logging) ==> after.stage() == Some(
                stage_order()[kind.position() as int + 1],
            )
            &&& kind is Logging ==> after is Logged
        },
{
}

/// Taking a request through the stages step by step, each step answered by
/// the collaborators, causes the work that [`Plan::effects`] lists and ends as
/// [`Plan::outcome`] says.
pub proof fn lemma_steps_agree(plan: Plan, credential: AuthVerdict, origin: CorsVerdict)
    ensures
        plan.effects_from(RequestState::Received, credential, origin) == plan.effects(
            credential,
            origin,
        ),
        plan.end_from(RequestState::Received, credential, origin) == RequestState::Terminal(
            plan.outcome(credential, origin),
        ),
{
    let logged = plan.outcome(credential, origin);
    let done = RequestState::Terminal(logged);
    assert(plan.effects_from(done, credential, origin) =~= Seq::empty());
    assert(plan.end_from(done, credential, origin) == done);
    let written = RequestState::Logged(logged);
    assert(plan.effects_from(written, credential, origin) =~= seq![logged.last_action()]);
    assert(plan.end_from(written, credential, origin) == done);
    let tail = seq![Action::WriteLog(logged), logged.last_action()];
    match logged {
        Outcome::Dispatched => {
            let metered = RequestState::Metered;
            assert(plan.effects_from(metered, credential, origin) =~= tail);
            assert(plan.end_from(metered, credential, origin) == done);
            let cleared = RequestState::CorsCleared;
            assert(plan.effects_from(cleared, credential, origin) =~= if plan.metrics {
                seq![Action::RecordObservation] + tail
            } else {
                tail
            });
            assert(plan.end_from(cleared, credential, origin) == done);
        },
        Outcome::Early(response) => {
            let halted = RequestState::ShortCircuited(response);
            assert(plan.effects_from(halted, credential, origin) =~= tail);
            assert(plan.end_from(halted, credential, origin) == done);
        },
    }
    if plan.admits(credential) {
        let authenticated = RequestState::Authenticated;
        assert(plan.effects_from(authenticated, credential, origin) =~= if plan.cross_origin {
            seq![Action::EvaluateCrossOrigin]
        } else {
            Seq::empty()
        } + if plan.metrics && logged is Dispatched {
            seq![Action::RecordObservation]
        } else {
            Seq::empty()
        } + tail);
        assert(plan.end_from(authenticated, credential, origin) == done);
    }
    assert(plan.effects_from(RequestState::Received, credential, origin) =~= plan.effects(
        credential,
        origin,
    ));
}

/// Every request is logged, whatever the pipeline holds and however the
/// request ends: its work ends with the one log entry, which tells the
/// outcome, and then the response. The application is reached exactly when the
/// outcome says so.
pub proof fn lemma_every_request_is_logged(
    plan: Plan,
    credential: AuthVerdict,
    origin: CorsVerdict,
)
    ensures
        ({
            let outcome = plan.outcome(credential, origin);
            let effects = plan.effects(credential, origin);
            &&& 2 <= effects.len() <= 5
            &&& effects[effects.len() - 2] == Action::WriteLog(outcome)
            &&& effects.last() == outcome.last_action()
            &&& effects.contains(Action::WriteLog(outcome))
            &&& forall|i: int|
                0 <= i < effects.len() && effects[i] is WriteLog ==> i == effects.len() - 2
            &&& effects.contains(Action::Dispatch) <==> outcome is Dispatched
        }),
{
    let outcome = plan.outcome(credential, origin);
    let effects = plan.effects(credential, origin);
    let last: int = effects.len() - 1;
    assert(effects[last - 1] == Action::WriteLog(outcome));
    assert(effects[last] == outcome.last_action());
}

/// The metrics stage sees exactly the requests that reach the application:
/// an observation is recorded when, and only when, the stage is active and
/// both gates let the request pass.
pub proof fn lemma_measured_iff_dispatched(
    plan: Plan,
    credential: AuthVerdict,
    origin: CorsVerdict,
)
    ensures
        plan.effects(credential, origin).contains(Action::RecordObservation) <==> plan.metrics
            && plan.outcome(credential, origin) is Dispatched,
{
    let effects = plan.effects(credential, origin);
    if plan.metrics && plan.outcome(credential, origin) is Dispatched {
        assert(effects[effects.len() - 3] == Action::RecordObservation);
    }
}

/// The observers do not decide. No reply to the work of the metrics or the
/// logging stage changes where the request goes next, and a pipeline with the
/// metrics stage ends every request as the same pipeline without it does.
pub proof fn lemma_observers_never_decide(
    plan: Plan,
    credential: AuthVerdict,
    origin: CorsVerdict,
    state: RequestState,
    first: Reply,
    second: Reply,
)
    ensures
        !(state is Received || state is Authenticated) ==> plan.next(state, first) == plan.next(
            state,
            second,
        ),
        (Plan { metrics: !plan.metrics, ..plan }).outcome(credential, origin) == plan.outcome(
            credential,
            origin,
        ),
{
}

/// A gate that answers ends the path of the request. Whatever the replies
/// are, only the logging stage still acts, and the response goes out as the
/// gate gave it.
pub proof fn lemma_short_circuit_leads_to_logger(
    plan: Plan,
    response: EarlyResponse,
    first: Reply,
    second: Reply,
)
    ensures
        ({
            let answered = RequestState::ShortCircuited(response);
            let logged = RequestState::Logged(Outcome::Early(response));
            &&& plan.pending(answered) == Some(Action::WriteLog(Outcome::Early(response)))
            &&& plan.next(answered, first) == logged
            &&& plan.pending(logged) == Some(Action::Respond(response))
            &&& plan.next(logged, second) == RequestState::Terminal(Outcome::Early(response))
        }),
{
}

/// A pass-through stage hands every request on: where a gate is not
/// configured, no reply keeps a request from passing it.
pub proof fn lemma_pass_through_forwards(plan: Plan, reply: Reply)
    ensures
        !plan.authentication ==> plan.pending(RequestState::Received) == Some(Action::Forward)
            && plan.next(RequestState::Received, reply) == RequestState::Authenticated,
        !plan.cross_origin ==> plan.pending(RequestState::Authenticated) == Some(Action::Forward)
            && plan.next(RequestState::Authenticated, reply) == RequestState::CorsCleared,
        !plan.metrics ==> plan.pending(RequestState::CorsCleared) == Some(Action::Forward),
{
}

/// With an authenticator and without a cross-origin policy, a request with
/// an invalid credential never reaches the application, and the logger still
/// sees it: the entry tells that authentication turned the request away.
pub proof fn lemma_invalid_credential_stopped_and_logged<C, M, A>(
    options: AppOptions<C, M, A>,
    origin: CorsVerdict,
)
    requires
        options.authenticator is Some,
        options.cors is None,
    ensures
        ({
            let plan = options.plan();
            let rejected = Outcome::Early(EarlyResponse::AuthenticationRejected);
            let effects = plan.effects(AuthVerdict::Rejected, origin);
            &&& plan.outcome(AuthVerdict::Rejected, origin) == rejected
            &&& !effects.contains(Action::Dispatch)
            &&& effects.contains(Action::WriteLog(rejected))
            &&& effects == seq![
                Action::Authenticate,
                Action::WriteLog(rejected),
                Action::Respond(EarlyResponse::AuthenticationRejected),
            ]
        }),
{
    let plan = options.plan();
    let rejected = Outcome::Early(EarlyResponse::AuthenticationRejected);
    let effects = plan.effects(AuthVerdict::Rejected, origin);
    assert(effects =~= seq![
        Action::Authenticate,
        Action::WriteLog(rejected),
        Action::Respond(EarlyResponse::AuthenticationRejected),
    ]);
    assert(effects[1] == Action::WriteLog(rejected));
}

/// With every optional concern absent, the pipeline does what a logger
/// around the application does: each request is logged, then dispatched, and
/// nothing else happens.
pub proof fn lemma_bare_pipeline_logs_then_dispatches<C, M, A>(
    options: AppOptions<C, M, A>,
    credential: AuthVerdict,
    origin: CorsVerdict,
)
    requires
        options.authenticator is None,
        options.cors is None,
        options.metrics is None,
    ensures
        options.plan().outcome(credential, origin) == Outcome::Dispatched,
        options.plan().effects(credential, origin) == seq![
            Action::WriteLog(Outcome::Dispatched),
            Action::Dispatch,
        ],
{
    assert(options.plan().effects(credential, origin) =~= seq![
        Action::WriteLog(Outcome::Dispatched),
        Action::Dispatch,
    ]);
}

/// Building twice from the same options gives the same pipeline twice, so
/// every request fares the same with both.
pub proof fn lemma_construction_is_repeatable<C, M, A>(
    options: AppOptions<C, M, A>,
    first: Pipeline<C, M, A>,
    second: Pipeline<C, M, A>,
    credential: AuthVerdict,
    origin: CorsVerdict,
)
    requires
        first.built_from(options),
        second.built_from(options),
    ensures
        first == second,
        first@ == options.plan(),
        first@.outcome(credential, origin) == second@.outcome(credential, origin),
        first@.effects(credential, origin) == second@.effects(credential, origin),
{
    first.lemma_stages_determine(second);
}

/// Whatever the options are, a request that fails authentication causes no
/// metrics observation, and it causes a log entry, which tells that
/// authentication turned the request away.
pub proof fn lemma_failed_authentication_logged_not_measured<C, M, A>(
    options: AppOptions<C, M, A>,
    credential: AuthVerdict,
    origin: CorsVerdict,
)
    requires
        !options.plan().admits(credential),
    ensures
        ({
            let rejected = Outcome::Early(EarlyResponse::AuthenticationRejected);
            let effects = options.plan().effects(credential, origin);
            &&& options.plan().outcome(credential, origin) == rejected
            &&& !effects.contains(Action::RecordObservation)
            &&& !effects.contains(Action::EvaluateCrossOrigin)
            &&& effects.contains(Action::WriteLog(rejected))
        }),
{
    lemma_every_request_is_logged(options.plan(), credential, origin);
    lemma_measured_iff_dispatched(options.plan(), credential, origin);
}

/// Whatever the options are, a request that gets past authentication and
/// then does not clear the cross-origin stage causes no metrics observation
/// and does not reach the application, and it causes a log entry, which tells
/// what the cross-origin stage answered: a rejection where the policy denies
/// the request.
pub proof fn lemma_failed_cross_origin_logged_not_measured<C, M, A>(
    options: AppOptions<C, M, A>,
    credential: AuthVerdict,
    origin: CorsVerdict,
)
    requires
        options.plan().admits(credential),
        !options.plan().clears(origin),
    ensures
        ({
            let outcome = options.plan().outcome(credential, origin);
            let effects = options.plan().effects(credential, origin);
            &&& origin is Denied ==> outcome == Outcome::Early(EarlyResponse::CorsRejected)
            &&& origin is Preflight ==> outcome == Outcome::Early(EarlyResponse::CorsPreflight)
            &&& !effects.contains(Action::RecordObservation)
            &&& !effects.contains(Action::Dispatch)
            &&& effects.contains(Action::WriteLog(outcome))
        }),
{
    lemma_every_request_is_logged(options.plan(), credential, origin);
    lemma_measured_iff_dispatched(options.plan(), credential, origin);
}

} // verus!
