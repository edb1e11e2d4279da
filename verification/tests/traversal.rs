use infrastructure::app::{new_app, AppOptions, Pipeline, Plan};
use infrastructure::request::{
    reply_to, Action, AuthVerdict, CorsVerdict, EarlyResponse, Outcome, Reply, RequestState,
    Traversal,
};

const CREDENTIALS: [AuthVerdict; 2] = [AuthVerdict::Accepted, AuthVerdict::Rejected];

const ORIGINS: [CorsVerdict; 3] =
    [CorsVerdict::Allowed, CorsVerdict::Preflight, CorsVerdict::Denied];

fn build(plan: Plan) -> Pipeline<u8, u16, u32> {
    new_app(AppOptions {
        cors: if plan.cross_origin { Some(1) } else { None },
        metrics: if plan.metrics { Some(2) } else { None },
        authenticator: if plan.authentication { Some(3) } else { None },
    })
}

fn plans() -> Vec<Plan> {
    let mut plans = Vec::new();
    for bits in 0..8u8 {
        plans.push(Plan {
            authentication: bits & 1 != 0,
            cross_origin: bits & 2 != 0,
            metrics: bits & 4 != 0,
        });
    }
    plans
}

fn count(effects: &[Action], wanted: fn(&Action) -> bool) -> usize {
    effects.iter().filter(|action| wanted(action)).count()
}

fn is_observation(action: &Action) -> bool {
    matches!(action, Action::RecordObservation)
}

fn is_log_entry(action: &Action) -> bool {
    matches!(action, Action::WriteLog(_))
}

#[test]
fn valid_credential_without_cors_is_measured_logged_and_dispatched() {
    let pipeline = new_app(AppOptions {
        cors: None::<&str>,
        metrics: Some("registry"),
        authenticator: Some("openid"),
    });
        let traversal = pipeline.traverse(AuthVerdict::Accepted, CorsVerdict::Denied);
    assert_eq!(traversal.outcome, Outcome::Dispatched);
    assert_eq!(
        traversal.effects,
        vec![
            Action::Authenticate,
            Action::RecordObservation,
            Action::WriteLog(Outcome::Dispatched),
            Action::Dispatch,
        ]
    );
    assert_eq!(count(&traversal.effects, is_observation), 1);

    let mut state = RequestState::start();
    let mut seen = vec![(state, pipeline.action(state))];
    while let Some(action) = pipeline.action(state) {
        let (next, _) = pipeline.step(state, reply_to(action, AuthVerdict::Accepted, CorsVerdict::Denied));
        state = next;
        seen.push((state, pipeline.action(state)));
    }
    assert_eq!(
        seen,
        vec![
            (RequestState::Received, Some(Action::Authenticate)),
            (RequestState::Authenticated, Some(Action::Forward)),
            (RequestState::CorsCleared, Some(Action::RecordObservation)),
            (RequestState::Metered, Some(Action::WriteLog(Outcome::Dispatched))),
            (RequestState::Logged(Outcome::Dispatched), Some(Action::Dispatch)),
            (RequestState::Terminal(Outcome::Dispatched), None),
        ]
    );
}

#[test]
fn deny_all_cors_without_authenticator_rejects_and_logs() {
    let pipeline = new_app(AppOptions {
        cors: Some("deny-all"),
        metrics: Some("registry"),
        authenticator: None::<&str>,
    });
        let rejected = Outcome::Early(EarlyResponse::CorsRejected);
    for credential in CREDENTIALS {
        let traversal = pipeline.traverse(credential, CorsVerdict::Denied);
        assert_eq!(traversal.outcome, rejected);
        assert_eq!(
            traversal.effects,
            vec![
                Action::EvaluateCrossOrigin,
                Action::WriteLog(rejected),
                Action::Respond(EarlyResponse::CorsRejected),
            ]
        );
        assert_eq!(count(&traversal.effects, is_observation), 0);
    }

    let (state, action) = pipeline.step(RequestState::Received, Reply::Nothing);
    assert_eq!((state, action), (RequestState::Authenticated, Some(Action::EvaluateCrossOrigin)));
    let (state, action) = pipeline.step(state, Reply::Origin(CorsVerdict::Denied));
    assert_eq!(state, RequestState::ShortCircuited(EarlyResponse::CorsRejected));
    assert_eq!(action, Some(Action::WriteLog(rejected)));
    let (state, action) = pipeline.step(state, Reply::Nothing);
    assert_eq!(state, RequestState::Logged(rejected));
    assert_eq!(action, Some(Action::Respond(EarlyResponse::CorsRejected)));
    let (state, action) = pipeline.step(state, Reply::Nothing);
    assert_eq!((state, action), (RequestState::Terminal(rejected), None));
}

#[test]
fn invalid_credential_never_reaches_the_application() {
    let rejected = Outcome::Early(EarlyResponse::AuthenticationRejected);
    for metrics in [false, true] {
        let pipeline = build(Plan { authentication: true, cross_origin: false, metrics });
        for origin in ORIGINS {
            let traversal = pipeline.traverse(AuthVerdict::Rejected, origin);
            assert_eq!(
                traversal,
                Traversal {
                    outcome: rejected,
                    effects: vec![
                        Action::Authenticate,
                        Action::WriteLog(rejected),
                        Action::Respond(EarlyResponse::AuthenticationRejected),
                    ],
                }
            );
            assert!(!traversal.effects.contains(&Action::Dispatch));
        }
    }
}

#[test]
fn bare_pipeline_logs_then_dispatches() {
    let pipeline = new_app(AppOptions::<u8, u8, u8>::default());
    for credential in CREDENTIALS {
        for origin in ORIGINS {
            assert_eq!(
                pipeline.traverse(credential, origin),
                Traversal {
                    outcome: Outcome::Dispatched,
                    effects: vec![Action::WriteLog(Outcome::Dispatched), Action::Dispatch],
                }
            );
        }
    }
}

#[test]
fn failed_authentication_is_logged_and_not_measured() {
    let rejected = Outcome::Early(EarlyResponse::AuthenticationRejected);
    for plan in plans() {
        let pipeline = build(plan);
        if !plan.authentication {
            continue;
        }
        for origin in ORIGINS {
            let traversal = pipeline.traverse(AuthVerdict::Rejected, origin);
            assert_eq!(traversal.outcome, rejected);
            assert_eq!(count(&traversal.effects, is_observation), 0);
            assert!(!traversal.effects.contains(&Action::EvaluateCrossOrigin));
            assert!(traversal.effects.contains(&Action::WriteLog(rejected)));
        }
    }
}

#[test]
fn failed_cross_origin_is_logged_and_not_measured() {
    let rejected = Outcome::Early(EarlyResponse::CorsRejected);
    for plan in plans() {
        let pipeline = build(plan);
        if !plan.cross_origin {
            continue;
        }
        for credential in CREDENTIALS {
            if plan.authentication && credential == AuthVerdict::Rejected {
                continue;
            }
            let traversal = pipeline.traverse(credential, CorsVerdict::Denied);
            assert_eq!(traversal.outcome, rejected);
            assert_eq!(count(&traversal.effects, is_observation), 0);
            assert!(!traversal.effects.contains(&Action::Dispatch));
            assert!(traversal.effects.contains(&Action::WriteLog(rejected)));
        }
    }
}

#[test]
fn preflight_is_answered_by_the_cross_origin_stage() {
    let pipeline = build(Plan { authentication: true, cross_origin: true, metrics: true });
    let answered = Outcome::Early(EarlyResponse::CorsPreflight);
    assert_eq!(
        pipeline.traverse(AuthVerdict::Accepted, CorsVerdict::Preflight),
        Traversal {
            outcome: answered,
            effects: vec![
                Action::Authenticate,
                Action::EvaluateCrossOrigin,
                Action::WriteLog(answered),
                Action::Respond(EarlyResponse::CorsPreflight),
            ],
        }
    );
}

#[test]
fn preflight_without_credential_is_stopped_by_authentication() {
    let pipeline = build(Plan { authentication: true, cross_origin: true, metrics: false });
    assert_eq!(
        pipeline.traverse(AuthVerdict::Rejected, CorsVerdict::Preflight).outcome,
        Outcome::Early(EarlyResponse::AuthenticationRejected)
    );
}

#[test]
fn full_pipeline_passes_a_good_request_through_every_stage() {
    let pipeline = build(Plan { authentication: true, cross_origin: true, metrics: true });
    assert_eq!(
        pipeline.traverse(AuthVerdict::Accepted, CorsVerdict::Allowed),
        Traversal {
            outcome: Outcome::Dispatched,
            effects: vec![
                Action::Authenticate,
                Action::EvaluateCrossOrigin,
                Action::RecordObservation,
                Action::WriteLog(Outcome::Dispatched),
                Action::Dispatch,
            ],
        }
    );
}

#[test]
fn every_request_is_logged_exactly_once() {
    for plan in plans() {
        let pipeline = build(plan);
        for credential in CREDENTIALS {
            for origin in ORIGINS {
                let traversal = pipeline.traverse(credential, origin);
                let effects = &traversal.effects;
                assert_eq!(count(effects, is_log_entry), 1);
                assert_eq!(effects[effects.len() - 2], Action::WriteLog(traversal.outcome));
                assert_eq!(
                    effects.contains(&Action::Dispatch),
                    traversal.outcome == Outcome::Dispatched
                );
            }
        }
    }
}

#[test]
fn metrics_never_change_the_outcome() {
    for plan in plans() {
        let other = Plan { metrics: !plan.metrics, ..plan };
        for credential in CREDENTIALS {
            for origin in ORIGINS {
                let with = build(plan).traverse(credential, origin);
                let without = build(other).traverse(credential, origin);
                assert_eq!(with.outcome, without.outcome);
                let measured = plan.metrics && with.outcome == Outcome::Dispatched;
                assert_eq!(count(&with.effects, is_observation), usize::from(measured));
            }
        }
    }
}

#[test]
fn traverse_agrees_with_stepping() {
    for plan in plans() {
        let pipeline = build(plan);
        for credential in CREDENTIALS {
            for origin in ORIGINS {
                let mut state = RequestState::start();
                let mut effects = Vec::new();
                let mut steps = 0;
                while let Some(action) = pipeline.action(state) {
                    if action != Action::Forward {
                        effects.push(action);
                    }
                    let (next, due) = pipeline.step(state, reply_to(action, credential, origin));
                    assert_eq!(due, pipeline.action(next));
                    state = next;
                    steps += 1;
                }
                assert!(steps <= 5);
                let traversal = pipeline.traverse(credential, origin);
                assert_eq!(state.outcome(), Some(traversal.outcome));
                assert_eq!(effects, traversal.effects);
            }
        }
    }
}

#[test]
fn reply_to_gives_each_gate_its_own_verdict() {
    assert_eq!(
        reply_to(Action::Authenticate, AuthVerdict::Rejected, CorsVerdict::Allowed),
        Reply::Credential(AuthVerdict::Rejected)
    );
    assert_eq!(
        reply_to(Action::EvaluateCrossOrigin, AuthVerdict::Rejected, CorsVerdict::Preflight),
        Reply::Origin(CorsVerdict::Preflight)
    );
    for action in [
        Action::Forward,
        Action::RecordObservation,
        Action::WriteLog(Outcome::Dispatched),
        Action::Dispatch,
        Action::Respond(EarlyResponse::CorsRejected),
    ] {
        assert_eq!(reply_to(action, AuthVerdict::Accepted, CorsVerdict::Allowed), Reply::Nothing);
    }
}

#[test]
fn active_authentication_passes_only_an_accepted_credential() {
    let pipeline = build(Plan { authentication: true, cross_origin: false, metrics: false });
    assert_eq!(
        pipeline.step(RequestState::Received, Reply::Credential(AuthVerdict::Accepted)).0,
        RequestState::Authenticated
    );
    for reply in [
        Reply::Nothing,
        Reply::Credential(AuthVerdict::Rejected),
        Reply::Origin(CorsVerdict::Allowed),
    ] {
        assert_eq!(
            pipeline.step(RequestState::Received, reply).0,
            RequestState::ShortCircuited(EarlyResponse::AuthenticationRejected)
        );
    }
}

#[test]
fn active_cross_origin_passes_only_an_allowed_request() {
    let pipeline = build(Plan { authentication: false, cross_origin: true, metrics: false });
    assert_eq!(
        pipeline.step(RequestState::Authenticated, Reply::Origin(CorsVerdict::Allowed)).0,
        RequestState::CorsCleared
    );
    assert_eq!(
        pipeline.step(RequestState::Authenticated, Reply::Origin(CorsVerdict::Preflight)).0,
        RequestState::ShortCircuited(EarlyResponse::CorsPreflight)
    );
    for reply in [
        Reply::Nothing,
        Reply::Origin(CorsVerdict::Denied),
        Reply::Credential(AuthVerdict::Accepted),
    ] {
        assert_eq!(
            pipeline.step(RequestState::Authenticated, reply).0,
            RequestState::ShortCircuited(EarlyResponse::CorsRejected)
        );
    }
}

#[test]
fn pass_through_stages_forward_whatever_the_reply() {
    let pipeline = build(Plan { authentication: false, cross_origin: false, metrics: false });
    assert_eq!(pipeline.action(RequestState::Received), Some(Action::Forward));
    assert_eq!(pipeline.action(RequestState::Authenticated), Some(Action::Forward));
    assert_eq!(pipeline.action(RequestState::CorsCleared), Some(Action::Forward));
    for reply in [
        Reply::Nothing,
        Reply::Credential(AuthVerdict::Rejected),
        Reply::Origin(CorsVerdict::Denied),
    ] {
        assert_eq!(pipeline.step(RequestState::Received, reply).0, RequestState::Authenticated);
        assert_eq!(pipeline.step(RequestState::Authenticated, reply).0, RequestState::CorsCleared);
        assert_eq!(pipeline.step(RequestState::CorsCleared, reply).0, RequestState::Metered);
    }
}

#[test]
fn observers_go_on_whatever_the_reply() {
    let pipeline = build(Plan { authentication: true, cross_origin: true, metrics: true });
    let rejected = EarlyResponse::AuthenticationRejected;
    for reply in [
        Reply::Nothing,
        Reply::Credential(AuthVerdict::Rejected),
        Reply::Origin(CorsVerdict::Denied),
    ] {
        assert_eq!(pipeline.step(RequestState::CorsCleared, reply).0, RequestState::Metered);
        assert_eq!(
            pipeline.step(RequestState::Metered, reply).0,
            RequestState::Logged(Outcome::Dispatched)
        );
        assert_eq!(
            pipeline.step(RequestState::ShortCircuited(rejected), reply).0,
            RequestState::Logged(Outcome::Early(rejected))
        );
        assert_eq!(
            pipeline.step(RequestState::Logged(Outcome::Early(rejected)), reply).0,
            RequestState::Terminal(Outcome::Early(rejected))
        );
    }
}

#[test]
fn a_finished_request_stays_finished() {
    let pipeline = build(Plan { authentication: true, cross_origin: true, metrics: true });
    let done = RequestState::Terminal(Outcome::Dispatched);
    assert_eq!(pipeline.action(done), None);
    assert_eq!(pipeline.step(done, Reply::Credential(AuthVerdict::Rejected)), (done, None));
}

#[test]
fn outcome_is_known_only_at_the_end() {
    assert_eq!(RequestState::start(), RequestState::Received);
    assert_eq!(RequestState::Received.outcome(), None);
    assert_eq!(RequestState::Metered.outcome(), None);
    assert_eq!(RequestState::Logged(Outcome::Dispatched).outcome(), None);
    assert_eq!(
        RequestState::Terminal(Outcome::Early(EarlyResponse::CorsPreflight)).outcome(),
        Some(Outcome::Early(EarlyResponse::CorsPreflight))
    );
}
