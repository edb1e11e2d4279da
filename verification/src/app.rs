//! The configuration of a pipeline, and the pipeline built from it.

use crate::stage::{stage_order, Stage, StageKind};
use vstd::prelude::*;

verus! {

/// What a pipeline is built from. Each field is a setting of one optional
/// concern, and a concern takes part exactly when its setting is present.
/// Logging has no setting: it always takes part.
pub struct AppOptions<C, M, A> {
    /// The cross-origin policy.
    pub cors: Option<C>,
    /// The handle of the metrics collector.
    pub metrics: Option<M>,
    /// The handle of the authenticator.
    pub authenticator: Option<A>,
}

impl<C, M, A> AppOptions<C, M, A> {
    /// The stages that a pipeline built from these options lets take part.
    pub open spec fn plan(self) -> Plan {
        Plan {
            authentication: self.authenticator is Some,
            cross_origin: self.cors is Some,
            metrics: self.metrics is Some,
        }
    }
}

impl<C, M, A> Default for AppOptions<C, M, A> {
    /// The options with every optional concern absent.
    fn default() -> (options: Self)
        ensures
            options.cors is None,
            options.metrics is None,
            options.authenticator is None,
    {
        AppOptions { cors: None, metrics: None, authenticator: None }
    }
}

/// Which stages of a pipeline are active. Logging always is, so it has no
/// field.
#[derive(Clone, Copy, Debug, PartialEq, Eq, Structural)]
pub struct Plan {
    /// Whether requests must present a valid bearer credential.
    pub authentication: bool,
    /// Whether requests are held against a cross-origin policy.
    pub cross_origin: bool,
    /// Whether requests that reach the application are measured.
    pub metrics: bool,
}

impl Plan {
    /// Whether the stage of the given kind is active.
    pub open spec fn includes(self, kind: StageKind) -> bool {
        match kind {
            StageKind::Authentication => self.authentication,
            StageKind::CrossOrigin => self.cross_origin,
            StageKind::Metrics => self.metrics,
            StageKind::Logging => true,
        }
    }

    /// The active stages in the order in which they act on a request.
    pub open spec fn stages(self) -> Seq<StageKind> {
        let authentication = if self.authentication {
            seq![StageKind::Authentication]
        } else {
            Seq::empty()
        };
        let cross_origin = if self.cross_origin {
            seq![StageKind::CrossOrigin]
        } else {
            Seq::empty()
        };
        let metrics = if self.metrics {
            seq![StageKind::Metrics]
        } else {
            Seq::empty()
        };
        authentication + cross_origin + metrics + seq![StageKind::Logging]
    }
}

/// The four stages that every request passes, in the order of
/// [`stage_order`]. A pipeline owns its stages and offers no way to change
/// them: another configuration takes another pipeline.
#[derive(Debug)]
pub struct Pipeline<C, M, A> {
    authentication: Stage<A>,
    cross_origin: Stage<C>,
    metrics: Stage<M>,
}

impl<C, M, A> View for Pipeline<C, M, A> {
    type V = Plan;

    /// A pipeline is seen as the plan of its active stages.
    open spec fn view(&self) -> Plan {
        Plan {
            authentication: self.authentication() is Active,
            cross_origin: self.cross_origin() is Active,
            metrics: self.metrics() is Active,
        }
    }
}

impl<C, M, A> Pipeline<C, M, A> {
    /// The first stage.
    pub closed spec fn authentication(self) -> Stage<A> {
        self.authentication
    }

    /// The second stage.
    pub closed spec fn cross_origin(self) -> Stage<C> {
        self.cross_origin
    }

    /// The third stage.
    pub closed spec fn metrics(self) -> Stage<M> {
        self.metrics
    }

    /// Whether each optional stage is the one that the options stand for.
    pub open spec fn built_from(self, options: AppOptions<C, M, A>) -> bool {
        &&& self.authentication() == Stage::of(options.authenticator)
        &&& self.cross_origin() == Stage::of(options.cors)
        &&& self.metrics() == Stage::of(options.metrics)
    }

    /// The stages are what the pipeline is: two pipelines with the same
    /// stages are the same pipeline.
    pub proof fn lemma_stages_determine(self, other: Self)
        requires
            self.authentication() == other.authentication(),
            self.cross_origin() == other.cross_origin(),
            self.metrics() == other.metrics(),
        ensures
            self == other,
    {
    }

    /// Which stages are active.
    pub fn plan(&self) -> (plan: Plan)
        ensures
            plan == self@,
    {
        Plan {
            authentication: self.authentication.is_active(),
            cross_origin: self.cross_origin.is_active(),
            metrics: self.metrics.is_active(),
        }
    }

    /// The authentication stage.
    pub fn authentication_stage(&self) -> (stage: &Stage<A>)
        ensures
            *stage == self.authentication(),
    {
        &self.authentication
    }

    /// The cross-origin stage.
    pub fn cross_origin_stage(&self) -> (stage: &Stage<C>)
        ensures
            *stage == self.cross_origin(),
    {
        &self.cross_origin
    }

    /// The metrics stage.
    pub fn metrics_stage(&self) -> (stage: &Stage<M>)
        ensures
            *stage == self.metrics(),
    {
        &self.metrics
    }

    /// Whether the stage of the given kind is active.
    pub fn is_active(&self, kind: StageKind) -> (active: bool)
        ensures
            active == self@.includes(kind),
    {
        match kind {
            StageKind::Authentication => self.authentication.is_active(),
            StageKind::CrossOrigin => self.cross_origin.is_active(),
            StageKind::Metrics => self.metrics.is_active(),
            StageKind::Logging => true,
        }
    }

    /// The active stages in the order in which they act on a request.
    pub fn active_stages(&self) -> (kinds: Vec<StageKind>)
        ensures
            kinds@ == self@.stages(),
    {
        let mut kinds: Vec<StageKind> = Vec::new();
        if self.authentication.is_active() {
            kinds.push(StageKind::Authentication);
        }
        if self.cross_origin.is_active() {
            kinds.push(StageKind::CrossOrigin);
        }
        if self.metrics.is_active() {
            kinds.push(StageKind::Metrics);
        }
        kinds.push(StageKind::Logging);
        assert(kinds@ =~= self@.stages());
        kinds
    }

    /// Takes the pipeline apart into its optional stages, in the order in
    /// which they act.
    pub fn into_stages(self) -> (stages: (Stage<A>, Stage<C>, Stage<M>))
        ensures
            stages.0 == self.authentication(),
            stages.1 == self.cross_origin(),
            stages.2 == self.metrics(),
    {
        (self.authentication, self.cross_origin, self.metrics)
    }
}

/// Builds the pipeline for the given options.
///
/// Every combination of present and absent settings is accepted. A present
/// setting gives an active stage that holds it, an absent one the
/// pass-through stage, and the stages stand in the order of [`stage_order`]
/// whatever the options are.
pub fn new_app<C, M, A>(options: AppOptions<C, M, A>) -> (pipeline: Pipeline<C, M, A>)
    ensures
        pipeline.built_from(options),
        pipeline@ == options.plan(),
        pipeline@.stages() == stage_order().filter(|kind: StageKind| options.plan().includes(kind)),
{
    let authentication = Stage::from_option(options.authenticator);
    let cross_origin = Stage::from_option(options.cors);
    let metrics = Stage::from_option(options.metrics);
    proof {
        crate::laws::lemma_stages_follow_order(options.plan());
    }
    Pipeline { authentication, cross_origin, metrics }
}

} // verus!
