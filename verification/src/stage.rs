//! Stages: the links of the request pipeline.

use vstd::prelude::*;

verus! {

/// The concerns that a pipeline can hold.
#[derive(Clone, Copy, Debug, PartialEq, Eq, Structural)]
pub enum StageKind {
    /// Validates the bearer credential. A gate: it may turn a request away.
    Authentication,
    /// Holds the request against the cross-origin policy. A gate.
    CrossOrigin,
    /// Records one observation per request. An observer.
    Metrics,
    /// Writes one entry per request, once it is known how the request ends.
    /// An observer, and always present.
    Logging,
}

/// The order in which the stages act on a request.
pub open spec fn stage_order() -> Seq<StageKind> {
    seq![
        StageKind::Authentication,
        StageKind::CrossOrigin,
        StageKind::Metrics,
        StageKind::Logging,
    ]
}

impl StageKind {
    /// The place of this kind in [`stage_order`].
    pub open spec fn position(self) -> nat {
        match self {
            StageKind::Authentication => 0,
            StageKind::CrossOrigin => 1,
            StageKind::Metrics => 2,
            StageKind::Logging => 3,
        }
    }

    /// A gate may end a request early with a response of its own. An observer
    /// never does.
    pub open spec fn is_gate(self) -> bool {
        self is Authentication || self is CrossOrigin
    }

    /// The place of this kind in the order in which the stages act.
    pub fn rank(self) -> (place: usize)
        ensures
            place == self.position(),
            place < stage_order().len(),
            stage_order()[place as int] == self,
    {
        match self {
            StageKind::Authentication => 0,
            StageKind::CrossOrigin => 1,
            StageKind::Metrics => 2,
            StageKind::Logging => 3,
        }
    }

    /// Whether a stage of this kind may end a request early.
    pub fn gates(self) -> (gate: bool)
        ensures
            gate == self.is_gate(),
    {
        match self {
            StageKind::Authentication => true,
            StageKind::CrossOrigin => true,
            StageKind::Metrics => false,
            StageKind::Logging => false,
        }
    }
}

/// The stage kinds in the order in which they act on a request.
pub fn order() -> (kinds: Vec<StageKind>)
    ensures
        kinds@ == stage_order(),
{
    let kinds = vec![
        StageKind::Authentication,
        StageKind::CrossOrigin,
        StageKind::Metrics,
        StageKind::Logging,
    ];
    assert(kinds@ =~= stage_order());
    kinds
}

/// One link of the pipeline. The variant is chosen when the pipeline is
/// built and never changes afterwards.
#[derive(Debug, PartialEq, Eq)]
pub enum Stage<T> {
    /// The stage does its work, with the setting it was built from.
    Active(T),
    /// The stage hands every request on, untouched.
    PassThrough,
}

impl<T> Stage<T> {
    /// The stage that an optional setting stands for: active exactly when the
    /// setting is present.
    pub open spec fn of(setting: Option<T>) -> Stage<T> {
        match setting {
            Some(value) => Stage::Active(value),
            None => Stage::PassThrough,
        }
    }

    /// The setting of an active stage.
    pub open spec fn setting(self) -> Option<T> {
        match self {
            Stage::Active(value) => Some(value),
            Stage::PassThrough => None,
        }
    }

    /// Picks the stage for an optional setting. Presence of the setting is all
    /// that decides.
    pub fn from_option(setting: Option<T>) -> (stage: Stage<T>)
        ensures
            stage == Stage::of(setting),
    {
        match setting {
            Some(value) => Stage::Active(value),
            None => Stage::PassThrough,
        }
    }

    /// Picks the stage for an optional setting, and builds the active stage
    /// from a present setting with `activate`. An absent setting gives the
    /// pass-through stage, and `activate` is not called.
    pub fn select<V, F: FnOnce(V) -> T>(setting: Option<V>, activate: F) -> (stage: Stage<T>)
        requires
            setting matches Some(value) ==> call_requires(activate, (value,)),
        ensures
            setting is None ==> stage is PassThrough,
            setting matches Some(value) ==> stage matches Stage::Active(built) && call_ensures(
                activate,
                (value,),
                built,
            ),
    {
        match setting {
            Some(value) => Stage::Active(activate(value)),
            None => Stage::PassThrough,
        }
    }

    /// Whether the stage does any work.
    pub fn is_active(&self) -> (active: bool)
        ensures
            active == (self is Active),
    {
        match self {
            Stage::Active(_) => true,
            Stage::PassThrough => false,
        }
    }

    /// The setting of the stage, borrowed.
    pub fn as_option(&self) -> (setting: Option<&T>)
        ensures
            setting is Some == (self is Active),
            setting matches Some(value) ==> self.setting() == Some(*value),
    {
        match self {
            Stage::Active(value) => Some(value),
            Stage::PassThrough => None,
        }
    }

    /// Gives the setting back: the inverse of [`Stage::from_option`].
    pub fn into_option(self) -> (setting: Option<T>)
        ensures
            setting == self.setting(),
            Stage::of(setting) == self,
    {
        match self {
            Stage::Active(value) => Some(value),
            Stage::PassThrough => None,
        }
    }
}

impl<T: Clone> Clone for Stage<T> {
    /// The copy of an active stage is active, with a copy of the setting, and
    /// the copy of a pass-through stage is a pass-through stage.
    fn clone(&self) -> (copy: Self)
        ensures
            copy is Active == (self is Active),
            self is Active ==> cloned(self->Active_0, copy->Active_0),
    {
        match self {
            Stage::Active(setting) => Stage::Active(setting.clone()),
            Stage::PassThrough => Stage::PassThrough,
        }
    }
}

} // verus!
