//! The order of the effect chain.
//!
//! A block runs through the stages in one fixed order. The switches of the
//! parameter snapshot only leave stages out; they never move one. The two
//! volume stages always run, and the cabinet runs only behind the overdrive.

use vstd::prelude::*;

verus! {

/// One stage of the effect chain.
#[derive(Clone, Copy, Debug, PartialEq, Eq, Structural)]
pub enum Stage {
    NoiseGate,
    InputVolume,
    Equalizer,
    Overdrive,
    Cabinet,
    OutputVolume,
}

/// The on/off part of a parameter snapshot.
#[derive(Clone, Copy, Debug, PartialEq, Eq, Structural)]
pub struct EffectSwitches {
    pub gate_enabled: bool,
    pub eq_enabled: bool,
    pub overdrive_enabled: bool,
    pub cabinet_enabled: bool,
}

impl Stage {
    /// The place of a stage in the fixed order.
    pub open spec fn rank(self) -> nat {
        match self {
            Stage::NoiseGate => 0,
            Stage::InputVolume => 1,
            Stage::Equalizer => 2,
            Stage::Overdrive => 3,
            Stage::Cabinet => 4,
            Stage::OutputVolume => 5,
        }
    }
}

impl EffectSwitches {
    /// The switches at start: the overdrive as given, everything else off.
    pub fn new(overdrive_enabled: bool) -> (switches: EffectSwitches)
        ensures
            switches == (EffectSwitches {
                gate_enabled: false,
                eq_enabled: false,
                overdrive_enabled,
                cabinet_enabled: false,
            }),
    {
        EffectSwitches {
            gate_enabled: false,
            eq_enabled: false,
            overdrive_enabled,
            cabinet_enabled: false,
        }
    }

    /// Whether `stage` runs under these switches.
    pub open spec fn runs(self, stage: Stage) -> bool {
        match stage {
            Stage::NoiseGate => self.gate_enabled,
            Stage::InputVolume => true,
            Stage::Equalizer => self.eq_enabled,
            Stage::Overdrive => self.overdrive_enabled,
            Stage::Cabinet => self.overdrive_enabled && self.cabinet_enabled,
            Stage::OutputVolume => true,
        }
    }

    /// `runs` as a predicate on stages.
    pub open spec fn selection(self) -> spec_fn(Stage) -> bool {
        |stage: Stage| self.runs(stage)
    }

    /// Decides `runs`.
    pub fn enables(&self, stage: Stage) -> (b: bool)
        ensures
            b == self.runs(stage),
    {
        match stage {
            Stage::NoiseGate => self.gate_enabled,
            Stage::InputVolume => true,
            Stage::Equalizer => self.eq_enabled,
            Stage::Overdrive => self.overdrive_enabled,
            Stage::Cabinet => self.overdrive_enabled && self.cabinet_enabled,
            Stage::OutputVolume => true,
        }
    }
}

/// Every stage, in the order in which a block runs through them.
pub open spec fn stage_order() -> Seq<Stage> {
    seq![
        Stage::NoiseGate,
        Stage::InputVolume,
        Stage::Equalizer,
        Stage::Overdrive,
        Stage::Cabinet,
        Stage::OutputVolume,
    ]
}

/// The stages that run under `switches`: the fixed order without the stages
/// that are switched off.
pub open spec fn plan_of(switches: EffectSwitches) -> Seq<Stage> {
    stage_order().filter(switches.selection())
}

/// `stages` goes strictly upwards in rank.
pub open spec fn is_ascending(stages: Seq<Stage>) -> bool {
    forall|i: int, j: int|
        0 <= i < j < stages.len() ==> (#[trigger] stages[i]).rank() < (#[trigger] stages[j]).rank()
}

/// The stages that run under `switches`, in the order in which they run.
pub fn plan(switches: &EffectSwitches) -> (stages: Vec<Stage>)
    ensures
        stages@ == plan_of(*switches),
{
    let order: [Stage; 6] = [
        Stage::NoiseGate,
        Stage::InputVolume,
        Stage::Equalizer,
        Stage::Overdrive,
        Stage::Cabinet,
        Stage::OutputVolume,
    ];
    assert(order@ =~= stage_order());
    let mut stages: Vec<Stage> = Vec::new();
    let mut i: usize = 0;
    proof {
        reveal(Seq::filter);
        assert(stage_order().take(0).filter(switches.selection()) =~= Seq::<Stage>::empty());
    }
    while i < 6
        invariant
            i <= 6,
            order@ == stage_order(),
            stages@ == stage_order().take(i as int).filter(switches.selection()),
        decreases 6 - i,
    {
        let stage = order[i];
        proof {
            let prefix = stage_order().take(i as int);
            assert(stage_order().take(i + 1) =~= prefix.push(stage));
            prefix.lemma_filter_push(stage, switches.selection());
        }
        if switches.enables(stage) {
            stages.push(stage);
        }
        i += 1;
    }
    assert(stage_order().take(6) =~= stage_order());
    stages
}

/// Leaving elements out of an ascending sequence keeps it ascending, and
/// what is left comes from the sequence.
pub proof fn lemma_filter_keeps_ascending(stages: Seq<Stage>, keep: spec_fn(Stage) -> bool)
    requires
        is_ascending(stages),
    ensures
        is_ascending(stages.filter(keep)),
        forall|i: int|
            0 <= i < stages.filter(keep).len() ==> stages.contains(#[trigger] stages.filter(keep)[i]),
    decreases stages.len(),
{
    reveal(Seq::filter);
    if stages.len() > 0 {
        let rest = stages.drop_last();
        let last = stages.last();
        let kept = rest.filter(keep);
        let out = stages.filter(keep);
        assert(is_ascending(rest)) by {
            assert forall|i: int, j: int| 0 <= i < j < rest.len() implies (#[trigger] rest[i]).rank() < (
            #[trigger] rest[j]).rank() by {
                assert(rest[i] == stages[i] && rest[j] == stages[j]);
            }
        }
        lemma_filter_keeps_ascending(rest, keep);
        assert forall|i: int| 0 <= i < out.len() implies stages.contains(#[trigger] out[i]) by {
            if i < kept.len() {
                assert(out[i] == kept[i]);
                assert(rest.contains(kept[i]));
                let k = choose|k: int| 0 <= k < rest.len() && rest[k] == kept[i];
                assert(stages[k] == out[i]);
            } else {
                assert(out[i] == last);
                assert(stages[stages.len() - 1] == last);
            }
        }
        assert forall|i: int, j: int| 0 <= i < j < out.len() implies (#[trigger] out[i]).rank() < (
        #[trigger] out[j]).rank() by {
            if j < kept.len() {
                assert(out[i] == kept[i] && out[j] == kept[j]);
            } else {
                assert(out[j] == last);
                assert(out[i] == kept[i]);
                assert(rest.contains(kept[i]));
                let k = choose|k: int| 0 <= k < rest.len() && rest[k] == kept[i];
                assert(stages[k] == out[i]);
                assert(stages[stages.len() - 1] == last);
            }
        }
    }
}

/// Switches only leave stages out, they never reorder them: the stages of a
/// plan go strictly upwards in the fixed order.
pub proof fn lemma_plan_keeps_order(switches: EffectSwitches)
    ensures
        is_ascending(plan_of(switches)),
{
    assert(is_ascending(stage_order()));
    lemma_filter_keeps_ascending(stage_order(), switches.selection());
}

/// A plan holds exactly the stages that its switches let run.
pub proof fn lemma_plan_holds_what_runs(switches: EffectSwitches, stage: Stage)
    ensures
        plan_of(switches).contains(stage) <==> switches.runs(stage),
{
    let order = stage_order();
    let keep = switches.selection();
    if plan_of(switches).contains(stage) {
        let i = choose|i: int| 0 <= i < plan_of(switches).len() && plan_of(switches)[i] == stage;
        order.lemma_filter_pred(keep, i);
    }
    if switches.runs(stage) {
        let k = stage.rank() as int;
        assert(order[k] == stage);
        order.lemma_filter_contains(keep, k);
    }
}

/// The cabinet never runs on its own: a plan that holds it holds the
/// overdrive too, and both volume stages are in every plan.
pub proof fn lemma_cabinet_needs_overdrive(switches: EffectSwitches)
    ensures
        plan_of(switches).contains(Stage::Cabinet) ==> plan_of(switches).contains(Stage::Overdrive),
        plan_of(switches).contains(Stage::InputVolume),
        plan_of(switches).contains(Stage::OutputVolume),
{
    lemma_plan_holds_what_runs(switches, Stage::Cabinet);
    lemma_plan_holds_what_runs(switches, Stage::Overdrive);
    lemma_plan_holds_what_runs(switches, Stage::InputVolume);
    lemma_plan_holds_what_runs(switches, Stage::OutputVolume);
}

} // verus!
