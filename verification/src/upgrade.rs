use vstd::prelude::*;

use crate::effect::SerializedEffectTrigger;
use crate::effect_descriptions::{trigger_describable, trigger_description};
use crate::stats::{StatusEffect, status_description};
use crate::text::{TextPiece, join, lemma_join_push};

verus! {

/// What choosing an upgrade gives a player.
pub enum UpgradeBehaviour {
    /// New effect triggers.
    AddEffects(Vec<SerializedEffectTrigger>),
    /// New status effects.
    AddStatusEffects(Vec<StatusEffect>),
}

pub open spec fn effects_describable(effects: Seq<SerializedEffectTrigger>) -> bool {
    forall|i: int| 0 <= i < effects.len() ==> trigger_describable(#[trigger] effects[i])
}

/// The description of an upgrade: "Does nothing!" when it gives nothing,
/// otherwise what it gives, the descriptions of its parts joined by " AND ".
pub open spec fn upgrade_description(u: UpgradeBehaviour) -> Seq<TextPiece> {
    match u {
        UpgradeBehaviour::AddEffects(effects) =>
            if effects@.len() < 1 {
                seq![TextPiece::Text("Does nothing!")]
            } else {
                seq![TextPiece::Text("Gain effect(s) that: ")]
                    + join(effects@.map_values(|e: SerializedEffectTrigger| trigger_description(e)), seq![TextPiece::Text(" AND ")])
            },
        UpgradeBehaviour::AddStatusEffects(statuses) =>
            if statuses@.len() < 1 {
                seq![TextPiece::Text("Does nothing!")]
            } else {
                seq![TextPiece::Text("Gain status effect(s) that: ")]
                    + join(statuses@.map_values(|s: StatusEffect| status_description(s)), seq![TextPiece::Text(" AND ")])
            },
    }
}

pub open spec fn upgrade_describable(u: UpgradeBehaviour) -> bool {
    match u {
        UpgradeBehaviour::AddEffects(effects) => effects_describable(effects@),
        UpgradeBehaviour::AddStatusEffects(_) => true,
    }
}

fn describe_effects(effects: &Vec<SerializedEffectTrigger>) -> (r: Vec<TextPiece>)
    requires
        effects@.len() >= 1,
        effects_describable(effects@),
    ensures
        r@ == join(effects@.map_values(|e: SerializedEffectTrigger| trigger_description(e)), seq![TextPiece::Text(" AND ")]),
{
    let ghost sep = seq![TextPiece::Text(" AND ")];
    let ghost f = |e: SerializedEffectTrigger| trigger_description(e);
    let mut r = effects[0].describe();
    let mut i: usize = 1;
    assert(effects@.take(1).map_values(f) =~= seq![trigger_description(effects@[0])]);
    while i < effects.len()
        invariant
            1 <= i <= effects@.len(),
            effects_describable(effects@),
            f == (|e: SerializedEffectTrigger| trigger_description(e)),
            sep == seq![TextPiece::Text(" AND ")],
            r@ == join(effects@.take(i as int).map_values(f), sep),
        decreases effects@.len() - i,
    {
        proof {
            lemma_join_push(effects@.take(i as int).map_values(f), sep, trigger_description(effects@[i as int]));
            assert(effects@.take(i + 1).map_values(f) =~= effects@.take(i as int).map_values(f).push(trigger_description(effects@[i as int])));
        }
        let ghost r0 = r@;
        r.push(TextPiece::Text(" AND "));
        let mut d = effects[i].describe();
        r.append(&mut d);
        assert(r@ =~= r0 + sep + trigger_description(effects@[i as int]));
        i = i + 1;
    }
    assert(effects@.take(effects@.len() as int) =~= effects@);
    r
}

fn describe_statuses(statuses: &Vec<StatusEffect>) -> (r: Vec<TextPiece>)
    requires
        statuses@.len() >= 1,
    ensures
        r@ == join(statuses@.map_values(|s: StatusEffect| status_description(s)), seq![TextPiece::Text(" AND ")]),
{
    let ghost sep = seq![TextPiece::Text(" AND ")];
    let ghost f = |s: StatusEffect| status_description(s);
    let mut r = statuses[0].get_description();
    let mut i: usize = 1;
    assert(statuses@.take(1).map_values(f) =~= seq![status_description(statuses@[0])]);
    while i < statuses.len()
        invariant
            1 <= i <= statuses@.len(),
            f == (|s: StatusEffect| status_description(s)),
            sep == seq![TextPiece::Text(" AND ")],
            r@ == join(statuses@.take(i as int).map_values(f), sep),
        decreases statuses@.len() - i,
    {
        proof {
            lemma_join_push(statuses@.take(i as int).map_values(f), sep, status_description(statuses@[i as int]));
            assert(statuses@.take(i + 1).map_values(f) =~= statuses@.take(i as int).map_values(f).push(status_description(statuses@[i as int])));
        }
        let ghost r0 = r@;
        r.push(TextPiece::Text(" AND "));
        let mut d = statuses[i].get_description();
        r.append(&mut d);
        assert(r@ =~= r0 + sep + status_description(statuses@[i as int]));
        i = i + 1;
    }
    assert(statuses@.take(statuses@.len() as int) =~= statuses@);
    r
}

impl UpgradeBehaviour {
    /// Describes what the upgrade gives.
    pub fn describe(&self) -> (r: Vec<TextPiece>)
        requires
            upgrade_describable(*self),
        ensures
            r@ == upgrade_description(*self),
    {
        match self {
            UpgradeBehaviour::AddEffects(effects) => {
                if effects.len() < 1 {
                    return vec![TextPiece::Text("Does nothing!")];
                }
                let mut r = vec![TextPiece::Text("Gain effect(s) that: ")];
                let mut d = describe_effects(effects);
                r.append(&mut d);
                r
            },
            UpgradeBehaviour::AddStatusEffects(statuses) => {
                if statuses.len() < 1 {
                    return vec![TextPiece::Text("Does nothing!")];
                }
                let mut r = vec![TextPiece::Text("Gain status effect(s) that: ")];
                let mut d = describe_statuses(statuses);
                r.append(&mut d);
                r
            },
        }
    }
}


/// An upgrade that gives a single effect is described as "Gain effect(s)
/// that: " followed by that effect's description.
pub proof fn lemma_single_effect_upgrade(effects: Vec<SerializedEffectTrigger>)
    requires
        effects@.len() == 1,
    ensures
        upgrade_description(UpgradeBehaviour::AddEffects(effects))
            == seq![TextPiece::Text("Gain effect(s) that: ")] + trigger_description(effects@[0]),
{
    let parts = effects@.map_values(|e: SerializedEffectTrigger| trigger_description(e));
    assert(parts.len() == 1);
    assert(parts[0] == trigger_description(effects@[0]));
}

/// Adding an effect to an upgrade that gives some already appends " AND "
/// and the new effect's description to its description.
pub proof fn lemma_upgrade_with_added_effect(effects: Seq<SerializedEffectTrigger>, added: SerializedEffectTrigger, before: Vec<SerializedEffectTrigger>, after: Vec<SerializedEffectTrigger>)
    requires
        effects.len() >= 1,
        before@ == effects,
        after@ == effects.push(added),
    ensures
        upgrade_description(UpgradeBehaviour::AddEffects(after))
            == upgrade_description(UpgradeBehaviour::AddEffects(before)) + seq![TextPiece::Text(" AND ")] + trigger_description(added),
{
    let f = |e: SerializedEffectTrigger| trigger_description(e);
    assert(effects.push(added).map_values(f) =~= effects.map_values(f).push(trigger_description(added)));
    lemma_join_push(effects.map_values(f), seq![TextPiece::Text(" AND ")], trigger_description(added));
    let sep = seq![TextPiece::Text(" AND ")];
    let pre = seq![TextPiece::Text("Gain effect(s) that: ")];
    let j = join(effects.map_values(f), sep);
    assert(pre + (j + sep + trigger_description(added)) =~= pre + j + sep + trigger_description(added));
}

} // verus!
