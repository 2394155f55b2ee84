use vstd::prelude::*;

use crate::effect::{
    ChildType, DamageActor, SerializedActorEffect, SerializedDamageChangeEffect, SerializedDamageViewEffect,
    SerializedDeathEffect, SerializedEffectTrigger, SerializedKillEffect, SerializedOnHitEffect, SpawnType,
};
use crate::float::{Float, spec_zero, spec_one, spec_minus_one, zero, one, minus_one};
use crate::stats::{StatusEffect, status_description};
use crate::text::TextPiece;

verus! {

impl ChildType {
    pub open spec fn spec_name(self) -> &'static str {
        match self {
            ChildType::Grenade => "Grenade",
            ChildType::Melee => "Melee",
            ChildType::Missile => "Missile",
            ChildType::Projectile => "Projectile",
            ChildType::Explosion => "Explosion",
            ChildType::ChildActor => "",
        }
    }

    /// The name players see for this kind of ability. Child actors have none.
    pub fn name(&self) -> (r: &'static str)
        requires
            *self != ChildType::ChildActor,
        ensures
            r == self.spec_name(),
    {
        match self {
            ChildType::Grenade => "Grenade",
            ChildType::Melee => "Melee",
            ChildType::Missile => "Missile",
            ChildType::Projectile => "Projectile",
            ChildType::Explosion => "Explosion",
            ChildType::ChildActor => "",
        }
    }
}

impl DamageActor {
    pub open spec fn spec_as_str(self) -> &'static str {
        match self {
            DamageActor::Victim => "victim",
            DamageActor::Instigator => "instigator",
        }
    }

    pub fn as_str(&self) -> (r: &'static str)
        ensures r == self.spec_as_str(),
    {
        match self {
            DamageActor::Victim => "victim",
            DamageActor::Instigator => "instigator",
        }
    }
}

/// Spawned objects that can be described: lightning cannot.
pub open spec fn spawn_describable(t: SpawnType) -> bool {
    !(t is Lightning)
}

pub open spec fn actor_effect_describable(e: SerializedActorEffect) -> bool {
    match e {
        SerializedActorEffect::SpawnEffect(t, _) => spawn_describable(t),
        _ => true,
    }
}

pub open spec fn view_effect_describable(e: SerializedDamageViewEffect) -> bool {
    match e {
        SerializedDamageViewEffect::SpawnObjectAt { spawn_type, .. } => spawn_describable(spawn_type),
        SerializedDamageViewEffect::EveryXDamageEffect { effect, .. } => actor_effect_describable(effect),
        SerializedDamageViewEffect::EveryXHealedEffect { effect, .. } => actor_effect_describable(effect),
        SerializedDamageViewEffect::RegularEffect { effect } => actor_effect_describable(effect),
    }
}

pub open spec fn on_hit_describable(e: SerializedOnHitEffect) -> bool {
    match e {
        SerializedOnHitEffect::SpawnEffectAtHitLocation { spawn_type } => spawn_describable(spawn_type),
        SerializedOnHitEffect::RegularEffect { effect } => actor_effect_describable(effect),
    }
}

/// Triggers that can be described: no lightning is spawned and no ability
/// kind is a child actor.
pub open spec fn trigger_describable(t: SerializedEffectTrigger) -> bool {
    match t {
        SerializedEffectTrigger::OnKill(SerializedKillEffect::RegularEffect { effect }) => actor_effect_describable(effect),
        SerializedEffectTrigger::OnDeath(SerializedDeathEffect::RegularEffect { effect }) => actor_effect_describable(effect),
        SerializedEffectTrigger::Periodically { effect, .. } => actor_effect_describable(effect),
        SerializedEffectTrigger::OnDoDamage(_) => true,
        SerializedEffectTrigger::OnDamageDone(e) => view_effect_describable(e),
        SerializedEffectTrigger::OnReceiveDamage(_) => true,
        SerializedEffectTrigger::OnDamageReceived(e) => view_effect_describable(e),
        SerializedEffectTrigger::OnAbilityCast { ability_type, effect } =>
            ability_type != ChildType::ChildActor && actor_effect_describable(effect),
        SerializedEffectTrigger::OnAbilityHit { ability_type, effect } =>
            ability_type != ChildType::ChildActor && on_hit_describable(effect),
        SerializedEffectTrigger::OnAbilityEnd { ability_type, effect } =>
            ability_type != ChildType::ChildActor && actor_effect_describable(effect),
    }
}

pub open spec fn damage_factor_description(factor: Float) -> Seq<TextPiece> {
    if factor.spec_eq(spec_minus_one()) {
        seq![TextPiece::Text("gets inverted (multiply by -1)")]
    } else if factor.spec_eq(spec_one()) {
        seq![TextPiece::Text("is not changed")]
    } else if spec_zero().spec_le(factor) && factor.spec_lt(spec_one()) {
        seq![TextPiece::Text("is decreased by "), TextPiece::PercentBelowOne(factor), TextPiece::Text("%")]
    } else if spec_one().spec_lt(factor) {
        seq![TextPiece::Text("is increased by "), TextPiece::PercentAboveOne(factor), TextPiece::Text("%")]
    } else {
        seq![TextPiece::Text("is multiplied by "), TextPiece::Number(factor)]
    }
}

fn describe_damage_factor(factor: Float) -> (r: Vec<TextPiece>)
    ensures r@ == damage_factor_description(factor),
{
    if factor.equals(&minus_one()) {
        vec![TextPiece::Text("gets inverted (multiply by -1)")]
    } else if factor.equals(&one()) {
        vec![TextPiece::Text("is not changed")]
    } else if zero().less_or_equal(&factor) && factor.less_than(&one()) {
        vec![TextPiece::Text("is decreased by "), TextPiece::PercentBelowOne(factor), TextPiece::Text("%")]
    } else if one().less_than(&factor) {
        vec![TextPiece::Text("is increased by "), TextPiece::PercentAboveOne(factor), TextPiece::Text("%")]
    } else {
        vec![TextPiece::Text("is multiplied by "), TextPiece::Number(factor)]
    }
}

pub open spec fn damage_add_description(amount: Float) -> Seq<TextPiece> {
    if amount.spec_eq(spec_zero()) {
        seq![TextPiece::Text("is not changed")]
    } else if amount.spec_lt(spec_zero()) {
        seq![TextPiece::Text("is decreased by "), TextPiece::Number(amount.spec_neg())]
    } else {
        seq![TextPiece::Text("is increased by "), TextPiece::Number(amount)]
    }
}

fn describe_damage_add(amount: Float) -> (r: Vec<TextPiece>)
    ensures r@ == damage_add_description(amount),
{
    if amount.equals(&zero()) {
        vec![TextPiece::Text("is not changed")]
    } else if amount.less_than(&zero()) {
        vec![TextPiece::Text("is decreased by "), TextPiece::Number(amount.neg())]
    } else {
        vec![TextPiece::Text("is increased by "), TextPiece::Number(amount)]
    }
}

fn describe_inflict_status_effect(status_effect: &StatusEffect) -> (r: Vec<TextPiece>)
    ensures r@ == seq![TextPiece::Text("Inflicts a status effect that ")] + status_description(*status_effect),
{
    let mut r = vec![TextPiece::Text("Inflicts a status effect that ")];
    let mut d = status_effect.get_description();
    r.append(&mut d);
    r
}

pub open spec fn affect_health_description(amount: Float) -> Seq<TextPiece> {
    if amount.spec_eq(spec_zero()) {
        seq![TextPiece::Text("Does nothing")]
    } else if amount.spec_lt(spec_zero()) {
        seq![TextPiece::Text("Inflict "), TextPiece::Number(amount.spec_neg()), TextPiece::Text(" damage")]
    } else {
        seq![TextPiece::Text("Heal "), TextPiece::Number(amount), TextPiece::Text(" damage (damage for "), TextPiece::Number(amount.spec_neg()), TextPiece::Text(")")]
    }
}

fn describe_affect_health_effect(amount: Float) -> (r: Vec<TextPiece>)
    ensures r@ == affect_health_description(amount),
{
    if amount.equals(&zero()) {
        vec![TextPiece::Text("Does nothing")]
    } else if amount.less_than(&zero()) {
        vec![TextPiece::Text("Inflict "), TextPiece::Number(amount.neg()), TextPiece::Text(" damage")]
    } else {
        vec![TextPiece::Text("Heal "), TextPiece::Number(amount), TextPiece::Text(" damage (damage for "), TextPiece::Number(amount.neg()), TextPiece::Text(")")]
    }
}

pub open spec fn spawn_description(t: SpawnType, place: Seq<TextPiece>) -> Seq<TextPiece> {
    match t {
        SpawnType::Explosion { radius, damage, knockback_strength } =>
            seq![TextPiece::Text("Spawns an Explosion")] + place + seq![
                TextPiece::Text(" with "), TextPiece::Number(radius), TextPiece::Text(" radius, "),
                TextPiece::Number(damage), TextPiece::Text(" damage, and "),
                TextPiece::Number(knockback_strength), TextPiece::Text(" knockback")],
        SpawnType::Missile { damage, speed, acceleration, knockback_strength } =>
            seq![TextPiece::Text("Spawns a Missile")] + place + seq![
                TextPiece::Text(" with speed: "), TextPiece::Number(speed), TextPiece::Text(" u/s, acceleration: "),
                TextPiece::Number(acceleration), TextPiece::Text(" u/s, damage: "),
                TextPiece::Number(damage), TextPiece::Text(", and knockback strength: "),
                TextPiece::Number(knockback_strength)],
        SpawnType::Lightning {} => Seq::empty(),
    }
}

fn describe_spawn(spawn_type: &SpawnType, place: &'static str, with_place: bool) -> (r: Vec<TextPiece>)
    requires
        spawn_describable(*spawn_type),
    ensures
        r@ == spawn_description(*spawn_type, if with_place { seq![TextPiece::Text(place)] } else { Seq::empty() }),
{
    let ghost p = if with_place { seq![TextPiece::Text(place)] } else { Seq::<TextPiece>::empty() };
    match spawn_type {
        SpawnType::Explosion { radius, damage, knockback_strength } => {
            let mut r = vec![TextPiece::Text("Spawns an Explosion")];
            if with_place {
                r.push(TextPiece::Text(place));
            }
            let mut rest = vec![
                TextPiece::Text(" with "), TextPiece::Number(*radius), TextPiece::Text(" radius, "),
                TextPiece::Number(*damage), TextPiece::Text(" damage, and "),
                TextPiece::Number(*knockback_strength), TextPiece::Text(" knockback")];
            let ghost r0 = r@;
            let ghost rest0 = rest@;
            r.append(&mut rest);
            assert(r0 =~= seq![TextPiece::Text("Spawns an Explosion")] + p);
            assert(r@ =~= seq![TextPiece::Text("Spawns an Explosion")] + p + rest0);
            r
        },
        SpawnType::Missile { damage, speed, acceleration, knockback_strength } => {
            let mut r = vec![TextPiece::Text("Spawns a Missile")];
            if with_place {
                r.push(TextPiece::Text(place));
            }
            let mut rest = vec![
                TextPiece::Text(" with speed: "), TextPiece::Number(*speed), TextPiece::Text(" u/s, acceleration: "),
                TextPiece::Number(*acceleration), TextPiece::Text(" u/s, damage: "),
                TextPiece::Number(*damage), TextPiece::Text(", and knockback strength: "),
                TextPiece::Number(*knockback_strength)];
            let ghost r0 = r@;
            let ghost rest0 = rest@;
            r.append(&mut rest);
            assert(r0 =~= seq![TextPiece::Text("Spawns a Missile")] + p);
            assert(r@ =~= seq![TextPiece::Text("Spawns a Missile")] + p + rest0);
            r
        },
        SpawnType::Lightning {} => Vec::new(),
    }
}

fn describe_spawn_object(spawn_type: &SpawnType) -> (r: Vec<TextPiece>)
    requires
        spawn_describable(*spawn_type),
    ensures
        r@ == spawn_description(*spawn_type, Seq::empty()),
{
    describe_spawn(spawn_type, "", false)
}

fn describe_spawn_at_hit(spawn_type: &SpawnType) -> (r: Vec<TextPiece>)
    requires
        spawn_describable(*spawn_type),
    ensures
        r@ == spawn_description(*spawn_type, seq![TextPiece::Text(" (at the hit point)")]),
{
    describe_spawn(spawn_type, " (at the hit point)", true)
}

pub open spec fn actor_effect_description(e: SerializedActorEffect) -> Seq<TextPiece> {
    match e {
        SerializedActorEffect::AffectHealth(h) => affect_health_description(h),
        SerializedActorEffect::InflictStatusEffect(s) => seq![TextPiece::Text("Inflicts a status effect that ")] + status_description(s),
        SerializedActorEffect::SpawnEffect(t, _) => spawn_description(t, Seq::empty()),
    }
}

impl SerializedActorEffect {
    /// Describes the effect in words that fit "When X occurs [description]".
    pub fn describe(&self) -> (r: Vec<TextPiece>)
        requires
            actor_effect_describable(*self),
        ensures
            r@ == actor_effect_description(*self),
    {
        match self {
            SerializedActorEffect::AffectHealth(h) => describe_affect_health_effect(*h),
            SerializedActorEffect::InflictStatusEffect(s) => describe_inflict_status_effect(s),
            SerializedActorEffect::SpawnEffect(spawn_type, _location) => describe_spawn_object(spawn_type),
        }
    }
}

pub open spec fn damage_change_description(e: SerializedDamageChangeEffect) -> Seq<TextPiece> {
    match e {
        SerializedDamageChangeEffect::AddDamageEffect { amount } => damage_add_description(amount),
        SerializedDamageChangeEffect::MultiplyDamageEffect { factor } => damage_factor_description(factor),
    }
}

impl SerializedDamageChangeEffect {
    /// Describes what happens to the damage.
    pub fn describe(&self) -> (r: Vec<TextPiece>)
        ensures r@ == damage_change_description(*self),
    {
        match self {
            SerializedDamageChangeEffect::AddDamageEffect { amount } => describe_damage_add(*amount),
            SerializedDamageChangeEffect::MultiplyDamageEffect { factor } => describe_damage_factor(*factor),
        }
    }
}

pub open spec fn every_x_description(kind: &'static str, threshold: Float, which_actor: DamageActor, effect: SerializedActorEffect) -> Seq<TextPiece> {
    seq![TextPiece::Text("Every "), TextPiece::Number(threshold), TextPiece::Text(" points of "), TextPiece::Text(kind),
        TextPiece::Text(" done, apply effect on the "), TextPiece::Text(which_actor.spec_as_str()), TextPiece::Text(" that: ")]
        + actor_effect_description(effect)
}

fn describe_every_x_effect(heal_dmg_str: &'static str, threshold: Float, which_actor: &DamageActor, effect: &SerializedActorEffect) -> (r: Vec<TextPiece>)
    requires
        actor_effect_describable(*effect),
    ensures
        r@ == every_x_description(heal_dmg_str, threshold, *which_actor, *effect),
{
    let mut r = vec![TextPiece::Text("Every "), TextPiece::Number(threshold), TextPiece::Text(" points of "), TextPiece::Text(heal_dmg_str),
        TextPiece::Text(" done, apply effect on the "), TextPiece::Text(which_actor.as_str()), TextPiece::Text(" that: ")];
    let mut d = effect.describe();
    r.append(&mut d);
    r
}

pub open spec fn damage_view_description(e: SerializedDamageViewEffect) -> Seq<TextPiece> {
    match e {
        SerializedDamageViewEffect::EveryXDamageEffect { damage_threshold, which_actor, effect, .. } =>
            every_x_description("damage", damage_threshold, which_actor, effect),
        SerializedDamageViewEffect::EveryXHealedEffect { healing_threshold, which_actor, effect, .. } =>
            every_x_description("healing", healing_threshold, which_actor, effect),
        SerializedDamageViewEffect::SpawnObjectAt { which_actor, spawn_type } =>
            seq![TextPiece::Text("At the "), TextPiece::Text(which_actor.spec_as_str()), TextPiece::Text(": ")]
                + spawn_description(spawn_type, Seq::empty()),
        SerializedDamageViewEffect::RegularEffect { effect } => actor_effect_description(effect),
    }
}

impl SerializedDamageViewEffect {
    pub fn describe(&self) -> (r: Vec<TextPiece>)
        requires
            view_effect_describable(*self),
        ensures
            r@ == damage_view_description(*self),
    {
        match self {
            SerializedDamageViewEffect::EveryXDamageEffect { accumulated_damage: _, damage_threshold, which_actor, effect } =>
                describe_every_x_effect("damage", *damage_threshold, which_actor, effect),
            SerializedDamageViewEffect::EveryXHealedEffect { accumulated_healing: _, healing_threshold, which_actor, effect } =>
                describe_every_x_effect("healing", *healing_threshold, which_actor, effect),
            SerializedDamageViewEffect::SpawnObjectAt { which_actor, spawn_type } => {
                let mut r = vec![TextPiece::Text("At the "), TextPiece::Text(which_actor.as_str()), TextPiece::Text(": ")];
                let mut d = describe_spawn_object(spawn_type);
                r.append(&mut d);
                r
            },
            SerializedDamageViewEffect::RegularEffect { effect } => effect.describe(),
        }
    }
}

impl SerializedDeathEffect {
    pub fn describe(&self) -> (r: Vec<TextPiece>)
        requires
            actor_effect_describable(self.actor_effect()),
        ensures
            r@ == actor_effect_description(self.actor_effect()),
    {
        match self {
            SerializedDeathEffect::RegularEffect { effect } => effect.describe(),
        }
    }
}

impl SerializedKillEffect {
    pub fn describe(&self) -> (r: Vec<TextPiece>)
        requires
            actor_effect_describable(self.actor_effect()),
        ensures
            r@ == actor_effect_description(self.actor_effect()),
    {
        match self {
            SerializedKillEffect::RegularEffect { effect } => effect.describe(),
        }
    }
}

pub open spec fn on_hit_description(e: SerializedOnHitEffect) -> Seq<TextPiece> {
    match e {
        SerializedOnHitEffect::SpawnEffectAtHitLocation { spawn_type } =>
            spawn_description(spawn_type, seq![TextPiece::Text(" (at the hit point)")]),
        SerializedOnHitEffect::RegularEffect { effect } => actor_effect_description(effect),
    }
}

impl SerializedOnHitEffect {
    pub fn describe(&self) -> (r: Vec<TextPiece>)
        requires
            on_hit_describable(*self),
        ensures
            r@ == on_hit_description(*self),
    {
        match self {
            SerializedOnHitEffect::SpawnEffectAtHitLocation { spawn_type } => describe_spawn_at_hit(spawn_type),
            SerializedOnHitEffect::RegularEffect { effect } => effect.describe(),
        }
    }
}

pub open spec fn trigger_description(t: SerializedEffectTrigger) -> Seq<TextPiece> {
    match t {
        SerializedEffectTrigger::OnDoDamage(e) => seq![TextPiece::Text("Damage you do: ")] + damage_change_description(e),
        SerializedEffectTrigger::OnReceiveDamage(e) => seq![TextPiece::Text("Damage you receive: ")] + damage_change_description(e),
        SerializedEffectTrigger::OnDamageDone(e) => seq![TextPiece::Text("When doing damage: ")] + damage_view_description(e),
        SerializedEffectTrigger::OnDamageReceived(e) => seq![TextPiece::Text("When receiving damage: ")] + damage_view_description(e),
        SerializedEffectTrigger::Periodically { period, effect, .. } =>
            seq![TextPiece::Text("Every "), TextPiece::Number(period), TextPiece::Text(" seconds: ")] + actor_effect_description(effect),
        SerializedEffectTrigger::OnDeath(e) => seq![TextPiece::Text("Upon dying: ")] + actor_effect_description(e.actor_effect()),
        SerializedEffectTrigger::OnAbilityCast { ability_type, effect } =>
            seq![TextPiece::Text("On casting a "), TextPiece::Text(ability_type.spec_name()), TextPiece::Text(" ability: ")]
                + actor_effect_description(effect),
        SerializedEffectTrigger::OnAbilityHit { ability_type, effect } =>
            seq![TextPiece::Text("When a "), TextPiece::Text(ability_type.spec_name()), TextPiece::Text(" ability hits: ")]
                + on_hit_description(effect),
        SerializedEffectTrigger::OnAbilityEnd { ability_type, effect } =>
            seq![TextPiece::Text("When a "), TextPiece::Text(ability_type.spec_name()), TextPiece::Text(" ability ends (destroyed/finishes): ")]
                + actor_effect_description(effect),
        SerializedEffectTrigger::OnKill(e) => seq![TextPiece::Text("Upon killing an enemy: ")] + actor_effect_description(e.actor_effect()),
    }
}

fn prefixed(mut prefix: Vec<TextPiece>, mut rest: Vec<TextPiece>) -> (r: Vec<TextPiece>)
    ensures r@ == prefix@ + rest@,
{
    prefix.append(&mut rest);
    prefix
}

impl SerializedEffectTrigger {
    /// Describes when the effect applies and what it does.
    pub fn describe(&self) -> (r: Vec<TextPiece>)
        requires
            trigger_describable(*self),
        ensures
            r@ == trigger_description(*self),
    {
        match self {
            SerializedEffectTrigger::OnDoDamage(e) => prefixed(vec![TextPiece::Text("Damage you do: ")], e.describe()),
            SerializedEffectTrigger::OnReceiveDamage(e) => prefixed(vec![TextPiece::Text("Damage you receive: ")], e.describe()),
            SerializedEffectTrigger::OnDamageDone(e) => prefixed(vec![TextPiece::Text("When doing damage: ")], e.describe()),
            SerializedEffectTrigger::OnDamageReceived(e) => prefixed(vec![TextPiece::Text("When receiving damage: ")], e.describe()),
            SerializedEffectTrigger::Periodically { remaining_period: _, period, effect } =>
                prefixed(vec![TextPiece::Text("Every "), TextPiece::Number(*period), TextPiece::Text(" seconds: ")], effect.describe()),
            SerializedEffectTrigger::OnDeath(e) => prefixed(vec![TextPiece::Text("Upon dying: ")], e.describe()),
            SerializedEffectTrigger::OnAbilityCast { ability_type, effect } =>
                prefixed(vec![TextPiece::Text("On casting a "), TextPiece::Text(ability_type.name()), TextPiece::Text(" ability: ")], effect.describe()),
            SerializedEffectTrigger::OnAbilityHit { ability_type, effect } =>
                prefixed(vec![TextPiece::Text("When a "), TextPiece::Text(ability_type.name()), TextPiece::Text(" ability hits: ")], effect.describe()),
            SerializedEffectTrigger::OnAbilityEnd { ability_type, effect } =>
                prefixed(vec![TextPiece::Text("When a "), TextPiece::Text(ability_type.name()), TextPiece::Text(" ability ends (destroyed/finishes): ")], effect.describe()),
            SerializedEffectTrigger::OnKill(e) => prefixed(vec![TextPiece::Text("Upon killing an enemy: ")], e.describe()),
        }
    }
}


/// A damage-viewing effect is described by what it does: a regular one by
/// the description of its actor effect and nothing else, an every-X one by
/// its threshold wording followed by the description of its actor effect. The
/// trigger that holds it is described as "When doing damage: " or "When
/// receiving damage: " followed by that. The description of every effect
/// that can be described says something.
pub proof fn lemma_view_effect_descriptions(v: SerializedDamageViewEffect, e: SerializedActorEffect)
    ensures
        damage_view_description(SerializedDamageViewEffect::RegularEffect { effect: e }) == actor_effect_description(e),
        match v {
            SerializedDamageViewEffect::EveryXDamageEffect { effect, .. } => {
                let d = damage_view_description(v);
                let inner = actor_effect_description(effect);
                d.len() > inner.len() && d.subrange(d.len() - inner.len(), d.len() as int) == inner
            },
            SerializedDamageViewEffect::EveryXHealedEffect { effect, .. } => {
                let d = damage_view_description(v);
                let inner = actor_effect_description(effect);
                d.len() > inner.len() && d.subrange(d.len() - inner.len(), d.len() as int) == inner
            },
            _ => true,
        },
        trigger_description(SerializedEffectTrigger::OnDamageDone(v))
            == seq![TextPiece::Text("When doing damage: ")] + damage_view_description(v),
        trigger_description(SerializedEffectTrigger::OnDamageReceived(v))
            == seq![TextPiece::Text("When receiving damage: ")] + damage_view_description(v),
        actor_effect_describable(e) ==> actor_effect_description(e).len() > 0,
        view_effect_describable(v) ==> damage_view_description(v).len() > 0,
{
    match v {
        SerializedDamageViewEffect::EveryXDamageEffect { effect, .. } => {
            let d = damage_view_description(v);
            let inner = actor_effect_description(effect);
            assert(d.subrange(d.len() - inner.len(), d.len() as int) =~= inner);
        },
        SerializedDamageViewEffect::EveryXHealedEffect { effect, .. } => {
            let d = damage_view_description(v);
            let inner = actor_effect_description(effect);
            assert(d.subrange(d.len() - inner.len(), d.len() as int) =~= inner);
        },
        _ => {},
    }
}

/// Changing health is described by its direction: a positive amount as
/// healing by that amount, a negative one as damage of its size, zero as
/// doing nothing.
pub proof fn lemma_affect_health_wording(h: Float)
    ensures
        spec_zero().spec_lt(h) ==> actor_effect_description(SerializedActorEffect::AffectHealth(h)) == seq![
            TextPiece::Text("Heal "), TextPiece::Number(h), TextPiece::Text(" damage (damage for "),
            TextPiece::Number(h.spec_neg()), TextPiece::Text(")")],
        h.spec_lt(spec_zero()) ==> actor_effect_description(SerializedActorEffect::AffectHealth(h)) == seq![
            TextPiece::Text("Inflict "), TextPiece::Number(h.spec_neg()), TextPiece::Text(" damage")],
        h.spec_eq(spec_zero()) ==> actor_effect_description(SerializedActorEffect::AffectHealth(h)) == seq![
            TextPiece::Text("Does nothing")],
{
}

} // verus!
