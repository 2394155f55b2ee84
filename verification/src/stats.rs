use vstd::prelude::*;

use crate::float::{Float, spec_zero, spec_one, spec_minus_one, zero, one, minus_one};
use crate::text::TextPiece;

verus! {

/// The stats an actor can have.
#[derive(Clone, Copy, Debug, PartialEq, Eq, Structural)]
pub enum Stat {
    /// The health of the actor.
    Health,
    /// The maximum health of the actor.
    MaxHealth,
    /// A damage reduction stat.
    Armor,
    /// A stat that scales (almost) all damage.
    Damage,
    /// How many units an actor moves per second while walking.
    MovementSpeed,
    /// How fast a cooldown finishes.
    CooldownRate,
}

/// A modification to one of an actor's stats, temporary (with a timeout in
/// seconds) or permanent.
#[derive(Clone, Copy, Debug)]
pub struct StatusEffect {
    pub timeout: Option<Float>,
    pub stat: Stat,
    pub modification: StatModification,
}

#[derive(Clone, Copy, Debug)]
pub enum StatModification {
    Multiply { factor: Float },
    Add { amount: Float },
    Exponent { power: Float },
}

/// A stat together with its value, as stored in class data.
#[derive(Clone, Copy, Debug)]
pub struct SerializedStat {
    pub stat: Stat,
    pub value: Float,
}


impl Stat {
    pub open spec fn spec_name(self) -> &'static str {
        match self {
            Stat::Armor => "Armor",
            Stat::Health => "Health",
            Stat::CooldownRate => "Cooldown Speed",
            Stat::MaxHealth => "Maximum Health",
            Stat::MovementSpeed => "Movement speed",
            Stat::Damage => "Base Damage",
        }
    }

    /// The name players see for this stat.
    pub fn name(&self) -> (r: &'static str)
        ensures r == self.spec_name(),
    {
        match self {
            Stat::Armor => "Armor",
            Stat::Health => "Health",
            Stat::CooldownRate => "Cooldown Speed",
            Stat::MaxHealth => "Maximum Health",
            Stat::MovementSpeed => "Movement speed",
            Stat::Damage => "Base Damage",
        }
    }
}

/// A modification that leaves the stat as it is: adding 0, raising to the
/// power 1 or multiplying by 1.
pub open spec fn does_nothing(m: StatModification) -> bool {
    match m {
        StatModification::Add { amount } => amount.spec_eq(spec_zero()),
        StatModification::Exponent { power } => power.spec_eq(spec_one()),
        StatModification::Multiply { factor } => factor.spec_eq(spec_one()),
    }
}

/// The short wording of what a modification does to the stat named `stat`,
/// and the exact wording that follows it in brackets, where there is one.
pub open spec fn modification_wording(m: StatModification, stat: &'static str) -> (Seq<TextPiece>, Option<Seq<TextPiece>>) {
    match m {
        StatModification::Add { amount } => {
            let verbose = seq![TextPiece::Text("Adds "), TextPiece::Number(amount), TextPiece::Text(" to "), TextPiece::Text(stat)];
            if amount.spec_lt(spec_zero()) {
                (seq![TextPiece::Text("Decreases "), TextPiece::Text(stat), TextPiece::Text(" by "), TextPiece::Number(amount.spec_neg())], Some(verbose))
            } else {
                (seq![TextPiece::Text("Increases "), TextPiece::Text(stat), TextPiece::Text(" by "), TextPiece::Number(amount)], Some(verbose))
            }
        },
        StatModification::Exponent { power } =>
            (seq![TextPiece::Text("Raises "), TextPiece::Text(stat), TextPiece::Text(" to the power "), TextPiece::Number(power)], None),
        StatModification::Multiply { factor } => {
            let verbose = seq![TextPiece::Text("Multiplies "), TextPiece::Text(stat), TextPiece::Text(" by "), TextPiece::Number(factor)];
            if factor.spec_eq(spec_minus_one()) {
                (seq![TextPiece::Text("Inverts "), TextPiece::Text(stat)], Some(verbose))
            } else if factor.spec_eq(spec_zero()) {
                (seq![TextPiece::Text("Sets "), TextPiece::Text(stat), TextPiece::Text(" to zero")], Some(verbose))
            } else if factor.spec_lt(spec_one()) && spec_zero().spec_lt(factor) {
                (seq![TextPiece::Text("Decreases "), TextPiece::Text(stat), TextPiece::Text(" by "), TextPiece::PercentBelowOne(factor), TextPiece::Text("%")], Some(verbose))
            } else if spec_one().spec_lt(factor) {
                (seq![TextPiece::Text("Increases "), TextPiece::Text(stat), TextPiece::Text(" by "), TextPiece::PercentAboveOne(factor), TextPiece::Text("%")], Some(verbose))
            } else {
                (verbose, None)
            }
        },
    }
}

/// The description of a status effect: what it does, then for how long.
pub open spec fn status_description(s: StatusEffect) -> Seq<TextPiece> {
    let effect = if does_nothing(s.modification) {
        seq![TextPiece::Text("Does nothing")]
    } else {
        let (pretty, verbose) = modification_wording(s.modification, s.stat.spec_name());
        pretty + match verbose {
            Some(v) => seq![TextPiece::Text(" (")] + v + seq![TextPiece::Text(")")],
            None => Seq::empty(),
        }
    };
    let duration = match s.timeout {
        Some(time) => seq![TextPiece::Text("for "), TextPiece::Number(time), TextPiece::Text(" seconds")],
        None => seq![TextPiece::Text("indefinitely")],
    };
    effect + seq![TextPiece::Text(" ")] + duration
}

impl StatusEffect {
    /// Describes what this status effect does, in words that fit "This status
    /// effect [description]" and "Inflicts a status effect that [description]".
    pub fn get_description(&self) -> (r: Vec<TextPiece>)
        ensures r@ == status_description(*self),
    {
        let mut effect_str: Vec<TextPiece>;
        let nothing = match self.modification {
            StatModification::Add { amount } => amount.equals(&zero()),
            StatModification::Exponent { power } => power.equals(&one()),
            StatModification::Multiply { factor } => factor.equals(&one()),
        };
        if nothing {
            effect_str = vec![TextPiece::Text("Does nothing")];
        } else {
            let stat_str = self.stat.name();
            let (mut pretty_str, verbose_str): (Vec<TextPiece>, Option<Vec<TextPiece>>) = match self.modification {
                StatModification::Add { amount } => {
                    let verbose_form = Some(vec![TextPiece::Text("Adds "), TextPiece::Number(amount), TextPiece::Text(" to "), TextPiece::Text(stat_str)]);
                    if amount.less_than(&zero()) {
                        (vec![TextPiece::Text("Decreases "), TextPiece::Text(stat_str), TextPiece::Text(" by "), TextPiece::Number(amount.neg())], verbose_form)
                    } else {
                        (vec![TextPiece::Text("Increases "), TextPiece::Text(stat_str), TextPiece::Text(" by "), TextPiece::Number(amount)], verbose_form)
                    }
                },
                StatModification::Exponent { power } => {
                    (vec![TextPiece::Text("Raises "), TextPiece::Text(stat_str), TextPiece::Text(" to the power "), TextPiece::Number(power)], None)
                },
                StatModification::Multiply { factor } => {
                    let verbose_form = vec![TextPiece::Text("Multiplies "), TextPiece::Text(stat_str), TextPiece::Text(" by "), TextPiece::Number(factor)];
                    if factor.equals(&minus_one()) {
                        (vec![TextPiece::Text("Inverts "), TextPiece::Text(stat_str)], Some(verbose_form))
                    } else if factor.equals(&zero()) {
                        (vec![TextPiece::Text("Sets "), TextPiece::Text(stat_str), TextPiece::Text(" to zero")], Some(verbose_form))
                    } else if factor.less_than(&one()) && zero().less_than(&factor) {
                        (vec![TextPiece::Text("Decreases "), TextPiece::Text(stat_str), TextPiece::Text(" by "), TextPiece::PercentBelowOne(factor), TextPiece::Text("%")], Some(verbose_form))
                    } else if one().less_than(&factor) {
                        (vec![TextPiece::Text("Increases "), TextPiece::Text(stat_str), TextPiece::Text(" by "), TextPiece::PercentAboveOne(factor), TextPiece::Text("%")], Some(verbose_form))
                    } else {
                        (verbose_form, None)
                    }
                },
            };
            let ghost pretty0 = pretty_str@;
            match verbose_str {
                Some(mut v) => {
                    let ghost v0 = v@;
                    pretty_str.push(TextPiece::Text(" ("));
                    pretty_str.append(&mut v);
                    pretty_str.push(TextPiece::Text(")"));
                    assert(pretty_str@ =~= pretty0 + (seq![TextPiece::Text(" (")] + v0 + seq![TextPiece::Text(")")]));
                },
                None => {
                    assert(pretty_str@ =~= pretty0 + Seq::<TextPiece>::empty());
                },
            }
            effect_str = pretty_str;
        }
        let mut duration_str = match self.timeout {
            Some(time) => vec![TextPiece::Text("for "), TextPiece::Number(time), TextPiece::Text(" seconds")],
            None => vec![TextPiece::Text("indefinitely")],
        };
        let ghost e0 = effect_str@;
        let ghost d0 = duration_str@;
        effect_str.push(TextPiece::Text(" "));
        effect_str.append(&mut duration_str);
        assert(effect_str@ =~= e0 + seq![TextPiece::Text(" ")] + d0);
        effect_str
    }
}

} // verus!
