use vstd::prelude::*;

use crate::actor::{ActorContext, StatMap, stat_map};
use crate::effect::SerializedEffectTrigger;
use crate::float::Float;
use crate::player::AbilityTrigger;
use crate::stats::{Stat, SerializedStat};

verus! {

/// The playable classes.
#[derive(Clone, Copy, Debug, PartialEq, Eq, Structural)]
pub enum ClassType {
    DefaultClass,
    MeleeClass,
    RangedClass,
}

impl ClassType {
    /// Every class type, in the order the class cycle visits them.
    pub fn all_class_types() -> (r: [ClassType; 3])
        ensures
            r@ == seq![ClassType::DefaultClass, ClassType::MeleeClass, ClassType::RangedClass],
    {
        let r = [ClassType::DefaultClass, ClassType::MeleeClass, ClassType::RangedClass];
        assert(r@ =~= seq![ClassType::DefaultClass, ClassType::MeleeClass, ClassType::RangedClass]);
        r
    }

    pub open spec fn spec_name(self) -> &'static str {
        match self {
            ClassType::DefaultClass => "Default",
            ClassType::MeleeClass => "Melee",
            ClassType::RangedClass => "Ranged",
        }
    }

    /// The name players see for this class.
    pub fn name(&self) -> (r: &'static str)
        ensures r == self.spec_name(),
    {
        match self {
            ClassType::DefaultClass => "Default",
            ClassType::MeleeClass => "Melee",
            ClassType::RangedClass => "Ranged",
        }
    }
}

/// The class that follows `c` in the class cycle Default, Melee, Ranged.
pub open spec fn next_in_cycle(c: ClassType) -> ClassType {
    match c {
        ClassType::DefaultClass => ClassType::MeleeClass,
        ClassType::MeleeClass => ClassType::RangedClass,
        ClassType::RangedClass => ClassType::DefaultClass,
    }
}

/// The class a swap request moves to: Melee from Default, Default from any other class.
pub open spec fn swap_target(c: ClassType) -> ClassType {
    if c == ClassType::DefaultClass { ClassType::MeleeClass } else { ClassType::DefaultClass }
}

/// The data a class starts an actor with.
pub struct ClassBaseData {
    pub effects: Vec<SerializedEffectTrigger>,
    pub stats: Vec<SerializedStat>,
    pub description: String,
    pub name: String,
}

fn copy_triggers(v: &Vec<SerializedEffectTrigger>) -> (r: Vec<SerializedEffectTrigger>)
    ensures r@ == v@,
{
    let mut r: Vec<SerializedEffectTrigger> = Vec::new();
    let mut i: usize = 0;
    while i < v.len()
        invariant
            i <= v@.len(),
            r@ == v@.take(i as int),
        decreases v@.len() - i,
    {
        r.push(v[i]);
        assert(r@ =~= v@.take(i + 1));
        i = i + 1;
    }
    assert(v@.take(v@.len() as int) =~= v@);
    r
}

/// Inserts `entries` into `stats` in order.
fn insert_stats(stats: &mut StatMap, entries: &Vec<SerializedStat>)
    requires
        old(stats)@ == Map::<Stat, Float>::empty(),
    ensures
        final(stats)@ == stat_map(entries@),
{
    let mut i: usize = 0;
    assert(entries@.take(0) =~= Seq::<SerializedStat>::empty());
    while i < entries.len()
        invariant
            i <= entries@.len(),
            stats@ == stat_map(entries@.take(i as int)),
        decreases entries@.len() - i,
    {
        assert(entries@.take(i + 1).drop_last() =~= entries@.take(i as int));
        stats.insert(entries[i].stat, entries[i].value);
        i = i + 1;
    }
    assert(entries@.take(entries@.len() as int) =~= entries@);
}

impl ClassBaseData {
    /// A fresh actor of this class: the class's effect triggers, its stats
    /// (a later entry for a stat replacing an earlier one), no status
    /// effects and no damage source.
    pub fn into_actor(self) -> (r: ActorContext)
        ensures
            r.effects@ == self.effects@,
            r.stats@ == stat_map(self.stats@),
            r.status_effects@.len() == 0,
            r.last_damage_source is None,
    {
        let mut stats = StatMap::new();
        insert_stats(&mut stats, &self.stats);
        ActorContext {
            effects: self.effects,
            status_effects: Vec::new(),
            stats,
            last_damage_source: None,
        }
    }
}

/// What the game knows of a registered class: whether it has setup and
/// teardown routines, and its base data.
pub struct ClassEntry {
    pub class_type: ClassType,
    pub has_setup: bool,
    pub has_teardown: bool,
    pub base_data: ClassBaseData,
}

/// The registered classes. A class is looked up by its type; where a type is
/// registered twice, the first entry counts.
pub struct Classes {
    pub classes: Vec<ClassEntry>,
}

/// The index of the first entry of `s` registered for `c`.
pub open spec fn class_index(s: Seq<ClassEntry>, c: ClassType) -> Option<int>
    decreases s.len(),
{
    if s.len() == 0 {
        None
    } else {
        match class_index(s.drop_last(), c) {
            Some(i) => Some(i),
            None => if s.last().class_type == c { Some(s.len() - 1) } else { None },
        }
    }
}

proof fn lemma_class_index_prefix(s: Seq<ClassEntry>, c: ClassType, k: int)
    requires
        0 <= k <= s.len(),
        class_index(s.take(k), c) is Some,
    ensures
        class_index(s, c) == class_index(s.take(k), c),
    decreases s.len() - k,
{
    if k < s.len() {
        assert(s.take(k + 1).drop_last() =~= s.take(k));
        lemma_class_index_prefix(s, c, k + 1);
    } else {
        assert(s.take(k) =~= s);
    }
}

proof fn lemma_class_index_bounds(s: Seq<ClassEntry>, c: ClassType)
    ensures
        class_index(s, c) matches Some(i) ==> 0 <= i < s.len() && s[i].class_type == c,
    decreases s.len(),
{
    if s.len() > 0 {
        lemma_class_index_bounds(s.drop_last(), c);
    }
}

fn find_class(classes: &Classes, c: ClassType) -> (r: Option<usize>)
    ensures
        r matches Some(i) ==> class_index(classes.classes@, c) == Some(i as int) && i < classes.classes@.len(),
        r is None ==> class_index(classes.classes@, c) is None,
{
    let mut i: usize = 0;
    assert(classes.classes@.take(0) =~= Seq::<ClassEntry>::empty());
    while i < classes.classes.len()
        invariant
            i <= classes.classes@.len(),
            class_index(classes.classes@.take(i as int), c) is None,
        decreases classes.classes@.len() - i,
    {
        assert(classes.classes@.take(i + 1).drop_last() =~= classes.classes@.take(i as int));
        if classes.classes[i].class_type == c {
            assert(class_index(classes.classes@.take(i + 1), c) == Some(i as int));
            proof { lemma_class_index_prefix(classes.classes@, c, i + 1); }
            return Some(i);
        }
        i = i + 1;
    }
    assert(classes.classes@.take(classes.classes@.len() as int) =~= classes.classes@);
    None
}

/// A routine of a class that the host runs: the old class's teardown or
/// the new class's setup.
#[derive(Clone, Copy, Debug, PartialEq, Eq, Structural)]
pub enum ClassHook {
    Teardown(ClassType),
    Setup(ClassType),
}

/// The routines a class change runs: the old class's teardown (when asked
/// for, and the old class is registered with one), then the new class's setup
/// (when it is registered with one).
pub open spec fn class_change_hooks(classes: Seq<ClassEntry>, old_class: ClassType, new_class: ClassType, teardown: bool) -> Seq<ClassHook> {
    (if teardown && class_index(classes, old_class) is Some && classes[class_index(classes, old_class)->0].has_teardown {
        seq![ClassHook::Teardown(old_class)]
    } else {
        Seq::empty()
    }) + (if class_index(classes, new_class) is Some && classes[class_index(classes, new_class)->0].has_setup {
        seq![ClassHook::Setup(new_class)]
    } else {
        Seq::empty()
    })
}

/// The class of a player.
pub struct ActorClass {
    class: ClassType,
}

impl ActorClass {
    pub closed spec fn spec_class(self) -> ClassType {
        self.class
    }

    pub fn new(class: ClassType) -> (r: ActorClass)
        ensures r.spec_class() == class,
    {
        ActorClass { class }
    }

    pub fn get_class(&self) -> (r: ClassType)
        ensures r == self.spec_class(),
    {
        self.class
    }

    /// Changes the class to `new_class`: queues the routines of
    /// `class_change_hooks` (with teardown), and, where `new_class` is
    /// registered, resets the actor's stats and effect triggers to the new
    /// class's base data. Where `new_class` is not registered, the class and
    /// the actor stay as they were.
    pub fn set_class(&mut self, hooks: &mut Vec<ClassHook>, classes: &Classes, actor: &mut ActorContext, new_class: ClassType)
        ensures
            class_changed(classes.classes@, *old(self), *final(self), *old(actor), *final(actor), new_class),
            final(hooks)@ == old(hooks)@ + class_change_hooks(classes.classes@, old(self).spec_class(), new_class, true),
    {
        self.set_class_internal(hooks, classes, actor, new_class, true);
    }

    fn set_class_internal(&mut self, hooks: &mut Vec<ClassHook>, classes: &Classes, actor: &mut ActorContext, new_class: ClassType, teardown: bool)
        ensures
            class_changed(classes.classes@, *old(self), *final(self), *old(actor), *final(actor), new_class),
            final(hooks)@ == old(hooks)@ + class_change_hooks(classes.classes@, old(self).spec_class(), new_class, teardown),
    {
        proof {
            lemma_class_index_bounds(classes.classes@, self.class);
            lemma_class_index_bounds(classes.classes@, new_class);
        }
        let ghost hooks0 = hooks@;
        if teardown {
            if let Some(i) = find_class(classes, self.class) {
                if classes.classes[i].has_teardown {
                    hooks.push(ClassHook::Teardown(self.class));
                }
            }
        }
        let ghost hooks1 = hooks@;
        let Some(n) = find_class(classes, new_class) else {
            assert(hooks@ =~= hooks0 + class_change_hooks(classes.classes@, old(self).spec_class(), new_class, teardown));
            return;
        };
        let entry = &classes.classes[n];
        if entry.has_setup {
            hooks.push(ClassHook::Setup(new_class));
        }
        assert(hooks@ =~= hooks0 + class_change_hooks(classes.classes@, old(self).spec_class(), new_class, teardown));

        actor.stats.clear();
        actor.effects.clear();
        insert_stats(&mut actor.stats, &entry.base_data.stats);
        let effects = copy_triggers(&entry.base_data.effects);
        actor.effects = effects;
        self.class = new_class;
    }
}

/// The outcome of changing an actor's class to `new_class`: where the class
/// is registered, the actor's stats and effect triggers become the class's
/// base data (status effects and last damage source stay) and the class
/// becomes `new_class`; otherwise nothing changes.
pub open spec fn class_changed(classes: Seq<ClassEntry>, class0: ActorClass, class1: ActorClass, a0: ActorContext, a1: ActorContext, new_class: ClassType) -> bool {
    match class_index(classes, new_class) {
        Some(i) => {
            &&& class1.spec_class() == new_class
            &&& a1.stats@ == stat_map(classes[i].base_data.stats@)
            &&& a1.effects@ == classes[i].base_data.effects@
            &&& a1.status_effects@ == a0.status_effects@
            &&& a1.last_damage_source == a0.last_damage_source
        },
        None => {
            &&& class1.spec_class() == class0.spec_class()
            &&& a1.stats@ == a0.stats@
            &&& a1.effects@ == a0.effects@
            &&& a1.status_effects@ == a0.status_effects@
            &&& a1.last_damage_source == a0.last_damage_source
        },
    }
}

/// Sets up the class a player was created with: as `set_class` to its own
/// class, but without running a teardown.
pub fn s_setup_initial_class(class: &mut ActorClass, hooks: &mut Vec<ClassHook>, classes: &Classes, actor: &mut ActorContext)
    ensures
        class_changed(classes.classes@, *old(class), *final(class), *old(actor), *final(actor), old(class).spec_class()),
        final(hooks)@ == old(hooks)@ + class_change_hooks(classes.classes@, old(class).spec_class(), old(class).spec_class(), false),
{
    let c = class.get_class();
    class.set_class_internal(hooks, classes, actor, c, false);
}

/// Requests from clients about their player.
#[derive(Clone, Copy, Debug, PartialEq, Eq, Structural)]
pub enum GeneralClientEvents {
    ChangeClass(ClassType),
    SwapClass,
}

/// When the class-change key was just pressed and the local player's class is
/// known, asks to change to the next class of the cycle.
pub fn c_class_change(change_key_just_pressed: bool, player_class: Option<ClassType>) -> (r: Option<GeneralClientEvents>)
    ensures
        r == (if change_key_just_pressed && player_class is Some {
            Some(GeneralClientEvents::ChangeClass(next_in_cycle(player_class->0)))
        } else {
            None
        }),
{
    if !change_key_just_pressed {
        return None;
    }
    let Some(p_class) = player_class else { return None; };
    let class_cycle = ClassType::all_class_types();
    let mut index: usize = 0;
    while index < 3
        invariant
            index <= 3,
            class_cycle@ == seq![ClassType::DefaultClass, ClassType::MeleeClass, ClassType::RangedClass],
            forall|j: int| 0 <= j < index ==> class_cycle@[j] != p_class,
        ensures
            index < 3,
            class_cycle@[index as int] == p_class,
        decreases 3 - index,
    {
        if class_cycle[index] == p_class {
            break;
        }
        index = index + 1;
    }
    let next = (index + 1) % 3;
    Some(GeneralClientEvents::ChangeClass(class_cycle[next]))
}

/// Changes a player's class to `class`.
pub fn change_class(player_class: &mut ActorClass, hooks: &mut Vec<ClassHook>, classes: &Classes, actor: &mut ActorContext, class: ClassType)
    ensures
        class_changed(classes.classes@, *old(player_class), *final(player_class), *old(actor), *final(actor), class),
        final(hooks)@ == old(hooks)@ + class_change_hooks(classes.classes@, old(player_class).spec_class(), class, true),
{
    player_class.set_class(hooks, classes, actor, class);
}

/// Swaps a player's class: to Melee from Default, to Default from any other class.
pub fn swap_class(player_class: &mut ActorClass, hooks: &mut Vec<ClassHook>, classes: &Classes, actor: &mut ActorContext)
    ensures
        class_changed(classes.classes@, *old(player_class), *final(player_class), *old(actor), *final(actor), swap_target(old(player_class).spec_class())),
        final(hooks)@ == old(hooks)@ + class_change_hooks(classes.classes@, old(player_class).spec_class(), swap_target(old(player_class).spec_class()), true),
{
    if player_class.get_class() == ClassType::DefaultClass {
        player_class.set_class(hooks, classes, actor, ClassType::MeleeClass);
    } else {
        player_class.set_class(hooks, classes, actor, ClassType::DefaultClass);
    }
}

/// Three steps of the class cycle return to the starting class, and no step
/// stays in place.
pub proof fn lemma_class_cycle(c: ClassType)
    ensures
        next_in_cycle(next_in_cycle(next_in_cycle(c))) == c,
        next_in_cycle(c) != c,
{
}

/// Two swaps in a row from the Default or the Melee class return to it.
pub proof fn lemma_swap_twice(c: ClassType)
    requires
        c == ClassType::DefaultClass || c == ClassType::MeleeClass,
    ensures
        swap_target(swap_target(c)) == c,
{
}

/// Changing to a registered class twice in a row leaves the actor as after
/// the first change: the outcome depends only on the class's base data.
pub proof fn lemma_set_class_twice(classes: Seq<ClassEntry>, c0: ActorClass, c1: ActorClass, c2: ActorClass,
    a0: ActorContext, a1: ActorContext, a2: ActorContext, new_class: ClassType)
    requires
        class_changed(classes, c0, c1, a0, a1, new_class),
        class_changed(classes, c1, c2, a1, a2, new_class),
    ensures
        c2.spec_class() == c1.spec_class(),
        a2.stats@ == a1.stats@,
        a2.effects@ == a1.effects@,
        a2.status_effects@ == a1.status_effects@,
        a2.last_damage_source == a1.last_damage_source,
{
}


/// The keys that class abilities are bound to.
#[derive(Clone, Copy, Debug, PartialEq, Eq, Structural)]
pub enum KeyCode {
    Space,
    Enter,
    KeyQ,
    KeyE,
    KeyT,
    KeyR,
    KeyG,
    KeyF,
}

/// The abilities of each class: when each runs and its name.
pub open spec fn class_ability_table(class: ClassType) -> Seq<(AbilityTrigger<KeyCode>, &'static str)> {
    match class {
        ClassType::DefaultClass => seq![
            (AbilityTrigger::JustPressed(KeyCode::Space), "Melee attack"),
            (AbilityTrigger::JustPressed(KeyCode::Enter), "Gun attack"),
        ],
        ClassType::MeleeClass => seq![
            (AbilityTrigger::JustPressed(KeyCode::Space), "Base attack"),
            (AbilityTrigger::JustPressed(KeyCode::Enter), "Big swing"),
            (AbilityTrigger::JustPressed(KeyCode::KeyQ), "Slicing projectile"),
            (AbilityTrigger::JustPressed(KeyCode::KeyE), "Spin attack"),
            (AbilityTrigger::JustPressed(KeyCode::KeyT), "Dash"),
        ],
        ClassType::RangedClass => seq![
            (AbilityTrigger::JustPressed(KeyCode::Space), "Basic gun attack"),
            (AbilityTrigger::HeldDown(KeyCode::Space), "Machine gun fire"),
            (AbilityTrigger::JustPressed(KeyCode::Enter), "Grenade throw"),
            (AbilityTrigger::JustPressed(KeyCode::KeyR), "Shotgun blast"),
            (AbilityTrigger::JustPressed(KeyCode::KeyG), "Equip machinegun"),
            (AbilityTrigger::JustPressed(KeyCode::KeyF), "Fire missiiles"),
        ],
    }
}

/// The abilities of `class`, in the order they are set up: when each runs
/// and its name.
pub fn class_abilities(class: ClassType) -> (r: Vec<(AbilityTrigger<KeyCode>, &'static str)>)
    ensures
        r@ == class_ability_table(class),
{
    let mut r: Vec<(AbilityTrigger<KeyCode>, &'static str)> = Vec::new();
    match class {
        ClassType::DefaultClass => {
            r.push((AbilityTrigger::JustPressed(KeyCode::Space), "Melee attack"));
            r.push((AbilityTrigger::JustPressed(KeyCode::Enter), "Gun attack"));
        },
        ClassType::MeleeClass => {
            r.push((AbilityTrigger::JustPressed(KeyCode::Space), "Base attack"));
            r.push((AbilityTrigger::JustPressed(KeyCode::Enter), "Big swing"));
            r.push((AbilityTrigger::JustPressed(KeyCode::KeyQ), "Slicing projectile"));
            r.push((AbilityTrigger::JustPressed(KeyCode::KeyE), "Spin attack"));
            r.push((AbilityTrigger::JustPressed(KeyCode::KeyT), "Dash"));
        },
        ClassType::RangedClass => {
            r.push((AbilityTrigger::JustPressed(KeyCode::Space), "Basic gun attack"));
            r.push((AbilityTrigger::HeldDown(KeyCode::Space), "Machine gun fire"));
            r.push((AbilityTrigger::JustPressed(KeyCode::Enter), "Grenade throw"));
            r.push((AbilityTrigger::JustPressed(KeyCode::KeyR), "Shotgun blast"));
            r.push((AbilityTrigger::JustPressed(KeyCode::KeyG), "Equip machinegun"));
            r.push((AbilityTrigger::JustPressed(KeyCode::KeyF), "Fire missiiles"));
        },
    }
    assert(r@ =~= class_ability_table(class));
    r
}


/// The classes of the game, from their loaded base data: the Default and the
/// Melee class with no setup or teardown routines, the Ranged class with both.
/// Each class is registered once, and every class is registered.
pub fn setup_classes(default_data: ClassBaseData, melee_data: ClassBaseData, ranged_data: ClassBaseData) -> (r: Classes)
    ensures
        r.classes@ == seq![
            ClassEntry { class_type: ClassType::DefaultClass, has_setup: false, has_teardown: false, base_data: default_data },
            ClassEntry { class_type: ClassType::MeleeClass, has_setup: false, has_teardown: false, base_data: melee_data },
            ClassEntry { class_type: ClassType::RangedClass, has_setup: true, has_teardown: true, base_data: ranged_data },
        ],
        forall|i: int, j: int| 0 <= i < j < r.classes@.len() ==> r.classes@[i].class_type != r.classes@[j].class_type,
        forall|c: ClassType| #[trigger] class_index(r.classes@, c) is Some,
{
    let mut classes: Vec<ClassEntry> = Vec::new();
    classes.push(ClassEntry { class_type: ClassType::DefaultClass, has_setup: false, has_teardown: false, base_data: default_data });
    classes.push(ClassEntry { class_type: ClassType::MeleeClass, has_setup: false, has_teardown: false, base_data: melee_data });
    classes.push(ClassEntry { class_type: ClassType::RangedClass, has_setup: true, has_teardown: true, base_data: ranged_data });
    proof {
        let s = classes@;
        assert(s.drop_last().drop_last().drop_last() =~= Seq::<ClassEntry>::empty());
        assert forall|c: ClassType| #[trigger] class_index(s, c) is Some by {
            reveal_with_fuel(class_index, 4);
        }
    }
    Classes { classes }
}


/// The key bindings of the classes. Default: Space swings the melee attack,
/// Enter shoots. Melee: Space, Enter, Q, E and T for its base attack, big
/// swing, slicing projectile, spin attack and dash. Ranged: Space pressed
/// shoots the basic gun and Space held fires the machine gun; Enter throws a
/// grenade, R blasts the shotgun, G equips the machine gun, F fires
/// missiles. No class binds two abilities to the same trigger.
pub proof fn lemma_class_key_bindings(c: ClassType)
    ensures
        class_ability_table(ClassType::DefaultClass) == seq![
            (AbilityTrigger::JustPressed(KeyCode::Space), "Melee attack"),
            (AbilityTrigger::JustPressed(KeyCode::Enter), "Gun attack")],
        class_ability_table(ClassType::MeleeClass) == seq![
            (AbilityTrigger::JustPressed(KeyCode::Space), "Base attack"),
            (AbilityTrigger::JustPressed(KeyCode::Enter), "Big swing"),
            (AbilityTrigger::JustPressed(KeyCode::KeyQ), "Slicing projectile"),
            (AbilityTrigger::JustPressed(KeyCode::KeyE), "Spin attack"),
            (AbilityTrigger::JustPressed(KeyCode::KeyT), "Dash")],
        class_ability_table(ClassType::RangedClass) == seq![
            (AbilityTrigger::JustPressed(KeyCode::Space), "Basic gun attack"),
            (AbilityTrigger::HeldDown(KeyCode::Space), "Machine gun fire"),
            (AbilityTrigger::JustPressed(KeyCode::Enter), "Grenade throw"),
            (AbilityTrigger::JustPressed(KeyCode::KeyR), "Shotgun blast"),
            (AbilityTrigger::JustPressed(KeyCode::KeyG), "Equip machinegun"),
            (AbilityTrigger::JustPressed(KeyCode::KeyF), "Fire missiiles")],
        forall|i: int, j: int| 0 <= i < j < class_ability_table(c).len() ==>
            class_ability_table(c)[i].0 != class_ability_table(c)[j].0,
{
}

} // verus!
