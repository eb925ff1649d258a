//! The values of a command's consumed arguments that plugins read, for the
//! kinds of argument that plugins get as plain values.

use vstd::prelude::*;
use crate::bridge::{GameMode, WitGameMode, spec_to_wasm_game_mode, to_wasm_game_mode};
use crate::conversions::{
    BossBarColor, BossBarDivision, BossbarColor, BossbarDivisions, spec_to_wit_color,
    spec_to_wit_division, to_wit_color, to_wit_division,
};
use crate::text::str_eq;

verus! {

/// Difficulty of a world, as the server keeps it.
#[derive(Clone, Copy, Debug, PartialEq, Eq, Structural)]
pub enum Difficulty {
    Peaceful,
    Easy,
    Normal,
    Hard,
}

/// Difficulty of a world, as plugins see it.
#[derive(Clone, Copy, Debug, PartialEq, Eq, Structural)]
pub enum WitDifficulty {
    Peaceful,
    Easy,
    Normal,
    Hard,
}

/// Category of a sound, as the server keeps it.
#[derive(Clone, Copy, Debug, PartialEq, Eq, Structural)]
pub enum SoundCategory {
    Master,
    Music,
    Records,
    Weather,
    Blocks,
    Hostile,
    Neutral,
    Players,
    Ambient,
    Voice,
    Ui,
}

/// Category of a sound, as plugins see it; plugins know no user-interface
/// category.
#[derive(Clone, Copy, Debug, PartialEq, Eq, Structural)]
pub enum WitSoundCategory {
    Master,
    Music,
    Records,
    Weather,
    Blocks,
    Hostile,
    Neutral,
    Players,
    Ambient,
    Voice,
}

/// Part of an entity that a position is taken from, as the server keeps it.
#[derive(Clone, Copy, Debug, PartialEq, Eq, Structural)]
pub enum EntityAnchor {
    Eyes,
    Feet,
}

/// Part of an entity that a position is taken from, as plugins see it.
#[derive(Clone, Copy, Debug, PartialEq, Eq, Structural)]
pub enum WitEntityAnchor {
    Eyes,
    Feet,
}

/// An integer number argument, as the server keeps it.
#[derive(Clone, Copy, Debug, PartialEq, Eq, Structural)]
pub enum IntNumber {
    I32(i32),
    I64(i64),
}

/// An integer number argument, as plugins see it.
#[derive(Clone, Copy, Debug, PartialEq, Eq, Structural)]
pub enum WitNumber {
    Int32(i32),
    Int64(i64),
}

/// A number outside the bounds of its argument, with the bound it broke, as
/// the server keeps it.
#[derive(Clone, Copy, Debug, PartialEq, Eq, Structural)]
pub enum NotInBounds {
    LowerBound(IntNumber, IntNumber),
    UpperBound(IntNumber, IntNumber),
}

/// A number outside the bounds of its argument, as plugins see it.
#[derive(Clone, Copy, Debug, PartialEq, Eq, Structural)]
pub enum WitNotInBounds {
    LowerBound(WitNumber, WitNumber),
    UpperBound(WitNumber, WitNumber),
}

/// The plugin's number for the server's.
pub open spec fn spec_to_wit_number(n: IntNumber) -> WitNumber {
    match n {
        IntNumber::I32(v) => WitNumber::Int32(v),
        IntNumber::I64(v) => WitNumber::Int64(v),
    }
}

/// The value of a server number.
pub open spec fn int_number_value(n: IntNumber) -> int {
    match n {
        IntNumber::I32(v) => v as int,
        IntNumber::I64(v) => v as int,
    }
}

/// The value of a plugin's number.
pub open spec fn wit_number_value(n: WitNumber) -> int {
    match n {
        WitNumber::Int32(v) => v as int,
        WitNumber::Int64(v) => v as int,
    }
}

/// A number reaches plugins with its value and its width: a 32-bit number
/// as a 32-bit one, a 64-bit number as a 64-bit one.
pub proof fn lemma_to_wit_number_keeps_value(n: IntNumber)
    ensures
        wit_number_value(spec_to_wit_number(n)) == int_number_value(n),
        (spec_to_wit_number(n) is Int32) == (n is I32),
{
}

/// The plugin's number for the server's.
pub fn to_wit_number(n: IntNumber) -> (res: WitNumber)
    ensures
        res == spec_to_wit_number(n),
{
    match n {
        IntNumber::I32(v) => WitNumber::Int32(v),
        IntNumber::I64(v) => WitNumber::Int64(v),
    }
}

/// The plugin's form of a number argument: the number, or the bound it broke,
/// each number as the plugin sees it.
pub open spec fn spec_to_wit_num(n: Result<IntNumber, NotInBounds>) -> Result<
    WitNumber,
    WitNotInBounds,
> {
    match n {
        Ok(v) => Ok(spec_to_wit_number(v)),
        Err(NotInBounds::LowerBound(a, b)) => Err(
            WitNotInBounds::LowerBound(spec_to_wit_number(a), spec_to_wit_number(b)),
        ),
        Err(NotInBounds::UpperBound(a, b)) => Err(
            WitNotInBounds::UpperBound(spec_to_wit_number(a), spec_to_wit_number(b)),
        ),
    }
}

/// A number argument reaches plugins as a number when it is one, and a
/// broken bound as the same side of bound, with the same two values.
pub proof fn lemma_to_wit_num_keeps_bound(n: Result<IntNumber, NotInBounds>)
    ensures
        n matches Ok(v) ==> (spec_to_wit_num(n) matches Ok(w) && wit_number_value(w)
            == int_number_value(v)),
        n matches Err(NotInBounds::LowerBound(a, b)) ==> (spec_to_wit_num(n) matches Err(
            WitNotInBounds::LowerBound(x, y),
        ) && wit_number_value(x) == int_number_value(a) && wit_number_value(y)
            == int_number_value(b)),
        n matches Err(NotInBounds::UpperBound(a, b)) ==> (spec_to_wit_num(n) matches Err(
            WitNotInBounds::UpperBound(x, y),
        ) && wit_number_value(x) == int_number_value(a) && wit_number_value(y)
            == int_number_value(b)),
{
}

/// A consumed command argument, as the server keeps it. Arguments that carry
/// floating-point values, players or text components are not among these;
/// entity, game-profile and command-tree arguments are listed without their
/// values, which plugins do not get.
pub enum CommandArgValue {
    Simple(String),
    Msg(String),
    Bool(bool),
    Item(String),
    ItemPredicate(String),
    ResourceLocation(String),
    Block(String),
    BlockPredicate(String),
    Time(i32),
    /// An integer number, or the bound it broke.
    Num(Result<IntNumber, NotInBounds>),
    BlockPos(i32, i32, i32),
    GameMode(GameMode),
    Difficulty(Difficulty),
    BossbarColor(BossbarColor),
    BossbarStyle(BossbarDivisions),
    SoundCategory(SoundCategory),
    /// The message id of a damage type.
    DamageType(String),
    /// The Minecraft name of a status effect.
    Effect(String),
    /// The name of an enchantment.
    Enchantment(String),
    /// The identifier of an advancement.
    Advancement(String),
    EntityAnchor(EntityAnchor),
    Entities,
    Entity,
    GameProfiles,
    CommandTree,
}

/// An argument value, as plugins get it.
pub enum WitArgValue {
    Simple(String),
    Msg(String),
    Bool(bool),
    Item(String),
    ItemPredicate(String),
    ResourceLocation(String),
    Block(String),
    BlockPredicate(String),
    Time(i32),
    Num(Result<WitNumber, WitNotInBounds>),
    BlockPos(i32, i32, i32),
    Gamemode(WitGameMode),
    Difficulty(WitDifficulty),
    BossbarColor(BossBarColor),
    BossbarStyle(BossBarDivision),
    SoundCategory(WitSoundCategory),
    DamageType(String),
    Effect(String),
    Enchantment(String),
    Advancement(String),
    EntityAnchor(WitEntityAnchor),
}

/// Mathematical form of a [`WitArgValue`].
pub enum WitArgView {
    Simple(Seq<char>),
    Msg(Seq<char>),
    Bool(bool),
    Item(Seq<char>),
    ItemPredicate(Seq<char>),
    ResourceLocation(Seq<char>),
    Block(Seq<char>),
    BlockPredicate(Seq<char>),
    Time(i32),
    Num(Result<WitNumber, WitNotInBounds>),
    BlockPos(i32, i32, i32),
    Gamemode(WitGameMode),
    Difficulty(WitDifficulty),
    BossbarColor(BossBarColor),
    BossbarStyle(BossBarDivision),
    SoundCategory(WitSoundCategory),
    DamageType(Seq<char>),
    Effect(Seq<char>),
    Enchantment(Seq<char>),
    Advancement(Seq<char>),
    EntityAnchor(WitEntityAnchor),
}

impl View for WitArgValue {
    type V = WitArgView;

    open spec fn view(&self) -> WitArgView {
        match self {
            WitArgValue::Simple(s) => WitArgView::Simple(s@),
            WitArgValue::Msg(s) => WitArgView::Msg(s@),
            WitArgValue::Bool(b) => WitArgView::Bool(*b),
            WitArgValue::Item(s) => WitArgView::Item(s@),
            WitArgValue::ItemPredicate(s) => WitArgView::ItemPredicate(s@),
            WitArgValue::ResourceLocation(s) => WitArgView::ResourceLocation(s@),
            WitArgValue::Block(s) => WitArgView::Block(s@),
            WitArgValue::BlockPredicate(s) => WitArgView::BlockPredicate(s@),
            WitArgValue::Time(t) => WitArgView::Time(*t),
            WitArgValue::Num(n) => WitArgView::Num(*n),
            WitArgValue::BlockPos(x, y, z) => WitArgView::BlockPos(*x, *y, *z),
            WitArgValue::Gamemode(g) => WitArgView::Gamemode(*g),
            WitArgValue::Difficulty(d) => WitArgView::Difficulty(*d),
            WitArgValue::BossbarColor(c) => WitArgView::BossbarColor(*c),
            WitArgValue::BossbarStyle(s) => WitArgView::BossbarStyle(*s),
            WitArgValue::SoundCategory(c) => WitArgView::SoundCategory(*c),
            WitArgValue::DamageType(s) => WitArgView::DamageType(s@),
            WitArgValue::Effect(s) => WitArgView::Effect(s@),
            WitArgValue::Enchantment(s) => WitArgView::Enchantment(s@),
            WitArgValue::Advancement(s) => WitArgView::Advancement(s@),
            WitArgValue::EntityAnchor(a) => WitArgView::EntityAnchor(*a),
        }
    }
}

/// The plugin's difficulty for the server's.
pub open spec fn spec_to_wit_difficulty(d: Difficulty) -> WitDifficulty {
    match d {
        Difficulty::Peaceful => WitDifficulty::Peaceful,
        Difficulty::Easy => WitDifficulty::Easy,
        Difficulty::Normal => WitDifficulty::Normal,
        Difficulty::Hard => WitDifficulty::Hard,
    }
}

/// The plugin's sound category for the server's: the user-interface category
/// becomes the master category.
pub open spec fn spec_to_wit_sound_category(c: SoundCategory) -> WitSoundCategory {
    match c {
        SoundCategory::Master | SoundCategory::Ui => WitSoundCategory::Master,
        SoundCategory::Music => WitSoundCategory::Music,
        SoundCategory::Records => WitSoundCategory::Records,
        SoundCategory::Weather => WitSoundCategory::Weather,
        SoundCategory::Blocks => WitSoundCategory::Blocks,
        SoundCategory::Hostile => WitSoundCategory::Hostile,
        SoundCategory::Neutral => WitSoundCategory::Neutral,
        SoundCategory::Players => WitSoundCategory::Players,
        SoundCategory::Ambient => WitSoundCategory::Ambient,
        SoundCategory::Voice => WitSoundCategory::Voice,
    }
}

/// The plugin's entity anchor for the server's.
pub open spec fn spec_to_wit_entity_anchor(a: EntityAnchor) -> WitEntityAnchor {
    match a {
        EntityAnchor::Eyes => WitEntityAnchor::Eyes,
        EntityAnchor::Feet => WitEntityAnchor::Feet,
    }
}

/// The value a plugin gets for an argument: the same value in the plugin's
/// form, and an empty simple string for the kinds plugins do not get.
pub open spec fn wit_arg_of(v: CommandArgValue) -> WitArgView {
    match v {
        CommandArgValue::Simple(s) => WitArgView::Simple(s@),
        CommandArgValue::Msg(s) => WitArgView::Msg(s@),
        CommandArgValue::Bool(b) => WitArgView::Bool(b),
        CommandArgValue::Item(s) => WitArgView::Item(s@),
        CommandArgValue::ItemPredicate(s) => WitArgView::ItemPredicate(s@),
        CommandArgValue::ResourceLocation(s) => WitArgView::ResourceLocation(s@),
        CommandArgValue::Block(s) => WitArgView::Block(s@),
        CommandArgValue::BlockPredicate(s) => WitArgView::BlockPredicate(s@),
        CommandArgValue::Time(t) => WitArgView::Time(t),
        CommandArgValue::Num(n) => WitArgView::Num(spec_to_wit_num(n)),
        CommandArgValue::BlockPos(x, y, z) => WitArgView::BlockPos(x, y, z),
        CommandArgValue::GameMode(g) => WitArgView::Gamemode(spec_to_wasm_game_mode(g)),
        CommandArgValue::Difficulty(d) => WitArgView::Difficulty(spec_to_wit_difficulty(d)),
        CommandArgValue::BossbarColor(c) => WitArgView::BossbarColor(spec_to_wit_color(c)),
        CommandArgValue::BossbarStyle(s) => WitArgView::BossbarStyle(spec_to_wit_division(s)),
        CommandArgValue::SoundCategory(c) => WitArgView::SoundCategory(
            spec_to_wit_sound_category(c),
        ),
        CommandArgValue::DamageType(s) => WitArgView::DamageType(s@),
        CommandArgValue::Effect(s) => WitArgView::Effect(s@),
        CommandArgValue::Enchantment(s) => WitArgView::Enchantment(s@),
        CommandArgValue::Advancement(s) => WitArgView::Advancement(s@),
        CommandArgValue::EntityAnchor(a) => WitArgView::EntityAnchor(spec_to_wit_entity_anchor(a)),
        CommandArgValue::Entities | CommandArgValue::Entity | CommandArgValue::GameProfiles
        | CommandArgValue::CommandTree => WitArgView::Simple(Seq::empty()),
    }
}

/// The value of the first argument named `key`, if any.
pub open spec fn lookup(provider: Seq<(String, CommandArgValue)>, key: Seq<char>) -> Option<
    CommandArgValue,
>
    decreases provider.len(),
{
    if provider.len() == 0 {
        None
    } else if provider[0].0@ == key {
        Some(provider[0].1)
    } else {
        lookup(provider.drop_first(), key)
    }
}

fn to_wit_arg(v: &CommandArgValue) -> (res: WitArgValue)
    ensures
        res@ == wit_arg_of(*v),
{
    match v {
        CommandArgValue::Simple(s) => WitArgValue::Simple(s.clone()),
        CommandArgValue::Msg(s) => WitArgValue::Msg(s.clone()),
        CommandArgValue::Bool(b) => WitArgValue::Bool(*b),
        CommandArgValue::Item(s) => WitArgValue::Item(s.clone()),
        CommandArgValue::ItemPredicate(s) => WitArgValue::ItemPredicate(s.clone()),
        CommandArgValue::ResourceLocation(s) => WitArgValue::ResourceLocation(s.clone()),
        CommandArgValue::Block(s) => WitArgValue::Block(s.clone()),
        CommandArgValue::BlockPredicate(s) => WitArgValue::BlockPredicate(s.clone()),
        CommandArgValue::Time(t) => WitArgValue::Time(*t),
        CommandArgValue::Num(n) => WitArgValue::Num(
            match n {
                Ok(v) => Ok(to_wit_number(*v)),
                Err(NotInBounds::LowerBound(a, b)) => Err(
                    WitNotInBounds::LowerBound(to_wit_number(*a), to_wit_number(*b)),
                ),
                Err(NotInBounds::UpperBound(a, b)) => Err(
                    WitNotInBounds::UpperBound(to_wit_number(*a), to_wit_number(*b)),
                ),
            },
        ),
        CommandArgValue::BlockPos(x, y, z) => WitArgValue::BlockPos(*x, *y, *z),
        CommandArgValue::GameMode(g) => WitArgValue::Gamemode(to_wasm_game_mode(*g)),
        CommandArgValue::Difficulty(d) => WitArgValue::Difficulty(
            match d {
                Difficulty::Peaceful => WitDifficulty::Peaceful,
                Difficulty::Easy => WitDifficulty::Easy,
                Difficulty::Normal => WitDifficulty::Normal,
                Difficulty::Hard => WitDifficulty::Hard,
            },
        ),
        CommandArgValue::BossbarColor(c) => WitArgValue::BossbarColor(to_wit_color(*c)),
        CommandArgValue::BossbarStyle(s) => WitArgValue::BossbarStyle(to_wit_division(*s)),
        CommandArgValue::SoundCategory(c) => WitArgValue::SoundCategory(
            match c {
                SoundCategory::Master | SoundCategory::Ui => WitSoundCategory::Master,
                SoundCategory::Music => WitSoundCategory::Music,
                SoundCategory::Records => WitSoundCategory::Records,
                SoundCategory::Weather => WitSoundCategory::Weather,
                SoundCategory::Blocks => WitSoundCategory::Blocks,
                SoundCategory::Hostile => WitSoundCategory::Hostile,
                SoundCategory::Neutral => WitSoundCategory::Neutral,
                SoundCategory::Players => WitSoundCategory::Players,
                SoundCategory::Ambient => WitSoundCategory::Ambient,
                SoundCategory::Voice => WitSoundCategory::Voice,
            },
        ),
        CommandArgValue::DamageType(s) => WitArgValue::DamageType(s.clone()),
        CommandArgValue::Effect(s) => WitArgValue::Effect(s.clone()),
        CommandArgValue::Enchantment(s) => WitArgValue::Enchantment(s.clone()),
        CommandArgValue::Advancement(s) => WitArgValue::Advancement(s.clone()),
        CommandArgValue::EntityAnchor(a) => WitArgValue::EntityAnchor(
            match a {
                EntityAnchor::Eyes => WitEntityAnchor::Eyes,
                EntityAnchor::Feet => WitEntityAnchor::Feet,
            },
        ),
        CommandArgValue::Entities | CommandArgValue::Entity | CommandArgValue::GameProfiles
        | CommandArgValue::CommandTree => WitArgValue::Simple(String::new()),
    }
}

/// No two entries share a name.
pub open spec fn names_distinct(entries: Seq<(String, CommandArgValue)>) -> bool {
    forall|a: int, b: int|
        0 <= a < entries.len() && 0 <= b < entries.len() && a != b ==> #[trigger] entries[a].0@
            != #[trigger] entries[b].0@
}

/// Looking a name up in entries with one more at the end: the earlier entries
/// come first.
proof fn lemma_lookup_push(entries: Seq<(String, CommandArgValue)>, entry: (String, CommandArgValue), key: Seq<char>)
    ensures
        lookup(entries.push(entry), key) == (if lookup(entries, key) is Some {
            lookup(entries, key)
        } else if entry.0@ == key {
            Some(entry.1)
        } else {
            None
        }),
    decreases entries.len(),
{
    let pushed = entries.push(entry);
    if entries.len() > 0 {
        assert(pushed.drop_first() =~= entries.drop_first().push(entry));
        assert(pushed[0] == entries[0]);
        lemma_lookup_push(entries.drop_first(), entry, key);
        if entries[0].0@ == key {
            assert(lookup(entries, key) == Some(entries[0].1));
            assert(lookup(pushed, key) == Some(entries[0].1));
        } else {
            assert(lookup(entries, key) == lookup(entries.drop_first(), key));
            assert(lookup(pushed, key) == lookup(pushed.drop_first(), key));
        }
    } else {
        assert(pushed.drop_first() =~= Seq::<(String, CommandArgValue)>::empty());
        assert(lookup(Seq::<(String, CommandArgValue)>::empty(), key) is None);
        assert(pushed[0] == entry);
        assert(lookup(entries, key) is None);
    }
}

/// An entry whose name no other entry has is what a lookup of that name finds.
proof fn lemma_lookup_at(entries: Seq<(String, CommandArgValue)>, i: int)
    requires
        names_distinct(entries),
        0 <= i < entries.len(),
    ensures
        lookup(entries, entries[i].0@) == Some(entries[i].1),
    decreases entries.len(),
{
    if i > 0 {
        assert(entries[0].0@ != entries[i].0@);
        let rest = entries.drop_first();
        assert(rest[i - 1] == entries[i]);
        assert(names_distinct(rest)) by {
            assert forall|a: int, b: int|
                0 <= a < rest.len() && 0 <= b < rest.len() && a != b implies #[trigger] rest[a].0@
                    != #[trigger] rest[b].0@ by {
                assert(rest[a] == entries[a + 1] && rest[b] == entries[b + 1]);
            }
        }
        lemma_lookup_at(rest, i - 1);
    }
}

/// A name that no entry has is found nowhere.
proof fn lemma_lookup_absent(entries: Seq<(String, CommandArgValue)>, key: Seq<char>)
    requires
        forall|k: int| 0 <= k < entries.len() ==> #[trigger] entries[k].0@ != key,
    ensures
        lookup(entries, key) is None,
    decreases entries.len(),
{
    if entries.len() > 0 {
        let rest = entries.drop_first();
        assert forall|k: int| 0 <= k < rest.len() implies #[trigger] rest[k].0@ != key by {
            assert(rest[k] == entries[k + 1]);
        }
        lemma_lookup_absent(rest, key);
    }
}

/// A lookup finds the entry of that name, if any.
proof fn lemma_lookup_found(entries: Seq<(String, CommandArgValue)>, key: Seq<char>)
    requires
        names_distinct(entries),
    ensures
        lookup(entries, key) is Some ==> exists|k: int|
            0 <= k < entries.len() && entries[k].0@ == key && lookup(entries, key) == Some(
                #[trigger] entries[k].1,
            ),
        lookup(entries, key) is None ==> forall|k: int|
            0 <= k < entries.len() ==> #[trigger] entries[k].0@ != key,
{
    if exists|k: int| 0 <= k < entries.len() && #[trigger] entries[k].0@ == key {
        let k = choose|k: int| 0 <= k < entries.len() && #[trigger] entries[k].0@ == key;
        lemma_lookup_at(entries, k);
    } else {
        lemma_lookup_absent(entries, key);
    }
}

/// The consumed arguments of a command, each under its own name.
pub struct ConsumedArgs {
    entries: Vec<(String, CommandArgValue)>,
}

impl ConsumedArgs {
    #[verifier::type_invariant]
    spec fn names_are_distinct(self) -> bool {
        names_distinct(self.entries@)
    }

    /// The value of the argument named `key`, if any.
    pub closed spec fn value_of(self, key: Seq<char>) -> Option<CommandArgValue> {
        lookup(self.entries@, key)
    }

    /// No arguments.
    pub fn new() -> (res: Self)
        ensures
            forall|key: Seq<char>| res.value_of(key) is None,
    {
        ConsumedArgs { entries: Vec::new() }
    }

    /// Sets the argument named `key` to `value`, replacing any value it had.
    pub fn insert(&mut self, key: String, value: CommandArgValue)
        ensures
            final(self).value_of(key@) == Some(value),
            forall|other: Seq<char>|
                other != key@ ==> #[trigger] final(self).value_of(other) == old(self).value_of(
                    other,
                ),
    {
        proof {
            use_type_invariant(&*self);
        }
        let mut entries: Vec<(String, CommandArgValue)> = Vec::new();
        std::mem::swap(&mut entries, &mut self.entries);
        let ghost old_entries = entries@;
        let mut i: usize = 0;
        while i < entries.len()
            invariant
                old_entries == entries@,
                old(self).entries@ == old_entries,
                names_distinct(old_entries),
                i <= old_entries.len(),
                forall|k: int| 0 <= k < i ==> #[trigger] old_entries[k].0@ != key@,
            decreases entries.len() - i,
        {
            if str_eq(entries[i].0.as_str(), key.as_str()) {
                let ghost new_entries = old_entries.update(i as int, (key, value));
                proof {
                    assert(old_entries[i as int].0@ == key@);
                    assert(new_entries[i as int].0@ == key@);
                    assert(names_distinct(new_entries)) by {
                        assert forall|a: int, b: int|
                            0 <= a < new_entries.len() && 0 <= b < new_entries.len() && a != b implies #[trigger] new_entries[a].0@
                                != #[trigger] new_entries[b].0@ by {
                            assert(old_entries[a].0@ != old_entries[b].0@);
                        }
                    }
                    lemma_lookup_at(new_entries, i as int);
                    assert forall|other: Seq<char>| other != key@ implies #[trigger] lookup(
                        new_entries,
                        other,
                    ) == lookup(old_entries, other) by {
                        lemma_lookup_found(old_entries, other);
                        lemma_lookup_found(new_entries, other);
                        if lookup(old_entries, other) is Some {
                            let k = choose|k: int|
                                0 <= k < old_entries.len() && old_entries[k].0@ == other && lookup(
                                    old_entries,
                                    other,
                                ) == Some(#[trigger] old_entries[k].1);
                            assert(new_entries[k] == old_entries[k]);
                            lemma_lookup_at(new_entries, k);
                        }
                        if lookup(new_entries, other) is Some {
                            let k = choose|k: int|
                                0 <= k < new_entries.len() && new_entries[k].0@ == other && lookup(
                                    new_entries,
                                    other,
                                ) == Some(#[trigger] new_entries[k].1);
                            assert(new_entries[k] == old_entries[k]);
                            lemma_lookup_at(old_entries, k);
                        }
                    }
                }
                entries.set(i, (key, value));
                assert(entries@ == new_entries);
                self.entries = entries;
                assert forall|other: Seq<char>| other != key@ implies #[trigger] self.value_of(other)
                    == old(self).value_of(other) by {
                    assert(lookup(new_entries, other) == lookup(old_entries, other));
                    assert(self.entries@ == new_entries);
                    assert(old(self).entries@ == old_entries);
                }
                return;
            }
            i = i + 1;
        }
        let ghost new_entries = old_entries.push((key, value));
        proof {
            lemma_lookup_absent(old_entries, key@);
            assert(names_distinct(new_entries)) by {
                assert forall|a: int, b: int|
                    0 <= a < new_entries.len() && 0 <= b < new_entries.len() && a != b implies #[trigger] new_entries[a].0@
                        != #[trigger] new_entries[b].0@ by {
                    if a < old_entries.len() && b < old_entries.len() {
                        assert(old_entries[a].0@ != old_entries[b].0@);
                    } else if a < old_entries.len() {
                        assert(old_entries[a].0@ != key@);
                    } else {
                        assert(old_entries[b].0@ != key@);
                    }
                }
            }
            assert forall|other: Seq<char>| other != key@ implies #[trigger] lookup(
                new_entries,
                other,
            ) == lookup(old_entries, other) by {
                lemma_lookup_push(old_entries, (key, value), other);
            }
            lemma_lookup_push(old_entries, (key, value), key@);
        }
        entries.push((key, value));
        self.entries = entries;
    }
}

/// The value a plugin gets for the consumed argument named `key`: an empty
/// simple string when there is no such argument, else the argument's value in
/// the plugin's form.
pub fn arg_for_key(args: &ConsumedArgs, key: &str) -> (res: WitArgValue)
    ensures
        res@ == match args.value_of(key@) {
            None => WitArgView::Simple(Seq::empty()),
            Some(v) => wit_arg_of(v),
        },
{
    let provider = &args.entries;
    assert(args.value_of(key@) == lookup(provider@, key@));
    let mut i: usize = 0;
    assert(provider@.skip(0) =~= provider@);
    while i < provider.len()
        invariant
            i <= provider@.len(),
            args.value_of(key@) == lookup(provider@, key@),
            lookup(provider@, key@) == lookup(provider@.skip(i as int), key@),
        decreases provider.len() - i,
    {
        proof {
            assert(provider@.skip(i as int)[0] == provider@[i as int]);
            assert(provider@.skip(i as int).drop_first() =~= provider@.skip(i + 1));
        }
        if str_eq(provider[i].0.as_str(), key) {
            return to_wit_arg(&provider[i].1);
        }
        i = i + 1;
    }
    WitArgValue::Simple(String::new())
}

/// The name of each `Difficulty` variant, as text.
pub open spec fn difficulty_name(v: Difficulty) -> Seq<char> {
    match v {
        Difficulty::Peaceful => "Peaceful"@,
        Difficulty::Easy => "Easy"@,
        Difficulty::Normal => "Normal"@,
        Difficulty::Hard => "Hard"@,
    }
}

/// The name of each `WitDifficulty` variant, as text.
pub open spec fn wit_difficulty_name(v: WitDifficulty) -> Seq<char> {
    match v {
        WitDifficulty::Peaceful => "Peaceful"@,
        WitDifficulty::Easy => "Easy"@,
        WitDifficulty::Normal => "Normal"@,
        WitDifficulty::Hard => "Hard"@,
    }
}

/// A difficulty reaches plugins as the difficulty of the same name.
pub proof fn lemma_to_wit_difficulty_keeps_name(v: Difficulty)
    ensures
        wit_difficulty_name(spec_to_wit_difficulty(v)) == difficulty_name(v),
{
    match v {
        Difficulty::Peaceful => {},
        Difficulty::Easy => {},
        Difficulty::Normal => {},
        Difficulty::Hard => {},
    }
}

/// The name of each `SoundCategory` variant, as text.
pub open spec fn sound_category_name(v: SoundCategory) -> Seq<char> {
    match v {
        SoundCategory::Master => "Master"@,
        SoundCategory::Music => "Music"@,
        SoundCategory::Records => "Records"@,
        SoundCategory::Weather => "Weather"@,
        SoundCategory::Blocks => "Blocks"@,
        SoundCategory::Hostile => "Hostile"@,
        SoundCategory::Neutral => "Neutral"@,
        SoundCategory::Players => "Players"@,
        SoundCategory::Ambient => "Ambient"@,
        SoundCategory::Voice => "Voice"@,
        SoundCategory::Ui => "Ui"@,
    }
}

/// The name of each `WitSoundCategory` variant, as text.
pub open spec fn wit_sound_category_name(v: WitSoundCategory) -> Seq<char> {
    match v {
        WitSoundCategory::Master => "Master"@,
        WitSoundCategory::Music => "Music"@,
        WitSoundCategory::Records => "Records"@,
        WitSoundCategory::Weather => "Weather"@,
        WitSoundCategory::Blocks => "Blocks"@,
        WitSoundCategory::Hostile => "Hostile"@,
        WitSoundCategory::Neutral => "Neutral"@,
        WitSoundCategory::Players => "Players"@,
        WitSoundCategory::Ambient => "Ambient"@,
        WitSoundCategory::Voice => "Voice"@,
    }
}

/// A sound category reaches plugins as the category of the same name; the
/// user-interface category, which plugins do not know, reaches them as the master
/// category.
pub proof fn lemma_to_wit_sound_category_keeps_name(v: SoundCategory)
    ensures
        v != SoundCategory::Ui ==> wit_sound_category_name(spec_to_wit_sound_category(v)) == sound_category_name(v),
        spec_to_wit_sound_category(SoundCategory::Ui) == WitSoundCategory::Master,
{
    match v {
        SoundCategory::Master => {},
        SoundCategory::Music => {},
        SoundCategory::Records => {},
        SoundCategory::Weather => {},
        SoundCategory::Blocks => {},
        SoundCategory::Hostile => {},
        SoundCategory::Neutral => {},
        SoundCategory::Players => {},
        SoundCategory::Ambient => {},
        SoundCategory::Voice => {},
        SoundCategory::Ui => {},
    }
}

/// The name of each `EntityAnchor` variant, as text.
pub open spec fn entity_anchor_name(v: EntityAnchor) -> Seq<char> {
    match v {
        EntityAnchor::Eyes => "Eyes"@,
        EntityAnchor::Feet => "Feet"@,
    }
}

/// The name of each `WitEntityAnchor` variant, as text.
pub open spec fn wit_entity_anchor_name(v: WitEntityAnchor) -> Seq<char> {
    match v {
        WitEntityAnchor::Eyes => "Eyes"@,
        WitEntityAnchor::Feet => "Feet"@,
    }
}

/// An entity anchor reaches plugins as the anchor of the same name.
pub proof fn lemma_to_wit_entity_anchor_keeps_name(v: EntityAnchor)
    ensures
        wit_entity_anchor_name(spec_to_wit_entity_anchor(v)) == entity_anchor_name(v),
{
    match v {
        EntityAnchor::Eyes => {},
        EntityAnchor::Feet => {},
    }
}

} // verus!
