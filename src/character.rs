//! The playable characters and the stats shown when choosing one.
use vstd::prelude::*;

verus! {

/// The playable character types. To a player, these have different
/// appearances and abilities.
#[derive(Clone, Copy, Debug, Hash, PartialEq, Eq, Structural)]
pub enum CharacterType {
    Captain,
    Juggernaut,
}

impl CharacterType {
    /// Every character type, in declaration order.
    pub open spec fn all_spec() -> Seq<CharacterType> {
        seq![CharacterType::Captain, CharacterType::Juggernaut]
    }

    /// Lists every character type, in declaration order (the order a
    /// character selection screen presents them in).
    pub fn all() -> (r: Vec<CharacterType>)
        ensures
            r@ == Self::all_spec(),
    {
        let r = vec![CharacterType::Captain, CharacterType::Juggernaut];
        assert(r@ =~= Self::all_spec());
        r
    }
}

impl Default for CharacterType {
    /// The captain is the character chosen when nothing else was.
    fn default() -> (r: Self)
        ensures
            r == CharacterType::Captain,
    {
        CharacterType::Captain
    }
}

/// Stats used to give the player a rough idea of the strengths and
/// weaknesses of a character.
#[derive(Clone, Copy, Debug, PartialEq, Eq, Structural)]
pub enum CharacterStatType {
    Health,
    Damage,
    Speed,
    FireRate,
    Range,
    Size,
}

impl CharacterStatType {
    /// Every stat type, in declaration order.
    pub open spec fn all_spec() -> Seq<CharacterStatType> {
        seq![
            CharacterStatType::Health,
            CharacterStatType::Damage,
            CharacterStatType::Speed,
            CharacterStatType::FireRate,
            CharacterStatType::Range,
            CharacterStatType::Size,
        ]
    }

    /// Lists every stat type, in declaration order (the order a stat
    /// table shows them in).
    pub fn all() -> (r: Vec<CharacterStatType>)
        ensures
            r@ == Self::all_spec(),
    {
        let r = vec![
            CharacterStatType::Health,
            CharacterStatType::Damage,
            CharacterStatType::Speed,
            CharacterStatType::FireRate,
            CharacterStatType::Range,
            CharacterStatType::Size,
        ];
        assert(r@ =~= Self::all_spec());
        r
    }
}

} // verus!
