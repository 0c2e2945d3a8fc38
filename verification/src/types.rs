//! Plain data every participant carries: display information, the basic
//! stat block, and status effects.

use vstd::prelude::*;

verus! {

/// The stat block of a participant. `spd` orders the turn scheduler's
/// rounds.
#[derive(Clone, Copy, Debug, PartialEq, Eq, Structural)]
pub struct BasicStat {
    pub p_att: i32,
    pub m_att: i32,
    pub p_def: i32,
    pub m_def: i32,
    pub curr_hp: u32,
    pub max_hp: u32,
    pub spd: i32,
}

impl Default for BasicStat {
    fn default() -> (r: Self)
        ensures
            r == (BasicStat {
                p_att: 15,
                m_att: 15,
                p_def: 15,
                m_def: 15,
                curr_hp: 15,
                max_hp: 15,
                spd: 15,
            }),
    {
        BasicStat { p_att: 15, m_att: 15, p_def: 15, m_def: 15, curr_hp: 15, max_hp: 15, spd: 15 }
    }
}

/// Display information of a participant.
#[derive(Debug)]
pub struct Info {
    pub name: String,
    pub description: String,
    pub image_path: String,
}

impl Default for Info {
    fn default() -> (r: Self)
        ensures
            r.name@ == "Hero"@,
            r.description@ == Seq::<char>::empty(),
            r.image_path@ == Seq::<char>::empty(),
    {
        Info { name: "Hero".to_owned(), description: String::new(), image_path: String::new() }
    }
}

/// A lasting effect on a participant. The set of effects is closed: each
/// kind is one variant of `EffectKind`.
pub trait Effect {

}

/// Poison dealt by a dragon: periodic damage for a bounded number of
/// turns.
#[derive(Clone, Copy, Debug, PartialEq, Eq, Structural)]
pub struct DragonPoison {
    pub damage: i32,
    pub duration: i32,
}

impl Effect for DragonPoison {

}

/// The closed set of effect kinds a participant can carry.
#[derive(Clone, Copy, Debug, PartialEq, Eq, Structural)]
pub enum EffectKind {
    DragonPoison(DragonPoison),
}

/// Whether a participant is alive and what effects it carries.
#[derive(Debug)]
pub struct Status {
    alive: bool,
    effects: Vec<EffectKind>,
}

impl Status {
    /// Whether the participant is alive.
    pub closed spec fn is_alive(&self) -> bool {
        self.alive
    }

    /// The effects on the participant, oldest first.
    pub closed spec fn effects(&self) -> Seq<EffectKind> {
        self.effects@
    }
}

impl Status {
    /// Whether the participant is alive.
    pub fn alive(&self) -> (r: bool)
        ensures
            r == self.is_alive(),
    {
        self.alive
    }

    /// The effects on the participant, oldest first.
    pub fn get_effects(&self) -> (r: &Vec<EffectKind>)
        ensures
            r@ == self.effects(),
    {
        &self.effects
    }
}

impl Default for Status {
    fn default() -> (r: Self)
        ensures
            !r.is_alive(),
            r.effects() == Seq::<EffectKind>::empty(),
    {
        Status { alive: false, effects: Vec::new() }
    }
}

} // verus!
