//! Participants of an encounter: heroes and enemies. Within an encounter
//! identifiers are assigned by the screen that owns the participants, so
//! they stay unique; a standalone participant draws a random one, which
//! then doubles as its starting speed.

use vstd::prelude::*;

use crate::strutil::string_push;
use crate::types::{BasicStat, Info, Status};

verus! {

/// Stable unique identifier of a participant, independent of its position
/// in any ordering.
pub type Id = u32;

/// Relies on rand's `random`: a value drawn from the thread-local
/// generator via the `Standard` distribution. Nothing is promised of it.
pub assume_specification<T>[ rand::random::<T> ]() -> (r: T)
    where
        rand::distributions::Standard: rand::distributions::Distribution<T>,
;

/// What every participant exposes to the scheduler and the lists.
pub trait Entity {
    spec fn spec_id(&self) -> Id;

    spec fn spec_stat(&self) -> BasicStat;

    spec fn spec_info(&self) -> Info;

    fn id(&self) -> (r: Id)
        ensures
            r == self.spec_id(),
    ;

    fn info(&self) -> (r: &Info)
        ensures
            *r == self.spec_info(),
    ;

    fn stat(&self) -> (r: &BasicStat)
        ensures
            *r == self.spec_stat(),
    ;

    fn get_type(&self) -> (r: EntityType);
}

/// Which side a participant fights on.
#[derive(Clone, Copy, Debug, PartialEq, Eq, Structural)]
pub enum EntityType {
    Hero,
    Enemy,
}

/// The character standing for the decimal digit `d`.
pub open spec fn digit_char(d: nat) -> char {
    if d == 0 {
        '0'
    } else if d == 1 {
        '1'
    } else if d == 2 {
        '2'
    } else if d == 3 {
        '3'
    } else if d == 4 {
        '4'
    } else if d == 5 {
        '5'
    } else if d == 6 {
        '6'
    } else if d == 7 {
        '7'
    } else if d == 8 {
        '8'
    } else {
        '9'
    }
}

/// The decimal digits of `n`, most significant first.
pub open spec fn dec_digits(n: nat) -> Seq<char>
    decreases n,
{
    if n < 10 {
        seq![digit_char(n)]
    } else {
        dec_digits(n / 10).push(digit_char(n % 10))
    }
}

fn digit_to_char(d: u8) -> (c: char)
    requires
        d < 10,
    ensures
        c == digit_char(d as nat),
{
    if d == 0 {
        '0'
    } else if d == 1 {
        '1'
    } else if d == 2 {
        '2'
    } else if d == 3 {
        '3'
    } else if d == 4 {
        '4'
    } else if d == 5 {
        '5'
    } else if d == 6 {
        '6'
    } else if d == 7 {
        '7'
    } else if d == 8 {
        '8'
    } else {
        '9'
    }
}

/// Appends the decimal rendering of `n`.
pub(crate) fn push_decimal(s: &mut String, n: u64)
    ensures
        final(s)@ == old(s)@ + dec_digits(n as nat),
    decreases n,
{
    if n < 10 {
        string_push(s, digit_to_char(n as u8));
        proof {
            assert(old(s)@ + dec_digits(n as nat) =~= old(s)@.push(digit_char(n as nat)));
        }
    } else {
        push_decimal(s, n / 10);
        string_push(s, digit_to_char((n % 10) as u8));
        proof {
            assert(old(s)@ + dec_digits(n as nat) =~= (old(s)@ + dec_digits(
                (n / 10) as nat,
            )).push(digit_char((n % 10) as nat)));
        }
    }
}

/// A player-side participant.
#[derive(Debug)]
pub struct Hero {
    pub id: Id,
    pub info: Info,
    pub stat: BasicStat,
    pub status: Status,
}

impl Hero {
    /// A fresh hero: a random identifier, that identifier as its starting
    /// speed, default stats otherwise, and a name of the form
    /// `<id>. Hero`.
    pub fn new() -> (r: Hero)
        ensures
            r.id <= u8::MAX as u32,
            r.stat == (BasicStat {
                p_att: 15,
                m_att: 15,
                p_def: 15,
                m_def: 15,
                curr_hp: 15,
                max_hp: 15,
                spd: r.id as i32,
            }),
            r.info.name@ == dec_digits(r.id as nat) + seq!['.', ' ', 'H', 'e', 'r', 'o'],
            r.info.description@ == Seq::<char>::empty(),
            r.info.image_path@ == Seq::<char>::empty(),
            !r.status.is_alive(),
            r.status.effects().len() == 0,
    {
        let id: u8 = rand::random::<u8>();
        let mut name = String::new();
        push_decimal(&mut name, id as u64);
        string_push(&mut name, '.');
        string_push(&mut name, ' ');
        string_push(&mut name, 'H');
        string_push(&mut name, 'e');
        string_push(&mut name, 'r');
        string_push(&mut name, 'o');
        proof {
            assert(name@ =~= dec_digits(id as nat) + seq!['.', ' ', 'H', 'e', 'r', 'o']);
        }
        let mut stat = BasicStat::default();
        stat.spd = id as i32;
        Hero {
            id: id as u32,
            info: Info { name, description: String::new(), image_path: String::new() },
            stat,
            status: Status::default(),
        }
    }

    /// A hero under the given identifier: a random starting speed,
    /// default stats otherwise, and a name of the form `<id>. Hero`.
    pub fn with_id(id: Id) -> (r: Hero)
        ensures
            r.id == id,
            0 <= r.stat.spd <= u8::MAX as i32,
            r.stat == (BasicStat {
                p_att: 15,
                m_att: 15,
                p_def: 15,
                m_def: 15,
                curr_hp: 15,
                max_hp: 15,
                spd: r.stat.spd,
            }),
            r.info.name@ == dec_digits(id as nat) + seq!['.', ' ', 'H', 'e', 'r', 'o'],
            r.info.description@ == Seq::<char>::empty(),
            r.info.image_path@ == Seq::<char>::empty(),
            !r.status.is_alive(),
            r.status.effects().len() == 0,
    {
        let spd: u8 = rand::random::<u8>();
        let mut name = String::new();
        push_decimal(&mut name, id as u64);
        string_push(&mut name, '.');
        string_push(&mut name, ' ');
        string_push(&mut name, 'H');
        string_push(&mut name, 'e');
        string_push(&mut name, 'r');
        string_push(&mut name, 'o');
        proof {
            assert(name@ =~= dec_digits(id as nat) + seq!['.', ' ', 'H', 'e', 'r', 'o']);
        }
        let mut stat = BasicStat::default();
        stat.spd = spd as i32;
        Hero {
            id,
            info: Info { name, description: String::new(), image_path: String::new() },
            stat,
            status: Status::default(),
        }
    }
}

impl Entity for Hero {
    open spec fn spec_id(&self) -> Id {
        self.id
    }

    open spec fn spec_stat(&self) -> BasicStat {
        self.stat
    }

    open spec fn spec_info(&self) -> Info {
        self.info
    }

    fn id(&self) -> (r: Id) {
        self.id
    }

    fn info(&self) -> (r: &Info) {
        &self.info
    }

    fn stat(&self) -> (r: &BasicStat) {
        &self.stat
    }

    fn get_type(&self) -> (r: EntityType) {
        EntityType::Hero
    }
}

/// An opposing participant.
#[derive(Debug)]
pub struct Enemy {
    id: Id,
    info: Info,
    stat: BasicStat,
}

impl Enemy {
    /// A fresh enemy: a random identifier, that identifier as its
    /// starting speed, default stats otherwise, and a name of the form
    /// `<id>. Enemy`.
    pub fn new() -> (r: Enemy)
        ensures
            r.spec_id() <= u8::MAX as u32,
            r.spec_stat() == (BasicStat {
                p_att: 15,
                m_att: 15,
                p_def: 15,
                m_def: 15,
                curr_hp: 15,
                max_hp: 15,
                spd: r.spec_id() as i32,
            }),
            r.spec_info().name@ == dec_digits(r.spec_id() as nat) + seq![
                '.',
                ' ',
                'E',
                'n',
                'e',
                'm',
                'y',
            ],
            r.spec_info().description@ == Seq::<char>::empty(),
            r.spec_info().image_path@ == Seq::<char>::empty(),
    {
        let id: u8 = rand::random::<u8>();
        let mut name = String::new();
        push_decimal(&mut name, id as u64);
        string_push(&mut name, '.');
        string_push(&mut name, ' ');
        string_push(&mut name, 'E');
        string_push(&mut name, 'n');
        string_push(&mut name, 'e');
        string_push(&mut name, 'm');
        string_push(&mut name, 'y');
        proof {
            assert(name@ =~= dec_digits(id as nat) + seq!['.', ' ', 'E', 'n', 'e', 'm', 'y']);
        }
        let mut stat = BasicStat::default();
        stat.spd = id as i32;
        Enemy {
            id: id as u32,
            info: Info { name, description: String::new(), image_path: String::new() },
            stat,
        }
    }

    /// An enemy under the given identifier: a random starting speed,
    /// default stats otherwise, and a name of the form `<id>. Enemy`.
    pub fn with_id(id: Id) -> (r: Enemy)
        ensures
            r.spec_id() == id,
            0 <= r.spec_stat().spd <= u8::MAX as i32,
            r.spec_stat() == (BasicStat {
                p_att: 15,
                m_att: 15,
                p_def: 15,
                m_def: 15,
                curr_hp: 15,
                max_hp: 15,
                spd: r.spec_stat().spd,
            }),
            r.spec_info().name@ == dec_digits(id as nat) + seq![
                '.',
                ' ',
                'E',
                'n',
                'e',
                'm',
                'y',
            ],
            r.spec_info().description@ == Seq::<char>::empty(),
            r.spec_info().image_path@ == Seq::<char>::empty(),
    {
        let spd: u8 = rand::random::<u8>();
        let mut name = String::new();
        push_decimal(&mut name, id as u64);
        string_push(&mut name, '.');
        string_push(&mut name, ' ');
        string_push(&mut name, 'E');
        string_push(&mut name, 'n');
        string_push(&mut name, 'e');
        string_push(&mut name, 'm');
        string_push(&mut name, 'y');
        proof {
            assert(name@ =~= dec_digits(id as nat) + seq!['.', ' ', 'E', 'n', 'e', 'm', 'y']);
        }
        let mut stat = BasicStat::default();
        stat.spd = spd as i32;
        Enemy {
            id,
            info: Info { name, description: String::new(), image_path: String::new() },
            stat,
        }
    }
}

impl Entity for Enemy {
    closed spec fn spec_id(&self) -> Id {
        self.id
    }

    closed spec fn spec_stat(&self) -> BasicStat {
        self.stat
    }

    closed spec fn spec_info(&self) -> Info {
        self.info
    }

    fn id(&self) -> (r: Id) {
        self.id
    }

    fn info(&self) -> (r: &Info) {
        &self.info
    }

    fn stat(&self) -> (r: &BasicStat) {
        &self.stat
    }

    fn get_type(&self) -> (r: EntityType) {
        EntityType::Enemy
    }
}

} // verus!
