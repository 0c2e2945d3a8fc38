//! A selectable list of one side's participants, with the actor whose
//! turn it is marked.

use vstd::prelude::*;

use crate::components::ComponentType;
use crate::entities::{Entity, Id};
use crate::event::{Event, KeyCode};

verus! {

/// The list's selection after a key event: `k` and Up move up, `j` and
/// Down move down, within the list's population.
pub open spec fn list_selection(sel: nat, count: nat, e: Event) -> nat {
    match e {
        Event::Key(k) => match k.code {
            KeyCode::Char(ch) => if ch == 'k' {
                moved_up(sel)
            } else if ch == 'j' {
                moved_down(sel, count)
            } else {
                sel
            },
            KeyCode::Up => moved_up(sel),
            KeyCode::Down => moved_down(sel, count),
            _ => sel,
        },
        _ => sel,
    }
}

pub open spec fn moved_up(sel: nat) -> nat {
    if sel > 0 {
        (sel - 1) as nat
    } else {
        sel
    }
}

pub open spec fn moved_down(sel: nat, count: nat) -> nat {
    if count > 0 && sel < count - 1 {
        sel + 1
    } else {
        sel
    }
}

/// One side's participants, a selection cursor, and the marked actor.
pub struct EntityList<E: Entity> {
    pub entities: Vec<E>,
    enter: bool,
    selected_item_idx: usize,
    turn: Option<Id>,
}

impl<E: Entity> EntityList<E> {
    /// The listed entities, in display order.
    pub closed spec fn list(&self) -> Seq<E> {
        self.entities@
    }

    /// The selection cursor.
    pub closed spec fn selected(&self) -> nat {
        self.selected_item_idx as nat
    }

    /// Whether the list has keyboard focus.
    pub closed spec fn entered(&self) -> bool {
        self.enter
    }

    /// The marked actor, if it is in the list.
    pub closed spec fn turn_id(&self) -> Option<Id> {
        self.turn
    }

    pub fn new() -> (r: EntityList<E>)
        ensures
            r.list().len() == 0,
            !r.entered(),
            r.selected() == 0,
            r.turn_id() is None,
    {
        EntityList { entities: Vec::new(), enter: false, selected_item_idx: 0, turn: None }
    }

    /// Appends a participant at the end of the list.
    pub fn push(&mut self, e: E)
        ensures
            final(self).list() == old(self).list().push(e),
            final(self).entered() == old(self).entered(),
            final(self).selected() == old(self).selected(),
            final(self).turn_id() == old(self).turn_id(),
    {
        self.entities.push(e);
    }

    /// The number of listed participants.
    pub fn len(&self) -> (r: usize)
        ensures
            r == self.list().len(),
    {
        self.entities.len()
    }

    /// The participant at position `i`.
    pub fn get(&self, i: usize) -> (r: &E)
        requires
            i < self.list().len(),
        ensures
            *r == self.list()[i as int],
    {
        &self.entities[i]
    }

    /// Moves the selection one entry up, if it can go up.
    fn select_up(&mut self)
        ensures
            final(self).list() == old(self).list(),
            final(self).entered() == old(self).entered(),
            final(self).turn_id() == old(self).turn_id(),
            final(self).selected() == moved_up(old(self).selected()),
    {
        if self.selected_item_idx > 0 {
            self.selected_item_idx -= 1;
        }
    }

    /// Moves the selection one entry down, if an entry follows it.
    fn select_down(&mut self)
        ensures
            final(self).list() == old(self).list(),
            final(self).entered() == old(self).entered(),
            final(self).turn_id() == old(self).turn_id(),
            final(self).selected() == moved_down(old(self).selected(), old(self).list().len()),
    {
        let n = self.entities.len();
        if n > 0 && self.selected_item_idx < n - 1 {
            self.selected_item_idx += 1;
        }
    }

    /// Marks the actor whose turn it is: the given identifier when an
    /// entity of the list carries it, nothing otherwise.
    pub fn set_turn(&mut self, id: Option<Id>)
        ensures
            final(self).list() == old(self).list(),
            final(self).entered() == old(self).entered(),
            final(self).selected() == old(self).selected(),
            final(self).turn_id() == (match id {
                Some(i) => if exists|k: int|
                    0 <= k < old(self).list().len() && old(self).list()[k].spec_id() == i {
                    Some(i)
                } else {
                    None::<Id>
                },
                None => None::<Id>,
            }),
    {
        match id {
            None => {
                self.turn = None;
            },
            Some(i) => {
                let n = self.entities.len();
                let mut k: usize = 0;
                let mut found = false;
                while k < n
                    invariant
                        k <= n,
                        n == self.entities@.len(),
                        self.entities@ == old(self).entities@,
                        self.enter == old(self).enter,
                        self.selected_item_idx == old(self).selected_item_idx,
                        self.turn == old(self).turn,
                        found == exists|m: int|
                            0 <= m < k && self.entities@[m].spec_id() == i,
                    decreases n - k,
                {
                    if self.entities[k].id() == i {
                        found = true;
                    }
                    k += 1;
                }
                if found {
                    self.turn = Some(i);
                } else {
                    self.turn = None;
                }
            },
        }
    }

    /// The selection cursor.
    pub fn selected_index(&self) -> (r: usize)
        ensures
            r == self.selected(),
    {
        self.selected_item_idx
    }

    /// The marked actor, if it is in the list.
    pub fn get_turn(&self) -> (r: Option<Id>)
        ensures
            r == self.turn_id(),
    {
        self.turn
    }

    /// Moves the selection for a key event.
    pub fn handle_event(&mut self, event: &Event)
        ensures
            final(self).list() == old(self).list(),
            final(self).entered() == old(self).entered(),
            final(self).turn_id() == old(self).turn_id(),
            final(self).selected() == list_selection(
                old(self).selected(),
                old(self).list().len(),
                *event,
            ),
    {
        match *event {
            Event::Key(k) => match k.code {
                KeyCode::Char(c) => {
                    if c == 'k' {
                        self.select_up();
                    } else if c == 'j' {
                        self.select_down();
                    }
                },
                KeyCode::Up => self.select_up(),
                KeyCode::Down => self.select_down(),
                _ => {},
            },
            _ => {},
        }
    }

    /// Gives the list keyboard focus.
    pub fn enter(&mut self)
        ensures
            final(self).list() == old(self).list(),
            final(self).selected() == old(self).selected(),
            final(self).turn_id() == old(self).turn_id(),
            final(self).entered(),
    {
        self.enter = true;
    }

    /// Whether the list has keyboard focus.
    pub fn is_entered(&self) -> (r: bool)
        ensures
            r == self.entered(),
    {
        self.enter
    }

    /// Takes keyboard focus away from the list.
    pub fn exit(&mut self)
        ensures
            final(self).list() == old(self).list(),
            final(self).selected() == old(self).selected(),
            final(self).turn_id() == old(self).turn_id(),
            !final(self).entered(),
    {
        self.enter = false;
    }

    pub fn get_type(&self) -> (r: ComponentType)
        ensures
            r == ComponentType::EntityList,
    {
        ComponentType::EntityList
    }
}

} // verus!
