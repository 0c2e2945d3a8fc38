//! The command-line text box of the in-game screen. Characters only land
//! in it while it has keyboard focus.

use vstd::prelude::*;

use crate::components::ComponentType;
use crate::event::Event;
use crate::strutil::{string_clear, string_pop, string_push};

verus! {

/// Whether the character counts as a letter for word deletion.
pub open spec fn is_word_char(c: char) -> bool {
    ('a' <= c && c <= 'z') || ('A' <= c && c <= 'Z')
}

/// The content after one word deletion: characters are removed from the
/// end until a space that follows at least one deleted letter is reached;
/// that space stays.
pub open spec fn word_popped(s: Seq<char>, deleted: bool) -> Seq<char>
    decreases s.len(),
{
    if s.len() == 0 {
        s
    } else if is_word_char(s.last()) {
        word_popped(s.drop_last(), true)
    } else if s.last() == ' ' && deleted {
        s
    } else {
        word_popped(s.drop_last(), deleted)
    }
}

#[derive(Debug)]
pub struct Command {
    content: String,
    enter: bool,
    cursor_offset: usize,
}

impl Command {
    /// The characters typed so far.
    pub closed spec fn content(&self) -> Seq<char> {
        self.content@
    }

    /// Whether the text box has keyboard focus.
    pub closed spec fn entered(&self) -> bool {
        self.enter
    }

    /// The rendering cursor offset.
    pub closed spec fn cursor(&self) -> nat {
        self.cursor_offset as nat
    }

    pub fn new() -> (r: Command)
        ensures
            r.content() == Seq::<char>::empty(),
            !r.entered(),
            r.cursor() == 0,
    {
        Command { content: String::new(), enter: false, cursor_offset: 0 }
    }

    /// Appends the character, provided the text box has focus.
    pub fn push(&mut self, c: char)
        ensures
            final(self).entered() == old(self).entered(),
            final(self).cursor() == old(self).cursor(),
            old(self).entered() ==> final(self).content() == old(self).content().push(c),
            !old(self).entered() ==> final(self).content() == old(self).content(),
    {
        if self.enter {
            string_push(&mut self.content, c);
        }
    }

    /// Removes the last character, provided the text box has focus.
    pub fn pop(&mut self)
        ensures
            final(self).entered() == old(self).entered(),
            final(self).cursor() == old(self).cursor(),
            old(self).entered() && old(self).content().len() > 0 ==> final(self).content() == old(
                self,
            ).content().drop_last(),
            old(self).entered() && old(self).content().len() == 0 ==> final(self).content() == old(
                self,
            ).content(),
            !old(self).entered() ==> final(self).content() == old(self).content(),
    {
        if self.enter {
            string_pop(&mut self.content);
        }
    }

    /// Deletes the last word, provided the text box has focus: characters
    /// come off the end until a space behind at least one deleted letter;
    /// that space stays.
    pub fn pop_word(&mut self)
        ensures
            final(self).entered() == old(self).entered(),
            final(self).cursor() == old(self).cursor(),
            old(self).entered() ==> final(self).content() == word_popped(
                old(self).content(),
                false,
            ),
            !old(self).entered() ==> final(self).content() == old(self).content(),
    {
        if self.enter {
            let ghost orig = self.content@;
            let ghost enter0 = self.enter;
            let ghost off0 = self.cursor_offset;
            let mut deleted_a_char = false;
            loop
                invariant_except_break
                    word_popped(orig, false) == word_popped(self.content@, deleted_a_char),
                invariant
                    self.enter == enter0,
                    self.cursor_offset == off0,
                ensures
                    self.enter == enter0,
                    self.cursor_offset == off0,
                    self.content@ == word_popped(orig, false),
                decreases self.content@.len(),
            {
                match string_pop(&mut self.content) {
                    None => {
                        break ;
                    },
                    Some(c) => {
                        let ghost before = self.content@.push(c);
                        if ('a' <= c && c <= 'z') || ('A' <= c && c <= 'Z') {
                            deleted_a_char = true;
                            proof {
                                assert(before.last() == c);
                                assert(before.drop_last() == self.content@);
                            }
                        } else if c == ' ' && deleted_a_char {
                            string_push(&mut self.content, ' ');
                            proof {
                                assert(self.content@ == before);
                                assert(before.last() == ' ');
                            }
                            break ;
                        } else {
                            proof {
                                assert(before.last() == c);
                                assert(before.drop_last() == self.content@);
                            }
                        }
                    },
                }
            }
        }
    }

    /// The characters typed so far.
    pub fn get_content(&self) -> (r: &String)
        ensures
            r@ == self.content(),
    {
        &self.content
    }

    /// Hands the typed line out and clears the text box.
    pub fn execute(&mut self) -> (r: Option<String>)
        ensures
            final(self).entered() == old(self).entered(),
            final(self).cursor() == old(self).cursor(),
            final(self).content() == Seq::<char>::empty(),
            r is Some,
            r.unwrap()@ == old(self).content(),
    {
        let result = self.content.clone();
        string_clear(&mut self.content);
        Some(result)
    }

    /// Key events mean nothing to the text box beyond what the screen
    /// already routed into `push` and `pop`.
    pub fn handle_event(&mut self, _event: &Event)
        ensures
            final(self).content() == old(self).content(),
            final(self).entered() == old(self).entered(),
            final(self).cursor() == old(self).cursor(),
    {
    }

    /// Gives the text box keyboard focus.
    pub fn enter(&mut self)
        ensures
            final(self).content() == old(self).content(),
            final(self).cursor() == old(self).cursor(),
            final(self).entered(),
    {
        self.enter = true;
    }

    /// Whether the text box has keyboard focus.
    pub fn is_entered(&self) -> (r: bool)
        ensures
            r == self.entered(),
    {
        self.enter
    }

    /// Takes keyboard focus away from the text box.
    pub fn exit(&mut self)
        ensures
            final(self).content() == old(self).content(),
            final(self).cursor() == old(self).cursor(),
            !final(self).entered(),
    {
        self.enter = false;
    }

    pub fn get_type(&self) -> (r: ComponentType)
        ensures
            r == ComponentType::Command,
    {
        ComponentType::Command
    }
}

} // verus!
