//! The line the user is typing, with its cursor.
use vstd::prelude::*;

verus! {

/// Where a cursor move goes.
#[derive(Debug, Clone, Copy, PartialEq, Eq, Structural)]
pub enum CursorMovement {
    Left,
    Right,
    Start,
    End,
}

/// A line being edited: its characters and the position of the cursor,
/// from 0 (before the first character) to the length (after the last).
pub struct InputLine {
    text: Vec<char>,
    cursor: usize,
}

impl View for InputLine {
    type V = (Seq<char>, nat);

    closed spec fn view(&self) -> (Seq<char>, nat) {
        (self.text@, self.cursor as nat)
    }
}

impl InputLine {
    /// The cursor stands within the line.
    pub open spec fn wf(&self) -> bool {
        self@.1 <= self@.0.len()
    }

    /// An empty line.
    pub fn new() -> (r: InputLine)
        ensures
            r.wf(),
            r@.0 == Seq::<char>::empty(),
            r@.1 == 0,
    {
        InputLine { text: Vec::new(), cursor: 0 }
    }

    /// The characters of the line.
    pub fn chars(&self) -> (r: &Vec<char>)
        ensures
            r@ == self@.0,
    {
        &self.text
    }

    /// The position of the cursor.
    pub fn cursor(&self) -> (r: usize)
        ensures
            r == self@.1,
    {
        self.cursor
    }

    /// Types a character at the cursor, which moves past it.
    pub fn input_write(&mut self, c: char)
        requires
            old(self).wf(),
        ensures
            final(self).wf(),
            final(self)@.0 == old(self)@.0.insert(old(self)@.1 as int, c),
            final(self)@.1 == old(self)@.1 + 1,
    {
        self.text.insert(self.cursor, c);
        let len = self.text.len();
        assert(self.cursor < len);
        self.cursor = self.cursor + 1;
    }

    /// Deletes the character under the cursor, if there is one.
    pub fn input_remove(&mut self)
        requires
            old(self).wf(),
        ensures
            final(self).wf(),
            final(self)@.1 == old(self)@.1,
            final(self)@.0 == (if old(self)@.1 < old(self)@.0.len() {
                old(self)@.0.remove(old(self)@.1 as int)
            } else {
                old(self)@.0
            }),
    {
        if self.cursor < self.text.len() {
            self.text.remove(self.cursor);
        }
    }

    /// Deletes the character before the cursor, if there is one.
    pub fn input_remove_previous(&mut self)
        requires
            old(self).wf(),
        ensures
            final(self).wf(),
            old(self)@.1 > 0 ==> final(self)@.0 == old(self)@.0.remove(old(self)@.1 - 1) && final(self)@.1 == old(self)@.1 - 1,
            old(self)@.1 == 0 ==> final(self)@ == old(self)@,
    {
        if self.cursor > 0 {
            self.cursor = self.cursor - 1;
            self.text.remove(self.cursor);
        }
    }

    /// Moves the cursor one step, or to either end of the line.
    pub fn input_move_cursor(&mut self, movement: CursorMovement)
        requires
            old(self).wf(),
        ensures
            final(self).wf(),
            final(self)@.0 == old(self)@.0,
            final(self)@.1 == match movement {
                CursorMovement::Left => if old(self)@.1 > 0 {
                    (old(self)@.1 - 1) as nat
                } else {
                    0
                },
                CursorMovement::Right => if old(self)@.1 < old(self)@.0.len() {
                    old(self)@.1 + 1
                } else {
                    old(self)@.1
                },
                CursorMovement::Start => 0,
                CursorMovement::End => old(self)@.0.len(),
            },
    {
        match movement {
            CursorMovement::Left => {
                if self.cursor > 0 {
                    self.cursor = self.cursor - 1;
                }
            },
            CursorMovement::Right => {
                if self.cursor < self.text.len() {
                    self.cursor = self.cursor + 1;
                }
            },
            CursorMovement::Start => {
                self.cursor = 0;
            },
            CursorMovement::End => {
                self.cursor = self.text.len();
            },
        }
    }

    /// Takes the typed line, leaving an empty one; `None` when nothing was typed.
    pub fn reset_input(&mut self) -> (r: Option<Vec<char>>)
        requires
            old(self).wf(),
        ensures
            final(self).wf(),
            final(self)@.0 == Seq::<char>::empty(),
            final(self)@.1 == 0,
            old(self)@.0.len() == 0 ==> r is None,
            old(self)@.0.len() > 0 ==> (r matches Some(t) && t@ == old(self)@.0),
    {
        let text = self.text.split_off(0);
        self.cursor = 0;
        if text.len() == 0 {
            None
        } else {
            Some(text)
        }
    }
}

} // verus!
