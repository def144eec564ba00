//! The screen: the terminal's current size and the lifecycle that decides
//! which commands go to the terminal. The screen is set up once, resized and
//! written to any number of times, and torn down once; the caller that owns
//! the terminal carries each returned command out, in order.
use vstd::prelude::*;
use crate::color::Color;
use crate::command::Command;
use crate::geometry::{Cell, Size, cell_within};

verus! {

/// The size a screen holds after a size query: the queried (rows, columns)
/// when the query answered, and the old size when it did not.
pub open spec fn size_after(current: Size, queried: Option<(u16, u16)>) -> Size {
    match queried {
        Some((rows, cols)) => Size(rows, cols),
        None => current,
    }
}

/// Whether a size query changes the size a screen holds.
pub open spec fn size_changed(current: Size, queried: Option<(u16, u16)>) -> bool {
    size_after(current, queried) != current
}

/// What setting up the terminal asks of it: the alternate screen, a hidden
/// cursor, and a clear display.
pub open spec fn setup_commands() -> Seq<Command> {
    seq![Command::EnableAltScreen, Command::HideCursor, Command::Clear]
}

/// What restoring the terminal asks of it: a clear display, a visible
/// cursor, and the normal screen buffer back.
pub open spec fn teardown_commands() -> Seq<Command> {
    seq![Command::Clear, Command::ShowCursor, Command::DisableAltScreen]
}

/// What writing `character` at `position` asks of the terminal: nothing
/// when the position is off the screen; else the cursor moved there, both
/// colours selected, and the character written, in that order.
pub open spec fn put_commands(size: Size, position: Cell, character: char, fg: Color, bg: Color) -> Seq<Command> {
    if cell_within(position, size) {
        seq![
            Command::SetCursorPosition(position.0, position.1),
            Command::SetFg(fg),
            Command::SetBg(bg),
            Command::Put(character),
        ]
    } else {
        seq![]
    }
}

pub open spec fn setup_error_message() -> Seq<char> {
    "Failed creating a terminal for stdout."@
}

/// The output surface of one terminal. Its view is the size it last learnt
/// of the terminal, (0, 0) until the first size query answers.
pub struct Screen {
    size: Size,
}

impl View for Screen {
    type V = Size;

    closed spec fn view(&self) -> Size {
        self.size
    }
}

impl Screen {
    /// Sets the screen up on a terminal, once the caller has tried to claim
    /// one: fails when none could be claimed, and otherwise gives a screen
    /// of unknown size, (0, 0), and the commands that prepare the terminal.
    pub fn setup(terminal_claimed: bool) -> (r: Result<(Screen, Vec<Command>), String>)
        ensures
            r is Ok <==> terminal_claimed,
            r matches Ok((screen, cmds)) ==> screen@ == Size(0, 0) && cmds@ == setup_commands(),
            r matches Err(e) ==> e@ == setup_error_message(),
    {
        if terminal_claimed {
            Ok((Screen { size: Size(0, 0) }, vec![Command::EnableAltScreen, Command::HideCursor, Command::Clear]))
        } else {
            proof {
                reveal_strlit("Failed creating a terminal for stdout.");
            }
            Err("Failed creating a terminal for stdout.".to_owned())
        }
    }

    /// Takes in the answer of a terminal size query. An unanswered query
    /// leaves the size as it was; an answer replaces it. Returns whether the
    /// size changed, which tells the caller to redraw everything.
    pub fn update_size(&mut self, queried: Option<(u16, u16)>) -> (changed: bool)
        ensures
            final(self)@ == size_after(old(self)@, queried),
            changed == size_changed(old(self)@, queried),
    {
        match queried {
            None => false,
            Some((rows, cols)) => {
                let current_size = Size(rows, cols);
                let size_changed = current_size != self.size;
                self.size = current_size;
                size_changed
            },
        }
    }

    /// The size the screen last learnt of the terminal.
    pub fn size(&self) -> (r: Size)
        ensures
            r == self@,
    {
        self.size
    }

    /// Clears the display; the size is kept.
    pub fn clear(&self) -> (r: Vec<Command>)
        ensures
            r@ == seq![Command::Clear],
    {
        vec![Command::Clear]
    }

    /// Writes `character` at `position` in the colours `fg` on `bg`, or does
    /// nothing at all when `position` is off the screen.
    pub fn put(&self, position: Cell, character: char, fg: Color, bg: Color) -> (r: Vec<Command>)
        ensures
            r@ == put_commands(self@, position, character, fg, bg),
    {
        match position.within(self.size) {
            Some(Cell(row, col)) => vec![
                Command::SetCursorPosition(row, col),
                Command::SetFg(fg),
                Command::SetBg(bg),
                Command::Put(character),
            ],
            None => Vec::new(),
        }
    }

    /// Delivers what has been written so far.
    pub fn flush(&self) -> (r: Vec<Command>)
        ensures
            r@ == seq![Command::Flush],
    {
        vec![Command::Flush]
    }

    /// Ends the screen's life and restores the terminal, whatever happened
    /// to the screen before.
    pub fn teardown(self) -> (r: Vec<Command>)
        ensures
            r@ == teardown_commands(),
    {
        vec![Command::Clear, Command::ShowCursor, Command::DisableAltScreen]
    }
}

/// A second size query that gets the same answer as the first reports no
/// change; an answer that differs from the size held reports a change, and
/// the screen then holds the answer.
pub proof fn lemma_update_size_twice(current: Size, rows: u16, cols: u16)
    ensures
        !size_changed(size_after(current, Some((rows, cols))), Some((rows, cols))),
        size_changed(current, Some((rows, cols))) <==> current != Size(rows, cols),
        size_after(current, Some((rows, cols))) == Size(rows, cols),
        !size_changed(current, None) && size_after(current, None) == current,
{
}

} // verus!
