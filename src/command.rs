//! The operations a screen asks of its terminal, and the control bytes that
//! carry those the terminal does not interpret itself.
use vstd::prelude::*;
use crate::color::Color;

verus! {

/// One operation on the terminal output channel.
#[derive(Clone, Copy, Debug, PartialEq, Eq, Structural)]
pub enum Command {
    /// Erase the whole display.
    Clear,
    /// Save the cursor and switch to the alternate screen buffer.
    EnableAltScreen,
    /// Switch back to the normal screen buffer and restore the cursor.
    DisableAltScreen,
    HideCursor,
    ShowCursor,
    /// Move the cursor to a zero-based (row, column).
    SetCursorPosition(u16, u16),
    SetFg(Color),
    SetBg(Color),
    /// Write one character at the cursor.
    Put(char),
    /// Deliver whatever output is buffered.
    Flush,
}

pub open spec fn esc() -> u8 {
    0x1b
}

/// The decimal digits of `n`, most significant first, in ASCII.
pub open spec fn decimal(n: nat) -> Seq<u8>
    decreases n,
{
    if n < 10 {
        seq![(0x30 + n) as u8]
    } else {
        decimal(n / 10).push((0x30 + n % 10) as u8)
    }
}

/// The control bytes of a command, for those that are sent as a control
/// sequence of this crate's own; `None` for the colours, which the term
/// crate selects, for a character, and for a flush.
pub open spec fn control_bytes(cmd: Command) -> Option<Seq<u8>> {
    match cmd {
        Command::Clear => Some(seq![esc(), 0x5b, 0x32, 0x4a]),
        Command::EnableAltScreen => Some(seq![esc(), 0x37, esc(), 0x5b, 0x3f, 0x34, 0x37, 0x68]),
        Command::DisableAltScreen => Some(seq![esc(), 0x5b, 0x3f, 0x34, 0x37, 0x6c, esc(), 0x38]),
        Command::HideCursor => Some(seq![esc(), 0x5b, 0x3f, 0x32, 0x35, 0x6c]),
        Command::ShowCursor => Some(seq![esc(), 0x5b, 0x3f, 0x32, 0x35, 0x68]),
        // the terminal counts rows and columns from one
        Command::SetCursorPosition(row, col) => Some(
            seq![esc(), 0x5b] + decimal((row + 1) as nat) + seq![0x3b] + decimal((col + 1) as nat) + seq![0x48],
        ),
        _ => None,
    }
}

/// Appends the decimal digits of `n` to `out`.
fn push_decimal(out: &mut Vec<u8>, n: u32)
    ensures
        final(out)@ == old(out)@ + decimal(n as nat),
    decreases n,
{
    if n >= 10 {
        push_decimal(out, n / 10);
    }
    out.push(0x30 + (n % 10) as u8);
    proof {
        assert(final(out)@ =~= old(out)@ + decimal(n as nat));
    }
}

/// Appends the bytes of `bytes` to `out`.
fn push_all(out: &mut Vec<u8>, bytes: &[u8])
    ensures
        final(out)@ == old(out)@ + bytes@,
{
    let mut i: usize = 0;
    while i < bytes.len()
        invariant
            i <= bytes@.len(),
            out@ == old(out)@ + bytes@.subrange(0, i as int),
        decreases bytes@.len() - i,
    {
        out.push(bytes[i]);
        i = i + 1;
        proof {
            assert(out@ =~= old(out)@ + bytes@.subrange(0, i as int));
        }
    }
    proof {
        assert(bytes@.subrange(0, i as int) =~= bytes@);
    }
}

impl Command {
    /// The control sequence that carries this command, if it is one that is
    /// sent as raw control bytes.
    pub fn control_sequence(&self) -> (r: Option<Vec<u8>>)
        ensures
            match r {
                Some(v) => control_bytes(*self) == Some(v@),
                None => control_bytes(*self) is None,
            },
    {
        let mut out: Vec<u8> = Vec::new();
        match *self {
            Command::Clear => push_all(&mut out, &[0x1b, 0x5b, 0x32, 0x4a]),
            Command::EnableAltScreen => push_all(&mut out, &[0x1b, 0x37, 0x1b, 0x5b, 0x3f, 0x34, 0x37, 0x68]),
            Command::DisableAltScreen => push_all(&mut out, &[0x1b, 0x5b, 0x3f, 0x34, 0x37, 0x6c, 0x1b, 0x38]),
            Command::HideCursor => push_all(&mut out, &[0x1b, 0x5b, 0x3f, 0x32, 0x35, 0x6c]),
            Command::ShowCursor => push_all(&mut out, &[0x1b, 0x5b, 0x3f, 0x32, 0x35, 0x68]),
            Command::SetCursorPosition(row, col) => {
                push_all(&mut out, &[0x1b, 0x5b]);
                push_decimal(&mut out, row as u32 + 1);
                push_all(&mut out, &[0x3b]);
                push_decimal(&mut out, col as u32 + 1);
                push_all(&mut out, &[0x48]);
            },
            _ => {
                return None;
            },
        }
        proof {
            let b = control_bytes(*self)->Some_0;
            assert(out@ =~= b);
        }
        Some(out)
    }
}

} // verus!
