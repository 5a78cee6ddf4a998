//! Construction of the candidate pipe names.
//!
//! The peer serves its pipe under one of a small set of slot names, built
//! from a fixed prefix and a decimal slot index; the client discovers the
//! live slot by probing them in ascending order.

use vstd::prelude::*;
use vstd::string::StringExecFns;

verus! {

/// How many candidate pipe slots the peer may allocate.
pub const SLOT_COUNT: u8 = 10;

/// The fixed prefix shared by every candidate pipe name.
pub open spec fn pipe_prefix() -> Seq<char> {
    "\\\\?\\pipe\\discord-ipc-"@
}

/// The decimal digit character that names `slot`.
pub open spec fn slot_digit(slot: int) -> char {
    ((48 + slot) as u8) as char
}

/// The full pipe name for `slot`: the fixed prefix followed by the slot digit.
pub open spec fn pipe_path(slot: int) -> Seq<char> {
    pipe_prefix().push(slot_digit(slot))
}

/// The pipe name for `slot` in the form the operating system takes it:
/// one UTF-16 unit per character (every character of the name is ASCII)
/// and a terminating NUL.
pub open spec fn wide_pipe_path(slot: int) -> Seq<u16> {
    pipe_path(slot).map_values(|c: char| c as u16).push(0u16)
}

/// The decimal digit for `slot` as a one-character string.
fn slot_digit_str(slot: u8) -> (r: &'static str)
    requires
        slot < SLOT_COUNT,
    ensures
        r@ == seq![slot_digit(slot as int)],
{
    let r: &'static str = match slot {
        0 => "0",
        1 => "1",
        2 => "2",
        3 => "3",
        4 => "4",
        5 => "5",
        6 => "6",
        7 => "7",
        8 => "8",
        _ => "9",
    };
    proof {
        reveal_strlit("0");
        reveal_strlit("1");
        reveal_strlit("2");
        reveal_strlit("3");
        reveal_strlit("4");
        reveal_strlit("5");
        reveal_strlit("6");
        reveal_strlit("7");
        reveal_strlit("8");
        reveal_strlit("9");
        assert(r@ =~= seq![slot_digit(slot as int)]);
    }
    r
}

/// Builds the pipe name for `slot` as text.
pub fn pipe_path_text(slot: u8) -> (r: String)
    requires
        slot < SLOT_COUNT,
    ensures
        r@ == pipe_path(slot as int),
{
    let mut s = String::from_str("\\\\?\\pipe\\discord-ipc-");
    s.append(slot_digit_str(slot));
    proof {
        assert(s@ =~= pipe_path(slot as int));
    }
    s
}

/// Builds the NUL-terminated UTF-16 pipe name for `slot`, ready to be handed
/// to the operating system's open call.
pub fn pipe_path_utf16(slot: u8) -> (r: Vec<u16>)
    requires
        slot < SLOT_COUNT,
    ensures
        r@ == wide_pipe_path(slot as int),
{
    let mut v: Vec<u16> = Vec::new();
    v.push(92);
    v.push(92);
    v.push(63);
    v.push(92);
    v.push(112);
    v.push(105);
    v.push(112);
    v.push(101);
    v.push(92);
    v.push(100);
    v.push(105);
    v.push(115);
    v.push(99);
    v.push(111);
    v.push(114);
    v.push(100);
    v.push(45);
    v.push(105);
    v.push(112);
    v.push(99);
    v.push(45);
    v.push(48 + slot as u16);
    v.push(0);
    proof {
        reveal_strlit("\\\\?\\pipe\\discord-ipc-");
        assert(v@ =~= wide_pipe_path(slot as int));
    }
    v
}

} // verus!
