//! Report direction and the hexadecimal text form of raw reports.
use vstd::prelude::*;
use crate::text::{byte_hex_upper, push_byte_hex_upper, string_push, string_push_str};

verus! {

#[derive(Clone, Copy, Debug, PartialEq, Eq, Structural)]
pub enum Direction {
    Tx,
    Rx,
}

pub open spec fn direction_label(direction: Direction) -> Seq<char> {
    match direction {
        Direction::Tx => "TX"@,
        Direction::Rx => "RX"@,
    }
}

impl Direction {
    /// `TX` or `RX`.
    pub fn to_string(&self) -> (label: String)
        ensures
            label@ == direction_label(*self),
    {
        let mut label = String::new();
        match self {
            Direction::Tx => string_push_str(&mut label, "TX"),
            Direction::Rx => string_push_str(&mut label, "RX"),
        }
        label
    }
}

/// Upper-case two-digit bytes separated by single spaces.
pub open spec fn hex_text(bytes: Seq<u8>) -> Seq<char>
    decreases bytes.len(),
{
    if bytes.len() == 0 {
        seq![]
    } else if bytes.len() == 1 {
        byte_hex_upper(bytes[0])
    } else {
        hex_text(bytes.drop_last()) + seq![' '] + byte_hex_upper(bytes.last())
    }
}

/// The bytes as upper-case hexadecimal pairs separated by spaces.
pub fn format_hex(bytes: &[u8]) -> (text: String)
    ensures
        text@ == hex_text(bytes@),
{
    let mut text = String::new();
    let mut i: usize = 0;
    while i < bytes.len()
        invariant
            i <= bytes@.len(),
            text@ == hex_text(bytes@.take(i as int)),
        decreases bytes.len() - i,
    {
        if i != 0 {
            string_push(&mut text, ' ');
        }
        push_byte_hex_upper(&mut text, bytes[i]);
        i += 1;
        assert(bytes@.take(i as int).drop_last() =~= bytes@.take(i - 1));
    }
    assert(bytes@.take(i as int) =~= bytes@);
    text
}

} // verus!
