//! Applying a palette to a terminal: the library renders the escape
//! sequences; writing them to the terminal device is I/O and stays outside.

use vstd::prelude::*;
use vstd::string::{StrSliceExecFns, StringExecFns};
use crate::colors::convert::spec_hex_digit;
use crate::colors::unified::AnsiPaletteHex;

verus! {

/// The decimal digits of a slot index below sixteen.
pub open spec fn spec_slot_index_chars(i: int) -> Seq<char> {
    if i < 10 {
        seq![spec_hex_digit(i)]
    } else {
        seq!['1', spec_hex_digit(i - 10)]
    }
}

/// The escape sequence that sets palette slot `i` to a hex color: an
/// operating-system command numbered 4, with the slot index and the
/// `#`-prefixed color, terminated by a string terminator.
pub open spec fn spec_osc_sequence(i: int, hex: Seq<char>) -> Seq<char> {
    seq!['\u{1b}', ']', '4', ';'] + spec_slot_index_chars(i) + seq![';', '#'] + hex + seq![
        '\u{1b}',
        '\\',
    ]
}

/// The escape sequences of the first `n` slots, concatenated in slot order.
pub open spec fn spec_apply_prefix(p: Seq<Seq<char>>, n: int) -> Seq<char>
    decreases n,
{
    if n <= 0 {
        Seq::empty()
    } else {
        spec_apply_prefix(p, n - 1) + spec_osc_sequence(n - 1, p[n - 1])
    }
}

/// The full escape text that applies a sixteen-slot palette.
pub open spec fn spec_apply(p: Seq<Seq<char>>) -> Seq<char> {
    spec_apply_prefix(p, 16)
}

/// Renders the escape text that applies the palette to a terminal, one
/// color-set sequence per slot, in slot order.
pub fn apply(ansi: &AnsiPaletteHex) -> (s: String)
    requires
        ansi.wf(),
    ensures
        s@ == spec_apply(ansi.view()),
{
    let mut s = String::new();
    let mut i: usize = 0;
    proof {
        reveal_strlit("\u{1b}]4;");
        reveal_strlit(";#");
        reveal_strlit("\u{1b}\\");
    }
    while i < 16
        invariant
            ansi.wf(),
            i <= 16,
            s@ == spec_apply_prefix(ansi.view(), i as int),
        decreases 16 - i,
    {
        let ghost prefix = s@;
        s.append("\u{1b}]4;");
        s.append(slot_index_str(i));
        s.append(";#");
        s.append(ansi.slot(i).as_str());
        s.append("\u{1b}\\");
        proof {
            reveal_strlit("\u{1b}]4;");
            reveal_strlit(";#");
            reveal_strlit("\u{1b}\\");
            assert(s@ =~= prefix + spec_osc_sequence(i as int, ansi.view()[i as int]));
        }
        i = i + 1;
    }
    s
}

/// The decimal text of a slot index.
fn slot_index_str(i: usize) -> (s: &'static str)
    requires
        i < 16,
    ensures
        s@ == spec_slot_index_chars(i as int),
{
    proof {
        reveal_strlit("0");
        reveal_strlit("1");
        reveal_strlit("2");
        reveal_strlit("3");
        reveal_strlit("4");
        reveal_strlit("5");
        reveal_strlit("6");
        reveal_strlit("7");
        reveal_strlit("8");
        reveal_strlit("9");
        reveal_strlit("10");
        reveal_strlit("11");
        reveal_strlit("12");
        reveal_strlit("13");
        reveal_strlit("14");
        reveal_strlit("15");
    }
    let s = match i {
        0 => "0",
        1 => "1",
        2 => "2",
        3 => "3",
        4 => "4",
        5 => "5",
        6 => "6",
        7 => "7",
        8 => "8",
        9 => "9",
        10 => "10",
        11 => "11",
        12 => "12",
        13 => "13",
        14 => "14",
        _ => "15",
    };
    proof {
        assert(s@ =~= spec_slot_index_chars(i as int));
    }
    s
}

} // verus!
