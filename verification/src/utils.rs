//! Helpers for showing numbers to people.

use vstd::prelude::*;

verus! {

pub const KIB: u64 = 1024;

pub const MIB: u64 = 0x10_0000;

pub const GIB: u64 = 0x4000_0000;

/// `size` in units of `unit`, rounded up.
pub open spec fn div_ceil(size: u64, unit: u64) -> int {
    size / unit + if size % unit > 0 {
        1int
    } else {
        0int
    }
}

/// A size in the largest unit of which it holds at least one, rounded up to
/// whole units, with the unit's name.
pub open spec fn human_readable_ceil(size: u64) -> (int, Seq<char>) {
    if size >= GIB {
        (div_ceil(size, GIB), "GiB"@)
    } else if size >= MIB {
        (div_ceil(size, MIB), "MiB"@)
    } else if size >= KIB {
        (div_ceil(size, KIB), "KiB"@)
    } else {
        (size as int, "Byte"@)
    }
}

/// Convert a size into human readable format.
pub fn size_human_readable_ceil(size: u64) -> (scaled: (u64, &'static str))
    ensures
        (scaled.0 as int, scaled.1@) == human_readable_ceil(size),
{
    if size / GIB > 0 {
        (size / GIB + if size % GIB > 0 { 1 } else { 0 }, "GiB")
    } else if size / MIB > 0 {
        (size / MIB + if size % MIB > 0 { 1 } else { 0 }, "MiB")
    } else if size / KIB > 0 {
        (size / KIB + if size % KIB > 0 { 1 } else { 0 }, "KiB")
    } else {
        (size, "Byte")
    }
}

/// The character that shows the digit `digit`, in bases up to sixteen.
pub open spec fn digit_char(digit: int) -> char {
    seq!['0', '1', '2', '3', '4', '5', '6', '7', '8', '9', 'a', 'b', 'c', 'd', 'e', 'f'][digit]
}

/// The digits of `number` in base ten, without leading zeros.
pub open spec fn decimal(number: nat) -> Seq<char>
    decreases number,
{
    if number < 10 {
        seq![digit_char(number as int)]
    } else {
        decimal(number / 10).push(digit_char((number % 10) as int))
    }
}

/// The digits of `number` in base sixteen, in lower case and without leading
/// zeros.
pub open spec fn hexadecimal(number: nat) -> Seq<char>
    decreases number,
{
    if number < 16 {
        seq![digit_char(number as int)]
    } else {
        hexadecimal(number / 16).push(digit_char((number % 16) as int))
    }
}

/// `count` times the character `fill`.
pub open spec fn filling(count: nat, fill: char) -> Seq<char> {
    Seq::new(count, |index: int| fill)
}

/// `text` moved to the right end of `width` columns, the columns before it
/// taken by `fill`. A text that is wider stays as it is.
pub open spec fn pad_left(text: Seq<char>, width: nat, fill: char) -> Seq<char> {
    if text.len() >= width {
        text
    } else {
        filling((width - text.len()) as nat, fill) + text
    }
}

/// `text` at the left end of `width` columns, the columns behind it taken by
/// `fill`. A text that is wider stays as it is.
pub open spec fn pad_right(text: Seq<char>, width: nat, fill: char) -> Seq<char> {
    if text.len() >= width {
        text
    } else {
        text + filling((width - text.len()) as nat, fill)
    }
}

/// The text of one digit.
fn digit_text(digit: u64) -> (text: &'static str)
    requires
        digit < 16,
    ensures
        text@ == seq![digit_char(digit as int)],
{
    proof {
        reveal_strlit("0");
        reveal_strlit("1");
        reveal_strlit("2");
        reveal_strlit("3");
        reveal_strlit("4");
        reveal_strlit("5");
        reveal_strlit("6");
        reveal_strlit("7");
        reveal_strlit("8");
        reveal_strlit("9");
        reveal_strlit("a");
        reveal_strlit("b");
        reveal_strlit("c");
        reveal_strlit("d");
        reveal_strlit("e");
        reveal_strlit("f");
    }
    let text = if digit == 0 {
        "0"
    } else if digit == 1 {
        "1"
    } else if digit == 2 {
        "2"
    } else if digit == 3 {
        "3"
    } else if digit == 4 {
        "4"
    } else if digit == 5 {
        "5"
    } else if digit == 6 {
        "6"
    } else if digit == 7 {
        "7"
    } else if digit == 8 {
        "8"
    } else if digit == 9 {
        "9"
    } else if digit == 10 {
        "a"
    } else if digit == 11 {
        "b"
    } else if digit == 12 {
        "c"
    } else if digit == 13 {
        "d"
    } else if digit == 14 {
        "e"
    } else {
        "f"
    };
    assert(text@ =~= seq![digit_char(digit as int)]);
    text
}

/// Writes `number` in base ten behind `text`.
pub fn append_decimal(text: &mut String, number: u64)
    ensures
        final(text)@ == old(text)@ + decimal(number as nat),
    decreases number,
{
    if number >= 10 {
        append_decimal(text, number / 10);
    }
    text.append(digit_text(number % 10));
    assert(text@ =~= old(text)@ + decimal(number as nat));
}

/// Writes `number` in base sixteen behind `text`.
pub fn append_hexadecimal(text: &mut String, number: u64)
    ensures
        final(text)@ == old(text)@ + hexadecimal(number as nat),
    decreases number,
{
    if number >= 16 {
        append_hexadecimal(text, number / 16);
    }
    text.append(digit_text(number % 16));
    assert(text@ =~= old(text)@ + hexadecimal(number as nat));
}

/// Writes `count` times the one character of `fill` behind `text`.
fn append_filling(text: &mut String, count: usize, fill: &str)
    requires
        fill@.len() == 1,
    ensures
        final(text)@ == old(text)@ + filling(count as nat, fill@[0]),
{
    let mut written: usize = 0;
    assert(text@ =~= old(text)@ + filling(0, fill@[0]));
    while written < count
        invariant
            written <= count,
            fill@.len() == 1,
            text@ == old(text)@ + filling(written as nat, fill@[0]),
        decreases count - written,
    {
        text.append(fill);
        written = written + 1;
        assert(text@ =~= old(text)@ + filling(written as nat, fill@[0]));
    }
}

/// Writes `part` behind `text`, moved to the right end of `width` columns:
/// the columns before it are taken by the one character of `fill`.
pub fn append_right_aligned(text: &mut String, part: &str, width: usize, fill: &str)
    requires
        fill@.len() == 1,
    ensures
        final(text)@ == old(text)@ + pad_left(part@, width as nat, fill@[0]),
{
    let columns = part.unicode_len();
    if columns < width {
        append_filling(text, width - columns, fill);
    }
    text.append(part);
    assert(text@ =~= old(text)@ + pad_left(part@, width as nat, fill@[0]));
}

/// Writes `part` behind `text`, at the left end of `width` columns: the
/// columns behind it are taken by the one character of `fill`.
pub fn append_left_aligned(text: &mut String, part: &str, width: usize, fill: &str)
    requires
        fill@.len() == 1,
    ensures
        final(text)@ == old(text)@ + pad_right(part@, width as nat, fill@[0]),
{
    let columns = part.unicode_len();
    text.append(part);
    if columns < width {
        append_filling(text, width - columns, fill);
    }
    assert(text@ =~= old(text)@ + pad_right(part@, width as nat, fill@[0]));
}

} // verus!
