//! The fixed character weight table and single-character evaluation.
//!
//! Digits `'0'`-`'9'` weigh their numeric value; letters `'a'`-`'z'` carry
//! fixed weights and are looked up case-insensitively; every other character
//! weighs 0.

use vstd::prelude::*;

verus! {

pub open spec fn is_digit_char(c: char) -> bool {
    '0' <= c && c <= '9'
}

pub open spec fn is_lower_char(c: char) -> bool {
    'a' <= c && c <= 'z'
}

pub open spec fn is_upper_char(c: char) -> bool {
    'A' <= c && c <= 'Z'
}

pub open spec fn is_ascii_letter(c: char) -> bool {
    is_lower_char(c) || is_upper_char(c)
}

/// Weight of the letter with alphabet index `i` (`'a'` has index 0).
pub open spec fn letter_weight(i: int) -> u8 {
    if i == 0 { 1 }        // a
    else if i == 1 { 2 }   // b
    else if i == 2 { 3 }   // c
    else if i == 3 { 4 }   // d
    else if i == 4 { 5 }   // e
    else if i == 5 { 8 }   // f
    else if i == 6 { 3 }   // g
    else if i == 7 { 5 }   // h
    else if i == 8 { 1 }   // i
    else if i == 9 { 1 }   // j
    else if i == 10 { 2 }  // k
    else if i == 11 { 3 }  // l
    else if i == 12 { 4 }  // m
    else if i == 13 { 5 }  // n
    else if i == 14 { 7 }  // o
    else if i == 15 { 8 }  // p
    else if i == 16 { 1 }  // q
    else if i == 17 { 2 }  // r
    else if i == 18 { 3 }  // s
    else if i == 19 { 4 }  // t
    else if i == 20 { 6 }  // u
    else if i == 21 { 6 }  // v
    else if i == 22 { 6 }  // w
    else if i == 23 { 5 }  // x
    else if i == 24 { 1 }  // y
    else if i == 25 { 7 }  // z
    else { 0 }
}

/// The weight assigned to any character: digits map to their numeric value,
/// ASCII letters (either case) to their fixed letter weight, everything
/// else to the default weight 0.
pub open spec fn char_weight(c: char) -> u8 {
    if is_digit_char(c) {
        (c as int - '0' as int) as u8
    } else if is_lower_char(c) {
        letter_weight(c as int - 'a' as int)
    } else if is_upper_char(c) {
        letter_weight(c as int - 'A' as int)
    } else {
        0
    }
}

/// Every weight in the table is at most 9.
pub proof fn lemma_char_weight_bound(c: char)
    ensures
        char_weight(c) <= 9,
{
}

/// Weight of the letter with alphabet index `i`, executable form.
fn letter_weight_at(i: u32) -> (r: u8)
    requires
        i < 26,
    ensures
        r == letter_weight(i as int),
{
    if i == 0 { 1 }
    else if i == 1 { 2 }
    else if i == 2 { 3 }
    else if i == 3 { 4 }
    else if i == 4 { 5 }
    else if i == 5 { 8 }
    else if i == 6 { 3 }
    else if i == 7 { 5 }
    else if i == 8 { 1 }
    else if i == 9 { 1 }
    else if i == 10 { 2 }
    else if i == 11 { 3 }
    else if i == 12 { 4 }
    else if i == 13 { 5 }
    else if i == 14 { 7 }
    else if i == 15 { 8 }
    else if i == 16 { 1 }
    else if i == 17 { 2 }
    else if i == 18 { 3 }
    else if i == 19 { 4 }
    else if i == 20 { 6 }
    else if i == 21 { 6 }
    else if i == 22 { 6 }
    else if i == 23 { 5 }
    else if i == 24 { 1 }
    else { 7 }
}

/// Look up the weight of one character, case-insensitively, with default 0
/// for characters outside the table.
pub fn evaluate(c: char) -> (r: u8)
    ensures
        r == char_weight(c),
{
    if '0' <= c && c <= '9' {
        ((c as u32) - ('0' as u32)) as u8
    } else if 'a' <= c && c <= 'z' {
        letter_weight_at((c as u32) - ('a' as u32))
    } else if 'A' <= c && c <= 'Z' {
        letter_weight_at((c as u32) - ('A' as u32))
    } else {
        0
    }
}

/// The uppercase counterpart of a lowercase ASCII letter; identity elsewhere.
pub open spec fn to_upper(c: char) -> char {
    if c == 'a' { 'A' }
    else if c == 'b' { 'B' }
    else if c == 'c' { 'C' }
    else if c == 'd' { 'D' }
    else if c == 'e' { 'E' }
    else if c == 'f' { 'F' }
    else if c == 'g' { 'G' }
    else if c == 'h' { 'H' }
    else if c == 'i' { 'I' }
    else if c == 'j' { 'J' }
    else if c == 'k' { 'K' }
    else if c == 'l' { 'L' }
    else if c == 'm' { 'M' }
    else if c == 'n' { 'N' }
    else if c == 'o' { 'O' }
    else if c == 'p' { 'P' }
    else if c == 'q' { 'Q' }
    else if c == 'r' { 'R' }
    else if c == 's' { 'S' }
    else if c == 't' { 'T' }
    else if c == 'u' { 'U' }
    else if c == 'v' { 'V' }
    else if c == 'w' { 'W' }
    else if c == 'x' { 'X' }
    else if c == 'y' { 'Y' }
    else if c == 'z' { 'Z' }
    else { c }
}

/// Case-insensitivity: an ASCII letter and its uppercase form weigh the same.
pub proof fn lemma_case_insensitive(c: char)
    requires
        is_ascii_letter(c),
    ensures
        char_weight(c) == char_weight(to_upper(c)),
{
}

/// The character at position `i` of the table: digits first, then letters.
pub open spec fn table_char(i: int) -> char {
    if i == 0 { '0' }
    else if i == 1 { '1' }
    else if i == 2 { '2' }
    else if i == 3 { '3' }
    else if i == 4 { '4' }
    else if i == 5 { '5' }
    else if i == 6 { '6' }
    else if i == 7 { '7' }
    else if i == 8 { '8' }
    else if i == 9 { '9' }
    else if i == 10 { 'a' }
    else if i == 11 { 'b' }
    else if i == 12 { 'c' }
    else if i == 13 { 'd' }
    else if i == 14 { 'e' }
    else if i == 15 { 'f' }
    else if i == 16 { 'g' }
    else if i == 17 { 'h' }
    else if i == 18 { 'i' }
    else if i == 19 { 'j' }
    else if i == 20 { 'k' }
    else if i == 21 { 'l' }
    else if i == 22 { 'm' }
    else if i == 23 { 'n' }
    else if i == 24 { 'o' }
    else if i == 25 { 'p' }
    else if i == 26 { 'q' }
    else if i == 27 { 'r' }
    else if i == 28 { 's' }
    else if i == 29 { 't' }
    else if i == 30 { 'u' }
    else if i == 31 { 'v' }
    else if i == 32 { 'w' }
    else if i == 33 { 'x' }
    else if i == 34 { 'y' }
    else { 'z' }
}

/// The table as a sequence of (character, weight) pairs, in display order.
pub open spec fn table_model() -> Seq<(char, u8)> {
    Seq::new(36, |i: int| (table_char(i), char_weight(table_char(i))))
}

/// Code point of the `i`-th table character, in closed form.
pub proof fn lemma_table_char_code(i: int)
    requires
        0 <= i < 36,
    ensures
        table_char(i) as int == if i < 10 { 48 + i } else { 87 + i },
{
}

/// The table has exactly 36 entries: the ten digits in ascending order, then
/// the twenty-six lowercase letters in ascending order, each paired with its
/// weight; digits weigh their numeric value.
pub proof fn lemma_table_shape()
    ensures
        table_model().len() == 36,
        forall|i: int| 0 <= i < 10 ==> is_digit_char(#[trigger] table_model()[i].0),
        forall|i: int| 10 <= i < 36 ==> is_lower_char(#[trigger] table_model()[i].0),
        forall|i: int, j: int|
            0 <= i < j < 36 ==> (#[trigger] table_model()[i]).0 < (#[trigger] table_model()[j]).0,
        forall|i: int| 0 <= i < 36 ==> (#[trigger] table_model()[i]).1 == char_weight(table_model()[i].0),
        forall|i: int| 0 <= i < 10 ==> (#[trigger] table_model()[i]).1 == i,
{
    assert forall|i: int, j: int|
        0 <= i < j < 36 implies (#[trigger] table_model()[i]).0 < (#[trigger] table_model()[j]).0 by {
        lemma_table_char_code(i);
        lemma_table_char_code(j);
    }
}

/// The process-wide weight table, held in display order: digits `'0'`-`'9'`
/// ascending, then letters `'a'`-`'z'` ascending.
pub struct WeightTable {
    pub entries: Vec<(char, u8)>,
}

impl WeightTable {
    /// Well-formedness: the entries are exactly the fixed table in order.
    pub open spec fn wf(&self) -> bool {
        self.entries@ == table_model()
    }

    /// Build the table; it is immutable configuration from then on.
    pub fn new() -> (r: WeightTable)
        ensures
            r.wf(),
    {
        let mut entries: Vec<(char, u8)> = Vec::new();
        entries.push(('0', 0));
        entries.push(('1', 1));
        entries.push(('2', 2));
        entries.push(('3', 3));
        entries.push(('4', 4));
        entries.push(('5', 5));
        entries.push(('6', 6));
        entries.push(('7', 7));
        entries.push(('8', 8));
        entries.push(('9', 9));
        entries.push(('a', 1));
        entries.push(('b', 2));
        entries.push(('c', 3));
        entries.push(('d', 4));
        entries.push(('e', 5));
        entries.push(('f', 8));
        entries.push(('g', 3));
        entries.push(('h', 5));
        entries.push(('i', 1));
        entries.push(('j', 1));
        entries.push(('k', 2));
        entries.push(('l', 3));
        entries.push(('m', 4));
        entries.push(('n', 5));
        entries.push(('o', 7));
        entries.push(('p', 8));
        entries.push(('q', 1));
        entries.push(('r', 2));
        entries.push(('s', 3));
        entries.push(('t', 4));
        entries.push(('u', 6));
        entries.push(('v', 6));
        entries.push(('w', 6));
        entries.push(('x', 5));
        entries.push(('y', 1));
        entries.push(('z', 7));
        proof {
            assert(entries@ =~= table_model());
        }
        WeightTable { entries }
    }

    /// The ordered (character, weight) entries of the table.
    pub fn entries(&self) -> (r: &Vec<(char, u8)>)
        requires
            self.wf(),
        ensures
            r@ == table_model(),
    {
        &self.entries
    }
}

} // verus!
