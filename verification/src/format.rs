//! Rendering of scored sessions and of the weight table into styled text
//! lines.
//!
//! The formatter computes the exact text of every output line together with
//! a style tag; applying terminal colors or emphasis to a tagged line is a
//! purely cosmetic concern left to the caller and never changes any text
//! computed here.

use vstd::prelude::*;
use vstd::string::{StrSliceExecFns, StringExecFns};
use crate::options::{OutputOptions, RunMode};
use crate::scoring::{word_total, grand_total_of, Session};
use crate::table::{char_weight, table_char, table_model, WeightTable};

verus! {

/// The decimal digit character for `d` (0 through 9).
pub open spec fn dec_digit(d: int) -> char {
    if d == 0 { '0' }
    else if d == 1 { '1' }
    else if d == 2 { '2' }
    else if d == 3 { '3' }
    else if d == 4 { '4' }
    else if d == 5 { '5' }
    else if d == 6 { '6' }
    else if d == 7 { '7' }
    else if d == 8 { '8' }
    else { '9' }
}

/// Decimal rendering of a nonnegative integer, without leading zeros
/// (except for 0 itself).
pub open spec fn dec_str(n: nat) -> Seq<char>
    decreases n,
{
    if n < 10 {
        seq![dec_digit(n as int)]
    } else {
        dec_str(n / 10) + seq![dec_digit((n % 10) as int)]
    }
}

/// One decimal digit as a string.
fn digit_string(d: u32) -> (r: String)
    requires
        d < 10,
    ensures
        r@ == seq![dec_digit(d as int)],
{
    let s: &str = if d == 0 { "0" }
    else if d == 1 { "1" }
    else if d == 2 { "2" }
    else if d == 3 { "3" }
    else if d == 4 { "4" }
    else if d == 5 { "5" }
    else if d == 6 { "6" }
    else if d == 7 { "7" }
    else { "8" };
    let s: &str = if d == 9 { "9" } else { s };
    proof {
        reveal_strlit("0");
        reveal_strlit("1");
        reveal_strlit("2");
        reveal_strlit("3");
        reveal_strlit("4");
        reveal_strlit("5");
        reveal_strlit("6");
        reveal_strlit("7");
        reveal_strlit("8");
        reveal_strlit("9");
        assert(s@ =~= seq![dec_digit(d as int)]);
    }
    String::from_str(s)
}

/// Render a number in decimal.
pub fn u32_dec(n: u32) -> (r: String)
    ensures
        r@ == dec_str(n as nat),
    decreases n,
{
    if n < 10 {
        digit_string(n)
    } else {
        let high = u32_dec(n / 10);
        let low = digit_string(n % 10);
        high.concat(low.as_str())
    }
}

/// The style tag of an output line. Color and emphasis for each tag are a
/// terminal concern; the tag only records which kind of line this is.
#[derive(Clone, Copy, Debug, PartialEq, Eq, Structural)]
pub enum TextStyle {
    /// Undecorated output (raw table entries, prompts).
    Plain,
    /// Headline output: word values, the separator, the total.
    Info,
    /// Per-letter detail lines.
    Detail,
    /// Informational notes.
    Note,
    /// The full-screen banner.
    Banner,
}

/// One output line: its exact text, its style tag, and whether the line is
/// emphasized (bold or italic) under the current decoration setting.
pub struct Line {
    pub text: String,
    pub style: TextStyle,
    pub strong: bool,
}

pub open spec fn line_model(l: Line) -> (Seq<char>, TextStyle, bool) {
    (l.text@, l.style, l.strong)
}

pub open spec fn lines_model(ls: Seq<Line>) -> Seq<(Seq<char>, TextStyle, bool)> {
    ls.map_values(|l: Line| line_model(l))
}

pub proof fn lemma_lines_model_push(ls: Seq<Line>, l: Line)
    ensures
        lines_model(ls.push(l)) == lines_model(ls).push(line_model(l)),
{
    assert(lines_model(ls.push(l)) =~= lines_model(ls).push(line_model(l)));
}

/// Text of the headline for one scored word.
pub open spec fn value_line_text(w: Seq<char>, total: nat, raw: bool) -> Seq<char> {
    if raw {
        "\""@ + w + "\": "@ + dec_str(total)
    } else {
        "Value of \""@ + w + "\": "@ + dec_str(total)
    }
}

/// Text of one per-letter detail line.
pub open spec fn letter_line_text(c: char, v: nat) -> Seq<char> {
    "'"@ + seq![c] + "': "@ + dec_str(v)
}

pub open spec fn separator_text() -> Seq<char> {
    "--------------------"@
}

pub open spec fn total_line_text(g: nat) -> Seq<char> {
    "Total Value: "@ + dec_str(g)
}

/// The case-insensitivity note shown with the table unless quieted.
pub open spec fn note_text() -> Seq<char> {
    "Note: Both lowercase and uppercase letters hold equivalent value."@
}

fn value_line(word: &String, total: u32, raw: bool) -> (r: String)
    ensures
        r@ == value_line_text(word@, total as nat, raw),
{
    let mut s = if raw {
        String::from_str("\"")
    } else {
        String::from_str("Value of \"")
    };
    s.append(word.as_str());
    s.append("\": ");
    let t = u32_dec(total);
    let r = s.concat(t.as_str());
    proof {
        assert(r@ =~= value_line_text(word@, total as nat, raw));
    }
    r
}

fn letter_line(word: &String, j: usize, v: u8) -> (r: String)
    requires
        j < word@.len(),
        j + 1 <= usize::MAX,
    ensures
        r@ == letter_line_text(word@[j as int], v as nat),
{
    let mut s = String::from_str("'");
    let cs = word.as_str().substring_char(j, j + 1);
    s.append(cs);
    s.append("': ");
    let t = u32_dec(v as u32);
    let r = s.concat(t.as_str());
    proof {
        assert(cs@ =~= seq![word@[j as int]]);
        assert(r@ =~= letter_line_text(word@[j as int], v as nat));
    }
    r
}

/// The detail lines of one word: one line per character, in order.
pub open spec fn letter_lines_m(w: Seq<char>) -> Seq<(Seq<char>, TextStyle, bool)> {
    Seq::new(
        w.len(),
        |i: int| (letter_line_text(w[i], char_weight(w[i]) as nat), TextStyle::Detail, false),
    )
}

/// The lines printed for one scored word: its headline, then (unless `less`
/// or `raw`) one detail line per character.
pub open spec fn word_block_m(w: Seq<char>, o: OutputOptions) -> Seq<(Seq<char>, TextStyle, bool)> {
    seq![(value_line_text(w, word_total(w) as nat, o.raw), TextStyle::Info, o.decorations)]
        + if !o.less && !o.raw {
            letter_lines_m(w)
        } else {
            Seq::empty()
        }
}

pub open spec fn word_blocks_m(ws: Seq<Seq<char>>, o: OutputOptions) -> Seq<
    (Seq<char>, TextStyle, bool),
>
    decreases ws.len(),
{
    if ws.len() == 0 {
        Seq::empty()
    } else {
        word_blocks_m(ws.drop_last(), o) + word_block_m(ws.last(), o)
    }
}

pub proof fn lemma_word_blocks_step(ws: Seq<Seq<char>>, i: int, o: OutputOptions)
    requires
        0 <= i < ws.len(),
    ensures
        word_blocks_m(ws.take(i + 1), o) == word_blocks_m(ws.take(i), o) + word_block_m(ws[i], o),
{
    assert(ws.take(i + 1).drop_last() =~= ws.take(i));
    assert(ws.take(i + 1).last() == ws[i]);
}

/// Every line of a scored session, in order: the word blocks, then (unless
/// `raw`) a separator line, then (unless `no_total`) the grand total line.
pub open spec fn session_lines_m(ws: Seq<Seq<char>>, o: OutputOptions) -> Seq<
    (Seq<char>, TextStyle, bool),
> {
    word_blocks_m(ws, o) + (if !o.raw {
        seq![(separator_text(), TextStyle::Info, o.decorations)]
    } else {
        Seq::empty()
    }) + (if !o.no_total {
        seq![(total_line_text(grand_total_of(ws) as nat), TextStyle::Info, o.decorations)]
    } else {
        Seq::empty()
    })
}

/// With `no_total` set, no total line is rendered: the session lines are the
/// word blocks followed at most by the separator.
pub proof fn lemma_no_total_line_absent(ws: Seq<Seq<char>>, o: OutputOptions)
    requires
        o.no_total,
    ensures
        o.raw ==> session_lines_m(ws, o) == word_blocks_m(ws, o),
        !o.raw ==> session_lines_m(ws, o) == word_blocks_m(ws, o)
            + seq![(separator_text(), TextStyle::Info, o.decorations)],
{
    assert(session_lines_m(ws, o) =~= word_blocks_m(ws, o) + (if !o.raw {
        seq![(separator_text(), TextStyle::Info, o.decorations)]
    } else {
        Seq::empty()
    }));
}

/// Render a session into its styled text lines.
pub fn format_session(s: &Session, o: &OutputOptions) -> (r: Vec<Line>)
    requires
        s.wf(),
    ensures
        lines_model(r@) == session_lines_m(s.words(), *o),
{
    let ghost ws = s.words();
    let mut out: Vec<Line> = Vec::new();
    let mut i: usize = 0;
    while i < s.scores.len()
        invariant
            s.wf(),
            ws == s.words(),
            s.scores@.len() == ws.len(),
            i <= ws.len(),
            lines_model(out@) == word_blocks_m(ws.take(i as int), *o),
        decreases ws.len() - i,
    {
        let ghost w = ws[i as int];
        proof {
            assert(s.scores@[i as int].is_score_of(w));
        }
        let sc = &s.scores[i];
        let vl = value_line(&sc.word, sc.total, o.raw);
        out.push(Line { text: vl, style: TextStyle::Info, strong: o.decorations });
        proof {
            assert(lines_model(out@) =~= word_blocks_m(ws.take(i as int), *o) + seq![
                (value_line_text(w, word_total(w) as nat, o.raw), TextStyle::Info, o.decorations),
            ]);
            assert(lines_model(out@) =~= word_blocks_m(ws.take(i as int), *o) + seq![
                (value_line_text(w, word_total(w) as nat, o.raw), TextStyle::Info, o.decorations),
            ] + letter_lines_m(w).take(0));
        }
        if !o.less && !o.raw {
            let m = sc.letter_values.len();
            let mut j: usize = 0;
            while j < m
                invariant
                    s.wf(),
                    ws == s.words(),
                    s.scores@.len() == ws.len(),
                    i < ws.len(),
                    w == ws[i as int],
                    s.scores@[i as int].is_score_of(w),
                    *sc == s.scores@[i as int],
                    m == w.len(),
                    j <= m,
                    lines_model(out@) == word_blocks_m(ws.take(i as int), *o)
                        + seq![
                        (value_line_text(w, word_total(w) as nat, o.raw), TextStyle::Info, o.decorations),
                    ] + letter_lines_m(w).take(j as int),
                decreases m - j,
            {
                let (_, v) = sc.letter_values[j];
                proof {
                    assert(sc.letter_values@[j as int] == (w[j as int], char_weight(w[j as int])));
                }
                let ll = letter_line(&sc.word, j, v);
                let ghost prev = out@;
                out.push(Line { text: ll, style: TextStyle::Detail, strong: false });
                proof {
                    lemma_lines_model_push(prev, out@.last());
                    assert(line_model(out@.last()) == (
                        letter_line_text(w[j as int], char_weight(w[j as int]) as nat),
                        TextStyle::Detail,
                        false,
                    ));
                    assert(letter_lines_m(w).take(j as int + 1) =~= letter_lines_m(w).take(
                        j as int,
                    ).push((letter_line_text(w[j as int], char_weight(w[j as int]) as nat), TextStyle::Detail, false)));
                    assert(lines_model(out@) =~= word_blocks_m(ws.take(i as int), *o) + seq![
                        (value_line_text(w, word_total(w) as nat, o.raw), TextStyle::Info, o.decorations),
                    ] + letter_lines_m(w).take(j as int + 1));
                }
                j = j + 1;
            }
            proof {
                assert(letter_lines_m(w).take(m as int) =~= letter_lines_m(w));
            }
        }
        proof {
            lemma_word_blocks_step(ws, i as int, *o);
            assert(lines_model(out@) =~= word_blocks_m(ws.take(i as int + 1), *o));
        }
        i = i + 1;
    }
    proof {
        assert(ws.take(ws.len() as int) =~= ws);
    }
    if !o.raw {
        let sep = String::from_str("--------------------");
        out.push(Line { text: sep, style: TextStyle::Info, strong: o.decorations });
    }
    if !o.no_total {
        let tl = String::from_str("Total Value: ");
        let t = u32_dec(s.grand_total);
        let tl = tl.concat(t.as_str());
        proof {
            assert(tl@ =~= total_line_text(s.grand_total as nat));
        }
        out.push(Line { text: tl, style: TextStyle::Info, strong: o.decorations });
    }
    proof {
        assert(lines_model(out@) =~= session_lines_m(ws, *o));
    }
    out
}

/// Text of one `character: weight` table listing line.
pub open spec fn table_entry_line_text(c: char, v: nat) -> Seq<char> {
    seq![c] + ": "@ + dec_str(v)
}

/// The table in listing form: one plain line per entry in table order, then
/// the case-insensitivity note unless quieted.
pub open spec fn table_listing_m(quiet: bool, decorations: bool) -> Seq<
    (Seq<char>, TextStyle, bool),
> {
    Seq::new(
        36,
        |i: int| (
            table_entry_line_text(table_char(i), char_weight(table_char(i)) as nat),
            TextStyle::Plain,
            false,
        ),
    ) + if !quiet {
        seq![(note_text(), TextStyle::Note, decorations)]
    } else {
        Seq::empty()
    }
}

/// Render the weight table as plain listing lines.
pub fn table_listing_lines(t: &WeightTable, o: &OutputOptions) -> (r: Vec<Line>)
    requires
        t.wf(),
    ensures
        lines_model(r@) == table_listing_m(o.quiet, o.decorations),
{
    let alphabet = "0123456789abcdefghijklmnopqrstuvwxyz";
    proof {
        reveal_strlit("0123456789abcdefghijklmnopqrstuvwxyz");
        assert(alphabet@.len() == 36);
        assert forall|i: int| 0 <= i < 36 implies alphabet@[i] == table_char(i) by {}
    }
    let mut out: Vec<Line> = Vec::new();
    let mut i: usize = 0;
    while i < 36
        invariant
            t.wf(),
            alphabet@.len() == 36,
            forall|k: int| 0 <= k < 36 ==> alphabet@[k] == table_char(k),
            i <= 36,
            lines_model(out@) == Seq::new(
                i as nat,
                |k: int| (
                    table_entry_line_text(table_char(k), char_weight(table_char(k)) as nat),
                    TextStyle::Plain,
                    false,
                ),
            ),
        decreases 36 - i,
    {
        let cs = alphabet.substring_char(i, i + 1);
        let mut s = String::from_str(cs);
        s.append(": ");
        let (_, v) = t.entries[i];
        let d = u32_dec(v as u32);
        let line = s.concat(d.as_str());
        proof {
            assert(cs@ =~= seq![table_char(i as int)]);
            assert(t.entries@[i as int] == table_model()[i as int]);
            assert(line@ =~= table_entry_line_text(
                table_char(i as int),
                char_weight(table_char(i as int)) as nat,
            ));
        }
        let ghost prev = out@;
        out.push(Line { text: line, style: TextStyle::Plain, strong: false });
        proof {
            lemma_lines_model_push(prev, out@.last());
            assert(lines_model(out@) =~= Seq::new(
                i as nat + 1,
                |k: int| (
                    table_entry_line_text(table_char(k), char_weight(table_char(k)) as nat),
                    TextStyle::Plain,
                    false,
                ),
            ));
        }
        i = i + 1;
    }
    if !o.quiet {
        let n = String::from_str(
            "Note: Both lowercase and uppercase letters hold equivalent value.",
        );
        out.push(Line { text: n, style: TextStyle::Note, strong: o.decorations });
    }
    proof {
        assert(lines_model(out@) =~= table_listing_m(o.quiet, o.decorations));
    }
    out
}

/// One row of the two-column table grid: an entry, or the blank separator
/// row at the digit-to-letter boundary.
#[derive(Clone, Debug)]
pub enum GridRow {
    Entry(String, String),
    Blank,
}

pub open spec fn grid_row_model(r: GridRow) -> Option<(Seq<char>, Seq<char>)> {
    match r {
        GridRow::Entry(c, v) => Some((c@, v@)),
        GridRow::Blank => None,
    }
}

pub open spec fn grid_rows_model(rs: Seq<GridRow>) -> Seq<Option<(Seq<char>, Seq<char>)>> {
    rs.map_values(|r: GridRow| grid_row_model(r))
}

/// The grid body: the ten digit rows, one blank row, then the twenty-six
/// letter rows, each row a character and its weight in decimal.
pub open spec fn grid_rows_m() -> Seq<Option<(Seq<char>, Seq<char>)>> {
    Seq::new(
        37,
        |i: int|
            if i == 10 {
                None
            } else {
                let j = if i < 10 { i } else { i - 1 };
                Some((seq![table_char(j)], dec_str(char_weight(table_char(j)) as nat)))
            },
    )
}

/// Render the weight table as grid rows, blank row at the boundary included.
pub fn table_grid_rows(t: &WeightTable) -> (r: Vec<GridRow>)
    requires
        t.wf(),
    ensures
        grid_rows_model(r@) == grid_rows_m(),
{
    let alphabet = "0123456789abcdefghijklmnopqrstuvwxyz";
    proof {
        reveal_strlit("0123456789abcdefghijklmnopqrstuvwxyz");
        assert(alphabet@.len() == 36);
        assert forall|k: int| 0 <= k < 36 implies alphabet@[k] == table_char(k) by {}
    }
    let mut out: Vec<GridRow> = Vec::new();
    let mut i: usize = 0;
    while i < 37
        invariant
            t.wf(),
            alphabet@.len() == 36,
            forall|k: int| 0 <= k < 36 ==> alphabet@[k] == table_char(k),
            i <= 37,
            grid_rows_model(out@) == grid_rows_m().take(i as int),
        decreases 37 - i,
    {
        let ghost prev = out@;
        if i == 10 {
            out.push(GridRow::Blank);
        } else {
            let j = if i < 10 { i } else { i - 1 };
            let cs = alphabet.substring_char(j, j + 1);
            let (_, v) = t.entries[j];
            proof {
                assert(cs@ =~= seq![table_char(j as int)]);
                assert(t.entries@[j as int] == table_model()[j as int]);
            }
            out.push(GridRow::Entry(String::from_str(cs), u32_dec(v as u32)));
        }
        proof {
            assert(grid_rows_model(out@) =~= grid_rows_model(prev).push(
                grid_row_model(out@.last()),
            ));
            assert(grid_rows_m().take(i as int + 1) =~= grid_rows_m().take(i as int).push(
                grid_rows_m()[i as int],
            ));
            assert(grid_rows_model(out@) =~= grid_rows_m().take(i as int + 1));
        }
        i = i + 1;
    }
    proof {
        assert(grid_rows_m().take(37) =~= grid_rows_m());
    }
    out
}

/// The two column titles of the table grid.
pub fn grid_titles() -> (r: (String, String))
    ensures
        r.0@ == "CHARACTER"@,
        r.1@ == "VALUE"@,
{
    (String::from_str("CHARACTER"), String::from_str("VALUE"))
}

/// The prompt written before each interactive read.
pub open spec fn prompt_text_m(less: bool, raw: bool) -> Seq<char> {
    if !raw && !less {
        "Enter words separated by spaces: "@
    } else if less {
        ": "@
    } else {
        ":"@
    }
}

pub fn prompt_text(o: &OutputOptions) -> (r: String)
    ensures
        r@ == prompt_text_m(o.less, o.raw),
{
    if !o.raw && !o.less {
        String::from_str("Enter words separated by spaces: ")
    } else if o.less {
        String::from_str(": ")
    } else {
        String::from_str(":")
    }
}

/// The note shown when an interactive loop starts.
pub open spec fn ctrl_c_note_text() -> Seq<char> {
    "Note: Press Ctrl+C to exit."@
}

/// The banner shown when the full-screen loop starts.
pub open spec fn banner_text() -> Seq<char> {
    " _   _ _   _ __  __ _____ ____      _    ____    _    _     ____\n| \\ | | | | |  \\/  | ____|  _ \\    / \\  / ___|  / \\  | |   / ___|\n|  \\| | | | | |\\/| |  _| | |_) |  / _ \\| |     / _ \\ | |  | |\n| |\\  | |_| | |  | | |___|  _ <  / ___ \\ |___ / ___ \\| |__| |___\n|_| \\_|\\___/|_|  |_|_____|_| \\_\\/_/   \\_\\____/_/   \\_\\_____\\____|"@
}

/// The lines shown once when a mode starts: interactive modes get the
/// cancellation note unless quieted, and the full-screen mode leads with its
/// banner; batch modes start silently.
pub open spec fn startup_lines_m(mode: RunMode, o: OutputOptions) -> Seq<
    (Seq<char>, TextStyle, bool),
> {
    match mode {
        RunMode::InteractiveRecursive => if o.quiet {
            Seq::empty()
        } else {
            seq![(ctrl_c_note_text(), TextStyle::Note, o.decorations)]
        },
        RunMode::InteractiveFullScreen => seq![(banner_text(), TextStyle::Banner, o.decorations)]
            + if o.quiet {
            Seq::empty()
        } else {
            seq![(ctrl_c_note_text(), TextStyle::Note, o.decorations)]
        },
        _ => Seq::empty(),
    }
}

pub fn startup_lines(mode: &RunMode, o: &OutputOptions) -> (r: Vec<Line>)
    ensures
        lines_model(r@) == startup_lines_m(*mode, *o),
{
    let mut out: Vec<Line> = Vec::new();
    match mode {
        RunMode::InteractiveRecursive => {
            if !o.quiet {
                let n = String::from_str("Note: Press Ctrl+C to exit.");
                out.push(Line { text: n, style: TextStyle::Note, strong: o.decorations });
            }
        },
        RunMode::InteractiveFullScreen => {
            let b = String::from_str(
                " _   _ _   _ __  __ _____ ____      _    ____    _    _     ____\n| \\ | | | | |  \\/  | ____|  _ \\    / \\  / ___|  / \\  | |   / ___|\n|  \\| | | | | |\\/| |  _| | |_) |  / _ \\| |     / _ \\ | |  | |\n| |\\  | |_| | |  | | |___|  _ <  / ___ \\ |___ / ___ \\| |__| |___\n|_| \\_|\\___/|_|  |_|_____|_| \\_\\/_/   \\_\\____/_/   \\_\\_____\\____|",
            );
            out.push(Line { text: b, style: TextStyle::Banner, strong: o.decorations });
            if !o.quiet {
                let n = String::from_str("Note: Press Ctrl+C to exit.");
                out.push(Line { text: n, style: TextStyle::Note, strong: o.decorations });
            }
        },
        _ => {},
    }
    proof {
        assert(lines_model(out@) =~= startup_lines_m(*mode, *o));
    }
    out
}

} // verus!
