//! JSON rendering of scored sessions and of the weight table.
//!
//! The library computes the exact entry list of each JSON document; turning
//! that list into pretty-printed JSON text is delegated to serde_json behind
//! trusted wrappers.

use vstd::prelude::*;
use vstd::string::StringExecFns;
use crate::scoring::{word_total, Session};
use crate::table::{table_model, WeightTable};

verus! {

/// The key of the trailing grand-total entry.
pub open spec fn total_key() -> Seq<char> {
    "TOTAL_VALUE"@
}

/// The entries of the scoring JSON document: one `word -> total` entry per
/// word in input order, then, unless `no_total`, a final
/// `TOTAL_VALUE -> grand total` entry.
pub open spec fn json_entries_m(ws: Seq<Seq<char>>, g: u32, no_total: bool) -> Seq<
    (Seq<char>, u32),
> {
    Seq::new(ws.len(), |i: int| (ws[i], word_total(ws[i]) as u32)) + if !no_total {
        seq![(total_key(), g)]
    } else {
        Seq::empty()
    }
}

/// With `no_total` set, the rendered entries are exactly the per-word
/// entries: no `TOTAL_VALUE` entry is present.
pub proof fn lemma_no_total_entry_absent(ws: Seq<Seq<char>>, g: u32)
    ensures
        json_entries_m(ws, g, true) == Seq::new(
            ws.len(),
            |i: int| (ws[i], word_total(ws[i]) as u32),
        ),
        json_entries_m(ws, g, true).len() == ws.len(),
{
    assert(json_entries_m(ws, g, true) =~= Seq::new(
        ws.len(),
        |i: int| (ws[i], word_total(ws[i]) as u32),
    ));
}

/// With totals enabled, the rendered entries are the per-word entries
/// followed by exactly one `TOTAL_VALUE` entry carrying the grand total.
pub proof fn lemma_total_entry_last(ws: Seq<Seq<char>>, g: u32)
    ensures
        json_entries_m(ws, g, false).len() == ws.len() + 1,
        json_entries_m(ws, g, false).last() == (total_key(), g),
        forall|i: int|
            0 <= i < ws.len() ==> #[trigger] json_entries_m(ws, g, false)[i] == (
                ws[i],
                word_total(ws[i]) as u32,
            ),
{
}

/// Compute the JSON entry list of a session.
pub fn session_json_entries(s: &Session, no_total: bool) -> (r: Vec<(String, u32)>)
    requires
        s.wf(),
    ensures
        r.deep_view() == json_entries_m(s.words(), s.grand_total, no_total),
{
    let ghost ws = s.words();
    let mut r: Vec<(String, u32)> = Vec::new();
    let mut i: usize = 0;
    while i < s.scores.len()
        invariant
            s.wf(),
            ws == s.words(),
            s.scores@.len() == ws.len(),
            i <= ws.len(),
            r@.len() == i,
            forall|k: int|
                0 <= k < i ==> (#[trigger] r@[k]).0@ == ws[k] && r@[k].1 == word_total(ws[k]) as u32,
        decreases ws.len() - i,
    {
        proof {
            assert(s.scores@[i as int].is_score_of(ws[i as int]));
        }
        let sc = &s.scores[i];
        r.push((sc.word.clone(), sc.total));
        i = i + 1;
    }
    if !no_total {
        r.push((String::from_str("TOTAL_VALUE"), s.grand_total));
    }
    proof {
        assert(r.deep_view() =~= json_entries_m(ws, s.grand_total, no_total));
    }
    r
}

/// The pretty-printed JSON array that serde_json renders for an entry list:
/// one one-key object per entry, in order.
pub uninterp spec fn json_array_text(entries: Seq<(Seq<char>, u32)>) -> Seq<char>;

/// Relies on serde_json::to_string_pretty applied to a sequence of one-entry
/// string-keyed maps: it renders a pretty-printed JSON array with one
/// one-key object per entry, in order, and its output is a function of the
/// entries alone. Serializing string-keyed maps of integers cannot fail.
#[verifier::external_body]
fn json_pretty_entries(entries: &Vec<(String, u32)>) -> (r: String)
    ensures
        r@ == json_array_text(entries.deep_view()),
{
    let objects: Vec<std::collections::BTreeMap<&String, u32>> = entries
        .iter()
        .map(|e| std::iter::once((&e.0, e.1)).collect())
        .collect();
    serde_json::to_string_pretty(&objects).expect("string-keyed maps always serialize")
}

/// The pretty-printed JSON object that serde_json renders for the table
/// entries: each character (as a one-character string key) mapped to its
/// weight, in key order.
pub uninterp spec fn json_object_text(entries: Seq<(char, u8)>) -> Seq<char>;

/// Relies on serde_json's FromIterator for Value, which collects key-value
/// pairs into a JSON object (sorted by key, which for the table's keys is
/// exactly table order), and on serde_json::to_string_pretty; the output is
/// a function of the entries alone. Serializing string-keyed maps of
/// integers cannot fail.
#[verifier::external_body]
fn json_pretty_char_map(entries: &Vec<(char, u8)>) -> (r: String)
    ensures
        r@ == json_object_text(entries@),
{
    let value: serde_json::Value = entries.iter().map(|e| (e.0, e.1)).collect();
    serde_json::to_string_pretty(&value).expect("string-keyed maps always serialize")
}

/// Render a session as pretty-printed JSON: one object per word in input
/// order, then, unless `no_total`, a final `TOTAL_VALUE` object.
pub fn render_session_json(s: &Session, no_total: bool) -> (r: String)
    requires
        s.wf(),
    ensures
        r@ == json_array_text(json_entries_m(s.words(), s.grand_total, no_total)),
{
    let entries = session_json_entries(s, no_total);
    json_pretty_entries(&entries)
}

/// Render the weight table as a pretty-printed JSON object mapping each of
/// the 36 table characters to its weight. The output depends on no display
/// flag.
pub fn render_table_json(t: &WeightTable) -> (r: String)
    requires
        t.wf(),
    ensures
        r@ == json_object_text(table_model()),
{
    json_pretty_char_map(t.entries())
}

} // verus!
