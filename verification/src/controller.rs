//! The session controller's computational core: tokenizing an input line
//! into words, and running one complete score-and-render iteration.

use vstd::prelude::*;
use vstd::string::{StrSliceExecFns, StringExecFns};
use crate::format::{format_session, lines_model, session_lines_m, Line};
use crate::jsonout::{json_array_text, json_entries_m, render_session_json};
use crate::options::OutputOptions;
use crate::scoring::{chars_in, grand_total_of, lemma_session_words, score_words, Session};

verus! {

/// Whitespace: the token separators of every input line. These are the
/// characters with the Unicode White_Space property, the set that
/// `char::is_whitespace` recognizes.
pub open spec fn is_space_char(c: char) -> bool {
    ||| c == ' '
    ||| ('\t' <= c && c <= '\r')
    ||| c == '\u{85}'
    ||| c == '\u{a0}'
    ||| c == '\u{1680}'
    ||| ('\u{2000}' <= c && c <= '\u{200a}')
    ||| c == '\u{2028}'
    ||| c == '\u{2029}'
    ||| c == '\u{202f}'
    ||| c == '\u{205f}'
    ||| c == '\u{3000}'
}

fn is_space(c: char) -> (r: bool)
    ensures
        r == is_space_char(c),
{
    c == ' ' || ('\t' <= c && c <= '\r') || c == '\u{85}' || c == '\u{a0}' || c == '\u{1680}' || (
    '\u{2000}' <= c && c <= '\u{200a}') || c == '\u{2028}' || c == '\u{2029}' || c == '\u{202f}'
        || c == '\u{205f}' || c == '\u{3000}'
}

/// The whitespace-separated tokens of `s`, in order: maximal runs of
/// non-space characters, with all space characters discarded.
pub open spec fn split_words_m(s: Seq<char>) -> Seq<Seq<char>>
    decreases s.len(),
{
    if s.len() == 0 {
        Seq::empty()
    } else {
        let rest = split_words_m(s.drop_first());
        if is_space_char(s.first()) {
            rest
        } else if s.len() > 1 && !is_space_char(s[1]) {
            seq![seq![s.first()] + rest.first()] + rest.drop_first()
        } else {
            seq![seq![s.first()]] + rest
        }
    }
}

/// A string that starts with a non-space character splits into at least one
/// token, and its first token is nonempty.
pub proof fn lemma_split_leading_token(s: Seq<char>)
    requires
        s.len() > 0,
        !is_space_char(s.first()),
    ensures
        split_words_m(s).len() > 0,
        split_words_m(s).first().len() > 0,
    decreases s.len(),
{
    if s.len() > 1 && !is_space_char(s[1]) {
        lemma_split_leading_token(s.drop_first());
    }
}

/// A line of nothing but whitespace yields an empty word list.
pub proof fn lemma_all_space_splits_empty(s: Seq<char>)
    requires
        forall|i: int| 0 <= i < s.len() ==> is_space_char(#[trigger] s[i]),
    ensures
        split_words_m(s) == Seq::<Seq<char>>::empty(),
    decreases s.len(),
{
    if s.len() > 0 {
        assert(is_space_char(s.first()));
        assert(forall|i: int|
            0 <= i < s.drop_first().len() ==> is_space_char(#[trigger] s.drop_first()[i]));
        lemma_all_space_splits_empty(s.drop_first());
    }
}

/// Split an input line into its whitespace-separated words.
pub fn split_words(line: &String) -> (r: Vec<String>)
    ensures
        r.deep_view() == split_words_m(line@),
{
    let s = line.as_str();
    let n = s.unicode_len();
    let mut r: Vec<String> = Vec::new();
    let mut i: usize = n;
    while i > 0
        invariant
            s@ == line@,
            n == line@.len(),
            i <= n,
            r.deep_view() == split_words_m(line@.skip(i as int)),
        decreases i,
    {
        let ghost suffix = line@.skip(i as int - 1);
        proof {
            assert(suffix.first() == line@[i as int - 1]);
            assert(suffix.drop_first() =~= line@.skip(i as int));
        }
        let c = s.get_char(i - 1);
        if is_space(c) {
            // a separator: the word list of the longer suffix is unchanged
        } else {
            let joins_next = if i < n {
                let d = s.get_char(i);
                !is_space(d)
            } else {
                false
            };
            let cs = s.substring_char(i - 1, i);
            proof {
                assert(cs@ =~= seq![line@[i as int - 1]]);
            }
            if joins_next {
                proof {
                    lemma_split_leading_token(line@.skip(i as int));
                }
                let head = r.remove(0);
                let joined = String::from_str(cs).concat(head.as_str());
                r.insert(0, joined);
                proof {
                    assert(r.deep_view() =~= split_words_m(suffix));
                }
            } else {
                r.insert(0, String::from_str(cs));
                proof {
                    assert(r.deep_view() =~= split_words_m(suffix));
                }
            }
        }
        i = i - 1;
    }
    proof {
        assert(line@.skip(0) =~= line@);
    }
    r
}

/// The complete output of one iteration: styled text lines, or one JSON
/// document.
pub enum IterationOutput {
    Text(Vec<Line>),
    Json(String),
}

/// Run one read-score-format iteration over `words`: score every word into a
/// fresh session and render it as the options ask. The result is a function
/// of this iteration's words and the options alone; nothing carries over
/// from any earlier iteration.
pub fn run_iteration(words: &Vec<String>, o: &OutputOptions) -> (r: IterationOutput)
    requires
        chars_in(words.deep_view()) * 9 <= u32::MAX,
    ensures
        ({
            let ws = words.deep_view();
            match r {
                IterationOutput::Json(s) => o.json && s@ == json_array_text(
                    json_entries_m(ws, (grand_total_of(ws) as u32), o.no_total),
                ),
                IterationOutput::Text(lines) => !o.json && lines_model(lines@)
                    == session_lines_m(ws, *o),
            }
        }),
{
    let session = score_words(words);
    proof {
        lemma_session_words(&session, words.deep_view());
    }
    if o.json {
        IterationOutput::Json(render_session_json(&session, o.no_total))
    } else {
        IterationOutput::Text(format_session(&session, o))
    }
}

/// The total reported after an iteration reflects only that iteration's
/// words: any two sessions scoring the same word list report the same grand
/// total, whatever either run scored before.
pub proof fn lemma_iteration_total_independent(first: Session, second: Session, ws: Seq<Seq<char>>)
    requires
        first.is_session_of(ws),
        second.is_session_of(ws),
    ensures
        first.grand_total == second.grand_total,
        first.grand_total == grand_total_of(ws),
{
}

} // verus!
