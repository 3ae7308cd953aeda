//! Scoring: the value of a word is the sum of its characters' weights, and a
//! session is an ordered batch of scored words with a grand total.

use vstd::prelude::*;
use vstd::string::StrSliceExecFns;
use crate::table::{char_weight, evaluate, lemma_char_weight_bound};

verus! {

/// Sum of the weights of the characters of `w`.
pub open spec fn word_total(w: Seq<char>) -> int
    decreases w.len(),
{
    if w.len() == 0 {
        0
    } else {
        word_total(w.drop_last()) + char_weight(w.last())
    }
}

/// A word's total is between 0 and nine times its length.
pub proof fn lemma_word_total_bounds(w: Seq<char>)
    ensures
        0 <= word_total(w) <= 9 * w.len(),
    decreases w.len(),
{
    if w.len() > 0 {
        lemma_word_total_bounds(w.drop_last());
        lemma_char_weight_bound(w.last());
    }
}

/// Extending a prefix by one character adds that character's weight.
pub proof fn lemma_word_total_take_step(w: Seq<char>, i: int)
    requires
        0 <= i < w.len(),
    ensures
        word_total(w.take(i + 1)) == word_total(w.take(i)) + char_weight(w[i]),
{
    assert(w.take(i + 1).drop_last() =~= w.take(i));
    assert(w.take(i + 1).last() == w[i]);
}

/// One scored word: the word itself, its per-character weights in order, and
/// their sum.
pub struct WordScore {
    pub word: String,
    pub letter_values: Vec<(char, u8)>,
    pub total: u32,
}

impl WordScore {
    /// This value is the score of the character sequence `w`.
    pub open spec fn is_score_of(&self, w: Seq<char>) -> bool {
        &&& self.word@ == w
        &&& self.letter_values@.len() == w.len()
        &&& (forall|i: int|
            0 <= i < w.len() ==> #[trigger] self.letter_values@[i] == (w[i], char_weight(w[i])))
        &&& self.total == word_total(w)
    }

    pub open spec fn wf(&self) -> bool {
        self.is_score_of(self.word@)
    }
}

/// Score one word: each character's weight in order, and their sum.
pub fn score_word(word: &String) -> (r: WordScore)
    requires
        word@.len() * 9 <= u32::MAX,
    ensures
        r.is_score_of(word@),
        r.wf(),
{
    let s = word.as_str();
    let n = s.unicode_len();
    let mut letter_values: Vec<(char, u8)> = Vec::new();
    let mut total: u32 = 0;
    let mut i: usize = 0;
    while i < n
        invariant
            s@ == word@,
            n == word@.len(),
            i <= n,
            word@.len() * 9 <= u32::MAX,
            letter_values@.len() == i,
            forall|k: int|
                0 <= k < i ==> #[trigger] letter_values@[k] == (word@[k], char_weight(word@[k])),
            total == word_total(word@.take(i as int)),
        decreases n - i,
    {
        let c = s.get_char(i);
        let v = evaluate(c);
        proof {
            lemma_word_total_bounds(word@.take(i as int));
            lemma_char_weight_bound(c);
            lemma_word_total_take_step(word@, i as int);
        }
        letter_values.push((c, v));
        total = total + (v as u32);
        i = i + 1;
    }
    proof {
        assert(word@.take(n as int) =~= word@);
    }
    WordScore { word: word.clone(), letter_values, total }
}

/// Scoring is deterministic and pure: two well-formed scores of the same word
/// agree on every letter value and on the total.
pub proof fn lemma_scoring_deterministic(a: WordScore, b: WordScore)
    requires
        a.wf(),
        b.wf(),
        a.word@ == b.word@,
    ensures
        a.total == b.total,
        a.letter_values@ == b.letter_values@,
{
    assert(a.letter_values@ =~= b.letter_values@);
}

/// Sum of the totals of a list of words.
pub open spec fn grand_total_of(ws: Seq<Seq<char>>) -> int
    decreases ws.len(),
{
    if ws.len() == 0 {
        0
    } else {
        grand_total_of(ws.drop_last()) + word_total(ws.last())
    }
}

/// Number of characters across a list of words.
pub open spec fn chars_in(ws: Seq<Seq<char>>) -> int
    decreases ws.len(),
{
    if ws.len() == 0 {
        0
    } else {
        chars_in(ws.drop_last()) + ws.last().len()
    }
}

pub proof fn lemma_grand_total_bounds(ws: Seq<Seq<char>>)
    ensures
        0 <= chars_in(ws),
        0 <= grand_total_of(ws) <= 9 * chars_in(ws),
    decreases ws.len(),
{
    if ws.len() > 0 {
        lemma_grand_total_bounds(ws.drop_last());
        lemma_word_total_bounds(ws.last());
    }
}

/// Extending a prefix of the word list by one word adds that word's length
/// and total.
pub proof fn lemma_prefix_step(ws: Seq<Seq<char>>, i: int)
    requires
        0 <= i < ws.len(),
    ensures
        chars_in(ws.take(i + 1)) == chars_in(ws.take(i)) + ws[i].len(),
        grand_total_of(ws.take(i + 1)) == grand_total_of(ws.take(i)) + word_total(ws[i]),
{
    assert(ws.take(i + 1).drop_last() =~= ws.take(i));
    assert(ws.take(i + 1).last() == ws[i]);
}

/// A prefix of the word list holds at most as many characters as the whole.
pub proof fn lemma_chars_in_prefix(ws: Seq<Seq<char>>, i: int)
    requires
        0 <= i <= ws.len(),
    ensures
        chars_in(ws.take(i)) <= chars_in(ws),
    decreases ws.len() - i,
{
    if i < ws.len() {
        lemma_prefix_step(ws, i);
        lemma_chars_in_prefix(ws, i + 1);
    } else {
        assert(ws.take(i) =~= ws);
    }
}

/// One fresh batch of scored words and their grand total. A session never
/// carries state over from an earlier one.
pub struct Session {
    pub scores: Vec<WordScore>,
    pub grand_total: u32,
}

impl Session {
    /// The character sequences of the scored words, in order.
    pub open spec fn words(&self) -> Seq<Seq<char>> {
        self.scores@.map_values(|sc: WordScore| sc.word@)
    }

    /// This session scores exactly the word list `ws`.
    pub open spec fn is_session_of(&self, ws: Seq<Seq<char>>) -> bool {
        &&& self.scores@.len() == ws.len()
        &&& (forall|i: int| 0 <= i < ws.len() ==> #[trigger] self.scores@[i].is_score_of(ws[i]))
        &&& self.grand_total == grand_total_of(ws)
    }

    pub open spec fn wf(&self) -> bool {
        self.is_session_of(self.words())
    }
}

/// A session of `ws` is well-formed and records exactly the words `ws`.
pub proof fn lemma_session_words(s: &Session, ws: Seq<Seq<char>>)
    requires
        s.is_session_of(ws),
    ensures
        s.words() == ws,
        s.wf(),
{
    assert forall|i: int| 0 <= i < ws.len() implies s.words()[i] == ws[i] by {
        assert(s.scores@[i].is_score_of(ws[i]));
    }
    assert(s.words() =~= ws);
}

/// Score a whole word list into a fresh session.
pub fn score_words(words: &Vec<String>) -> (r: Session)
    requires
        chars_in(words.deep_view()) * 9 <= u32::MAX,
    ensures
        r.is_session_of(words.deep_view()),
        r.wf(),
{
    let ghost ws = words.deep_view();
    let mut scores: Vec<WordScore> = Vec::new();
    let mut grand_total: u32 = 0;
    let mut i: usize = 0;
    while i < words.len()
        invariant
            ws == words.deep_view(),
            ws.len() == words@.len(),
            chars_in(ws) * 9 <= u32::MAX,
            i <= words@.len(),
            scores@.len() == i,
            forall|k: int| 0 <= k < i ==> #[trigger] scores@[k].is_score_of(ws[k]),
            grand_total == grand_total_of(ws.take(i as int)),
        decreases words@.len() - i,
    {
        proof {
            lemma_prefix_step(ws, i as int);
            lemma_chars_in_prefix(ws, i as int + 1);
            lemma_grand_total_bounds(ws.take(i as int));
            lemma_word_total_bounds(ws[i as int]);
            lemma_grand_total_bounds(ws.take(i as int + 1));
            assert(ws[i as int] == words@[i as int]@);
        }
        let sc = score_word(&words[i]);
        grand_total = grand_total + sc.total;
        scores.push(sc);
        i = i + 1;
    }
    proof {
        assert(ws.take(words@.len() as int) =~= ws);
    }
    let r = Session { scores, grand_total };
    proof {
        lemma_session_words(&r, ws);
    }
    r
}

} // verus!
