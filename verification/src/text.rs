//! UTF-8 aware text handling for the live transcript.

use vstd::prelude::*;
use vstd::utf8::{encode_scalar, encode_utf8, char_is_scalar};

verus! {

/// Number of bytes in the UTF-8 encoding of `c`.
pub open spec fn char_width(c: char) -> nat {
    if (c as u32) <= 0x7F {
        1
    } else if (c as u32) <= 0x7FF {
        2
    } else if (c as u32) <= 0xFFFF {
        3
    } else {
        4
    }
}

/// Number of bytes in the UTF-8 encoding of `s` (what `str::len` reports).
pub open spec fn utf8_len(s: Seq<char>) -> nat
    decreases s.len(),
{
    if s.len() == 0 {
        0
    } else {
        char_width(s[0]) + utf8_len(s.drop_first())
    }
}

/// `utf8_len` is the length of vstd's UTF-8 encoding of the characters.
pub proof fn lemma_utf8_len_is_encoded_len(s: Seq<char>)
    ensures
        encode_utf8(s).len() == utf8_len(s),
    decreases s.len(),
{
    if s.len() > 0 {
        char_is_scalar(s[0]);
        assert(encode_scalar(s[0] as u32).len() == char_width(s[0]));
        lemma_utf8_len_is_encoded_len(s.drop_first());
    }
}

/// Byte length is additive over concatenation.
pub proof fn lemma_utf8_len_concat(a: Seq<char>, b: Seq<char>)
    ensures
        utf8_len(a + b) == utf8_len(a) + utf8_len(b),
    decreases a.len(),
{
    if a.len() == 0 {
        assert(a + b =~= b);
    } else {
        assert((a + b).drop_first() =~= a.drop_first() + b);
        lemma_utf8_len_concat(a.drop_first(), b);
    }
}

/// Splitting a sequence at `k` splits its byte length.
pub proof fn lemma_utf8_len_split(s: Seq<char>, k: int)
    requires
        0 <= k <= s.len(),
    ensures
        utf8_len(s) == utf8_len(s.take(k)) + utf8_len(s.skip(k)),
{
    assert(s =~= s.take(k) + s.skip(k));
    lemma_utf8_len_concat(s.take(k), s.skip(k));
}

/// Exact UTF-8 width of one character.
pub fn char_utf8_width(c: char) -> (w: usize)
    ensures
        w == char_width(c),
        1 <= w <= 4,
{
    let v = c as u32;
    if v <= 0x7F {
        1
    } else if v <= 0x7FF {
        2
    } else if v <= 0xFFFF {
        3
    } else {
        4
    }
}

/// The characters of `s`, in order.
pub fn chars_of(s: &str) -> (v: Vec<char>)
    ensures
        v@ == s@,
{
    let mut v: Vec<char> = Vec::new();
    for c in it: s.chars()
        invariant
            v@ == it.seq().take(it.index() as int),
    {
        v.push(c);
    }
    v
}


/// Drops characters from the front of `s` until its UTF-8 encoding is at
/// most `max` bytes long.
pub open spec fn fitting_tail(s: Seq<char>, max: nat) -> Seq<char>
    decreases s.len(),
{
    if utf8_len(s) <= max || s.len() == 0 {
        s
    } else {
        fitting_tail(s.drop_first(), max)
    }
}

/// `fitting_tail(s, max)` is the longest suffix of `s` whose UTF-8 encoding
/// fits in `max` bytes: it is `s` without its first `k` characters, it fits,
/// and every suffix that keeps more characters does not fit.
pub proof fn lemma_fitting_tail_is_longest_fitting_suffix(s: Seq<char>, max: nat)
    ensures
        exists|k: int|
            0 <= k <= s.len() && fitting_tail(s, max) == s.skip(k) && (forall|j: int|
                0 <= j < k ==> utf8_len(#[trigger] s.skip(j)) > max),
        utf8_len(fitting_tail(s, max)) <= max,
    decreases s.len(),
{
    if utf8_len(s) <= max || s.len() == 0 {
        assert(s.skip(0) =~= s);
        if s.len() == 0 {
            assert(utf8_len(s) == 0);
        }
    } else {
        let t = s.drop_first();
        lemma_fitting_tail_is_longest_fitting_suffix(t, max);
        let k = choose|k: int|
            0 <= k <= t.len() && fitting_tail(t, max) == t.skip(k) && (forall|j: int|
                0 <= j < k ==> utf8_len(#[trigger] t.skip(j)) > max);
        assert(fitting_tail(s, max) == s.skip(k + 1)) by {
            assert(t.skip(k) =~= s.skip(k + 1));
        }
        assert forall|j: int| 0 <= j < k + 1 implies utf8_len(#[trigger] s.skip(j)) > max by {
            if j == 0 {
                assert(s.skip(0) =~= s);
            } else {
                assert(s.skip(j) =~= t.skip(j - 1));
            }
        }
    }
}

/// Truncation changes nothing on text that already fits, and truncating
/// twice to the same limit is the same as truncating once.
pub proof fn lemma_truncation_is_stable(s: Seq<char>, max: nat)
    ensures
        utf8_len(s) <= max ==> fitting_tail(s, max) == s,
        fitting_tail(fitting_tail(s, max), max) == fitting_tail(s, max),
{
    lemma_fitting_tail_is_longest_fitting_suffix(s, max);
}

/// Dropping more characters from the front never adds bytes.
proof fn lemma_utf8_len_skip_monotone(s: Seq<char>, i: int, j: int)
    requires
        0 <= i <= j <= s.len(),
    ensures
        utf8_len(s.skip(j)) <= utf8_len(s.skip(i)),
{
    let t = s.skip(i);
    lemma_utf8_len_split(t, j - i);
    assert(t.skip(j - i) =~= s.skip(j));
}

/// The suffix starting at `j` is the fitting tail when it fits and the one
/// a character longer does not.
proof fn lemma_fitting_tail_at(s: Seq<char>, j: int, max: nat)
    requires
        0 <= j <= s.len(),
        utf8_len(s.skip(j)) <= max,
        j > 0 ==> utf8_len(s.skip(j - 1)) > max,
    ensures
        fitting_tail(s, max) == s.skip(j),
    decreases s.len(),
{
    assert(s.skip(0) =~= s);
    if utf8_len(s) <= max || s.len() == 0 {
        if j > 0 {
            lemma_utf8_len_skip_monotone(s, 0, j - 1);
        }
    } else {
        let t = s.drop_first();
        assert(t.skip(j - 1) =~= s.skip(j));
        if j > 1 {
            assert(t.skip(j - 2) =~= s.skip(j - 1));
        }
        lemma_fitting_tail_at(t, j - 1, max);
    }
}

/// Truncates `text` from the front so that at most `max_len` bytes remain,
/// cutting only between characters: the result is the longest suffix of the
/// original text whose UTF-8 encoding fits in `max_len` bytes.
pub fn truncate_front(text: &mut String, max_len: usize)
    ensures
        final(text)@ == fitting_tail(old(text)@, max_len as nat),
{
    let chars = chars_of(text.as_str());
    let n = chars.len();
    let ghost s = chars@;
    let mut j: usize = n;
    let mut kept: usize = 0;
    assert(s.skip(n as int) =~= Seq::<char>::empty());
    while j > 0 && char_utf8_width(chars[j - 1]) <= max_len - kept
        invariant
            s == chars@,
            n == s.len(),
            j <= n,
            kept <= max_len,
            kept == utf8_len(s.skip(j as int)),
        decreases j,
    {
        let w = char_utf8_width(chars[j - 1]);
        proof {
            assert(s.skip(j - 1).drop_first() =~= s.skip(j as int));
        }
        kept = kept + w;
        j = j - 1;
    }
    proof {
        if j > 0 {
            assert(s.skip(j - 1).drop_first() =~= s.skip(j as int));
        }
        lemma_fitting_tail_at(s, j as int, max_len as nat);
    }
    if j > 0 {
        let rest = text.as_str().substring_char(j, n);
        assert(rest@ =~= s.skip(j as int));
        *text = rest.to_owned();
    } else {
        assert(s.skip(0) =~= s);
    }
}

/// Unicode `White_Space` characters, which `char::is_whitespace` and
/// `str::trim` treat as whitespace.
pub open spec fn is_white_space(c: char) -> bool {
    let v = c as u32;
    (0x09 <= v <= 0x0D) || v == 0x20 || v == 0x85 || v == 0xA0 || v == 0x1680 || (0x2000 <= v
        <= 0x200A) || v == 0x2028 || v == 0x2029 || v == 0x202F || v == 0x205F || v == 0x3000
}

/// Whether `c` is Unicode whitespace.
pub fn char_is_white_space(c: char) -> (b: bool)
    ensures
        b == is_white_space(c),
{
    let v = c as u32;
    (0x09 <= v && v <= 0x0D) || v == 0x20 || v == 0x85 || v == 0xA0 || v == 0x1680 || (0x2000 <= v
        && v <= 0x200A) || v == 0x2028 || v == 0x2029 || v == 0x202F || v == 0x205F || v == 0x3000
}

/// `s` without its leading whitespace.
pub open spec fn trim_start(s: Seq<char>) -> Seq<char>
    decreases s.len(),
{
    if s.len() > 0 && is_white_space(s[0]) {
        trim_start(s.drop_first())
    } else {
        s
    }
}

/// `s` without its trailing whitespace.
pub open spec fn trim_end(s: Seq<char>) -> Seq<char>
    decreases s.len(),
{
    if s.len() > 0 && is_white_space(s.last()) {
        trim_end(s.drop_last())
    } else {
        s
    }
}

/// `s` without leading and trailing whitespace, as `str::trim` gives it.
pub open spec fn trimmed(s: Seq<char>) -> Seq<char> {
    trim_end(trim_start(s))
}

/// Trimming keeps a contiguous part of the text, so it never adds bytes.
pub proof fn lemma_trimmed_is_subrange(s: Seq<char>)
    ensures
        exists|a: int, b: int| 0 <= a <= b <= s.len() && trimmed(s) == s.subrange(a, b),
        utf8_len(trimmed(s)) <= utf8_len(s),
{
    lemma_trim_start_is_skip(s);
    let a = choose|a: int| 0 <= a <= s.len() && trim_start(s) == s.skip(a);
    let t = s.skip(a);
    lemma_trim_end_is_take(t);
    let b = choose|b: int| 0 <= b <= t.len() && trim_end(t) == t.take(b);
    assert(trimmed(s) =~= s.subrange(a, a + b));
    lemma_utf8_len_split(s, a);
    lemma_utf8_len_split(t, b);
}

proof fn lemma_trim_start_is_skip(s: Seq<char>)
    ensures
        exists|a: int| 0 <= a <= s.len() && trim_start(s) == s.skip(a),
    decreases s.len(),
{
    if s.len() > 0 && is_white_space(s[0]) {
        let t = s.drop_first();
        lemma_trim_start_is_skip(t);
        let a = choose|a: int| 0 <= a <= t.len() && trim_start(t) == t.skip(a);
        assert(t.skip(a) =~= s.skip(a + 1));
    } else {
        assert(s.skip(0) =~= s);
    }
}

proof fn lemma_trim_end_is_take(s: Seq<char>)
    ensures
        exists|b: int| 0 <= b <= s.len() && trim_end(s) == s.take(b),
    decreases s.len(),
{
    if s.len() > 0 && is_white_space(s.last()) {
        let t = s.drop_last();
        lemma_trim_end_is_take(t);
        let b = choose|b: int| 0 <= b <= t.len() && trim_end(t) == t.take(b);
        assert(t.take(b) =~= s.take(b));
    } else {
        assert(s.take(s.len() as int) =~= s);
    }
}

/// A copy of `s` without leading and trailing whitespace (`str::trim`).
pub fn trim(s: &str) -> (r: String)
    ensures
        r@ == trimmed(s@),
{
    let chars = chars_of(s);
    let n = chars.len();
    let ghost cs = chars@;
    let mut a: usize = 0;
    assert(cs.skip(0) =~= cs);
    while a < n && char_is_white_space(chars[a])
        invariant
            cs == chars@,
            n == cs.len(),
            a <= n,
            trim_start(cs) == trim_start(cs.skip(a as int)),
        decreases n - a,
    {
        assert(cs.skip(a as int).drop_first() =~= cs.skip(a + 1));
        a = a + 1;
    }
    assert(trim_start(cs) == cs.skip(a as int));
    let ghost t = cs.skip(a as int);
    let mut b: usize = n;
    assert(t.take(t.len() as int) =~= t);
    while b > a && char_is_white_space(chars[b - 1])
        invariant
            cs == chars@,
            n == cs.len(),
            a <= b <= n,
            t == cs.skip(a as int),
            trim_end(t) == trim_end(t.take(b - a)),
        decreases b - a,
    {
        assert(t.take(b - a).drop_last() =~= t.take(b - 1 - a));
        b = b - 1;
    }
    assert(trim_end(t) == t.take(b - a));
    let kept = s.substring_char(a, b);
    assert(kept@ =~= t.take(b - a));
    kept.to_owned()
}


/// Maximum length (in bytes) of the accumulated completed text; longer text
/// is cut from the front.
pub const MAX_COMPLETED_TEXT_LEN: usize = 2000;

/// Maximum length (in bytes) of the sentence in progress, so that it cannot
/// grow without bound when the engine never reports an endpoint.
pub const MAX_SENTENCE_LEN: usize = 4000;

/// Completed text after an endpoint closes `sentence`: a space separates it
/// from earlier text, and the sentence is trimmed.
pub open spec fn joined(completed: Seq<char>, sentence: Seq<char>) -> Seq<char> {
    if completed.len() == 0 {
        trimmed(sentence)
    } else {
        completed + seq![' '] + trimmed(sentence)
    }
}

/// The sentence in progress after `text` was appended to it.
pub open spec fn sentence_after(current: Seq<char>, text: Seq<char>) -> Seq<char> {
    fitting_tail(current + text, MAX_SENTENCE_LEN as nat)
}

/// Completed text, sentence in progress, and whether the sentence moved,
/// after pushing `text` (closing the sentence when `is_endpoint`).
pub open spec fn pushed(completed: Seq<char>, current: Seq<char>, text: Seq<char>, is_endpoint: bool) -> (
    Seq<char>,
    Seq<char>,
    bool,
) {
    let sentence = sentence_after(current, text);
    if is_endpoint && sentence.len() > 0 {
        (fitting_tail(joined(completed, sentence), MAX_COMPLETED_TEXT_LEN as nat), Seq::empty(), true)
    } else {
        (completed, sentence, false)
    }
}

/// Whether `t` is the longest suffix of `s` whose UTF-8 encoding fits in
/// `max` bytes.
pub open spec fn is_longest_fitting_suffix(t: Seq<char>, s: Seq<char>, max: nat) -> bool {
    exists|k: int|
        0 <= k <= s.len() && t == s.skip(k) && utf8_len(t) <= max && (forall|j: int|
            0 <= j < k ==> utf8_len(#[trigger] s.skip(j)) > max)
}

/// A sequence has only one longest fitting suffix.
pub proof fn lemma_longest_fitting_suffix_unique(t1: Seq<char>, t2: Seq<char>, s: Seq<char>, max: nat)
    requires
        is_longest_fitting_suffix(t1, s, max),
        is_longest_fitting_suffix(t2, s, max),
    ensures
        t1 == t2,
{
    let k1 = choose|k: int|
        0 <= k <= s.len() && t1 == s.skip(k) && utf8_len(t1) <= max && (forall|j: int|
            0 <= j < k ==> utf8_len(#[trigger] s.skip(j)) > max);
    let k2 = choose|k: int|
        0 <= k <= s.len() && t2 == s.skip(k) && utf8_len(t2) <= max && (forall|j: int|
            0 <= j < k ==> utf8_len(#[trigger] s.skip(j)) > max);
    if k1 < k2 {
        assert(utf8_len(s.skip(k1)) > max);
    } else if k2 < k1 {
        assert(utf8_len(s.skip(k2)) > max);
    }
}

/// What a push does.  The sentence in progress becomes the longest suffix
/// of the old sentence followed by the text that fits `MAX_SENTENCE_LEN`
/// bytes.  At an endpoint that leaves a non-empty sentence, the sentence is
/// emptied, the result is `true`, and the completed text becomes the longest
/// suffix that fits `MAX_COMPLETED_TEXT_LEN` bytes of: the old completed
/// text, a space if that was non-empty, and the trimmed sentence; so, when
/// the trimmed sentence fits on its own, the completed text ends with it.
/// Otherwise the result is `false` and the completed text is unchanged.
pub proof fn lemma_push_keeps_newest_text(
    completed: Seq<char>,
    current: Seq<char>,
    text: Seq<char>,
    is_endpoint: bool,
)
    ensures
        ({
            let (c, cur, moved) = pushed(completed, current, text, is_endpoint);
            let sentence = choose|x: Seq<char>|
                is_longest_fitting_suffix(x, current + text, MAX_SENTENCE_LEN as nat);
            let t = trimmed(sentence);
            let full = if completed.len() == 0 {
                t
            } else {
                completed + seq![' '] + t
            };
            &&& is_longest_fitting_suffix(sentence, current + text, MAX_SENTENCE_LEN as nat)
            &&& moved <==> (is_endpoint && sentence.len() > 0)
            &&& moved ==> {
                &&& cur.len() == 0
                &&& is_longest_fitting_suffix(c, full, MAX_COMPLETED_TEXT_LEN as nat)
                &&& utf8_len(t) <= MAX_COMPLETED_TEXT_LEN ==> c.len() >= t.len() && c.skip(
                    c.len() - t.len(),
                ) == t
            }
            &&& !moved ==> c == completed && cur == sentence
        }),
{
    let s0 = current + text;
    let sentence = fitting_tail(s0, MAX_SENTENCE_LEN as nat);
    lemma_fitting_tail_is_longest_fitting_suffix(s0, MAX_SENTENCE_LEN as nat);
    assert(is_longest_fitting_suffix(sentence, s0, MAX_SENTENCE_LEN as nat));
    let chosen = choose|x: Seq<char>| is_longest_fitting_suffix(x, s0, MAX_SENTENCE_LEN as nat);
    lemma_longest_fitting_suffix_unique(chosen, sentence, s0, MAX_SENTENCE_LEN as nat);
    let (c, cur, moved) = pushed(completed, current, text, is_endpoint);
    if moved {
        let t = trimmed(sentence);
        let full = joined(completed, sentence);
        let max = MAX_COMPLETED_TEXT_LEN as nat;
        lemma_fitting_tail_is_longest_fitting_suffix(full, max);
        let k = choose|k: int|
            0 <= k <= full.len() && fitting_tail(full, max) == full.skip(k) && (forall|j: int|
                0 <= j < k ==> utf8_len(#[trigger] full.skip(j)) > max);
        if utf8_len(t) <= max {
            let i = full.len() - t.len();
            assert(full.skip(i) =~= t);
            if k > i {
                assert(utf8_len(full.skip(i)) > max);
            }
            assert(c.skip(c.len() - t.len()) =~= t);
        }
    }
}

/// What the overlay shows: the completed text and the trimmed sentence in
/// progress, separated by a space when both are non-empty.
pub open spec fn display_of(completed: Seq<char>, current: Seq<char>) -> Seq<char> {
    let t = trimmed(current);
    if completed.len() == 0 {
        t
    } else if t.len() == 0 {
        completed
    } else {
        completed + seq![' '] + t
    }
}

/// Accumulates the segments of a streaming transcription into completed
/// sentences and the sentence in progress.
pub struct TextAccumulator {
    pub completed_text: String,
    pub current_sentence: String,
}

impl TextAccumulator {
    /// Both buffers are within their byte limits.
    pub open spec fn wf(&self) -> bool {
        &&& utf8_len(self.completed_text@) <= MAX_COMPLETED_TEXT_LEN
        &&& utf8_len(self.current_sentence@) <= MAX_SENTENCE_LEN
    }

    pub fn new() -> (acc: Self)
        ensures
            acc.completed_text@ == Seq::<char>::empty(),
            acc.current_sentence@ == Seq::<char>::empty(),
            acc.wf(),
    {
        TextAccumulator { completed_text: String::new(), current_sentence: String::new() }
    }

    /// Appends segment text to the sentence in progress (keeping at most
    /// `MAX_SENTENCE_LEN` bytes of it).  At an endpoint a non-empty sentence
    /// moves, trimmed, into the completed text (keeping at most
    /// `MAX_COMPLETED_TEXT_LEN` bytes), and the result is `true`.
    pub fn push_segment(&mut self, text: &str, is_endpoint: bool) -> (moved: bool)
        requires
            old(self).wf(),
        ensures
            final(self).wf(),
            pushed(old(self).completed_text@, old(self).current_sentence@, text@, is_endpoint) == (
                final(self).completed_text@,
                final(self).current_sentence@,
                moved,
            ),
    {
        self.current_sentence.append(text);
        truncate_front(&mut self.current_sentence, MAX_SENTENCE_LEN);
        proof {
            lemma_fitting_tail_is_longest_fitting_suffix(
                old(self).current_sentence@ + text@,
                MAX_SENTENCE_LEN as nat,
            );
        }
        if is_endpoint && !self.current_sentence.as_str().is_empty() {
            let ghost sentence = self.current_sentence@;
            let ghost before = self.completed_text@;
            if !self.completed_text.as_str().is_empty() {
                proof {
                    reveal_strlit(" ");
                }
                self.completed_text.append(" ");
            }
            let t = trim(self.current_sentence.as_str());
            self.completed_text.append(t.as_str());
            assert(self.completed_text@ =~= joined(before, sentence));
            self.current_sentence = String::new();
            truncate_front(&mut self.completed_text, MAX_COMPLETED_TEXT_LEN);
            proof {
                lemma_fitting_tail_is_longest_fitting_suffix(
                    joined(before, sentence),
                    MAX_COMPLETED_TEXT_LEN as nat,
                );
            }
            return true;
        }
        false
    }

    /// The text to show: completed text and the trimmed sentence in progress.
    pub fn display_text(&self) -> (r: String)
        ensures
            r@ == display_of(self.completed_text@, self.current_sentence@),
    {
        let t = trim(self.current_sentence.as_str());
        if self.completed_text.as_str().is_empty() {
            t
        } else if t.as_str().is_empty() {
            self.completed_text.clone()
        } else {
            let mut r = self.completed_text.clone();
            proof {
                reveal_strlit(" ");
            }
            r.append(" ");
            r.append(t.as_str());
            assert(r@ =~= display_of(self.completed_text@, self.current_sentence@));
            r
        }
    }
}

} // verus!
