//! Reading the text that the audio tools print: whitespace-separated words,
//! lines, bracket trimming and substring tests, each stated over the
//! characters of the text.
use vstd::prelude::*;

verus! {

/// The Unicode `White_Space` property: U+0009 to U+000D, U+0020, U+0085, U+00A0, U+1680,
/// U+2000 to U+200A, U+2028, U+2029, U+202F, U+205F and U+3000.
pub open spec fn unicode_white_space(c: char) -> bool {
    let u = c as u32;
    ||| 0x9 <= u <= 0xd
    ||| u == 0x20
    ||| u == 0x85
    ||| u == 0xa0
    ||| u == 0x1680
    ||| 0x2000 <= u <= 0x200a
    ||| u == 0x2028
    ||| u == 0x2029
    ||| u == 0x202f
    ||| u == 0x205f
    ||| u == 0x3000
}

/// Calls `char::is_whitespace`, which std documents as the Unicode `White_Space` property.
#[verifier::external_body]
pub(crate) fn is_whitespace(c: char) -> (r: bool)
    ensures
        r == unicode_white_space(c),
{
    c.is_whitespace()
}

/// `s[a..b]` is a maximal run of non-whitespace characters inside the window `s[lo..hi]`:
/// one of the words that `split_whitespace` yields for that window.
pub open spec fn is_word(s: Seq<char>, lo: int, hi: int, a: int, b: int) -> bool {
    &&& 0 <= lo <= a
    &&& a < b
    &&& b <= hi <= s.len()
    &&& (a == lo || unicode_white_space(s[a - 1]))
    &&& (b == hi || unicode_white_space(s[b]))
    &&& forall|k: int| a <= k < b ==> !unicode_white_space(#[trigger] s[k])
}

/// The tests that the parsers apply to a word.
#[derive(Clone, Copy, Debug, PartialEq, Eq)]
pub enum WordTest {
    /// The word's last character is `%`.
    EndsWithPercent,
    /// The word holds a `%` somewhere.
    HasPercent,
}

pub open spec fn word_passes(t: WordTest, w: Seq<char>) -> bool {
    match t {
        WordTest::EndsWithPercent => w.len() > 0 && w.last() == '%',
        WordTest::HasPercent => w.contains('%'),
    }
}

/// `s[a..b]` is the first word of the window `s[lo..hi]` that passes `t`.
pub open spec fn is_first_word_where(
    s: Seq<char>,
    lo: int,
    hi: int,
    t: WordTest,
    a: int,
    b: int,
) -> bool {
    &&& is_word(s, lo, hi, a, b)
    &&& word_passes(t, s.subrange(a, b))
    &&& forall|a2: int, b2: int|
        #![trigger is_word(s, lo, hi, a2, b2)]
        is_word(s, lo, hi, a2, b2) && a2 < a ==> !word_passes(t, s.subrange(a2, b2))
}

/// The first word of `s[lo..hi]` that passes `t`, if there is one
/// (`split_whitespace().find(..)` on that window).
pub open spec fn first_word_where(s: Seq<char>, lo: int, hi: int, t: WordTest) -> Option<Seq<char>> {
    if exists|a: int, b: int| is_first_word_where(s, lo, hi, t, a, b) {
        let (a, b) = choose|a: int, b: int| is_first_word_where(s, lo, hi, t, a, b);
        Some(s.subrange(a, b))
    } else {
        None
    }
}

/// A window holds at most one first word that passes a test.
pub proof fn lemma_first_word_unique(
    s: Seq<char>,
    lo: int,
    hi: int,
    t: WordTest,
    a1: int,
    b1: int,
    a2: int,
    b2: int,
)
    requires
        is_first_word_where(s, lo, hi, t, a1, b1),
        is_first_word_where(s, lo, hi, t, a2, b2),
    ensures
        a1 == a2,
        b1 == b2,
{
    assert(is_word(s, lo, hi, a1, b1));
    assert(is_word(s, lo, hi, a2, b2));
    if b1 < b2 {
        assert(!unicode_white_space(s[b1]));
    }
    if b2 < b1 {
        assert(!unicode_white_space(s[b2]));
    }
}

/// The first word found is what `first_word_where` names.
pub proof fn lemma_first_word_where_is(s: Seq<char>, lo: int, hi: int, t: WordTest, a: int, b: int)
    requires
        is_first_word_where(s, lo, hi, t, a, b),
    ensures
        first_word_where(s, lo, hi, t) == Some(s.subrange(a, b)),
{
    let (a1, b1) = choose|a1: int, b1: int| is_first_word_where(s, lo, hi, t, a1, b1);
    lemma_first_word_unique(s, lo, hi, t, a, b, a1, b1);
}

/// `s[lo..hi]` is one line of `s`: the text between two line feeds, or between a
/// line feed and an end of `s`.
pub open spec fn is_line(s: Seq<char>, lo: int, hi: int) -> bool {
    &&& 0 <= lo <= hi <= s.len()
    &&& (lo == 0 || s[lo - 1] == '\n')
    &&& (hi == s.len() || s[hi] == '\n')
    &&& forall|k: int| lo <= k < hi ==> #[trigger] s[k] != '\n'
}

/// Where the text of the line `s[lo..hi]` ends as `str::lines` yields it: a carriage
/// return just before the line feed belongs to the line ending.
pub open spec fn line_text_end(s: Seq<char>, lo: int, hi: int) -> int {
    if hi < s.len() && lo < hi && s[hi - 1] == '\r' {
        hi - 1
    } else {
        hi
    }
}

/// The line `s[lo..hi]` is the first line of `s` whose text holds a `%`.
pub open spec fn is_first_percent_line(s: Seq<char>, lo: int, hi: int) -> bool {
    &&& is_line(s, lo, hi)
    &&& s.subrange(lo, line_text_end(s, lo, hi)).contains('%')
    &&& forall|lo2: int, hi2: int|
        #![trigger is_line(s, lo2, hi2)]
        is_line(s, lo2, hi2) && lo2 < lo ==> !s.subrange(lo2, line_text_end(s, lo2, hi2)).contains(
            '%',
        )
}

/// A text has at most one first line with a `%`.
pub proof fn lemma_first_percent_line_unique(s: Seq<char>, lo1: int, hi1: int, lo2: int, hi2: int)
    requires
        is_first_percent_line(s, lo1, hi1),
        is_first_percent_line(s, lo2, hi2),
    ensures
        lo1 == lo2,
        hi1 == hi2,
{
    assert(is_line(s, lo1, hi1));
    assert(is_line(s, lo2, hi2));
    if hi1 < hi2 {
        assert(s[hi1] != '\n');
    }
    if hi2 < hi1 {
        assert(s[hi2] != '\n');
    }
}

/// The volume that `pactl get-sink-volume` reports: its first word that ends in `%`.
pub open spec fn pactl_volume(s: Seq<char>) -> Option<Seq<char>> {
    first_word_where(s, 0, s.len() as int, WordTest::EndsWithPercent)
}

pub open spec fn is_bracket(c: char) -> bool {
    c == '[' || c == ']'
}

/// `t` without the square brackets at its start.
pub open spec fn trim_start_brackets(t: Seq<char>) -> Seq<char>
    decreases t.len(),
{
    if t.len() > 0 && is_bracket(t[0]) {
        trim_start_brackets(t.drop_first())
    } else {
        t
    }
}

/// `t` without the square brackets at its end.
pub open spec fn trim_end_brackets(t: Seq<char>) -> Seq<char>
    decreases t.len(),
{
    if t.len() > 0 && is_bracket(t.last()) {
        trim_end_brackets(t.drop_last())
    } else {
        t
    }
}

/// `t.trim_matches(['[', ']'])`: `t` without the square brackets at either end.
pub open spec fn trim_brackets(t: Seq<char>) -> Seq<char> {
    trim_end_brackets(trim_start_brackets(t))
}

/// The volume that `amixer get Master` reports: in the first line that holds a `%`, the
/// first word that holds a `%`, without the square brackets around it.
pub open spec fn amixer_volume(s: Seq<char>) -> Option<Seq<char>> {
    if exists|lo: int, hi: int| is_first_percent_line(s, lo, hi) {
        let (lo, hi) = choose|lo: int, hi: int| is_first_percent_line(s, lo, hi);
        match first_word_where(s, lo, line_text_end(s, lo, hi), WordTest::HasPercent) {
            Some(w) => Some(trim_brackets(w)),
            None => None,
        }
    } else {
        None
    }
}

proof fn lemma_trim_start_keeps(t: Seq<char>, k: int)
    requires
        0 <= k < t.len(),
        !is_bracket(t[k]),
    ensures
        exists|j: int| 0 <= j < trim_start_brackets(t).len() && #[trigger] trim_start_brackets(t)[j] == t[k],
        trim_start_brackets(t).len() > 0 && !is_bracket(trim_start_brackets(t)[0]),
    decreases t.len(),
{
    if is_bracket(t[0]) {
        assert(t.drop_first()[k - 1] == t[k]);
        assert(trim_start_brackets(t) == trim_start_brackets(t.drop_first()));
        lemma_trim_start_keeps(t.drop_first(), k - 1);
    } else {
        assert(trim_start_brackets(t) == t);
        assert(trim_start_brackets(t)[k] == t[k]);
    }
}

proof fn lemma_trim_end_keeps(t: Seq<char>, k: int)
    requires
        0 <= k < t.len(),
        !is_bracket(t[k]),
    ensures
        exists|j: int| 0 <= j < trim_end_brackets(t).len() && #[trigger] trim_end_brackets(t)[j] == t[k],
    decreases t.len(),
{
    if is_bracket(t.last()) {
        assert(k < t.len() - 1);
        assert(t.drop_last()[k] == t[k]);
        assert(trim_end_brackets(t) == trim_end_brackets(t.drop_last()));
        lemma_trim_end_keeps(t.drop_last(), k);
    } else {
        assert(trim_end_brackets(t) == t);
        assert(trim_end_brackets(t)[k] == t[k]);
    }
}

/// A volume that pactl reports is a word that ends with a percent sign.
pub proof fn lemma_pactl_volume_is_percent_word(s: Seq<char>)
    requires
        pactl_volume(s) is Some,
    ensures
        pactl_volume(s)->0.len() > 0,
        pactl_volume(s)->0.last() == '%',
        forall|k: int| 0 <= k < pactl_volume(s)->0.len() ==> !unicode_white_space(#[trigger] pactl_volume(s)->0[k]),
{
    let (a, b) = choose|a: int, b: int| is_first_word_where(s, 0, s.len() as int, WordTest::EndsWithPercent, a, b);
    assert forall|k: int| 0 <= k < pactl_volume(s)->0.len() implies !unicode_white_space(#[trigger] pactl_volume(s)->0[k]) by {
        assert(pactl_volume(s)->0[k] == s[a + k]);
    }
}

proof fn lemma_trim_start_shape(t: Seq<char>) -> (i: int)
    ensures
        0 <= i <= t.len(),
        trim_start_brackets(t) == t.subrange(i, t.len() as int),
        trim_start_brackets(t).len() > 0 ==> !is_bracket(trim_start_brackets(t)[0]),
    decreases t.len(),
{
    if t.len() > 0 && is_bracket(t[0]) {
        let i2 = lemma_trim_start_shape(t.drop_first());
        assert(t.drop_first().subrange(i2, t.drop_first().len() as int) =~= t.subrange(i2 + 1, t.len() as int));
        i2 + 1
    } else {
        assert(t.subrange(0, t.len() as int) =~= t);
        0
    }
}

proof fn lemma_trim_end_shape(t: Seq<char>) -> (j: int)
    ensures
        0 <= j <= t.len(),
        trim_end_brackets(t) == t.subrange(0, j),
        trim_end_brackets(t).len() > 0 ==> !is_bracket(trim_end_brackets(t).last()),
    decreases t.len(),
{
    if t.len() > 0 && is_bracket(t.last()) {
        let j2 = lemma_trim_end_shape(t.drop_last());
        assert(t.drop_last().subrange(0, j2) =~= t.subrange(0, j2));
        j2
    } else {
        assert(t.subrange(0, t.len() as int) =~= t);
        t.len() as int
    }
}

/// A volume that amixer reports holds a percent sign, has no whitespace, and neither starts
/// nor ends with a square bracket.
pub proof fn lemma_amixer_volume_has_percent(s: Seq<char>)
    requires
        amixer_volume(s) is Some,
    ensures
        amixer_volume(s)->0.contains('%'),
        !is_bracket(amixer_volume(s)->0[0]),
        !is_bracket(amixer_volume(s)->0.last()),
        forall|k: int| 0 <= k < amixer_volume(s)->0.len() ==> !unicode_white_space(#[trigger] amixer_volume(s)->0[k]),
{
    let (lo, hi) = choose|lo: int, hi: int| is_first_percent_line(s, lo, hi);
    let end = line_text_end(s, lo, hi);
    let (a, b) = choose|a: int, b: int| is_first_word_where(s, lo, end, WordTest::HasPercent, a, b);
    let w = first_word_where(s, lo, end, WordTest::HasPercent)->0;
    assert(w == s.subrange(a, b));
    assert(w.contains('%'));
    let k = choose|k: int| 0 <= k < w.len() && w[k] == '%';
    lemma_trim_start_keeps(w, k);
    let t = trim_start_brackets(w);
    let j = choose|j: int| 0 <= j < t.len() && #[trigger] t[j] == w[k];
    lemma_trim_end_keeps(t, j);
    let r = trim_end_brackets(t);
    let j2 = choose|j2: int| 0 <= j2 < r.len() && #[trigger] r[j2] == t[j];
    assert(amixer_volume(s)->0 == r);
    assert(r[j2] == '%');
    let i = lemma_trim_start_shape(w);
    let e = lemma_trim_end_shape(t);
    assert(r[0] == t[0]);
    assert forall|m: int| 0 <= m < r.len() implies !unicode_white_space(#[trigger] r[m]) by {
        assert(r[m] == t[m]);
        assert(t[m] == w[i + m]);
        assert(w[i + m] == s[a + i + m]);
    }
}

/// `s` holds the text `yes` somewhere.
pub open spec fn contains_yes(s: Seq<char>) -> bool {
    exists|k: int| 0 <= k && k + 3 <= s.len() && #[trigger] s.subrange(k, k + 3) == seq!['y', 'e', 's']
}

pub open spec fn opt_text(o: Option<String>) -> Option<Seq<char>> {
    match o {
        Some(s) => Some(s@),
        None => None,
    }
}

/// The characters of `s`, one by one.
pub fn chars_of(s: &str) -> (v: Vec<char>)
    ensures
        v@ == s@,
{
    let n: usize = s.unicode_len();
    let mut v: Vec<char> = Vec::new();
    let mut i: usize = 0;
    while i < n
        invariant
            n == s@.len(),
            i <= n,
            v@ == s@.subrange(0, i as int),
        decreases n - i,
    {
        let c: char = s.get_char(i);
        v.push(c);
        i = i + 1;
        assert(v@ =~= s@.subrange(0, i as int));
    }
    assert(v@ =~= s@);
    v
}

fn word_has_percent(chars: &Vec<char>, a: usize, b: usize) -> (r: bool)
    requires
        a <= b <= chars@.len(),
    ensures
        r == chars@.subrange(a as int, b as int).contains('%'),
{
    let mut k: usize = a;
    while k < b
        invariant
            a <= k <= b,
            b <= chars@.len(),
            forall|j: int| a <= j < k ==> chars@[j] != '%',
        decreases b - k,
    {
        if chars[k] == '%' {
            assert(chars@.subrange(a as int, b as int)[k - a] == '%');
            return true;
        }
        k = k + 1;
    }
    assert forall|j: int| 0 <= j < b - a implies chars@.subrange(a as int, b as int)[j] != '%' by {
        assert(chars@[a + j] != '%');
    }
    false
}

fn word_test(chars: &Vec<char>, a: usize, b: usize, t: WordTest) -> (r: bool)
    requires
        a < b <= chars@.len(),
    ensures
        r == word_passes(t, chars@.subrange(a as int, b as int)),
{
    match t {
        WordTest::EndsWithPercent => chars[b - 1] == '%',
        WordTest::HasPercent => word_has_percent(chars, a, b),
    }
}

/// Where the first word of `chars[lo..hi]` that passes `t` starts and ends.
pub fn find_first_word(chars: &Vec<char>, lo: usize, hi: usize, t: WordTest) -> (r: Option<(usize, usize)>)
    requires
        lo <= hi <= chars@.len(),
    ensures
        match r {
            Some((a, b)) => is_first_word_where(chars@, lo as int, hi as int, t, a as int, b as int),
            None => forall|a: int, b: int|
                #![trigger is_word(chars@, lo as int, hi as int, a, b)]
                is_word(chars@, lo as int, hi as int, a, b) ==> !word_passes(
                    t,
                    chars@.subrange(a, b),
                ),
        },
{
    let ghost s: Seq<char> = chars@;
    let mut i: usize = lo;
    while i < hi
        invariant
            s == chars@,
            lo <= i <= hi <= s.len(),
            i == lo || i == hi || unicode_white_space(s[i - 1]) || unicode_white_space(s[i as int]),
            forall|a2: int, b2: int|
                #![trigger is_word(s, lo as int, hi as int, a2, b2)]
                is_word(s, lo as int, hi as int, a2, b2) && a2 < i ==> !word_passes(
                    t,
                    s.subrange(a2, b2),
                ),
        decreases hi - i,
    {
        if is_whitespace(chars[i]) {
            assert forall|a2: int, b2: int|
                #![trigger is_word(s, lo as int, hi as int, a2, b2)]
                is_word(s, lo as int, hi as int, a2, b2) && a2 < i + 1 implies !word_passes(
                t,
                s.subrange(a2, b2),
            ) by {
                if a2 == i {
                    assert(!unicode_white_space(s[a2]));
                }
            }
            i = i + 1;
        } else {
            let start: usize = i;
            while i < hi && !is_whitespace(chars[i])
                invariant
                    s == chars@,
                    lo <= start <= i <= hi <= s.len(),
                    forall|k: int| start <= k < i ==> !unicode_white_space(#[trigger] s[k]),
                decreases hi - i,
            {
                i = i + 1;
            }
            assert(is_word(s, lo as int, hi as int, start as int, i as int));
            if word_test(chars, start, i, t) {
                return Some((start, i));
            }
            assert forall|a2: int, b2: int|
                #![trigger is_word(s, lo as int, hi as int, a2, b2)]
                is_word(s, lo as int, hi as int, a2, b2) && a2 < i implies !word_passes(
                t,
                s.subrange(a2, b2),
            ) by {
                if start < a2 {
                    assert(!unicode_white_space(s[a2 - 1]));
                } else if a2 == start {
                    if b2 < i {
                        assert(!unicode_white_space(s[b2]));
                    }
                    if i < b2 {
                        assert(!unicode_white_space(s[i as int]));
                    }
                }
            }
        }
    }
    None
}

/// `chars[a..b]` with the square brackets at either end trimmed off, as a range.
fn trim_brackets_range(chars: &Vec<char>, a: usize, b: usize) -> (r: (usize, usize))
    requires
        a <= b <= chars@.len(),
    ensures
        a <= r.0 <= r.1 <= b,
        chars@.subrange(r.0 as int, r.1 as int) == trim_brackets(chars@.subrange(a as int, b as int)),
{
    let ghost s: Seq<char> = chars@;
    let mut i: usize = a;
    while i < b && (chars[i] == '[' || chars[i] == ']')
        invariant
            s == chars@,
            a <= i <= b <= s.len(),
            trim_start_brackets(s.subrange(a as int, b as int)) == trim_start_brackets(
                s.subrange(i as int, b as int),
            ),
        decreases b - i,
    {
        assert(s.subrange(i as int, b as int).drop_first() =~= s.subrange(i + 1, b as int));
        i = i + 1;
    }
    assert(trim_start_brackets(s.subrange(i as int, b as int)) == s.subrange(i as int, b as int));
    let mut j: usize = b;
    while j > i && (chars[j - 1] == '[' || chars[j - 1] == ']')
        invariant
            s == chars@,
            a <= i <= j <= b <= s.len(),
            trim_end_brackets(s.subrange(i as int, b as int)) == trim_end_brackets(
                s.subrange(i as int, j as int),
            ),
        decreases j - i,
    {
        assert(s.subrange(i as int, j as int).drop_last() =~= s.subrange(i as int, j - 1));
        j = j - 1;
    }
    assert(trim_end_brackets(s.subrange(i as int, j as int)) == s.subrange(i as int, j as int));
    (i, j)
}

/// A fresh `String` holding `chars[a..b]`.
fn text_of_range(s: &str, a: usize, b: usize) -> (r: String)
    requires
        a <= b <= s@.len(),
    ensures
        r@ == s@.subrange(a as int, b as int),
{
    let part: &str = s.substring_char(a, b);
    String::from_str(part)
}

/// The volume in the output of `pactl get-sink-volume`: its first word that ends in `%`.
pub fn parse_pactl_volume(text: &str) -> (r: Option<String>)
    ensures
        opt_text(r) == pactl_volume(text@),
{
    let chars: Vec<char> = chars_of(text);
    let n: usize = chars.len();
    match find_first_word(&chars, 0, n, WordTest::EndsWithPercent) {
        Some((a, b)) => {
            proof {
                lemma_first_word_where_is(text@, 0, n as int, WordTest::EndsWithPercent, a as int, b as int);
            }
            Some(text_of_range(text, a, b))
        },
        None => {
            assert(!exists|a: int, b: int|
                is_first_word_where(text@, 0, n as int, WordTest::EndsWithPercent, a, b));
            None
        },
    }
}

/// Where the line that starts at `lo` ends.
fn line_end_from(chars: &Vec<char>, lo: usize) -> (hi: usize)
    requires
        lo <= chars@.len(),
        lo == 0 || chars@[lo - 1] == '\n',
    ensures
        is_line(chars@, lo as int, hi as int),
{
    let mut hi: usize = lo;
    while hi < chars.len() && chars[hi] != '\n'
        invariant
            lo <= hi <= chars@.len(),
            forall|k: int| lo <= k < hi ==> #[trigger] chars@[k] != '\n',
        decreases chars@.len() - hi,
    {
        hi = hi + 1;
    }
    hi
}

/// Where the first line of `chars` whose text holds a `%` starts and ends.
fn find_first_percent_line(chars: &Vec<char>) -> (r: Option<(usize, usize)>)
    ensures
        match r {
            Some((lo, hi)) => is_first_percent_line(chars@, lo as int, hi as int),
            None => forall|lo: int, hi: int|
                #![trigger is_line(chars@, lo, hi)]
                is_line(chars@, lo, hi) ==> !chars@.subrange(lo, line_text_end(chars@, lo, hi)).contains(
                    '%',
                ),
        },
{
    let ghost s: Seq<char> = chars@;
    let n: usize = chars.len();
    let mut lo: usize = 0;
    loop
        invariant
            s == chars@,
            n == s.len(),
            lo <= n,
            lo == 0 || s[lo - 1] == '\n',
            forall|lo2: int, hi2: int|
                #![trigger is_line(s, lo2, hi2)]
                is_line(s, lo2, hi2) && lo2 < lo ==> !s.subrange(lo2, line_text_end(s, lo2, hi2)).contains(
                    '%',
                ),
        decreases n - lo,
    {
        let hi: usize = line_end_from(chars, lo);
        let end: usize = if hi < n && lo < hi && chars[hi - 1] == '\r' {
            hi - 1
        } else {
            hi
        };
        assert(end == line_text_end(s, lo as int, hi as int));
        if word_has_percent(chars, lo, end) {
            return Some((lo, hi));
        }
        assert forall|lo2: int, hi2: int|
            #![trigger is_line(s, lo2, hi2)]
            is_line(s, lo2, hi2) && lo2 <= hi implies !s.subrange(
            lo2,
            line_text_end(s, lo2, hi2),
        ).contains('%') by {
            if lo < lo2 {
                assert(s[lo2 - 1] != '\n');
            } else if lo2 == lo {
                if hi2 < hi {
                    assert(s[hi2] != '\n');
                }
                if hi < hi2 {
                    assert(s[hi as int] != '\n');
                }
            }
        }
        if hi == n {
            assert forall|lo2: int, hi2: int|
                #![trigger is_line(s, lo2, hi2)]
                is_line(s, lo2, hi2) implies !s.subrange(lo2, line_text_end(s, lo2, hi2)).contains(
                '%',
            ) by {
                assert(lo2 <= hi);
            }
            return None;
        }
        lo = hi + 1;
    }
}

/// The volume in the output of `amixer get Master`: in the first line that holds a `%`,
/// the first word that holds a `%`, with the square brackets at its ends trimmed off.
pub fn parse_amixer_volume(text: &str) -> (r: Option<String>)
    ensures
        opt_text(r) == amixer_volume(text@),
{
    let chars: Vec<char> = chars_of(text);
    let ghost s: Seq<char> = text@;
    match find_first_percent_line(&chars) {
        Some((lo, hi)) => {
            let n: usize = chars.len();
            let end: usize = if hi < n && lo < hi && chars[hi - 1] == '\r' {
                hi - 1
            } else {
                hi
            };
            proof {
                let (lo1, hi1) = choose|lo1: int, hi1: int| is_first_percent_line(s, lo1, hi1);
                lemma_first_percent_line_unique(s, lo as int, hi as int, lo1, hi1);
            }
            assert(end == line_text_end(s, lo as int, hi as int));
            match find_first_word(&chars, lo, end, WordTest::HasPercent) {
                Some((a, b)) => {
                    proof {
                        lemma_first_word_where_is(s, lo as int, end as int, WordTest::HasPercent, a as int, b as int);
                    }
                    let (i, j) = trim_brackets_range(&chars, a, b);
                    Some(text_of_range(text, i, j))
                },
                None => {
                    assert(!exists|a: int, b: int|
                        is_first_word_where(s, lo as int, end as int, WordTest::HasPercent, a, b));
                    None
                },
            }
        },
        None => {
            assert(!exists|lo: int, hi: int| is_first_percent_line(s, lo, hi));
            None
        },
    }
}

/// Whether `text` holds `yes`: how the mute state is read from `get-sink-mute`.
pub fn text_contains_yes(text: &str) -> (r: bool)
    ensures
        r == contains_yes(text@),
{
    let chars: Vec<char> = chars_of(text);
    let ghost s: Seq<char> = text@;
    let n: usize = chars.len();
    if n < 3 {
        assert forall|k: int| 0 <= k && k + 3 <= s.len() implies #[trigger] s.subrange(k, k + 3)
            != seq!['y', 'e', 's'] by {}
        return false;
    }
    let mut k: usize = 0;
    while k < n - 2
        invariant
            s == chars@,
            s == text@,
            n == s.len(),
            n >= 3,
            k <= n - 2,
            forall|j: int| 0 <= j < k ==> #[trigger] s.subrange(j, j + 3) != seq!['y', 'e', 's'],
        decreases n - k,
    {
        let ghost w: Seq<char> = s.subrange(k as int, k as int + 3);
        if chars[k] == 'y' && chars[k + 1] == 'e' && chars[k + 2] == 's' {
            assert(w =~= seq!['y', 'e', 's']);
            assert(0 <= k && k + 3 <= s.len() && s.subrange(k as int, k as int + 3) == seq!['y', 'e', 's']);
            return true;
        }
        assert(w[0] == s[k as int] && w[1] == s[k + 1] && w[2] == s[k + 2]);
        assert(seq!['y', 'e', 's'][0] == 'y' && seq!['y', 'e', 's'][1] == 'e' && seq!['y', 'e', 's'][2] == 's');
        k = k + 1;
    }
    false
}


/// A report that starts with a word ending in `%` reports that word, whatever follows it.
pub proof fn lemma_pactl_leading_word(t: Seq<char>, rest: Seq<char>)
    requires
        t.len() > 0,
        t.last() == '%',
        forall|k: int| 0 <= k < t.len() ==> !unicode_white_space(#[trigger] t[k]),
        rest.len() == 0 || unicode_white_space(rest[0]),
    ensures
        pactl_volume(t + rest) == Some(t),
{
    let s = t + rest;
    assert forall|k: int| 0 <= k < t.len() implies !unicode_white_space(#[trigger] s[k]) by {
        assert(s[k] == t[k]);
    }
    assert(t.len() == s.len() || unicode_white_space(s[t.len() as int]));
    assert(is_word(s, 0, s.len() as int, 0, t.len() as int));
    assert(s.subrange(0, t.len() as int) =~= t);
    assert(is_first_word_where(s, 0, s.len() as int, WordTest::EndsWithPercent, 0, t.len() as int));
    lemma_first_word_where_is(s, 0, s.len() as int, WordTest::EndsWithPercent, 0, t.len() as int);
}

/// A text holds `yes` when `yes` is written in it, and never when it has no `y`.
pub proof fn lemma_contains_yes(a: Seq<char>, b: Seq<char>, s: Seq<char>)
    ensures
        contains_yes(a + seq!['y', 'e', 's'] + b),
        (forall|k: int| 0 <= k < s.len() ==> #[trigger] s[k] != 'y') ==> !contains_yes(s),
{
    let w = a + seq!['y', 'e', 's'] + b;
    assert(w.subrange(a.len() as int, a.len() as int + 3) =~= seq!['y', 'e', 's']);
    if forall|k: int| 0 <= k < s.len() ==> #[trigger] s[k] != 'y' {
        assert forall|k: int| 0 <= k && k + 3 <= s.len() implies #[trigger] s.subrange(k, k + 3) != seq!['y', 'e', 's'] by {
            assert(s.subrange(k, k + 3)[0] == s[k]);
        }
    }
}

} // verus!

