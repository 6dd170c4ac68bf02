//! Text primitives over `Seq<char>`: conversions between `str`, `String`
//! and character vectors, decimal rendering, joining and searching.

use vstd::prelude::*;
use vstd::std_specs::iter::IteratorSpec;

verus! {

broadcast use vstd::string::group_string_axioms;

/// Appends one character to a `String` (std's `String::push`).
#[verifier::external_body]
pub(crate) fn push_char(s: &mut String, c: char)
    ensures
        final(s)@ == old(s)@.push(c),
{
    s.push(c);
}

/// The characters of `s`, in order.
pub fn chars_of(s: &str) -> (v: Vec<char>)
    ensures
        v@ == s@,
{
    let mut v: Vec<char> = Vec::new();
    for c in it: s.chars()
        invariant
            v@ == it.seq().take(it.index() as int),
            it.seq() == s@,
    {
        v.push(c);
    }
    v
}

/// A `String` holding exactly the characters of `cs`.
pub fn string_of(cs: &Vec<char>) -> (s: String)
    ensures
        s@ == cs@,
{
    let mut s = String::new();
    let mut i: usize = 0;
    while i < cs.len()
        invariant
            i <= cs.len(),
            s@ == cs@.take(i as int),
        decreases cs.len() - i,
    {
        push_char(&mut s, cs[i]);
        i = i + 1;
        assert(cs@.take(i as int) == cs@.take(i - 1).push(cs@[i - 1]));
    }
    assert(cs@.take(cs.len() as int) == cs@);
    s
}


/// A `String` holding the characters of a string slice.
pub fn owned(s: &str) -> (r: String)
    ensures
        r@ == s@,
{
    s.to_owned()
}

/// The decimal digit character for `d < 10`.
pub open spec fn digit_char(d: nat) -> char {
    if d == 0 { '0' } else if d == 1 { '1' } else if d == 2 { '2' } else if d == 3 { '3' }
    else if d == 4 { '4' } else if d == 5 { '5' } else if d == 6 { '6' } else if d == 7 { '7' }
    else if d == 8 { '8' } else { '9' }
}

/// Decimal rendering of a natural number, most significant digit first,
/// without leading zeros ("0" for zero).
pub open spec fn dec(n: nat) -> Seq<char>
    decreases n,
{
    if n < 10 {
        seq![digit_char(n)]
    } else {
        dec(n / 10).push(digit_char(n % 10))
    }
}

/// Decimal rendering of an integer, with a leading '-' when negative.
pub open spec fn idec(i: int) -> Seq<char> {
    if i < 0 {
        seq!['-'] + dec((-i) as nat)
    } else {
        dec(i as nat)
    }
}

/// Decimal rendering left-padded with zeros to at least two digits
/// (what `{:02}` prints).
pub open spec fn dec2(n: nat) -> Seq<char> {
    if n < 10 {
        seq!['0'] + dec(n)
    } else {
        dec(n)
    }
}

fn digit(d: u64) -> (c: char)
    requires
        d < 10,
    ensures
        c == digit_char(d as nat),
{
    if d == 0 { '0' } else if d == 1 { '1' } else if d == 2 { '2' } else if d == 3 { '3' }
    else if d == 4 { '4' } else if d == 5 { '5' } else if d == 6 { '6' } else if d == 7 { '7' }
    else if d == 8 { '8' } else { '9' }
}

/// The decimal text of `n`.
pub fn u128_to_string(n: u128) -> (s: String)
    ensures
        s@ == dec(n as nat),
{
    let mut rev: Vec<char> = Vec::new();
    let mut m: u128 = n;
    // digits are produced least significant first
    while m >= 10
        invariant
            dec(n as nat) == dec(m as nat) + rev@.reverse(),
        decreases m,
    {
        let d = digit((m % 10) as u64);
        proof {
            assert(dec(m as nat) == dec((m / 10) as nat).push(d));
            assert(rev@.push(d).reverse() == seq![d] + rev@.reverse());
            assert(dec((m / 10) as nat).push(d) + rev@.reverse()
                == dec((m / 10) as nat) + (seq![d] + rev@.reverse()));
        }
        rev.push(d);
        m = m / 10;
    }
    let d = digit(m as u64);
    rev.push(d);
    proof {
        assert(dec(m as nat) == seq![d]);
        assert(rev@.reverse() == seq![d] + rev@.drop_last().reverse());
    }
    let mut out: Vec<char> = Vec::new();
    let mut i: usize = rev.len();
    while i > 0
        invariant
            i <= rev.len(),
            out@ == rev@.subrange(i as int, rev@.len() as int).reverse(),
        decreases i,
    {
        i = i - 1;
        proof {
            assert(rev@.subrange(i as int, rev@.len() as int)
                == seq![rev@[i as int]] + rev@.subrange(i + 1, rev@.len() as int));
        }
        out.push(rev[i]);
    }
    assert(rev@.subrange(0, rev@.len() as int) == rev@);
    string_of(&out)
}

/// The decimal text of `n`.
pub fn u64_to_string(n: u64) -> (s: String)
    ensures
        s@ == dec(n as nat),
{
    u128_to_string(n as u128)
}

/// The decimal text of a signed integer.
pub fn i64_to_string(n: i64) -> (s: String)
    ensures
        s@ == idec(n as int),
{
    if n < 0 {
        let m: u64 = if n == i64::MIN { 9223372036854775808u64 } else { (-n) as u64 };
        let mut s = String::new();
        push_char(&mut s, '-');
        let t = u64_to_string(m);
        s.append(t.as_str());
        s
    } else {
        u64_to_string(n as u64)
    }
}

/// The decimal text of `n`, zero-padded to two digits.
pub fn u64_to_string2(n: u64) -> (s: String)
    ensures
        s@ == dec2(n as nat),
{
    if n < 10 {
        let mut s = String::new();
        push_char(&mut s, '0');
        let t = u64_to_string(n);
        s.append(t.as_str());
        s
    } else {
        u64_to_string(n)
    }
}

/// The elements of `list` separated by `sep`.
pub open spec fn join(list: Seq<Seq<char>>, sep: Seq<char>) -> Seq<char>
    decreases list.len(),
{
    if list.len() == 0 {
        seq![]
    } else if list.len() == 1 {
        list[0]
    } else {
        join(list.drop_last(), sep) + sep + list.last()
    }
}

/// The views of a vector of strings.
pub open spec fn views(v: Seq<String>) -> Seq<Seq<char>> {
    v.map_values(|s: String| s@)
}

/// Concatenates `list` with `sep` between consecutive elements.
pub fn join_strings(list: &Vec<String>, sep: &str) -> (r: String)
    ensures
        r@ == join(views(list@), sep@),
{
    let mut r = String::new();
    let mut i: usize = 0;
    while i < list.len()
        invariant
            i <= list.len(),
            r@ == join(views(list@).take(i as int), sep@),
        decreases list.len() - i,
    {
        proof {
            assert(views(list@).take(i + 1).drop_last() == views(list@).take(i as int));
        }
        if i > 0 {
            r.append(sep);
        }
        r.append(list[i].as_str());
        i = i + 1;
    }
    assert(views(list@).take(list.len() as int) == views(list@));
    r
}


/// The Unicode `White_Space` property, which `char::is_whitespace` tests.
pub open spec fn is_ws(c: char) -> bool {
    ||| c == ' '
    ||| ('\u{9}' <= c && c <= '\u{d}')
    ||| c == '\u{85}'
    ||| c == '\u{a0}'
    ||| c == '\u{1680}'
    ||| ('\u{2000}' <= c && c <= '\u{200a}')
    ||| c == '\u{2028}'
    ||| c == '\u{2029}'
    ||| c == '\u{202f}'
    ||| c == '\u{205f}'
    ||| c == '\u{3000}'
}

/// Whether `c` is white space.
pub fn is_whitespace(c: char) -> (b: bool)
    ensures
        b == is_ws(c),
{
    c == ' ' || ('\u{9}' <= c && c <= '\u{d}') || c == '\u{85}' || c == '\u{a0}' || c
        == '\u{1680}' || ('\u{2000}' <= c && c <= '\u{200a}') || c == '\u{2028}' || c
        == '\u{2029}' || c == '\u{202f}' || c == '\u{205f}' || c == '\u{3000}'
}

/// The maximal runs of non-white-space characters of `s`, in order
/// (what `str::split_whitespace` yields).
pub open spec fn words(s: Seq<char>) -> Seq<Seq<char>>
    decreases s.len(),
{
    if s.len() == 0 {
        seq![]
    } else {
        let w = words(s.drop_last());
        let c = s.last();
        if is_ws(c) {
            w
        } else if s.len() >= 2 && !is_ws(s[s.len() - 2]) {
            w.update(w.len() - 1, w.last().push(c))
        } else {
            w.push(seq![c])
        }
    }
}

/// The characters of `s` outside markup tags: a '<' opens a tag, a '>'
/// closes one, and neither bracket is kept.
pub open spec fn strip_tags(s: Seq<char>) -> Seq<char>
    decreases s.len(),
{
    if s.len() == 0 {
        seq![]
    } else {
        let prev = strip_tags(s.drop_last());
        let c = s.last();
        if c == '<' || c == '>' || in_tag(s.drop_last()) {
            prev
        } else {
            prev.push(c)
        }
    }
}

/// Whether, after reading `s`, a tag is open: the last bracket seen is '<'.
pub open spec fn in_tag(s: Seq<char>) -> bool
    decreases s.len(),
{
    if s.len() == 0 {
        false
    } else if s.last() == '<' {
        true
    } else if s.last() == '>' {
        false
    } else {
        in_tag(s.drop_last())
    }
}

/// Markup removed, then the words joined by single spaces.
pub open spec fn clean_html_spec(s: Seq<char>) -> Seq<char> {
    join(words(strip_tags(s)), seq![' '])
}

proof fn lemma_words_nonempty(s: Seq<char>)
    requires
        s.len() > 0,
        !is_ws(s.last()),
    ensures
        words(s).len() > 0,
    decreases s.len(),
{
    if s.len() >= 2 && !is_ws(s[s.len() - 2]) {
        assert(s.drop_last().last() == s[s.len() - 2]);
        lemma_words_nonempty(s.drop_last());
    }
}

pub(crate) proof fn lemma_join_push(list: Seq<Seq<char>>, x: Seq<char>, sep: Seq<char>)
    requires
        list.len() > 0,
    ensures
        join(list.push(x), sep) == join(list, sep) + sep + x,
{
    assert(list.push(x).drop_last() == list);
}

proof fn lemma_join_extend_last(list: Seq<Seq<char>>, c: char, sep: Seq<char>)
    requires
        list.len() > 0,
    ensures
        join(list.update(list.len() - 1, list.last().push(c)), sep) == join(list, sep).push(c),
{
    let l2 = list.update(list.len() - 1, list.last().push(c));
    if list.len() == 1 {
        assert(l2[0] == list[0].push(c));
    } else {
        assert(l2.drop_last() == list.drop_last());
        assert(join(l2, sep) == join(list.drop_last(), sep) + sep + list.last().push(c));
        assert((join(list.drop_last(), sep) + sep + list.last()).push(c)
            == join(list.drop_last(), sep) + sep + list.last().push(c));
    }
}

/// Removes markup tags and collapses white space to single spaces, with
/// none leading or trailing.
pub fn clean_html(input: &str) -> (out: String)
    ensures
        out@ == clean_html_spec(input@),
{
    let cs = chars_of(input);
    // first pass: drop tags
    let mut stripped: Vec<char> = Vec::new();
    let mut tag = false;
    let mut i: usize = 0;
    while i < cs.len()
        invariant
            i <= cs.len(),
            stripped@ == strip_tags(cs@.take(i as int)),
            tag == in_tag(cs@.take(i as int)),
        decreases cs.len() - i,
    {
        let ch = cs[i];
        proof {
            assert(cs@.take(i + 1).drop_last() == cs@.take(i as int));
            assert(cs@.take(i + 1).last() == ch);
        }
        if ch == '<' {
            tag = true;
        } else if ch == '>' {
            tag = false;
        } else if !tag {
            stripped.push(ch);
        }
        i = i + 1;
    }
    assert(cs@.take(cs.len() as int) == cs@);
    // second pass: collapse white space
    let mut out: Vec<char> = Vec::new();
    let mut j: usize = 0;
    while j < stripped.len()
        invariant
            j <= stripped.len(),
            out@ == join(words(stripped@.take(j as int)), seq![' ']),
        decreases stripped.len() - j,
    {
        let ch = stripped[j];
        let ghost pre = stripped@.take(j as int);
        proof {
            assert(stripped@.take(j + 1).drop_last() == pre);
            assert(stripped@.take(j + 1).last() == ch);
        }
        if !is_whitespace(ch) {
            if j > 0 && !is_whitespace(stripped[j - 1]) {
                proof {
                    assert(pre.last() == stripped@[j - 1]);
                    lemma_words_nonempty(pre);
                    lemma_join_extend_last(words(pre), ch, seq![' ']);
                }
                out.push(ch);
            } else {
                if out.len() > 0 {
                    proof {
                        if words(pre).len() == 0 {
                            assert(join(words(pre), seq![' ']).len() == 0);
                        }
                        lemma_join_push(words(pre), seq![ch], seq![' ']);
                    }
                    out.push(' ');
                    out.push(ch);
                } else {
                    proof {
                        if words(pre).len() > 0 {
                            lemma_words_have_content(pre);
                            lemma_join_nonempty(words(pre), seq![' ']);
                        }
                        assert(words(pre).len() == 0);
                        assert(words(pre).push(seq![ch]) == seq![seq![ch]]);
                    }
                    out.push(ch);
                }
            }
        }
        j = j + 1;
    }
    assert(stripped@.take(stripped.len() as int) == stripped@);
    string_of(&out)
}

proof fn lemma_words_have_content(s: Seq<char>)
    ensures
        forall|k: int| 0 <= k < words(s).len() ==> #[trigger] words(s)[k].len() > 0,
    decreases s.len(),
{
    if s.len() > 0 {
        lemma_words_have_content(s.drop_last());
        let w = words(s.drop_last());
        let c = s.last();
        if !is_ws(c) && s.len() >= 2 && !is_ws(s[s.len() - 2]) {
            assert(s.drop_last().last() == s[s.len() - 2]);
            lemma_words_nonempty(s.drop_last());
            let w2 = w.update(w.len() - 1, w.last().push(c));
            assert forall|k: int| 0 <= k < w2.len() implies #[trigger] w2[k].len() > 0 by {
                if k < w.len() - 1 {
                    assert(w2[k] == w[k]);
                }
            }
        } else if !is_ws(c) {
            let w2 = w.push(seq![c]);
            assert forall|k: int| 0 <= k < w2.len() implies #[trigger] w2[k].len() > 0 by {
                if k < w.len() {
                    assert(w2[k] == w[k]);
                }
            }
        }
    }
}

proof fn lemma_join_nonempty(list: Seq<Seq<char>>, sep: Seq<char>)
    requires
        list.len() > 0,
        list.last().len() > 0,
    ensures
        join(list, sep).len() > 0,
{
}

/// Text as `clean_html` leaves it: no tag brackets, no white space but
/// single spaces between words, and none at either end.
pub open spec fn is_clean(t: Seq<char>) -> bool {
    &&& forall|i: int| 0 <= i < t.len() ==> #[trigger] t[i] != '<' && t[i] != '>'
    &&& forall|i: int| 0 <= i < t.len() && is_ws(#[trigger] t[i]) ==> t[i] == ' '
    &&& t.len() > 0 ==> !is_ws(t[0]) && !is_ws(t.last())
    &&& forall|i: int| 0 <= i < t.len() - 1 && #[trigger] t[i] == ' ' ==> t[i + 1] != ' '
}

/// A word: some characters, none of them white space or a tag bracket.
spec fn is_word(w: Seq<char>) -> bool {
    &&& w.len() > 0
    &&& forall|j: int| 0 <= j < w.len() ==> !is_ws(#[trigger] w[j]) && w[j] != '<' && w[j] != '>'
}

proof fn lemma_strip_has_no_brackets(s: Seq<char>)
    ensures
        forall|i: int| 0 <= i < strip_tags(s).len() ==> #[trigger] strip_tags(s)[i] != '<' && strip_tags(s)[i] != '>',
    decreases s.len(),
{
    if s.len() > 0 {
        let pre = s.drop_last();
        lemma_strip_has_no_brackets(pre);
        let p = strip_tags(pre);
        let c = s.last();
        if !(c == '<' || c == '>' || in_tag(pre)) {
            assert(strip_tags(s) == p.push(c));
            assert forall|i: int| 0 <= i < p.push(c).len() implies #[trigger] p.push(c)[i] != '<' && p.push(c)[i] != '>' by {
                if i < p.len() {
                    assert(p.push(c)[i] == p[i]);
                }
            }
        } else {
            assert(strip_tags(s) == p);
        }
    }
}

proof fn lemma_words_are_words(s: Seq<char>)
    requires
        forall|i: int| 0 <= i < s.len() ==> #[trigger] s[i] != '<' && s[i] != '>',
    ensures
        forall|k: int| 0 <= k < words(s).len() ==> is_word(#[trigger] words(s)[k]),
    decreases s.len(),
{
    if s.len() > 0 {
        let pre = s.drop_last();
        assert forall|i: int| 0 <= i < pre.len() implies #[trigger] pre[i] != '<' && pre[i] != '>' by {
            assert(pre[i] == s[i]);
        }
        lemma_words_are_words(pre);
        let w = words(pre);
        let c = s.last();
        assert(c == s[s.len() - 1]);
        if is_ws(c) {
        } else if s.len() >= 2 && !is_ws(s[s.len() - 2]) {
            assert(pre.last() == s[s.len() - 2]);
            lemma_words_nonempty(pre);
            let w2 = w.update(w.len() - 1, w.last().push(c));
            assert forall|k: int| 0 <= k < w2.len() implies is_word(#[trigger] w2[k]) by {
                if k < w.len() - 1 {
                    assert(w2[k] == w[k]);
                } else {
                    assert(is_word(w[w.len() - 1]));
                    let x = w.last().push(c);
                    assert forall|j: int| 0 <= j < x.len() implies !is_ws(#[trigger] x[j]) && x[j] != '<' && x[j] != '>' by {
                        if j < x.len() - 1 {
                            assert(x[j] == w.last()[j]);
                        }
                    }
                }
            }
        } else {
            let w2 = w.push(seq![c]);
            assert forall|k: int| 0 <= k < w2.len() implies is_word(#[trigger] w2[k]) by {
                if k < w.len() {
                    assert(w2[k] == w[k]);
                }
            }
        }
    }
}

proof fn lemma_join_words_clean(list: Seq<Seq<char>>)
    requires
        forall|k: int| 0 <= k < list.len() ==> is_word(#[trigger] list[k]),
    ensures
        is_clean(join(list, seq![' '])),
        list.len() > 0 ==> join(list, seq![' ']).len() > 0 && join(list, seq![' '])[0] == list[0][0],
    decreases list.len(),
{
    let sep = seq![' '];
    if list.len() == 1 {
        let w = list[0];
        assert(is_word(w));
        assert(join(list, sep) == w);
    } else if list.len() > 1 {
        let pre = list.drop_last();
        let w = list.last();
        assert(is_word(list[list.len() - 1]));
        assert forall|k: int| 0 <= k < pre.len() implies is_word(#[trigger] pre[k]) by {
            assert(pre[k] == list[k]);
        }
        lemma_join_words_clean(pre);
        let a = join(pre, sep);
        let t = join(list, sep);
        assert(t == a + sep + w);
        assert(a.len() > 0);
        let n = a.len();
        assert(t[0] == a[0]);
        assert(pre[0] == list[0]);
        assert forall|i: int| 0 <= i < t.len() implies #[trigger] t[i] != '<' && t[i] != '>' by {
            if i < n {
                assert(t[i] == a[i]);
            } else if i > n {
                assert(t[i] == w[i - n - 1]);
            }
        }
        assert forall|i: int| 0 <= i < t.len() && is_ws(#[trigger] t[i]) implies t[i] == ' ' by {
            if i < n {
                assert(t[i] == a[i]);
            } else if i > n {
                assert(t[i] == w[i - n - 1]);
            }
        }
        assert(t.last() == w[w.len() - 1]);
        assert forall|i: int| 0 <= i < t.len() - 1 && #[trigger] t[i] == ' ' implies t[i + 1] != ' ' by {
            if i < n - 1 {
                assert(t[i] == a[i] && t[i + 1] == a[i + 1]);
            } else if i == n - 1 {
                assert(t[i] == a.last());
            } else if i == n {
                assert(t[i + 1] == w[0]);
            } else {
                assert(t[i] == w[i - n - 1]);
            }
        }
    }
}

/// Whatever the input, `clean_html` leaves text with no tag brackets, with
/// words separated by single spaces and nothing blank at either end.
pub proof fn cleaned_text_is_clean(s: Seq<char>)
    ensures
        is_clean(clean_html_spec(s)),
{
    lemma_strip_has_no_brackets(s);
    lemma_words_are_words(strip_tags(s));
    lemma_join_words_clean(words(strip_tags(s)));
}

proof fn lemma_strip_bracket_free(s: Seq<char>)
    requires
        forall|i: int| 0 <= i < s.len() ==> #[trigger] s[i] != '<' && s[i] != '>',
    ensures
        strip_tags(s) == s,
        !in_tag(s),
    decreases s.len(),
{
    if s.len() > 0 {
        let pre = s.drop_last();
        assert forall|i: int| 0 <= i < pre.len() implies #[trigger] pre[i] != '<' && pre[i] != '>' by {
            assert(pre[i] == s[i]);
        }
        lemma_strip_bracket_free(pre);
        assert(s.last() == s[s.len() - 1]);
        assert(pre.push(s.last()) == s);
    }
}

/// Text whose white space is single spaces between other characters, so
/// that only its last character may be a space.
spec fn spaced(s: Seq<char>) -> bool {
    &&& forall|i: int| 0 <= i < s.len() && is_ws(#[trigger] s[i]) ==> s[i] == ' '
    &&& s.len() > 0 ==> !is_ws(s[0])
    &&& forall|i: int| 0 <= i < s.len() - 1 && #[trigger] s[i] == ' ' ==> s[i + 1] != ' '
}

proof fn lemma_join_words_spaced(s: Seq<char>)
    requires
        spaced(s),
    ensures
        join(words(s), seq![' ']) == (if s.len() > 0 && s.last() == ' ' { s.drop_last() } else { s }),
    decreases s.len(),
{
    let sep = seq![' '];
    if s.len() > 0 {
        let pre = s.drop_last();
        let c = s.last();
        assert(c == s[s.len() - 1]);
        assert forall|i: int| 0 <= i < pre.len() && is_ws(#[trigger] pre[i]) implies pre[i] == ' ' by {
            assert(pre[i] == s[i]);
        }
        assert forall|i: int| 0 <= i < pre.len() - 1 && #[trigger] pre[i] == ' ' implies pre[i + 1] != ' ' by {
            assert(pre[i] == s[i] && pre[i + 1] == s[i + 1]);
        }
        if pre.len() > 0 {
            assert(pre[0] == s[0]);
        }
        lemma_join_words_spaced(pre);
        if is_ws(c) {
            assert(s.len() >= 2);
            assert(pre.last() == s[s.len() - 2]);
            assert(s[s.len() - 2] != ' ');
            assert(!is_ws(pre.last()));
        } else if s.len() >= 2 && !is_ws(s[s.len() - 2]) {
            assert(pre.last() == s[s.len() - 2]);
            lemma_words_nonempty(pre);
            lemma_join_extend_last(words(pre), c, sep);
            assert(pre.push(c) == s);
        } else if s.len() == 1 {
            assert(words(pre) == Seq::<Seq<char>>::empty());
            assert(words(s) == seq![seq![c]]);
            assert(s == seq![c]);
        } else {
            assert(pre.last() == s[s.len() - 2]);
            assert(pre.last() == ' ');
            let pp = pre.drop_last();
            assert(pre.len() >= 2);
            assert(pp.last() == s[s.len() - 3]);
            assert(s[s.len() - 3] != ' ');
            assert(!is_ws(pp.last()));
            lemma_words_nonempty(pp);
            assert(words(pre) == words(pp));
            lemma_join_push(words(pre), seq![c], sep);
            assert(pp + sep + seq![c] == s);
        }
    }
}

/// Text that is already clean is left as it is by `clean_html`.
pub proof fn clean_text_is_kept(t: Seq<char>)
    requires
        is_clean(t),
    ensures
        clean_html_spec(t) == t,
{
    lemma_strip_bracket_free(t);
    lemma_join_words_spaced(t);
    if t.len() > 0 {
        assert(t.last() == t[t.len() - 1]);
    }
}

/// Cleaning twice gives what cleaning once gives.
pub proof fn cleaning_is_idempotent(s: Seq<char>)
    ensures
        clean_html_spec(clean_html_spec(s)) == clean_html_spec(s),
{
    cleaned_text_is_clean(s);
    clean_text_is_kept(clean_html_spec(s));
}

/// `s` cut to at most `max` characters, with '…' appended when cut.
pub open spec fn truncate_spec(s: Seq<char>, max: nat) -> Seq<char> {
    if s.len() <= max {
        s
    } else {
        s.take(max as int).push('…')
    }
}

/// Cuts `s` to `max` characters, marking a cut with an ellipsis.
pub fn truncate(s: &str, max: usize) -> (r: String)
    ensures
        r@ == truncate_spec(s@, max as nat),
{
    let cs = chars_of(s);
    if cs.len() <= max {
        string_of(&cs)
    } else {
        let mut out: Vec<char> = Vec::new();
        let mut i: usize = 0;
        while i < max
            invariant
                i <= max < cs.len(),
                out@ == cs@.take(i as int),
            decreases max - i,
        {
            out.push(cs[i]);
            i = i + 1;
            assert(cs@.take(i as int) == cs@.take(i - 1).push(cs@[i - 1]));
        }
        out.push('…');
        string_of(&out)
    }
}


/// Whether two character vectors hold the same characters.
pub fn chars_eq(a: &Vec<char>, b: &Vec<char>) -> (r: bool)
    ensures
        r == (a@ == b@),
{
    if a.len() != b.len() {
        return false;
    }
    let mut i: usize = 0;
    while i < a.len()
        invariant
            i <= a.len() == b.len(),
            forall|k: int| 0 <= k < i ==> a@[k] == b@[k],
        decreases a.len() - i,
    {
        if a[i] != b[i] {
            return false;
        }
        i = i + 1;
    }
    assert(a@ == b@);
    true
}

/// Whether two string slices hold the same characters.
pub fn str_eq(a: &str, b: &str) -> (r: bool)
    ensures
        r == (a@ == b@),
{
    let x = chars_of(a);
    let y = chars_of(b);
    chars_eq(&x, &y)
}


/// Whether `needle` occurs in `hay` as a contiguous run.
pub open spec fn occurs_in(hay: Seq<char>, needle: Seq<char>) -> bool {
    exists|i: int|
        0 <= i && i + needle.len() <= hay.len() && #[trigger] hay.subrange(i, i + needle.len())
            == needle
}

fn matches_at(hay: &Vec<char>, needle: &Vec<char>, i: usize) -> (b: bool)
    requires
        i + needle@.len() <= hay@.len(),
    ensures
        b == (hay@.subrange(i as int, i + needle@.len()) == needle@),
{
    let hl = hay.len();
    let mut k: usize = 0;
    while k < needle.len()
        invariant
            k <= needle@.len(),
            i + needle@.len() <= hay@.len(),
            hl == hay@.len(),
            forall|j: int| 0 <= j < k ==> hay@[i + j] == needle@[j],
        decreases needle.len() - k,
    {
        if hay[i + k] != needle[k] {
            assert(hay@.subrange(i as int, i + needle@.len())[k as int] != needle@[k as int]);
            return false;
        }
        k = k + 1;
    }
    assert(hay@.subrange(i as int, i + needle@.len()) =~= needle@);
    true
}

/// Whether `needle` occurs in `hay` (an empty needle always does).
pub fn contains(hay: &str, needle: &str) -> (b: bool)
    ensures
        b == occurs_in(hay@, needle@),
{
    let h = chars_of(hay);
    let n = chars_of(needle);
    if n.len() > h.len() {
        return false;
    }
    let last = h.len() - n.len();
    let mut i: usize = 0;
    while i < last
        invariant
            i <= last,
            h@ == hay@,
            n@ == needle@,
            last + n@.len() == h@.len(),
            forall|j: int| 0 <= j < i ==> #[trigger] h@.subrange(j, j + n@.len()) != n@,
        decreases last - i,
    {
        if matches_at(&h, &n, i) {
            assert(hay@.subrange(i as int, i + needle@.len()) == needle@);
            return true;
        }
        i = i + 1;
    }
    let found = matches_at(&h, &n, last);
    if found {
        assert(hay@.subrange(last as int, last + needle@.len()) == needle@);
    } else {
        assert forall|j: int| 0 <= j && j + n@.len() <= h@.len() implies #[trigger] h@.subrange(
            j,
            j + n@.len(),
        ) != n@ by {
            assert(j <= last);
        }
    }
    found
}

/// The lower-case form of a text, by Unicode's case mapping
/// (`str::to_lowercase`).
pub uninterp spec fn lowercase(s: Seq<char>) -> Seq<char>;

/// std's `str::to_lowercase`: the text in lower case. Unicode case mapping
/// is a table of its own, so the result is claimed only to be the named
/// `lowercase` of the text.
#[verifier::external_body]
pub(crate) fn to_lowercase(s: &str) -> (r: String)
    ensures
        r@ == lowercase(s@),
{
    s.to_lowercase()
}

} // verus!
