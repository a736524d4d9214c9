//! Character-level text handling: the normalised form of short replies,
//! whitespace trimming and the plain-body form of notification text.
use vstd::prelude::*;

verus! {

/// Unicode `White_Space` characters, the set that `char::is_whitespace` tests.
pub open spec fn is_space_spec(c: char) -> bool {
    let u = c as u32;
    (0x09 <= u && u <= 0x0D) || u == 0x20 || u == 0x85 || u == 0xA0 || u == 0x1680
        || (0x2000 <= u && u <= 0x200A) || u == 0x2028 || u == 0x2029 || u == 0x202F
        || u == 0x205F || u == 0x3000
}

/// ASCII letters and digits.
pub open spec fn is_alnum_spec(c: char) -> bool {
    ('0' <= c && c <= '9') || ('A' <= c && c <= 'Z') || ('a' <= c && c <= 'z')
}

/// ASCII upper-case letters map to lower case; everything else is unchanged.
pub open spec fn lower_spec(c: char) -> char {
    if 'A' <= c && c <= 'Z' {
        ((c as u32) + 32) as char
    } else {
        c
    }
}

/// A character that survives normalisation.
pub open spec fn is_kept_spec(c: char) -> bool {
    is_alnum_spec(c) || is_space_spec(c)
}

/// The characters of `s` that survive normalisation, lower-cased, in order.
pub open spec fn kept(s: Seq<char>) -> Seq<char>
    decreases s.len(),
{
    if s.len() == 0 {
        Seq::empty()
    } else {
        let c = s.last();
        if is_kept_spec(c) {
            kept(s.drop_last()).push(lower_spec(c))
        } else {
            kept(s.drop_last())
        }
    }
}

/// Whitespace runs collapsed: the non-space characters of `s`, in order, where
/// two neighbouring words are separated by exactly one ' ', with no space at
/// either end.
pub open spec fn collapse(s: Seq<char>) -> Seq<char>
    decreases s.len(),
{
    if s.len() == 0 {
        Seq::empty()
    } else {
        let c = s.last();
        let p = s.drop_last();
        if is_space_spec(c) {
            collapse(p)
        } else if collapse(p).len() > 0 && is_space_spec(p.last()) {
            collapse(p).push(' ').push(c)
        } else {
            collapse(p).push(c)
        }
    }
}

/// The normalised form of a reply: lower-cased, with everything but ASCII
/// letters, digits and whitespace removed, and whitespace collapsed.
pub open spec fn normalized(s: Seq<char>) -> Seq<char> {
    collapse(kept(s))
}

/// The quote-like characters that notification bodies must not carry.
pub open spec fn is_quote_spec(c: char) -> bool {
    c == '"' || c == '\'' || c == '\u{201C}' || c == '\u{201D}' || c == '\u{2018}'
        || c == '\u{2019}' || c == '`'
}

/// `s` without its quote-like characters.
pub open spec fn unquoted(s: Seq<char>) -> Seq<char>
    decreases s.len(),
{
    if s.len() == 0 {
        Seq::empty()
    } else if is_quote_spec(s.last()) {
        unquoted(s.drop_last())
    } else {
        unquoted(s.drop_last()).push(s.last())
    }
}

/// Number of whitespace characters at the start of `s`.
pub open spec fn leading_spaces(s: Seq<char>) -> nat
    decreases s.len(),
{
    if s.len() > 0 && is_space_spec(s[0]) {
        1 + leading_spaces(s.drop_first())
    } else {
        0
    }
}

/// Number of whitespace characters at the end of `s`.
pub open spec fn trailing_spaces(s: Seq<char>) -> nat
    decreases s.len(),
{
    if s.len() > 0 && is_space_spec(s.last()) {
        1 + trailing_spaces(s.drop_last())
    } else {
        0
    }
}

/// `s` with leading and trailing whitespace removed.
pub open spec fn trimmed(s: Seq<char>) -> Seq<char> {
    let t = s.subrange(leading_spaces(s) as int, s.len() as int);
    t.subrange(0, t.len() - trailing_spaces(t))
}

pub fn is_space(c: char) -> (r: bool)
    ensures
        r == is_space_spec(c),
{
    let u = c as u32;
    (0x09 <= u && u <= 0x0D) || u == 0x20 || u == 0x85 || u == 0xA0 || u == 0x1680
        || (0x2000 <= u && u <= 0x200A) || u == 0x2028 || u == 0x2029 || u == 0x202F
        || u == 0x205F || u == 0x3000
}

fn is_alnum(c: char) -> (r: bool)
    ensures
        r == is_alnum_spec(c),
{
    ('0' <= c && c <= '9') || ('A' <= c && c <= 'Z') || ('a' <= c && c <= 'z')
}

fn lower(c: char) -> (r: char)
    ensures
        r == lower_spec(c),
{
    if 'A' <= c && c <= 'Z' {
        ((c as u8) + 32) as char
    } else {
        c
    }
}

/// Relies on `String::push`: the character is appended at the end.
#[verifier::external_body]
fn push_char(s: &mut String, c: char)
    ensures
        final(s)@ == old(s)@.push(c),
{
    s.push(c)
}

/// The characters of `s`, one per element.
pub fn chars_of(s: &str) -> (r: Vec<char>)
    ensures
        r@ == s@,
{
    let mut out: Vec<char> = Vec::new();
    for c in it: s.chars()
        invariant
            it.seq() == s@,
            out@ == it.seq().take(it.index() as int),
    {
        out.push(c);
    }
    out
}

/// A string made of `v[from..to]`.
pub fn string_of(v: &Vec<char>, from: usize, to: usize) -> (r: String)
    requires
        from <= to <= v.len(),
    ensures
        r@ == v@.subrange(from as int, to as int),
{
    let mut out = String::new();
    let mut i: usize = from;
    while i < to
        invariant
            from <= i <= to <= v.len(),
            out@ == v@.subrange(from as int, i as int),
        decreases to - i,
    {
        push_char(&mut out, v[i]);
        assert(v@.subrange(from as int, i + 1) == v@.subrange(from as int, i as int).push(v@[i as int]));
        i = i + 1;
    }
    out
}

/// `s` with ASCII upper-case letters made lower-case.
pub fn ascii_lowercase(s: &str) -> (r: String)
    ensures
        r@ == s@.map_values(|c: char| lower_spec(c)),
{
    let chars = chars_of(s);
    let mut out = String::new();
    let mut i: usize = 0;
    while i < chars.len()
        invariant
            i <= chars.len(),
            chars@ == s@,
            out@ == chars@.take(i as int).map_values(|c: char| lower_spec(c)),
        decreases chars.len() - i,
    {
        let l = lower(chars[i]);
        push_char(&mut out, l);
        i = i + 1;
        assert(out@ =~= chars@.take(i as int).map_values(|c: char| lower_spec(c)));
    }
    assert(chars@.take(chars.len() as int) == chars@);
    out
}

/// Lower-cases `s`, drops everything but ASCII letters, digits and whitespace,
/// and collapses each whitespace run into one space, with none at either end.
pub fn normalize_short(s: &str) -> (r: String)
    ensures
        r@ == normalized(s@),
{
    let chars = chars_of(s);
    let mut out = String::new();
    // whether the last kept character seen so far is whitespace
    let mut gap = false;
    // whether anything has been written
    let mut any = false;
    let mut i: usize = 0;
    while i < chars.len()
        invariant
            i <= chars.len(),
            chars@ == s@,
            out@ == collapse(kept(chars@.take(i as int))),
            gap == (kept(chars@.take(i as int)).len() > 0
                && is_space_spec(kept(chars@.take(i as int)).last())),
            any == (out@.len() > 0),
        decreases chars.len() - i,
    {
        let c = chars[i];
        let ghost pre = chars@.take(i as int);
        assert(chars@.take(i + 1).drop_last() == pre);
        if is_alnum(c) || is_space(c) {
            let l = lower(c);
            assert(is_space_spec(l) == is_space_spec(c));
            assert(kept(chars@.take(i + 1)) == kept(pre).push(l));
            assert(kept(pre).push(l).drop_last() == kept(pre));
            if is_space(c) {
                gap = true;
            } else {
                if gap && any {
                    push_char(&mut out, ' ');
                }
                push_char(&mut out, l);
                gap = false;
                any = true;
            }
        } else {
            assert(kept(chars@.take(i + 1)) == kept(pre));
        }
        i = i + 1;
    }
    assert(chars@.take(chars.len() as int) == chars@);
    out
}

/// Drops the quote-like characters (straight and curly quotes, apostrophes,
/// backticks) so that a notification body stays plain text.
pub fn sanitize_passive_body(body: &str) -> (r: String)
    ensures
        r@ == unquoted(body@),
{
    let chars = chars_of(body);
    let mut out = String::new();
    let mut i: usize = 0;
    while i < chars.len()
        invariant
            i <= chars.len(),
            chars@ == body@,
            out@ == unquoted(chars@.take(i as int)),
        decreases chars.len() - i,
    {
        let c = chars[i];
        assert(chars@.take(i + 1).drop_last() == chars@.take(i as int));
        if !(c == '"' || c == '\'' || c == '\u{201C}' || c == '\u{201D}' || c == '\u{2018}'
            || c == '\u{2019}' || c == '`') {
            push_char(&mut out, c);
        }
        i = i + 1;
    }
    assert(chars@.take(chars.len() as int) == chars@);
    out
}

proof fn lemma_leading_spaces(s: Seq<char>, i: int)
    requires
        0 <= i <= s.len(),
        forall|k: int| 0 <= k < i ==> is_space_spec(#[trigger] s[k]),
        i == s.len() || !is_space_spec(s[i]),
    ensures
        leading_spaces(s) == i,
    decreases i,
{
    if i > 0 {
        let t = s.drop_first();
        assert forall|k: int| 0 <= k < i - 1 implies is_space_spec(#[trigger] t[k]) by {
            assert(t[k] == s[k + 1]);
        }
        if i - 1 < t.len() {
            assert(t[i - 1] == s[i]);
        }
        lemma_leading_spaces(t, i - 1);
    }
}

proof fn lemma_trailing_spaces(t: Seq<char>, k: int)
    requires
        0 <= k <= t.len(),
        forall|j: int| t.len() - k <= j < t.len() ==> is_space_spec(#[trigger] t[j]),
        k == t.len() || !is_space_spec(t[t.len() - k - 1]),
    ensures
        trailing_spaces(t) == k,
    decreases k,
{
    if k > 0 {
        let p = t.drop_last();
        assert forall|j: int| p.len() - (k - 1) <= j < p.len() implies is_space_spec(
            #[trigger] p[j],
        ) by {
            assert(p[j] == t[j]);
        }
        if k - 1 < p.len() {
            assert(p[p.len() - (k - 1) - 1] == t[t.len() - k - 1]);
        }
        lemma_trailing_spaces(p, k - 1);
    }
}

/// `s` without leading and trailing whitespace.
pub fn trim(s: &str) -> (r: String)
    ensures
        r@ == trimmed(s@),
{
    let chars = chars_of(s);
    let n = chars.len();
    let mut i: usize = 0;
    while i < n && is_space(chars[i])
        invariant
            i <= n == chars.len(),
            forall|k: int| 0 <= k < i ==> is_space_spec(#[trigger] chars@[k]),
        decreases n - i,
    {
        i = i + 1;
    }
    let mut j: usize = n;
    while j > i && is_space(chars[j - 1])
        invariant
            i <= j <= n == chars.len(),
            forall|k: int| j <= k < n ==> is_space_spec(#[trigger] chars@[k]),
        decreases j - i,
    {
        j = j - 1;
    }
    proof {
        lemma_leading_spaces(chars@, i as int);
        let t = chars@.subrange(i as int, n as int);
        assert forall|k: int| t.len() - (n - j) <= k < t.len() implies is_space_spec(
            #[trigger] t[k],
        ) by {
            assert(t[k] == chars@[i + k]);
        }
        if j > i {
            assert(t[t.len() - (n - j) - 1] == chars@[j - 1]);
        }
        lemma_trailing_spaces(t, (n - j) as int);
        assert(t.subrange(0, t.len() - (n - j)) == chars@.subrange(i as int, j as int));
    }
    string_of(&chars, i, j)
}

/// A character that a normalised text holds besides the single space: an
/// ASCII digit or lower-case letter.
pub open spec fn is_word_char(c: char) -> bool {
    ('0' <= c && c <= '9') || ('a' <= c && c <= 'z')
}

/// The shape of a normalised text: words of ASCII digits and lower-case
/// letters separated by single spaces, with no space at either end.
pub open spec fn is_normal_form(r: Seq<char>) -> bool {
    &&& forall|i: int| 0 <= i < r.len() ==> #[trigger] r[i] == ' ' || is_word_char(r[i])
    &&& r.len() > 0 ==> r[0] != ' ' && r.last() != ' '
    &&& forall|i: int| 0 <= i < r.len() - 1 ==> !(#[trigger] r[i] == ' ' && r[i + 1] == ' ')
}

proof fn lemma_kept_chars(s: Seq<char>)
    ensures
        forall|i: int|
            0 <= i < kept(s).len() ==> is_space_spec(#[trigger] kept(s)[i]) || is_word_char(
                kept(s)[i],
            ),
    decreases s.len(),
{
    if s.len() > 0 {
        let p = s.drop_last();
        lemma_kept_chars(p);
        let c = s.last();
        if is_kept_spec(c) {
            let l = lower_spec(c);
            if 'A' <= c && c <= 'Z' {
                assert(65 <= (c as u32) <= 90);
                assert(97 <= (l as u32) <= 122);
                assert('a' <= l && l <= 'z');
            }
            assert(is_space_spec(l) || is_word_char(l));
            let k = kept(p).push(l);
            assert(kept(s) == k);
            assert forall|i: int| 0 <= i < k.len() implies is_space_spec(#[trigger] k[i])
                || is_word_char(k[i]) by {
                if i < kept(p).len() {
                    assert(k[i] == kept(p)[i]);
                }
            }
        }
    }
}

proof fn lemma_collapse_shape(s: Seq<char>)
    requires
        forall|i: int| 0 <= i < s.len() ==> is_space_spec(#[trigger] s[i]) || is_word_char(s[i]),
    ensures
        is_normal_form(collapse(s)),
    decreases s.len(),
{
    if s.len() > 0 {
        let p = s.drop_last();
        assert forall|i: int| 0 <= i < p.len() implies is_space_spec(#[trigger] p[i])
            || is_word_char(p[i]) by {
            assert(p[i] == s[i]);
        }
        lemma_collapse_shape(p);
        let c = s.last();
        let cp = collapse(p);
        if !is_space_spec(c) {
            assert(is_word_char(c));
            let r = collapse(s);
            if cp.len() > 0 && is_space_spec(p.last()) {
                assert(r == cp.push(' ').push(c));
                assert forall|i: int| 0 <= i < r.len() - 1 implies !(#[trigger] r[i] == ' '
                    && r[i + 1] == ' ') by {
                    if i < cp.len() - 1 {
                        assert(r[i] == cp[i] && r[i + 1] == cp[i + 1]);
                    } else if i == cp.len() - 1 {
                        assert(r[i] == cp.last());
                    }
                }
                assert forall|i: int| 0 <= i < r.len() implies #[trigger] r[i] == ' '
                    || is_word_char(r[i]) by {
                    if i < cp.len() {
                        assert(r[i] == cp[i]);
                    }
                }
                if cp.len() > 0 {
                    assert(r[0] == cp[0]);
                }
            } else {
                assert(r == cp.push(c));
                assert forall|i: int| 0 <= i < r.len() - 1 implies !(#[trigger] r[i] == ' '
                    && r[i + 1] == ' ') by {
                    if i < cp.len() - 1 {
                        assert(r[i] == cp[i] && r[i + 1] == cp[i + 1]);
                    }
                }
                assert forall|i: int| 0 <= i < r.len() implies #[trigger] r[i] == ' '
                    || is_word_char(r[i]) by {
                    if i < cp.len() {
                        assert(r[i] == cp[i]);
                    }
                }
                if cp.len() > 0 {
                    assert(r[0] == cp[0]);
                }
            }
        }
    }
}

proof fn lemma_normal_form_prefix(r: Seq<char>, n: int)
    requires
        is_normal_form(r),
        0 <= n <= r.len(),
        n == 0 || r[n - 1] != ' ',
    ensures
        is_normal_form(r.take(n)),
{
    let t = r.take(n);
    assert forall|i: int| 0 <= i < t.len() implies #[trigger] t[i] == ' ' || is_word_char(t[i]) by {
        assert(t[i] == r[i]);
    }
    assert forall|i: int| 0 <= i < t.len() - 1 implies !(#[trigger] t[i] == ' ' && t[i + 1]
        == ' ') by {
        assert(t[i] == r[i] && t[i + 1] == r[i + 1]);
    }
    if n > 0 {
        assert(t[0] == r[0]);
    }
}

proof fn lemma_collapse_normal_form(r: Seq<char>)
    requires
        is_normal_form(r),
    ensures
        collapse(r) == r,
    decreases r.len(),
{
    if r.len() > 0 {
        let c = r.last();
        let p = r.drop_last();
        assert(!is_space_spec(c));
        if p.len() > 0 && p.last() == ' ' {
            let q = p.drop_last();
            assert(p.len() >= 2);
            assert(q.len() > 0 && q.last() == r[r.len() - 3]);
            assert(r[r.len() - 3] != ' ');
            assert(q == r.take(r.len() - 2));
            lemma_normal_form_prefix(r, r.len() - 2);
            lemma_collapse_normal_form(q);
            assert(collapse(p) == collapse(q));
            assert(q.push(' ').push(c) == r);
        } else {
            assert(p == r.take(r.len() - 1));
            lemma_normal_form_prefix(r, r.len() - 1);
            lemma_collapse_normal_form(p);
            if p.len() > 0 {
                assert(p.last() == ' ' || is_word_char(p.last()));
            }
            assert(p.push(c) == r);
        }
    }
}

proof fn lemma_kept_normal_form(r: Seq<char>)
    requires
        forall|i: int| 0 <= i < r.len() ==> #[trigger] r[i] == ' ' || is_word_char(r[i]),
    ensures
        kept(r) == r,
    decreases r.len(),
{
    if r.len() > 0 {
        let p = r.drop_last();
        assert forall|i: int| 0 <= i < p.len() implies #[trigger] p[i] == ' ' || is_word_char(
            p[i],
        ) by {
            assert(p[i] == r[i]);
        }
        lemma_kept_normal_form(p);
        assert(r.last() == ' ' || is_word_char(r.last()));
        assert(p.push(r.last()) == r);
    }
}

/// The normalised form is made of words of ASCII digits and lower-case
/// letters separated by single spaces, with no space at either end; and
/// normalising it again changes nothing.
pub proof fn lemma_normalized_shape_and_idempotent(s: Seq<char>)
    ensures
        is_normal_form(normalized(s)),
        normalized(normalized(s)) == normalized(s),
{
    lemma_kept_chars(s);
    lemma_collapse_shape(kept(s));
    let r = normalized(s);
    lemma_kept_normal_form(r);
    lemma_collapse_normal_form(r);
}

} // verus!
