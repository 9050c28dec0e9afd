//! Character-level text helpers shared by the rest of the library.

use vstd::prelude::*;

verus! {

/// `String::push`: appends one character.
#[verifier::external_body]
pub fn push_char(s: &mut String, c: char)
    ensures
        final(s)@ == old(s)@.push(c),
{
    s.push(c);
}

/// The characters of `s`, in order.
pub fn chars_of(s: &str) -> (v: Vec<char>)
    ensures
        v@ == s@,
{
    let mut v: Vec<char> = Vec::new();
    for c in it: s.chars()
        invariant
            v@ == it.seq().take(it.index() as int),
    {
        v.push(c);
    }
    v
}

} // verus!

verus! {

/// `String::push_str`: appends a string slice.
pub fn push_str(s: &mut String, t: &str)
    ensures
        final(s)@ == old(s)@ + t@,
{
    s.append(t);
}

/// The HTML entity text that stands for one character.
pub open spec fn escape_char(c: char) -> Seq<char> {
    if c == '&' {
        seq!['&', 'a', 'm', 'p', ';']
    } else if c == '<' {
        seq!['&', 'l', 't', ';']
    } else if c == '>' {
        seq!['&', 'g', 't', ';']
    } else if c == '"' {
        seq!['&', 'q', 'u', 'o', 't', ';']
    } else if c == '\'' {
        seq!['&', '#', '3', '9', ';']
    } else {
        seq![c]
    }
}

/// `s` with each of `& < > " '` replaced by its HTML entity, and every other
/// character kept as it is.
pub open spec fn html_escaped(s: Seq<char>) -> Seq<char>
    decreases s.len(),
{
    if s.len() == 0 {
        Seq::empty()
    } else {
        html_escaped(s.drop_last()) + escape_char(s.last())
    }
}

/// Escapes `s` for use in HTML text and in double- or single-quoted
/// attribute values.
pub fn escape(s: &str) -> (r: String)
    ensures
        r@ == html_escaped(s@),
{
    let cs = chars_of(s);
    let mut r = String::new();
    let n = cs.len();
    for i in 0..n
        invariant
            n == cs@.len(),
            cs@ == s@,
            r@ == html_escaped(s@.take(i as int)),
    {
        let c = cs[i];
        proof {
            assert(s@.take(i + 1).drop_last() =~= s@.take(i as int));
            reveal_strlit("&amp;");
            reveal_strlit("&lt;");
            reveal_strlit("&gt;");
            reveal_strlit("&quot;");
            reveal_strlit("&#39;");
        }
        if c == '&' {
            push_str(&mut r, "&amp;");
        } else if c == '<' {
            push_str(&mut r, "&lt;");
        } else if c == '>' {
            push_str(&mut r, "&gt;");
        } else if c == '"' {
            push_str(&mut r, "&quot;");
        } else if c == '\'' {
            push_str(&mut r, "&#39;");
        } else {
            push_char(&mut r, c);
        }
        assert(r@ =~= html_escaped(s@.take(i + 1)));
    }
    assert(s@.take(n as int) =~= s@);
    r
}

} // verus!

verus! {

/// Whether `a` and `b` hold the same characters.
pub fn str_eq(a: &str, b: &str) -> (r: bool)
    ensures
        r == (a@ == b@),
{
    let x = chars_of(a);
    let y = chars_of(b);
    if x.len() != y.len() {
        return false;
    }
    let n = x.len();
    for i in 0..n
        invariant
            x@ == a@,
            y@ == b@,
            n == x@.len(),
            n == y@.len(),
            forall|j: int| 0 <= j < i ==> x@[j] == y@[j],
    {
        if x[i] != y[i] {
            return false;
        }
    }
    assert(a@ =~= b@);
    true
}

/// The characters with the Unicode `White_Space` property, which is what
/// `char::is_whitespace` and `str::trim` go by.
pub open spec fn is_white_space(c: char) -> bool {
    let u = c as u32;
    ||| u == 0x20
    ||| 0x09 <= u <= 0x0d
    ||| u == 0x85
    ||| u == 0xa0
    ||| u == 0x1680
    ||| 0x2000 <= u <= 0x200a
    ||| u == 0x2028
    ||| u == 0x2029
    ||| u == 0x202f
    ||| u == 0x205f
    ||| u == 0x3000
}

/// `s` without its leading white space.
pub open spec fn trim_start(s: Seq<char>) -> Seq<char>
    decreases s.len(),
{
    if s.len() > 0 && is_white_space(s[0]) {
        trim_start(s.skip(1))
    } else {
        s
    }
}

/// `s` without its trailing white space.
pub open spec fn trim_end(s: Seq<char>) -> Seq<char>
    decreases s.len(),
{
    if s.len() > 0 && is_white_space(s.last()) {
        trim_end(s.drop_last())
    } else {
        s
    }
}

/// `s` without leading and trailing white space.
pub open spec fn trimmed(s: Seq<char>) -> Seq<char> {
    trim_end(trim_start(s))
}

/// Whether `c` is white space.
pub fn white_space(c: char) -> (r: bool)
    ensures
        r == is_white_space(c),
{
    let u = c as u32;
    u == 0x20 || (0x09 <= u && u <= 0x0d) || u == 0x85 || u == 0xa0 || u == 0x1680 || (0x2000
        <= u && u <= 0x200a) || u == 0x2028 || u == 0x2029 || u == 0x202f || u == 0x205f || u
        == 0x3000
}

/// Builds a `String` from `cs[lo..hi]`.
pub fn string_of_range(cs: &Vec<char>, lo: usize, hi: usize) -> (r: String)
    requires
        lo <= hi <= cs@.len(),
    ensures
        r@ == cs@.subrange(lo as int, hi as int),
{
    let mut r = String::new();
    let mut i = lo;
    while i < hi
        invariant
            lo <= i <= hi <= cs@.len(),
            r@ == cs@.subrange(lo as int, i as int),
        decreases hi - i,
    {
        push_char(&mut r, cs[i]);
        i = i + 1;
        assert(r@ =~= cs@.subrange(lo as int, i as int));
    }
    r
}

/// `s` with leading and trailing white space removed, as `str::trim` does.
pub fn trim(s: &str) -> (r: String)
    ensures
        r@ == trimmed(s@),
{
    let cs = chars_of(s);
    let n = cs.len();
    let mut lo: usize = 0;
    assert(s@.skip(0) =~= s@);
    while lo < n && white_space(cs[lo])
        invariant
            cs@ == s@,
            n == cs@.len(),
            lo <= n,
            trim_start(s@) == trim_start(s@.skip(lo as int)),
        decreases n - lo,
    {
        assert(s@.skip(lo as int).skip(1) =~= s@.skip(lo + 1));
        lo = lo + 1;
    }
    assert(trim_start(s@) == s@.subrange(lo as int, n as int)) by {
        assert(s@.skip(lo as int) =~= s@.subrange(lo as int, n as int));
    }
    let mut hi: usize = n;
    while hi > lo && white_space(cs[hi - 1])
        invariant
            cs@ == s@,
            n == cs@.len(),
            lo <= hi <= n,
            trimmed(s@) == trim_end(s@.subrange(lo as int, hi as int)),
        decreases hi - lo,
    {
        assert(s@.subrange(lo as int, hi as int).drop_last() =~= s@.subrange(
            lo as int,
            hi - 1,
        ));
        hi = hi - 1;
    }
    string_of_range(&cs, lo, hi)
}

} // verus!

verus! {

/// Whether `pat` occurs in `s` starting at position `i`.
pub open spec fn occurs_at(s: Seq<char>, i: int, pat: Seq<char>) -> bool {
    0 <= i && i + pat.len() <= s.len() && s.subrange(i, i + pat.len()) == pat
}

/// `s` with every occurrence of the non-empty `from` replaced by `to`,
/// scanning from left to right so that occurrences do not overlap: the
/// behaviour of `str::replace` for a non-empty pattern.
pub open spec fn replaced(s: Seq<char>, from: Seq<char>, to: Seq<char>) -> Seq<char>
    decreases s.len(),
{
    if s.len() == 0 {
        Seq::empty()
    } else if from.len() > 0 && occurs_at(s, 0, from) {
        to + replaced(s.skip(from.len() as int), from, to)
    } else {
        seq![s[0]] + replaced(s.skip(1), from, to)
    }
}

/// Whether `pat` occurs in `cs` at position `i`.
fn matches_at(cs: &Vec<char>, i: usize, pat: &Vec<char>) -> (r: bool)
    requires
        i <= cs@.len(),
    ensures
        r == occurs_at(cs@, i as int, pat@),
{
    if pat.len() > cs.len() - i {
        return false;
    }
    let m = pat.len();
    let len = cs.len();
    for j in 0..m
        invariant
            m == pat@.len(),
            len == cs@.len(),
            i <= cs@.len(),
            i + m <= cs@.len(),
            forall|k: int| 0 <= k < j ==> cs@[i + k] == pat@[k],
    {
        if cs[i + j] != pat[j] {
            assert(cs@.subrange(i as int, i + m)[j as int] != pat@[j as int]);
            return false;
        }
    }
    assert(cs@.subrange(i as int, i + m) =~= pat@);
    true
}

/// Replaces every occurrence of the non-empty `from` in `s` by `to`.
pub fn replace_all(s: &str, from: &str, to: &str) -> (r: String)
    requires
        from@.len() > 0,
    ensures
        r@ == replaced(s@, from@, to@),
{
    let cs = chars_of(s);
    let fs = chars_of(from);
    let n = cs.len();
    let m = fs.len();
    let mut r = String::new();
    let mut i: usize = 0;
    assert(s@.skip(0) =~= s@);
    while i < n
        invariant
            cs@ == s@,
            fs@ == from@,
            n == s@.len(),
            m == from@.len(),
            m > 0,
            i <= n,
            replaced(s@, from@, to@) == r@ + replaced(s@.skip(i as int), from@, to@),
        decreases n - i,
    {
        let ghost rest = s@.skip(i as int);
        let found = matches_at(&cs, i, &fs);
        assert(found == occurs_at(rest, 0, from@)) by {
            if i + m <= n {
                assert(rest.subrange(0, m as int) =~= s@.subrange(i as int, i + m));
            }
        }
        if found {
            assert(rest.skip(m as int) =~= s@.skip(i + m));
            push_str(&mut r, to);
            i = i + m;
        } else {
            assert(rest.skip(1) =~= s@.skip(i + 1));
            push_char(&mut r, cs[i]);
            i = i + 1;
        }
    }
    assert(s@.skip(i as int) =~= Seq::<char>::empty());
    assert(r@ =~= r@ + Seq::<char>::empty());
    r
}

/// Replacing a pattern that does not occur leaves the text as it is.
pub proof fn lemma_replace_absent(s: Seq<char>, from: Seq<char>, to: Seq<char>)
    requires
        from.len() > 0,
        forall|i: int| !occurs_at(s, i, from),
    ensures
        replaced(s, from, to) == s,
    decreases s.len(),
{
    if s.len() > 0 {
        let t = s.skip(1);
        assert forall|i: int| !occurs_at(t, i, from) by {
            if occurs_at(t, i, from) {
                assert(s.subrange(i + 1, i + 1 + from.len()) =~= t.subrange(i, i + from.len()));
                assert(occurs_at(s, i + 1, from));
            }
        }
        lemma_replace_absent(t, from, to);
        assert(!occurs_at(s, 0, from));
        assert(s =~= seq![s[0]] + t);
    }
}

} // verus!

verus! {

/// A character that HTML escaping rewrites.
pub open spec fn is_markup_char(c: char) -> bool {
    c == '&' || c == '<' || c == '>' || c == '"' || c == '\''
}

/// Escaped text holds no `<`, `>`, `"` or `'`, so it can neither open a tag
/// nor close a quoted attribute, whatever the input was.
pub proof fn lemma_escaped_has_no_markup(s: Seq<char>)
    ensures
        forall|i: int|
            0 <= i < html_escaped(s).len() ==> {
                let c = #[trigger] html_escaped(s)[i];
                c != '<' && c != '>' && c != '"' && c != '\''
            },
    decreases s.len(),
{
    if s.len() > 0 {
        lemma_escaped_has_no_markup(s.drop_last());
        let p = html_escaped(s.drop_last());
        let e = escape_char(s.last());
        assert forall|i: int| 0 <= i < html_escaped(s).len() implies {
            let c = #[trigger] html_escaped(s)[i];
            c != '<' && c != '>' && c != '"' && c != '\''
        } by {
            if i >= p.len() {
                assert(html_escaped(s)[i] == e[i - p.len()]);
            } else {
                assert(html_escaped(s)[i] == p[i]);
            }
        }
    }
}

/// Text without any of `& < > " '` is left as it is by escaping.
pub proof fn lemma_escape_plain_text(s: Seq<char>)
    requires
        forall|i: int| 0 <= i < s.len() ==> !is_markup_char(#[trigger] s[i]),
    ensures
        html_escaped(s) == s,
    decreases s.len(),
{
    if s.len() > 0 {
        assert(!is_markup_char(s[s.len() - 1]));
        lemma_escape_plain_text(s.drop_last());
        assert(s =~= s.drop_last() + seq![s.last()]);
    }
}

} // verus!

verus! {

/// Whether `s` begins with `p`.
pub open spec fn starts_with(s: Seq<char>, p: Seq<char>) -> bool {
    p.len() <= s.len() && s.take(p.len() as int) == p
}

/// Reads escaped text back, left to right: each of `&amp;`, `&lt;`, `&gt;`,
/// `&quot;`, `&#39;` becomes the character it stands for, and every other
/// character is kept.
pub open spec fn unescaped(s: Seq<char>) -> Seq<char>
    decreases s.len(),
{
    if s.len() == 0 {
        Seq::empty()
    } else if starts_with(s, escape_char('&')) {
        seq!['&'] + unescaped(s.skip(5))
    } else if starts_with(s, escape_char('<')) {
        seq!['<'] + unescaped(s.skip(4))
    } else if starts_with(s, escape_char('>')) {
        seq!['>'] + unescaped(s.skip(4))
    } else if starts_with(s, escape_char('"')) {
        seq!['"'] + unescaped(s.skip(6))
    } else if starts_with(s, escape_char('\'')) {
        seq!['\''] + unescaped(s.skip(5))
    } else {
        seq![s[0]] + unescaped(s.skip(1))
    }
}

/// Escaping a text that starts with `c` starts with the entity for `c`.
pub proof fn lemma_escaped_front(c: char, t: Seq<char>)
    ensures
        html_escaped(seq![c] + t) == escape_char(c) + html_escaped(t),
    decreases t.len(),
{
    if t.len() == 0 {
        assert((seq![c] + t).drop_last() =~= Seq::<char>::empty());
        assert(html_escaped(Seq::<char>::empty()) == Seq::<char>::empty());
        assert(escape_char(c) + html_escaped(t) =~= escape_char(c));
    } else {
        lemma_escaped_front(c, t.drop_last());
        assert((seq![c] + t).drop_last() =~= seq![c] + t.drop_last());
        assert((seq![c] + t).last() == t.last());
        assert(escape_char(c) + html_escaped(t) =~= escape_char(c) + html_escaped(t.drop_last())
            + escape_char(t.last()));
    }
}

/// Reading back the entity for `c` followed by more text gives `c` first.
pub proof fn lemma_unescape_entity(c: char, rest: Seq<char>)
    ensures
        unescaped(escape_char(c) + rest) == seq![c] + unescaped(rest),
{
    let s = escape_char(c) + rest;
    let e = escape_char(c);
    assert(s.take(e.len() as int) =~= e);
    assert(s.skip(e.len() as int) =~= rest);
    if c == '&' {
    } else if c == '<' {
        assert(!starts_with(s, escape_char('&')));
    } else if c == '>' {
        assert(!starts_with(s, escape_char('&')));
        assert(!starts_with(s, escape_char('<')));
    } else if c == '"' {
        assert(!starts_with(s, escape_char('&')));
        assert(!starts_with(s, escape_char('<')));
        assert(!starts_with(s, escape_char('>')));
    } else if c == '\'' {
        assert(!starts_with(s, escape_char('&')));
        assert(!starts_with(s, escape_char('<')));
        assert(!starts_with(s, escape_char('>')));
        assert(!starts_with(s, escape_char('"')));
    } else {
        assert(s[0] == c);
        assert(!starts_with(s, escape_char('&')));
        assert(!starts_with(s, escape_char('<')));
        assert(!starts_with(s, escape_char('>')));
        assert(!starts_with(s, escape_char('"')));
        assert(!starts_with(s, escape_char('\'')));
    }
}

/// Reading escaped text back gives the original text.
pub proof fn lemma_unescape_escaped(s: Seq<char>)
    ensures
        unescaped(html_escaped(s)) == s,
    decreases s.len(),
{
    if s.len() > 0 {
        let t = s.skip(1);
        assert(s =~= seq![s[0]] + t);
        lemma_escaped_front(s[0], t);
        lemma_unescape_entity(s[0], html_escaped(t));
        lemma_unescape_escaped(t);
    }
}

/// Distinct texts escape to distinct texts.
pub proof fn lemma_escape_injective(a: Seq<char>, b: Seq<char>)
    requires
        html_escaped(a) == html_escaped(b),
    ensures
        a == b,
{
    lemma_unescape_escaped(a);
    lemma_unescape_escaped(b);
}

} // verus!

verus! {

/// The entities: `&` is `&amp;`, `<` is `&lt;`, `>` is `&gt;`, `"` is
/// `&quot;` and `'` is `&#39;`; any other character is kept as it is.
pub proof fn lemma_entities(c: char)
    ensures
        html_escaped(seq!['&']) == seq!['&', 'a', 'm', 'p', ';'],
        html_escaped(seq!['<']) == seq!['&', 'l', 't', ';'],
        html_escaped(seq!['>']) == seq!['&', 'g', 't', ';'],
        html_escaped(seq!['"']) == seq!['&', 'q', 'u', 'o', 't', ';'],
        html_escaped(seq!['\'']) == seq!['&', '#', '3', '9', ';'],
        !is_markup_char(c) ==> html_escaped(seq![c]) == seq![c],
{
    assert forall|d: char| html_escaped(seq![d]) == escape_char(d) by {
        assert(seq![d].drop_last() =~= Seq::<char>::empty());
        assert(html_escaped(Seq::<char>::empty()) == Seq::<char>::empty());
        assert(html_escaped(seq![d]) =~= Seq::<char>::empty() + escape_char(d));
    }
}

/// Escaping works character by character: the escape of a concatenation is
/// the concatenation of the escapes.
pub proof fn lemma_escape_concat(a: Seq<char>, b: Seq<char>)
    ensures
        html_escaped(a + b) == html_escaped(a) + html_escaped(b),
    decreases b.len(),
{
    if b.len() == 0 {
        assert(a + b =~= a);
        assert(html_escaped(b) == Seq::<char>::empty());
        assert(html_escaped(a) + html_escaped(b) =~= html_escaped(a));
    } else {
        lemma_escape_concat(a, b.drop_last());
        assert((a + b).drop_last() =~= a + b.drop_last());
        assert((a + b).last() == b.last());
        assert(html_escaped(a) + html_escaped(b) =~= html_escaped(a) + html_escaped(b.drop_last())
            + escape_char(b.last()));
    }
}

/// Trimming keeps a contiguous middle part of the text that neither starts
/// nor ends with white space, and drops only white space around it.
pub proof fn lemma_trim_shape(s: Seq<char>)
    ensures
        exists|lo: int, hi: int|
            0 <= lo <= hi <= s.len() && trimmed(s) == s.subrange(lo, hi) && (forall|i: int|
                0 <= i < lo ==> is_white_space(#[trigger] s[i])) && (forall|i: int|
                hi <= i < s.len() ==> is_white_space(#[trigger] s[i])),
        trimmed(s).len() > 0 ==> !is_white_space(trimmed(s)[0]) && !is_white_space(
            trimmed(s).last(),
        ),
{
    let (lo, t) = lemma_trim_start_shape(s);
    let hi = lemma_trim_end_shape(t);
    assert(trimmed(s) =~= s.subrange(lo, lo + hi));
    assert forall|i: int| lo + hi <= i < s.len() implies is_white_space(#[trigger] s[i]) by {
        assert(s[i] == t[i - lo]);
    }
}

proof fn lemma_trim_start_shape(s: Seq<char>) -> (r: (int, Seq<char>))
    ensures
        0 <= r.0 <= s.len(),
        r.1 == s.skip(r.0),
        trim_start(s) == r.1,
        forall|i: int| 0 <= i < r.0 ==> is_white_space(#[trigger] s[i]),
        r.1.len() > 0 ==> !is_white_space(r.1[0]),
    decreases s.len(),
{
    if s.len() > 0 && is_white_space(s[0]) {
        let (k, t) = lemma_trim_start_shape(s.skip(1));
        assert(s.skip(1).skip(k) =~= s.skip(k + 1));
        assert forall|i: int| 0 <= i < k + 1 implies is_white_space(#[trigger] s[i]) by {
            if i > 0 {
                assert(s[i] == s.skip(1)[i - 1]);
            }
        }
        (k + 1, t)
    } else {
        assert(s.skip(0) =~= s);
        (0, s)
    }
}

proof fn lemma_trim_end_shape(s: Seq<char>) -> (hi: int)
    ensures
        0 <= hi <= s.len(),
        trim_end(s) == s.take(hi),
        forall|i: int| hi <= i < s.len() ==> is_white_space(#[trigger] s[i]),
        hi > 0 ==> !is_white_space(s[hi - 1]),
    decreases s.len(),
{
    if s.len() > 0 && is_white_space(s.last()) {
        let h = lemma_trim_end_shape(s.drop_last());
        assert(s.drop_last().take(h) =~= s.take(h));
        assert forall|i: int| h <= i < s.len() implies is_white_space(#[trigger] s[i]) by {
            if i < s.len() - 1 {
                assert(s[i] == s.drop_last()[i]);
            }
        }
        h
    } else {
        assert(s.take(s.len() as int) =~= s);
        s.len() as int
    }
}

} // verus!
