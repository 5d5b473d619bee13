//! Character-level text utilities: conversions between `str`/`String` and
//! character sequences, whitespace trimming and splitting on a separator.
use vstd::prelude::*;

verus! {

/// The characters of `s`, in order.
pub fn chars_of(s: &str) -> (r: Vec<char>)
    ensures
        r@ == s@,
{
    let mut out: Vec<char> = Vec::new();
    for c in it: s.chars()
        invariant
            out@ == it.seq().take(it.index() as int),
            it.seq() == s@,
    {
        out.push(c);
    }
    out
}

/// Relies on `String::push`: appends one character at the end.
#[verifier::external_body]
fn push_char(s: &mut String, c: char)
    ensures
        final(s)@ == old(s)@.push(c),
{
    s.push(c);
}

/// A `String` holding the characters `cs[from..to]`.
pub fn string_of_range(cs: &Vec<char>, from: usize, to: usize) -> (r: String)
    requires
        from <= to <= cs@.len(),
    ensures
        r@ == cs@.subrange(from as int, to as int),
{
    let mut out = String::new();
    let mut i = from;
    while i < to
        invariant
            from <= i <= to <= cs@.len(),
            out@ == cs@.subrange(from as int, i as int),
        decreases to - i,
    {
        push_char(&mut out, cs[i]);
        i = i + 1;
        assert(out@ =~= cs@.subrange(from as int, i as int));
    }
    out
}

/// A `String` holding the characters of `cs`.
pub fn string_of(cs: &Vec<char>) -> (r: String)
    ensures
        r@ == cs@,
{
    let r = string_of_range(cs, 0, cs.len());
    assert(cs@.subrange(0, cs@.len() as int) =~= cs@);
    r
}

/// A copy of `s`.
pub fn copy_str(s: &str) -> (r: String)
    ensures
        r@ == s@,
{
    let cs = chars_of(s);
    string_of(&cs)
}

/// `a` followed by `b`.
pub fn concat(a: &str, b: &str) -> (r: String)
    ensures
        r@ == a@ + b@,
{
    let mut out = copy_str(a);
    let cs = chars_of(b);
    let mut i: usize = 0;
    while i < cs.len()
        invariant
            i <= cs@.len(),
            cs@ == b@,
            out@ == a@ + cs@.take(i as int),
        decreases cs.len() - i,
    {
        push_char(&mut out, cs[i]);
        i = i + 1;
        assert(out@ =~= a@ + cs@.take(i as int));
    }
    assert(cs@.take(cs@.len() as int) =~= cs@);
    out
}

/// Whether two character sequences are equal.
pub fn same_chars(a: &Vec<char>, b: &Vec<char>) -> (r: bool)
    ensures
        r == (a@ == b@),
{
    if a.len() != b.len() {
        return false;
    }
    let mut i: usize = 0;
    while i < a.len()
        invariant
            i <= a@.len() == b@.len(),
            forall|j: int| 0 <= j < i ==> a@[j] == b@[j],
        decreases a.len() - i,
    {
        if a[i] != b[i] {
            return false;
        }
        i = i + 1;
    }
    assert(a@ =~= b@);
    true
}

/// Whether two strings hold the same characters.
pub fn same_text(a: &str, b: &str) -> (r: bool)
    ensures
        r == (a@ == b@),
{
    let x = chars_of(a);
    let y = chars_of(b);
    same_chars(&x, &y)
}

/// Unicode `White_Space`: the characters that `char::is_whitespace` accepts.
pub open spec fn is_ws(c: char) -> bool {
    ('\t' <= c && c <= '\r') || c == ' ' || c == '\u{85}' || c == '\u{a0}' || c == '\u{1680}'
        || ('\u{2000}' <= c && c <= '\u{200a}') || c == '\u{2028}' || c == '\u{2029}'
        || c == '\u{202f}' || c == '\u{205f}' || c == '\u{3000}'
}

/// Whether `c` is a whitespace character.
pub fn is_whitespace(c: char) -> (r: bool)
    ensures
        r == is_ws(c),
{
    ('\t' <= c && c <= '\r') || c == ' ' || c == '\u{85}' || c == '\u{a0}' || c == '\u{1680}'
        || ('\u{2000}' <= c && c <= '\u{200a}') || c == '\u{2028}' || c == '\u{2029}'
        || c == '\u{202f}' || c == '\u{205f}' || c == '\u{3000}'
}

/// `s` without its leading whitespace.
pub open spec fn trim_start(s: Seq<char>) -> Seq<char>
    decreases s.len(),
{
    if s.len() > 0 && is_ws(s[0]) {
        trim_start(s.drop_first())
    } else {
        s
    }
}

/// `s` without its trailing whitespace.
pub open spec fn trim_end(s: Seq<char>) -> Seq<char>
    decreases s.len(),
{
    if s.len() > 0 && is_ws(s.last()) {
        trim_end(s.drop_last())
    } else {
        s
    }
}

/// `s` without leading and trailing whitespace, as `str::trim` gives it.
pub open spec fn trim(s: Seq<char>) -> Seq<char> {
    trim_end(trim_start(s))
}

proof fn lemma_trim_start_skip(s: Seq<char>, i: int)
    requires
        0 <= i <= s.len(),
        forall|j: int| 0 <= j < i ==> is_ws(#[trigger] s[j]),
    ensures
        trim_start(s) == trim_start(s.subrange(i, s.len() as int)),
    decreases i,
{
    if i > 0 {
        assert(s.drop_first() =~= s.subrange(1, s.len() as int));
        lemma_trim_start_skip(s.drop_first(), i - 1);
        assert(s.drop_first().subrange(i - 1, s.drop_first().len() as int) =~= s.subrange(
            i,
            s.len() as int,
        ));
    } else {
        assert(s.subrange(0, s.len() as int) =~= s);
    }
}

proof fn lemma_trim_end_cut(s: Seq<char>, k: int)
    requires
        0 <= k <= s.len(),
        forall|j: int| k <= j < s.len() ==> is_ws(#[trigger] s[j]),
    ensures
        trim_end(s) == trim_end(s.subrange(0, k)),
    decreases s.len() - k,
{
    if k < s.len() {
        assert(s.drop_last() =~= s.subrange(0, s.len() - 1));
        lemma_trim_end_cut(s.drop_last(), k);
        assert(s.drop_last().subrange(0, k) =~= s.subrange(0, k));
    } else {
        assert(s.subrange(0, s.len() as int) =~= s);
    }
}

/// `s` without leading and trailing whitespace.
pub fn trim_chars(s: &Vec<char>) -> (r: Vec<char>)
    ensures
        r@ == trim(s@),
{
    let mut i: usize = 0;
    while i < s.len() && is_whitespace(s[i])
        invariant
            i <= s@.len(),
            forall|j: int| 0 <= j < i ==> is_ws(#[trigger] s@[j]),
        decreases s.len() - i,
    {
        i = i + 1;
    }
    proof {
        lemma_trim_start_skip(s@, i as int);
    }
    let ghost t = s@.subrange(i as int, s@.len() as int);
    assert(trim_start(t) == t);
    let mut k: usize = s.len();
    while k > i && is_whitespace(s[k - 1])
        invariant
            i <= k <= s@.len(),
            t == s@.subrange(i as int, s@.len() as int),
            forall|j: int| k <= j < s@.len() ==> is_ws(#[trigger] s@[j]),
        decreases k,
    {
        k = k - 1;
    }
    proof {
        let m = (k - i) as int;
        assert forall|j: int| m <= j < t.len() implies is_ws(#[trigger] t[j]) by {
            assert(t[j] == s@[j + i]);
        }
        lemma_trim_end_cut(t, m);
        let u = t.subrange(0, m);
        assert(u =~= s@.subrange(i as int, k as int));
        if u.len() > 0 {
            assert(u.last() == s@[k - 1]);
        }
        assert(trim_end(u) == u);
    }
    let mut out: Vec<char> = Vec::new();
    let mut p = i;
    while p < k
        invariant
            i <= p <= k <= s@.len(),
            out@ == s@.subrange(i as int, p as int),
        decreases k - p,
    {
        out.push(s[p]);
        p = p + 1;
        assert(out@ =~= s@.subrange(i as int, p as int));
    }
    out
}

/// `s` without leading and trailing whitespace.
pub fn trim_str(s: &str) -> (r: String)
    ensures
        r@ == trim(s@),
{
    let cs = chars_of(s);
    let t = trim_chars(&cs);
    string_of(&t)
}

/// Whether `sep` occurs in `s`.
pub open spec fn has_char(s: Seq<char>, sep: char) -> bool {
    exists|i: int| 0 <= i < s.len() && s[i] == sep
}

/// The fields of `s` between occurrences of `sep`, as `str::split` gives them:
/// always at least one field, and one more than there are separators.
pub open spec fn split(s: Seq<char>, sep: char) -> Seq<Seq<char>>
    decreases s.len(),
{
    if s.len() == 0 {
        seq![Seq::empty()]
    } else if s[0] == sep {
        seq![Seq::empty()] + split(s.drop_first(), sep)
    } else {
        let r = split(s.drop_first(), sep);
        r.update(0, seq![s[0]] + r[0])
    }
}

pub proof fn lemma_split_nonempty(s: Seq<char>, sep: char)
    ensures
        split(s, sep).len() >= 1,
    decreases s.len(),
{
    if s.len() > 0 {
        lemma_split_nonempty(s.drop_first(), sep);
    }
}

/// A field without separators, then a separator: the field comes first.
pub proof fn lemma_split_field(a: Seq<char>, sep: char, t: Seq<char>)
    requires
        !has_char(a, sep),
    ensures
        split(a + seq![sep] + t, sep) == seq![a] + split(t, sep),
    decreases a.len(),
{
    if a.len() == 0 {
        assert(a + seq![sep] + t =~= seq![sep] + t);
        assert((seq![sep] + t).drop_first() =~= t);
        assert(a =~= Seq::<char>::empty());
    } else {
        let w = a + seq![sep] + t;
        let a1 = a.drop_first();
        assert(!has_char(a1, sep)) by {
            if has_char(a1, sep) {
                let i = choose|i: int| 0 <= i < a1.len() && a1[i] == sep;
                assert(a[i + 1] == sep);
            }
        }
        assert(a[0] != sep) by {
            if a[0] == sep {
                assert(has_char(a, sep));
            }
        }
        assert(w.drop_first() =~= a1 + seq![sep] + t);
        lemma_split_field(a1, sep, t);
        lemma_split_nonempty(t, sep);
        assert(seq![a[0]] + a1 =~= a);
        assert(split(w, sep) =~= seq![a] + split(t, sep));
    }
}

/// Text without separators is a single field.
pub proof fn lemma_split_last(a: Seq<char>, sep: char)
    requires
        !has_char(a, sep),
    ensures
        split(a, sep) == seq![a],
    decreases a.len(),
{
    if a.len() > 0 {
        let a1 = a.drop_first();
        assert(!has_char(a1, sep)) by {
            if has_char(a1, sep) {
                let i = choose|i: int| 0 <= i < a1.len() && a1[i] == sep;
                assert(a[i + 1] == sep);
            }
        }
        assert(a[0] != sep) by {
            if a[0] == sep {
                assert(has_char(a, sep));
            }
        }
        lemma_split_last(a1, sep);
        assert(seq![a[0]] + a1 =~= a);
        assert(split(a, sep) =~= seq![a]);
    } else {
        assert(a =~= Seq::<char>::empty());
    }
}

/// The view of each line of `v`.
pub open spec fn views_of(v: Seq<Vec<char>>) -> Seq<Seq<char>> {
    v.map_values(|x: Vec<char>| x@)
}

/// The fields of `s` between occurrences of `sep`.
pub fn split_chars(s: &Vec<char>, sep: char) -> (r: Vec<Vec<char>>)
    ensures
        views_of(r@) == split(s@, sep),
{
    let mut fields: Vec<Vec<char>> = Vec::new();
    let mut cur: Vec<char> = Vec::new();
    let mut i: usize = 0;
    assert(views_of(fields@) =~= Seq::<Seq<char>>::empty());
    assert(cur@ + s@.subrange(0, s@.len() as int) =~= s@);
    while i < s.len()
        invariant
            i <= s@.len(),
            !has_char(cur@, sep),
            split(s@, sep) == views_of(fields@) + split(cur@ + s@.subrange(i as int, s@.len() as int), sep),
        decreases s.len() - i,
    {
        let c = s[i];
        let ghost rest = s@.subrange(i as int + 1, s@.len() as int);
        assert(s@.subrange(i as int, s@.len() as int) =~= seq![c] + rest);
        if c == sep {
            proof {
                lemma_split_field(cur@, sep, rest);
                assert(cur@ + (seq![c] + rest) =~= cur@ + seq![sep] + rest);
            }
            let ghost prev = fields@;
            let ghost done = cur@;
            fields.push(cur);
            cur = Vec::new();
            assert(views_of(fields@) =~= views_of(prev) + seq![done]);
            assert(cur@ + rest =~= rest);
            assert(!has_char(cur@, sep));
        } else {
            let ghost old_cur = cur@;
            cur.push(c);
            assert(old_cur + (seq![c] + rest) =~= cur@ + rest);
            assert(!has_char(cur@, sep)) by {
                if has_char(cur@, sep) {
                    let j = choose|j: int| 0 <= j < cur@.len() && cur@[j] == sep;
                    assert(j < old_cur.len() ==> old_cur[j] == sep);
                }
            }
        }
        i = i + 1;
    }
    proof {
        assert(cur@ + s@.subrange(i as int, s@.len() as int) =~= cur@);
        lemma_split_last(cur@, sep);
    }
    fields.push(cur);
    assert(views_of(fields@) =~= split(s@, sep));
    fields
}

} // verus!

verus! {

/// The decimal digits of `n`, without leading zeros ("0" for zero).
pub open spec fn decimal(n: nat) -> Seq<char>
    decreases n,
{
    if n < 10 {
        seq![digit_char(n)]
    } else {
        decimal(n / 10).push(digit_char(n % 10))
    }
}

/// The character of a decimal digit.
pub open spec fn digit_char(d: nat) -> char {
    if d == 0 { '0' }
    else if d == 1 { '1' }
    else if d == 2 { '2' }
    else if d == 3 { '3' }
    else if d == 4 { '4' }
    else if d == 5 { '5' }
    else if d == 6 { '6' }
    else if d == 7 { '7' }
    else if d == 8 { '8' }
    else { '9' }
}

fn digit(d: u64) -> (c: char)
    requires
        d < 10,
    ensures
        c == digit_char(d as nat),
{
    if d == 0 { '0' }
    else if d == 1 { '1' }
    else if d == 2 { '2' }
    else if d == 3 { '3' }
    else if d == 4 { '4' }
    else if d == 5 { '5' }
    else if d == 6 { '6' }
    else if d == 7 { '7' }
    else if d == 8 { '8' }
    else { '9' }
}

/// The decimal text of `n`.
pub fn decimal_text(n: u64) -> (r: String)
    ensures
        r@ == decimal(n as nat),
{
    let mut rev: Vec<char> = Vec::new();
    let mut m = n;
    // `rev` holds the low digits, lowest first; `m` what is left above them.
    while m >= 10
        invariant
            decimal(n as nat) == decimal(m as nat) + rev@.reverse(),
        decreases m,
    {
        let ghost old_rev = rev@;
        rev.push(digit(m % 10));
        proof {
            assert(decimal(m as nat) == decimal((m / 10) as nat).push(digit_char((m % 10) as nat)));
            assert(rev@.reverse() =~= seq![digit_char((m % 10) as nat)] + old_rev.reverse());
            assert(decimal((m / 10) as nat).push(digit_char((m % 10) as nat)) + old_rev.reverse()
                =~= decimal((m / 10) as nat) + rev@.reverse());
        }
        m = m / 10;
    }
    let mut out: Vec<char> = Vec::new();
    out.push(digit(m));
    let mut i: usize = rev.len();
    while i > 0
        invariant
            i <= rev@.len(),
            out@ == decimal(m as nat) + rev@.subrange(i as int, rev@.len() as int).reverse(),
            decimal(n as nat) == decimal(m as nat) + rev@.reverse(),
        decreases i,
    {
        let ghost before = out@;
        out.push(rev[i - 1]);
        i = i - 1;
        assert(rev@.subrange(i as int, rev@.len() as int).reverse() =~= rev@.subrange(
            i + 1,
            rev@.len() as int,
        ).reverse().push(rev@[i as int]));
        assert(out@ =~= decimal(m as nat) + rev@.subrange(i as int, rev@.len() as int).reverse());
    }
    assert(rev@.subrange(0, rev@.len() as int) =~= rev@);
    string_of(&out)
}

} // verus!
