use vstd::prelude::*;

verus! {

/// The Unicode `White_Space` property, as `char::is_whitespace` defines it.
pub open spec fn is_white_space(c: char) -> bool {
    ||| c == ' '
    ||| ('\t' <= c && c <= '\r')
    ||| c == '\u{85}'
    ||| c == '\u{A0}'
    ||| c == '\u{1680}'
    ||| ('\u{2000}' <= c && c <= '\u{200A}')
    ||| c == '\u{2028}'
    ||| c == '\u{2029}'
    ||| c == '\u{202F}'
    ||| c == '\u{205F}'
    ||| c == '\u{3000}'
}

/// An ASCII digit or ASCII letter.
pub open spec fn is_ascii_alnum(c: char) -> bool {
    ||| ('0' <= c && c <= '9')
    ||| ('a' <= c && c <= 'z')
    ||| ('A' <= c && c <= 'Z')
}

/// Every character of `s` is white space (true of the empty sequence).
pub open spec fn all_white(s: Seq<char>) -> bool {
    forall|i: int| 0 <= i < s.len() ==> is_white_space(#[trigger] s[i])
}

/// `s` without its leading white space.
pub open spec fn trim_start(s: Seq<char>) -> Seq<char>
    decreases s.len(),
{
    if s.len() > 0 && is_white_space(s[0]) {
        trim_start(s.drop_first())
    } else {
        s
    }
}

/// `s` without its trailing white space.
pub open spec fn trim_end(s: Seq<char>) -> Seq<char>
    decreases s.len(),
{
    if s.len() > 0 && is_white_space(s.last()) {
        trim_end(s.drop_last())
    } else {
        s
    }
}

/// `s` without leading and trailing white space, as `str::trim` gives it.
pub open spec fn trimmed(s: Seq<char>) -> Seq<char> {
    trim_end(trim_start(s))
}

/// Decides `is_white_space`.
pub fn is_white_space_char(c: char) -> (b: bool)
    ensures
        b == is_white_space(c),
{
    c == ' ' || ('\t' <= c && c <= '\r') || c == '\u{85}' || c == '\u{A0}' || c == '\u{1680}'
        || ('\u{2000}' <= c && c <= '\u{200A}') || c == '\u{2028}' || c == '\u{2029}'
        || c == '\u{202F}' || c == '\u{205F}' || c == '\u{3000}'
}

/// Decides `is_ascii_alnum`.
pub fn is_ascii_alnum_char(c: char) -> (b: bool)
    ensures
        b == is_ascii_alnum(c),
{
    ('0' <= c && c <= '9') || ('a' <= c && c <= 'z') || ('A' <= c && c <= 'Z')
}

/// The characters of `text`, in order.
pub fn char_list(text: &str) -> (v: Vec<char>)
    ensures
        v@ == text@,
{
    let mut v: Vec<char> = Vec::new();
    for c in it: text.chars()
        invariant
            v@ == it.seq().take(it.index() as int),
    {
        v.push(c);
    }
    v
}

/// Dropping a white-space prefix does not change what `trim_start` gives.
pub proof fn lemma_trim_start_skip(s: Seq<char>, i: int)
    requires
        0 <= i <= s.len(),
        all_white(s.take(i)),
    ensures
        trim_start(s) == trim_start(s.skip(i)),
    decreases i,
{
    if i > 0 {
        assert(is_white_space(s.take(i)[0]));
        let t = s.drop_first();
        assert forall|k: int| 0 <= k < i - 1 implies is_white_space(#[trigger] t.take(i - 1)[k]) by {
            assert(t.take(i - 1)[k] == s.take(i)[k + 1]);
        }
        lemma_trim_start_skip(t, i - 1);
        assert(t.skip(i - 1) =~= s.skip(i));
    } else {
        assert(s.skip(0) =~= s);
    }
}

/// Dropping a white-space suffix does not change what `trim_end` gives.
pub proof fn lemma_trim_end_take(s: Seq<char>, j: int)
    requires
        0 <= j <= s.len(),
        all_white(s.skip(j)),
    ensures
        trim_end(s) == trim_end(s.take(j)),
    decreases s.len() - j,
{
    if j < s.len() {
        assert(is_white_space(s.skip(j)[s.len() - j - 1]));
        let t = s.drop_last();
        assert forall|k: int| 0 <= k < t.len() - j implies is_white_space(#[trigger] t.skip(j)[k]) by {
            assert(t.skip(j)[k] == s.skip(j)[k]);
        }
        lemma_trim_end_take(t, j);
        assert(t.take(j) =~= s.take(j));
    } else {
        assert(s.take(j) =~= s);
    }
}

/// `trim_end` keeps every character up to the last one that is not white space.
pub proof fn lemma_trim_end_keeps(s: Seq<char>, k: int)
    requires
        0 <= k < s.len(),
        !is_white_space(s[k]),
    ensures
        trim_end(s).len() > k,
    decreases s.len(),
{
    if s.len() > 0 && is_white_space(s.last()) {
        assert(k < s.len() - 1);
        lemma_trim_end_keeps(s.drop_last(), k);
    }
}

/// Trimming leaves nothing exactly when every character is white space.
pub proof fn lemma_trimmed_empty_iff_all_white(s: Seq<char>)
    ensures
        (trimmed(s).len() == 0) == all_white(s),
{
    if all_white(s) {
        assert(s.take(s.len() as int) =~= s);
        lemma_trim_start_skip(s, s.len() as int);
        assert(s.skip(s.len() as int) =~= Seq::<char>::empty());
    } else {
        let k = choose|k: int| 0 <= k < s.len() && !is_white_space(#[trigger] s[k]);
        let a = first_non_white(s, 0);
        lemma_first_non_white(s, 0);
        if a == s.len() {
            assert(s.take(a) =~= s);
            assert(is_white_space(s.take(a)[k]));
        }
        lemma_trim_start_skip(s, a);
        assert(s.skip(a)[0] == s[a]);
        lemma_trim_end_keeps(s.skip(a), 0);
    }
}

/// Index of the first character at or after `i` that is not white space, or
/// the length of `s` if there is none.
pub open spec fn first_non_white(s: Seq<char>, i: int) -> int
    decreases s.len() - i,
{
    if i < 0 || i >= s.len() {
        s.len() as int
    } else if is_white_space(s[i]) {
        first_non_white(s, i + 1)
    } else {
        i
    }
}

proof fn lemma_first_non_white(s: Seq<char>, i: int)
    requires
        0 <= i <= s.len(),
        all_white(s.take(i)),
    ensures
        i <= first_non_white(s, i) <= s.len(),
        all_white(s.take(first_non_white(s, i))),
        first_non_white(s, i) < s.len() ==> !is_white_space(s[first_non_white(s, i)]),
    decreases s.len() - i,
{
    if i < s.len() && is_white_space(s[i]) {
        assert forall|k: int| 0 <= k < i + 1 implies is_white_space(#[trigger] s.take(i + 1)[k]) by {
            if k < i {
                assert(s.take(i + 1)[k] == s.take(i)[k]);
            }
        }
        lemma_first_non_white(s, i + 1);
    }
}

/// Bounds `a <= b` such that `v[a..b]` is `v` without leading and trailing
/// white space.
pub fn trim_bounds(v: &Vec<char>) -> (r: (usize, usize))
    ensures
        r.0 <= r.1 <= v.len(),
        v@.subrange(r.0 as int, r.1 as int) == trimmed(v@),
        (r.0 == v.len()) == all_white(v@),
{
    let n = v.len();
    let mut a: usize = 0;
    while a < n && is_white_space_char(v[a])
        invariant
            n == v.len(),
            a <= n,
            all_white(v@.take(a as int)),
        decreases n - a,
    {
        proof {
            assert forall|k: int| 0 <= k < a + 1 implies is_white_space(
                #[trigger] v@.take(a + 1)[k],
            ) by {
                if k < a {
                    assert(v@.take(a + 1)[k] == v@.take(a as int)[k]);
                }
            }
        }
        a = a + 1;
    }
    proof {
        lemma_trim_start_skip(v@, a as int);
        if a < n {
            assert(v@.skip(a as int).len() > 0 && v@.skip(a as int)[0] == v@[a as int]);
        }
        assert(trim_start(v@) == v@.skip(a as int));
        if a == n {
            assert(v@.take(a as int) =~= v@);
        } else {
            assert(!all_white(v@));
        }
    }
    let mut b: usize = n;
    while b > a && is_white_space_char(v[b - 1])
        invariant
            n == v.len(),
            a <= b <= n,
            all_white(v@.skip(a as int).skip(b - a)),
        decreases b,
    {
        proof {
            let t = v@.skip(a as int);
            assert forall|k: int| 0 <= k < t.len() - (b - 1 - a) implies is_white_space(
                #[trigger] t.skip(b - 1 - a)[k],
            ) by {
                if k > 0 {
                    assert(t.skip(b - 1 - a)[k] == t.skip(b - a)[k - 1]);
                } else {
                    assert(t.skip(b - 1 - a)[k] == v@[b - 1]);
                }
            }
        }
        b = b - 1;
    }
    proof {
        let t = v@.skip(a as int);
        lemma_trim_end_take(t, b - a);
        let u = t.take(b - a);
        if b > a {
            assert(u.last() == v@[b - 1]);
        }
        assert(trim_end(u) == u);
        assert(u =~= v@.subrange(a as int, b as int));
    }
    (a, b)
}

/// `text` without leading and trailing white space, as `str::trim` gives it.
pub fn trim_text<'a>(text: &'a str) -> (t: &'a str)
    ensures
        t@ == trimmed(text@),
{
    let v = char_list(text);
    let (a, b) = trim_bounds(&v);
    text.substring_char(a, b)
}

/// Whether `text` is empty once trimmed, that is, holds only white space.
pub fn is_blank(text: &str) -> (b: bool)
    ensures
        b == all_white(text@),
        b == (trimmed(text@).len() == 0),
{
    proof {
        lemma_trimmed_empty_iff_all_white(text@);
    }
    let v = char_list(text);
    let (a, _) = trim_bounds(&v);
    a == v.len()
}

/// Whether `text` begins with `prefix`, as `str::starts_with` decides it.
pub fn starts_with(text: &str, prefix: &str) -> (b: bool)
    ensures
        b == prefix@.is_prefix_of(text@),
{
    let t = char_list(text);
    let p = char_list(prefix);
    if p.len() > t.len() {
        return false;
    }
    let mut i: usize = 0;
    while i < p.len()
        invariant
            t@ == text@,
            p@ == prefix@,
            p.len() <= t.len(),
            i <= p.len(),
            forall|k: int| 0 <= k < i ==> p@[k] == t@[k],
        decreases p.len() - i,
    {
        if p[i] != t[i] {
            proof {
                assert(p@[i as int] != t@.subrange(0, p@.len() as int)[i as int]);
            }
            return false;
        }
        i = i + 1;
    }
    proof {
        assert(p@ =~= t@.subrange(0, p@.len() as int));
    }
    true
}

/// Whether two texts hold the same characters.
pub fn same_text(a: &str, b: &str) -> (r: bool)
    ensures
        r == (a@ == b@),
{
    let x = char_list(a);
    let y = char_list(b);
    if x.len() != y.len() {
        return false;
    }
    let mut i: usize = 0;
    while i < x.len()
        invariant
            x@ == a@,
            y@ == b@,
            x.len() == y.len(),
            i <= x.len(),
            forall|k: int| 0 <= k < i ==> x@[k] == y@[k],
        decreases x.len() - i,
    {
        if x[i] != y[i] {
            return false;
        }
        i = i + 1;
    }
    proof {
        assert(x@ =~= y@);
    }
    true
}

/// The first `n` characters of `text`, or all of them if it has fewer, as
/// `text.chars().take(n).collect::<String>()` gives them.
pub fn first_chars<'a>(text: &'a str, n: usize) -> (r: &'a str)
    ensures
        r@ == text@.take(if n < text@.len() { n as int } else { text@.len() as int }),
{
    let count = text.unicode_len();
    let m = if n < count { n } else { count };
    text.substring_char(0, m)
}

/// The decimal digit for `d`, `0 <= d < 10`.
pub open spec fn digit_char(d: nat) -> char {
    if d == 0 {
        '0'
    } else if d == 1 {
        '1'
    } else if d == 2 {
        '2'
    } else if d == 3 {
        '3'
    } else if d == 4 {
        '4'
    } else if d == 5 {
        '5'
    } else if d == 6 {
        '6'
    } else if d == 7 {
        '7'
    } else if d == 8 {
        '8'
    } else {
        '9'
    }
}

/// The decimal notation of `n`, without sign or leading zeros, as `Display`
/// writes an unsigned integer.
pub open spec fn decimal(n: nat) -> Seq<char>
    decreases n,
{
    if n < 10 {
        seq![digit_char(n)]
    } else {
        decimal(n / 10).push(digit_char(n % 10))
    }
}

fn digit_text(d: usize) -> (t: &'static str)
    requires
        d < 10,
    ensures
        t@ == seq![digit_char(d as nat)],
{
    if d == 0 {
        proof { reveal_strlit("0"); }
        "0"
    } else if d == 1 {
        proof { reveal_strlit("1"); }
        "1"
    } else if d == 2 {
        proof { reveal_strlit("2"); }
        "2"
    } else if d == 3 {
        proof { reveal_strlit("3"); }
        "3"
    } else if d == 4 {
        proof { reveal_strlit("4"); }
        "4"
    } else if d == 5 {
        proof { reveal_strlit("5"); }
        "5"
    } else if d == 6 {
        proof { reveal_strlit("6"); }
        "6"
    } else if d == 7 {
        proof { reveal_strlit("7"); }
        "7"
    } else if d == 8 {
        proof { reveal_strlit("8"); }
        "8"
    } else {
        proof { reveal_strlit("9"); }
        "9"
    }
}

/// The decimal notation of `n`, as `n.to_string()` gives it.
pub fn decimal_text(n: usize) -> (t: String)
    ensures
        t@ == decimal(n as nat),
    decreases n,
{
    if n < 10 {
        String::from_str(digit_text(n))
    } else {
        let mut t = decimal_text(n / 10);
        t.append(digit_text(n % 10));
        t
    }
}

/// The white space characters are exactly the 25 code points of Unicode's
/// `White_Space` property that `char::is_whitespace` accepts: the six ASCII
/// ones (tab, line feed, vertical tab, form feed, carriage return, space) and
/// nineteen others.
pub proof fn lemma_white_space_chars(c: char)
    ensures
        is_white_space(c) <==> set![
            '\u{09}', '\u{0A}', '\u{0B}', '\u{0C}', '\u{0D}', '\u{20}', '\u{85}', '\u{A0}',
            '\u{1680}', '\u{2000}', '\u{2001}', '\u{2002}', '\u{2003}', '\u{2004}', '\u{2005}',
            '\u{2006}', '\u{2007}', '\u{2008}', '\u{2009}', '\u{200A}', '\u{2028}', '\u{2029}',
            '\u{202F}', '\u{205F}', '\u{3000}',
        ].contains(c),
{
}

/// White space after a text does not change what trimming gives, for
/// instance a line ending `\r\n` or `\n`.
pub proof fn lemma_trimmed_ignores_trailing_white(s: Seq<char>, t: Seq<char>)
    requires
        all_white(t),
    ensures
        trimmed(s + t) == trimmed(s),
{
    let u = s + t;
    let a = first_non_white(s, 0);
    lemma_first_non_white(s, 0);
    if a < s.len() {
        assert(u.take(a) =~= s.take(a));
        lemma_trim_start_skip(u, a);
        lemma_trim_start_skip(s, a);
        assert(u.skip(a)[0] == s[a]);
        assert(s.skip(a)[0] == s[a]);
        assert(trim_start(u) == u.skip(a));
        assert(trim_start(s) == s.skip(a));
        let v = u.skip(a);
        let j = s.len() - a;
        assert forall|k: int| 0 <= k < v.len() - j implies is_white_space(#[trigger] v.skip(j)[k]) by {
            assert(v.skip(j)[k] == t[k]);
        }
        lemma_trim_end_take(v, j);
        assert(v.take(j) =~= s.skip(a));
    } else {
        assert(s.take(a) =~= s);
        assert forall|k: int| 0 <= k < u.len() implies is_white_space(#[trigger] u.take(u.len() as int)[k]) by {
            if k < s.len() {
                assert(u[k] == s.take(a)[k]);
            } else {
                assert(u[k] == t[k - s.len()]);
            }
        }
        lemma_trim_start_skip(u, u.len() as int);
        lemma_trim_start_skip(s, s.len() as int);
        assert(u.skip(u.len() as int) =~= Seq::<char>::empty());
        assert(s.skip(s.len() as int) =~= Seq::<char>::empty());
    }
}

/// White space before a text does not change what trimming gives.
pub proof fn lemma_trimmed_ignores_leading_white(t: Seq<char>, s: Seq<char>)
    requires
        all_white(t),
    ensures
        trimmed(t + s) == trimmed(s),
{
    let u = t + s;
    assert(u.take(t.len() as int) =~= t);
    lemma_trim_start_skip(u, t.len() as int);
    assert(u.skip(t.len() as int) =~= s);
}

/// A text that neither starts nor ends with white space is left as it is.
pub proof fn lemma_trimmed_keeps_clean_text(s: Seq<char>)
    requires
        s.len() == 0 || (!is_white_space(s[0]) && !is_white_space(s.last())),
    ensures
        trimmed(s) == s,
{
}

} // verus!
