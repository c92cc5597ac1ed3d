//! Character-level helpers on strings, stated over `Seq<char>`.
use vstd::prelude::*;
use iter_tools::Itertools;

verus! {

/// Appends one character to a string (`String::push`).
#[verifier::external_body]
pub(crate) fn string_push(s: &mut String, c: char)
    ensures
        final(s)@ == old(s)@.push(c),
{
    s.push(c);
}

/// The characters of a string slice, in order.
pub fn chars_of(s: &str) -> (v: Vec<char>)
    ensures
        v@ == s@,
{
    let mut v: Vec<char> = Vec::new();
    for c in it: s.chars()
        invariant
            v@ == it.seq().take(it.index() as int),
    {
        v.push(c);
    }
    v
}

} // verus!

verus! {

/// The string whose characters are `v`, in order.
pub fn string_from_chars(v: &Vec<char>) -> (s: String)
    ensures
        s@ == v@,
{
    let mut s = String::new();
    let mut i: usize = 0;
    while i < v.len()
        invariant
            i <= v.len(),
            s@ == v@.take(i as int),
        decreases v.len() - i,
    {
        string_push(&mut s, v[i]);
        proof {
            assert(v@.take(i as int).push(v@[i as int]) =~= v@.take(i + 1));
        }
        i = i + 1;
    }
    proof {
        assert(v@.take(v.len() as int) =~= v@);
    }
    s
}

/// `a` followed by `b`.
pub fn concat(a: &str, b: &str) -> (s: String)
    ensures
        s@ == a@ + b@,
{
    let mut s = String::new();
    s.append(a);
    s.append(b);
    proof {
        assert(Seq::<char>::empty() + a@ == a@);
    }
    s
}

/// The character that writes the decimal digit `d`.
pub open spec fn digit_char(d: nat) -> char {
    if d == 0 { '0' }
    else if d == 1 { '1' }
    else if d == 2 { '2' }
    else if d == 3 { '3' }
    else if d == 4 { '4' }
    else if d == 5 { '5' }
    else if d == 6 { '6' }
    else if d == 7 { '7' }
    else if d == 8 { '8' }
    else { '9' }
}

/// The decimal digits of a natural number, most significant first, with no
/// leading zero (zero itself is written `0`).
#[verifier::opaque]
pub open spec fn nat_decimal(n: nat) -> Seq<char>
    decreases n,
{
    if n < 10 {
        seq![digit_char(n)]
    } else {
        nat_decimal(n / 10).push(digit_char(n % 10))
    }
}

/// The decimal form of an integer, as Rust's `Display` writes it: a minus
/// sign for negative numbers, then the digits of the magnitude.
pub open spec fn int_decimal(i: int) -> Seq<char> {
    if i < 0 {
        seq!['-'] + nat_decimal((-i) as nat)
    } else {
        nat_decimal(i as nat)
    }
}

/// The value of a text of decimal digits, most significant first.
pub open spec fn decimal_value(s: Seq<char>) -> int
    decreases s.len(),
{
    if s.len() == 0 {
        0
    } else {
        decimal_value(s.drop_last()) * 10 + (s.last() as int - '0' as int)
    }
}

/// Whether `c` is one of the ten decimal digits.
pub open spec fn is_digit(c: char) -> bool {
    '0' <= c && c <= '9'
}

/// The decimal form of a number is made of digits and reads back as it.
pub proof fn lemma_nat_decimal_reads_back(n: nat)
    ensures
        nat_decimal(n).len() >= 1,
        forall|i: int| 0 <= i < nat_decimal(n).len() ==> is_digit(#[trigger] nat_decimal(n)[i]),
        decimal_value(nat_decimal(n)) == n,
    decreases n,
{
    lemma_nat_decimal_step(n);
    if n < 10 {
        assert(nat_decimal(n).drop_last() =~= Seq::<char>::empty());
        assert(decimal_value(nat_decimal(n)) == decimal_value(Seq::<char>::empty()) * 10 + (digit_char(n) as int - '0' as int));
    } else {
        lemma_nat_decimal_reads_back(n / 10);
        let d = nat_decimal(n);
        let q = nat_decimal(n / 10);
        assert(d.drop_last() =~= q);
        assert(decimal_value(d) == decimal_value(q) * 10 + (digit_char(n % 10) as int - '0' as int));
        assert((n / 10) * 10 + n % 10 == n);
    }
}

/// Two numbers with the same decimal form are equal.
pub proof fn lemma_int_decimal_injective(a: int, b: int)
    requires
        int_decimal(a) == int_decimal(b),
    ensures
        a == b,
{
    if a < 0 {
        lemma_nat_decimal_reads_back((-a) as nat);
    } else {
        lemma_nat_decimal_reads_back(a as nat);
    }
    if b < 0 {
        lemma_nat_decimal_reads_back((-b) as nat);
    } else {
        lemma_nat_decimal_reads_back(b as nat);
    }
    if a < 0 && b < 0 {
        assert(int_decimal(a).drop_first() =~= nat_decimal((-a) as nat));
        assert(int_decimal(b).drop_first() =~= nat_decimal((-b) as nat));
    } else if a < 0 {
        assert(int_decimal(a)[0] == '-');
        assert(is_digit(nat_decimal(b as nat)[0]));
    } else if b < 0 {
        assert(int_decimal(b)[0] == '-');
        assert(is_digit(nat_decimal(a as nat)[0]));
    }
}

/// The decimal form of a number is not empty and holds only digits and a
/// leading minus sign.
pub proof fn lemma_int_decimal_chars(i: int)
    ensures
        int_decimal(i).len() >= 1,
        forall|k: int| 0 <= k < int_decimal(i).len() ==> (is_digit(#[trigger] int_decimal(i)[k]) || int_decimal(i)[k] == '-'),
{
    if i < 0 {
        lemma_nat_decimal_reads_back((-i) as nat);
        assert forall|k: int| 0 <= k < int_decimal(i).len() implies (is_digit(#[trigger] int_decimal(i)[k])
            || int_decimal(i)[k] == '-') by {
            if k > 0 {
                assert(int_decimal(i)[k] == nat_decimal((-i) as nat)[k - 1]);
            }
        }
    } else {
        lemma_nat_decimal_reads_back(i as nat);
    }
}

fn digit_of(d: u64) -> (c: char)
    requires
        d < 10,
    ensures
        c == digit_char(d as nat),
{
    match d {
        0 => '0',
        1 => '1',
        2 => '2',
        3 => '3',
        4 => '4',
        5 => '5',
        6 => '6',
        7 => '7',
        8 => '8',
        _ => '9',
    }
}

/// The decimal digits of `n`.
pub fn u64_decimal(n: u64) -> (s: String)
    ensures
        s@ == nat_decimal(n as nat),
{
    // digits collected least significant first
    let mut rev: Vec<char> = Vec::new();
    let mut m: u64 = n;
    loop
        invariant_except_break
            nat_decimal(n as nat) == nat_decimal(m as nat) + rev@.reverse(),
        ensures
            nat_decimal(n as nat) == rev@.reverse(),
        decreases m,
    {
        let d = m % 10;
        let ghost before = rev@;
        proof {
            lemma_nat_decimal_step(m as nat);
        }
        rev.push(digit_of(d));
        proof {
            assert(rev@.reverse() =~= seq![digit_char(d as nat)] + before.reverse());
        }
        if m < 10 {
            break;
        }
        proof {
            assert(nat_decimal(m as nat) + before.reverse() =~= nat_decimal((m / 10) as nat)
                + rev@.reverse());
        }
        m = m / 10;
    }
    let mut out: Vec<char> = Vec::new();
    let mut j: usize = rev.len();
    while j > 0
        invariant
            j <= rev.len(),
            out@ =~= rev@.subrange(j as int, rev.len() as int).reverse(),
        decreases j,
    {
        j = j - 1;
        out.push(rev[j]);
        proof {
            assert(rev@.subrange(j as int, rev.len() as int).reverse() =~= rev@.subrange(
                j + 1,
                rev.len() as int,
            ).reverse().push(rev@[j as int]));
        }
    }
    proof {
        assert(rev@.subrange(0, rev.len() as int) =~= rev@);
    }
    string_from_chars(&out)
}

proof fn lemma_nat_decimal_step(m: nat)
    ensures
        m >= 10 ==> nat_decimal(m) == nat_decimal(m / 10).push(digit_char(m % 10)),
        m < 10 ==> nat_decimal(m) == seq![digit_char(m)],
{
    reveal(nat_decimal);
}

} // verus!

verus! {

/// The decimal form of `i`, as `i.to_string()` writes it.
pub fn i64_decimal(i: i64) -> (s: String)
    ensures
        s@ == int_decimal(i as int),
{
    if i < 0 {
        let magnitude: u64 = if i == i64::MIN {
            9223372036854775808u64
        } else {
            (-i) as u64
        };
        let digits = u64_decimal(magnitude);
        let mut s = String::new();
        string_push(&mut s, '-');
        s.append(digits.as_str());
        s
    } else {
        u64_decimal(i as u64)
    }
}

/// `true` exactly when `a` and `b` hold the same characters.
pub fn str_eq(a: &str, b: &str) -> (r: bool)
    ensures
        r == (a@ == b@),
{
    let x = chars_of(a);
    let y = chars_of(b);
    if x.len() != y.len() {
        return false;
    }
    let mut i: usize = 0;
    while i < x.len()
        invariant
            x@ == a@,
            y@ == b@,
            x.len() == y.len(),
            i <= x.len(),
            forall|k: int| 0 <= k < i ==> x@[k] == y@[k],
        decreases x.len() - i,
    {
        if x[i] != y[i] {
            return false;
        }
        i = i + 1;
    }
    proof {
        assert(x@ =~= y@);
    }
    true
}

} // verus!

verus! {

/// The parts joined with `sep` between each two neighbours.
pub open spec fn seq_join(parts: Seq<Seq<char>>, sep: Seq<char>) -> Seq<char>
    decreases parts.len(),
{
    if parts.len() == 0 {
        Seq::empty()
    } else if parts.len() == 1 {
        parts[0]
    } else {
        seq_join(parts.drop_last(), sep) + sep + parts.last()
    }
}

/// The character sequences of a list of strings.
pub open spec fn views_of(parts: Seq<String>) -> Seq<Seq<char>> {
    parts.map_values(|p: String| p@)
}

/// `Itertools::join` over strings: the parts written one after the other,
/// with `sep` between each two of them; the empty string for no parts.
#[verifier::external_body]
pub(crate) fn join_with(parts: &Vec<String>, sep: &str) -> (r: String)
    ensures
        r@ == seq_join(views_of(parts@), sep@),
{
    parts.iter().join(sep)
}

} // verus!

verus! {

/// `base.join(component)` for Unix paths: an absolute component replaces
/// the base; otherwise it is appended, after a `/` unless the base is empty
/// or already ends with one.
pub open spec fn spec_path_join(base: Seq<char>, component: Seq<char>) -> Seq<char> {
    if component.len() > 0 && component[0] == '/' {
        component
    } else if base.len() > 0 && base.last() != '/' {
        base + seq!['/'] + component
    } else {
        base + component
    }
}

/// Joins a path component onto a base path, as `Path::join` does on Unix.
pub fn path_join(base: &str, component: &str) -> (r: String)
    ensures
        r@ == spec_path_join(base@, component@),
{
    let b = chars_of(base);
    let c = chars_of(component);
    if c.len() > 0 && c[0] == '/' {
        return String::from_str(component);
    }
    let mut s = String::from_str(base);
    if b.len() > 0 && b[b.len() - 1] != '/' {
        string_push(&mut s, '/');
    }
    s.append(component);
    proof {
        if b.len() > 0 && b@.last() != '/' {
            assert(base@.push('/') + component@ =~= base@ + seq!['/'] + component@);
        }
    }
    s
}

/// Whether `prefix` is a prefix of `s`.
pub fn starts_with(s: &str, prefix: &str) -> (r: bool)
    ensures
        r == prefix@.is_prefix_of(s@),
{
    let x = chars_of(s);
    let p = chars_of(prefix);
    if p.len() > x.len() {
        return false;
    }
    let mut i: usize = 0;
    while i < p.len()
        invariant
            x@ == s@,
            p@ == prefix@,
            p.len() <= x.len(),
            i <= p.len(),
            forall|k: int| 0 <= k < i ==> p@[k] == x@[k],
        decreases p.len() - i,
    {
        if p[i] != x[i] {
            return false;
        }
        i = i + 1;
    }
    true
}

/// Whether `suffix` is a suffix of `s`.
pub open spec fn is_suffix(suffix: Seq<char>, s: Seq<char>) -> bool {
    suffix.len() <= s.len() && s.subrange(s.len() - suffix.len(), s.len() as int) == suffix
}

/// Whether `s` ends with `suffix`.
pub fn ends_with(s: &str, suffix: &str) -> (r: bool)
    ensures
        r == is_suffix(suffix@, s@),
{
    let x = chars_of(s);
    let p = chars_of(suffix);
    if p.len() > x.len() {
        return false;
    }
    let off = x.len() - p.len();
    let mut i: usize = 0;
    while i < p.len()
        invariant
            x@ == s@,
            p@ == suffix@,
            p.len() <= x.len(),
            off == x.len() - p.len(),
            i <= p.len(),
            forall|k: int| 0 <= k < i ==> p@[k] == x@[off + k],
        decreases p.len() - i,
    {
        if p[i] != x[off + i] {
            proof {
                assert(x@.subrange(off as int, x.len() as int)[i as int] != p@[i as int]);
            }
            return false;
        }
        i = i + 1;
    }
    proof {
        assert(x@.subrange(off as int, x.len() as int) =~= p@);
    }
    true
}

} // verus!
