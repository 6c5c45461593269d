//! Character-level string helpers shared by the monitor: decimal rendering,
//! prefix and substring tests, and building strings out of pieces.
use vstd::prelude::*;
use vstd::string::*;

verus! {

/// `String::push` from std: appends one character at the end of the string.
#[verifier::external_body]
pub(crate) fn push_char(s: &mut String, c: char)
    ensures
        final(s)@ == old(s)@.push(c),
{
    s.push(c);
}

/// The characters of a string slice, in order.
pub fn chars_of(s: &str) -> (r: Vec<char>)
    ensures
        r@ == s@,
{
    let mut r: Vec<char> = Vec::new();
    for c in it: s.chars()
        invariant
            r@ == it.seq().take(it.index() as int),
            it.seq() == s@,
    {
        r.push(c);
    }
    r
}

/// The decimal digit character for `d` (taken modulo 10).
pub open spec fn digit_char(d: nat) -> char {
    let k = d % 10;
    if k == 0 { '0' }
    else if k == 1 { '1' }
    else if k == 2 { '2' }
    else if k == 3 { '3' }
    else if k == 4 { '4' }
    else if k == 5 { '5' }
    else if k == 6 { '6' }
    else if k == 7 { '7' }
    else if k == 8 { '8' }
    else { '9' }
}

/// The shortest decimal rendering of `n` (as `{}` formats an unsigned integer).
pub open spec fn decimal(n: nat) -> Seq<char>
    decreases n,
{
    if n < 10 {
        seq![digit_char(n)]
    } else {
        decimal(n / 10).push(digit_char(n % 10))
    }
}

/// `decimal(n)` left-padded with `'0'` to at least `width` characters
/// (as `{:0width$}` formats an unsigned integer).
pub open spec fn zero_padded(n: nat, width: nat) -> Seq<char> {
    let d = decimal(n);
    if d.len() >= width {
        d
    } else {
        Seq::new((width - d.len()) as nat, |i: int| '0') + d
    }
}

fn digit(d: u64) -> (c: char)
    requires
        d < 10,
    ensures
        c == digit_char(d as nat),
{
    if d == 0 { '0' }
    else if d == 1 { '1' }
    else if d == 2 { '2' }
    else if d == 3 { '3' }
    else if d == 4 { '4' }
    else if d == 5 { '5' }
    else if d == 6 { '6' }
    else if d == 7 { '7' }
    else if d == 8 { '8' }
    else { '9' }
}

/// Appends the decimal rendering of `n` to `out`.
pub fn push_decimal(out: &mut String, n: u64)
    ensures
        final(out)@ == old(out)@ + decimal(n as nat),
    decreases n,
{
    if n < 10 {
        push_char(out, digit(n));
        assert(old(out)@.push(digit_char(n as nat)) == old(out)@ + seq![digit_char(n as nat)]);
    } else {
        push_decimal(out, n / 10);
        push_char(out, digit(n % 10));
        assert((old(out)@ + decimal((n / 10) as nat)).push(digit_char((n % 10) as nat))
            == old(out)@ + decimal((n / 10) as nat).push(digit_char((n % 10) as nat)));
    }
}

/// The decimal rendering of `n`.
pub fn decimal_string(n: u64) -> (r: String)
    ensures
        r@ == decimal(n as nat),
{
    let mut r = String::new();
    push_decimal(&mut r, n);
    assert(Seq::<char>::empty() + decimal(n as nat) == decimal(n as nat));
    r
}

/// Appends `n` in decimal, left-padded with zeros to `width` characters.
pub fn push_zero_padded(out: &mut String, n: u64, width: usize)
    ensures
        final(out)@ == old(out)@ + zero_padded(n as nat, width as nat),
{
    let digits = decimal_string(n);
    let ds = chars_of(digits.as_str());
    let len = ds.len();
    if len < width {
        let pad = width - len;
        let mut i: usize = 0;
        while i < pad
            invariant
                i <= pad,
                pad == width - len,
                out@ == old(out)@ + Seq::new(i as nat, |j: int| '0'),
            decreases pad - i,
        {
            push_char(out, '0');
            i = i + 1;
            assert(out@ == old(out)@ + Seq::new(i as nat, |j: int| '0'));
        }
    }
    out.append(digits.as_str());
    assert(out@ == old(out)@ + zero_padded(n as nat, width as nat));
}

/// `p` is a prefix of `s`.
pub open spec fn is_prefix(p: Seq<char>, s: Seq<char>) -> bool {
    p.len() <= s.len() && s.subrange(0, p.len() as int) == p
}

/// `p` occurs in `s` as a contiguous run of characters.
pub open spec fn occurs_in(p: Seq<char>, s: Seq<char>) -> bool {
    exists|i: int| 0 <= i && i + p.len() <= s.len() && #[trigger] s.subrange(i, i + p.len()) == p
}

fn matches_at(s: &Vec<char>, p: &Vec<char>, at: usize) -> (r: bool)
    requires
        at + p@.len() <= s@.len(),
    ensures
        r == (s@.subrange(at as int, at + p@.len()) == p@),
{
    let n = p.len();
    let mut k: usize = 0;
    while k < n
        invariant
            n == p@.len(),
            at + n <= s.len(),
            k <= n,
            forall|j: int| 0 <= j < k ==> s@[at + j] == p@[j],
        decreases n - k,
    {
        if s[at + k] != p[k] {
            assert(s@.subrange(at as int, at + n)[k as int] != p@[k as int]);
            return false;
        }
        k = k + 1;
    }
    assert(s@.subrange(at as int, at + n) =~= p@);
    true
}

/// Whether `p` is a prefix of `s` (as `str::starts_with`).
pub fn has_prefix(s: &str, p: &str) -> (r: bool)
    ensures
        r == is_prefix(p@, s@),
{
    let sc = chars_of(s);
    let pc = chars_of(p);
    if pc.len() > sc.len() {
        false
    } else {
        matches_at(&sc, &pc, 0)
    }
}

/// Whether `p` occurs in `s` (as `str::contains` with a string pattern).
pub fn contains_str(s: &str, p: &str) -> (r: bool)
    ensures
        r == occurs_in(p@, s@),
{
    let sc = chars_of(s);
    let pc = chars_of(p);
    if pc.len() > sc.len() {
        return false;
    }
    let last = sc.len() - pc.len();
    let mut i: usize = 0;
    loop
        invariant
            last == sc@.len() - pc@.len(),
            pc@.len() <= sc@.len(),
            sc@ == s@,
            pc@ == p@,
            i <= last,
            forall|j: int| 0 <= j < i ==> #[trigger] sc@.subrange(j, j + pc@.len()) != pc@,
        decreases last - i,
    {
        if matches_at(&sc, &pc, i) {
            return true;
        }
        if i == last {
            return false;
        }
        i = i + 1;
    }
}

/// Whether two string slices hold the same characters.
pub fn str_eq(a: &str, b: &str) -> (r: bool)
    ensures
        r == (a@ == b@),
{
    let x = String::from_str(a);
    let y = String::from_str(b);
    x == y
}

} // verus!
