//! Small text helpers: decimal rendering of integers and fixed-point values.

use vstd::prelude::*;
use vstd::string::*;

verus! {

/// The character of a decimal digit.
pub open spec fn digit_char(d: nat) -> char {
    if d == 0 { '0' }
    else if d == 1 { '1' }
    else if d == 2 { '2' }
    else if d == 3 { '3' }
    else if d == 4 { '4' }
    else if d == 5 { '5' }
    else if d == 6 { '6' }
    else if d == 7 { '7' }
    else if d == 8 { '8' }
    else { '9' }
}

/// The decimal notation of a natural number, without leading zeros.
pub open spec fn decimal(n: nat) -> Seq<char>
    decreases n,
{
    if n < 10 {
        seq![digit_char(n)]
    } else {
        decimal(n / 10) + seq![digit_char(n % 10)]
    }
}

pub(crate) fn digit_str(d: u64) -> (r: &'static str)
    requires
        d < 10,
    ensures
        r@ == seq![digit_char(d as nat)],
{
    proof {
        reveal_strlit("0");
        reveal_strlit("1");
        reveal_strlit("2");
        reveal_strlit("3");
        reveal_strlit("4");
        reveal_strlit("5");
        reveal_strlit("6");
        reveal_strlit("7");
        reveal_strlit("8");
        reveal_strlit("9");
    }
    if d == 0 { "0" }
    else if d == 1 { "1" }
    else if d == 2 { "2" }
    else if d == 3 { "3" }
    else if d == 4 { "4" }
    else if d == 5 { "5" }
    else if d == 6 { "6" }
    else if d == 7 { "7" }
    else if d == 8 { "8" }
    else { "9" }
}

/// Renders `n` in decimal, as `to_string` does for unsigned integers.
pub fn decimal_string(n: u64) -> (r: String)
    ensures
        r@ == decimal(n as nat),
    decreases n,
{
    if n < 10 {
        String::from_str(digit_str(n))
    } else {
        let head = decimal_string(n / 10);
        head.concat(digit_str(n % 10))
    }
}

/// Lexicographic order on text by character code, which is also the byte order
/// of the UTF-8 encodings.
pub open spec fn lex_le(a: Seq<char>, b: Seq<char>) -> bool
    decreases a.len(),
{
    if a.len() == 0 {
        true
    } else if b.len() == 0 {
        false
    } else if (a[0] as u32) != (b[0] as u32) {
        (a[0] as u32) < (b[0] as u32)
    } else {
        lex_le(a.drop_first(), b.drop_first())
    }
}

/// Any two texts are ordered one way or the other.
pub proof fn lemma_lex_total(a: Seq<char>, b: Seq<char>)
    ensures
        lex_le(a, b) || lex_le(b, a),
    decreases a.len(),
{
    if a.len() > 0 && b.len() > 0 && (a[0] as u32) == (b[0] as u32) {
        lemma_lex_total(a.drop_first(), b.drop_first());
    }
}

/// The order is transitive.
pub proof fn lemma_lex_trans(a: Seq<char>, b: Seq<char>, c: Seq<char>)
    requires
        lex_le(a, b),
        lex_le(b, c),
    ensures
        lex_le(a, c),
    decreases a.len(),
{
    if a.len() > 0 && b.len() > 0 && c.len() > 0 {
        if (a[0] as u32) == (b[0] as u32) && (b[0] as u32) == (c[0] as u32) {
            lemma_lex_trans(a.drop_first(), b.drop_first(), c.drop_first());
        }
    }
}

/// Whether `a` comes no later than `b` in lexicographic order.
pub fn text_le(a: &str, b: &str) -> (r: bool)
    ensures
        r == lex_le(a@, b@),
{
    let la = a.unicode_len();
    let lb = b.unicode_len();
    let mut i: usize = 0;
    assert(a@.subrange(0, la as int) =~= a@);
    assert(b@.subrange(0, lb as int) =~= b@);
    while i < la && i < lb && (a.get_char(i) as u32) == (b.get_char(i) as u32)
        invariant
            la == a@.len(),
            lb == b@.len(),
            i <= la,
            i <= lb,
            lex_le(a@, b@) == lex_le(a@.subrange(i as int, la as int), b@.subrange(i as int, lb as int)),
        decreases la - i,
    {
        proof {
            let sa = a@.subrange(i as int, la as int);
            let sb = b@.subrange(i as int, lb as int);
            assert(sa.drop_first() =~= a@.subrange(i + 1, la as int));
            assert(sb.drop_first() =~= b@.subrange(i + 1, lb as int));
        }
        i = i + 1;
    }
    if i == la {
        true
    } else if i == lb {
        false
    } else {
        let ca = a.get_char(i);
        let cb = b.get_char(i);
        (ca as u32) < (cb as u32)
    }
}

/// A non-negative count of thousandths in decimal notation, with the
/// fractional part's trailing zeros left out (and the point with them).
pub open spec fn milli_text_nat(v: nat) -> Seq<char> {
    let whole = decimal(v / 1000);
    let f = v % 1000;
    if f == 0 {
        whole
    } else if f % 100 == 0 {
        whole + seq!['.', digit_char(f / 100)]
    } else if f % 10 == 0 {
        whole + seq!['.', digit_char(f / 100), digit_char((f / 10) % 10)]
    } else {
        whole + seq!['.', digit_char(f / 100), digit_char((f / 10) % 10), digit_char(f % 10)]
    }
}

/// A count of thousandths in decimal notation, as `milli_text_nat`, with a
/// leading minus sign when negative.
pub open spec fn milli_text(v: int) -> Seq<char> {
    if v < 0 {
        seq!['-'] + milli_text_nat((-v) as nat)
    } else {
        milli_text_nat(v as nat)
    }
}

/// Renders a non-negative count of thousandths, e.g. 1500 as `1.5`.
pub fn milli_string(v: u64) -> (r: String)
    ensures
        r@ == milli_text_nat(v as nat),
{
    let whole = decimal_string(v / 1000);
    let f = v % 1000;
    proof {
        reveal_strlit(".");
    }
    if f == 0 {
        whole
    } else if f % 100 == 0 {
        whole.concat(".").concat(digit_str(f / 100))
    } else if f % 10 == 0 {
        whole.concat(".").concat(digit_str(f / 100)).concat(digit_str((f / 10) % 10))
    } else {
        whole.concat(".").concat(digit_str(f / 100)).concat(digit_str((f / 10) % 10)).concat(
            digit_str(f % 10),
        )
    }
}

/// Renders a count of thousandths with its sign, e.g. -250 as `-0.25`.
pub fn signed_milli_string(v: i32) -> (r: String)
    ensures
        r@ == milli_text(v as int),
{
    proof {
        reveal_strlit("-");
    }
    if v < 0 {
        let magnitude: u64 = (0i64 - v as i64) as u64;
        String::from_str("-").concat(milli_string(magnitude).as_str())
    } else {
        milli_string(v as u64)
    }
}

/// Whether two texts are equal, character by character.
pub fn text_eq(a: &str, b: &str) -> (r: bool)
    ensures
        r == (a@ == b@),
{
    let la = a.unicode_len();
    let lb = b.unicode_len();
    if la != lb {
        return false;
    }
    let mut i: usize = 0;
    while i < la
        invariant
            la == a@.len(),
            lb == b@.len(),
            la == lb,
            i <= la,
            a@.subrange(0, i as int) == b@.subrange(0, i as int),
        decreases la - i,
    {
        if a.get_char(i) != b.get_char(i) {
            assert(a@[i as int] != b@[i as int]);
            return false;
        }
        assert(a@.subrange(0, i + 1) =~= a@.subrange(0, i as int).push(a@[i as int]));
        assert(b@.subrange(0, i + 1) =~= b@.subrange(0, i as int).push(b@[i as int]));
        i = i + 1;
    }
    assert(a@ =~= a@.subrange(0, la as int));
    assert(b@ =~= b@.subrange(0, lb as int));
    true
}

/// Path joining: an absolute `b` replaces `a`; otherwise `b` follows `a`,
/// with one separator between them when `a` does not already end in one.
pub open spec fn path_join(a: Seq<char>, b: Seq<char>) -> Seq<char> {
    if b.len() > 0 && b[0] == '/' {
        b
    } else if a.len() == 0 || a[a.len() - 1] == '/' {
        a + b
    } else {
        a + seq!['/'] + b
    }
}

/// Joins two paths as `path_join` states.
pub fn join_path(a: &str, b: &str) -> (r: String)
    ensures
        r@ == path_join(a@, b@),
{
    proof {
        reveal_strlit("/");
    }
    let lb = b.unicode_len();
    let la = a.unicode_len();
    if lb > 0 && b.get_char(0) == '/' {
        String::from_str(b)
    } else if la == 0 || a.get_char(la - 1) == '/' {
        String::from_str(a).concat(b)
    } else {
        String::from_str(a).concat("/").concat(b)
    }
}

/// A path without its trailing separators.
pub open spec fn trim_slashes(s: Seq<char>) -> Seq<char>
    decreases s.len(),
{
    if s.len() > 0 && s[s.len() - 1] == '/' {
        trim_slashes(s.drop_last())
    } else {
        s
    }
}

proof fn lemma_trim_slashes_prefix(s: Seq<char>)
    ensures
        trim_slashes(s).len() <= s.len(),
        trim_slashes(s) == s.subrange(0, trim_slashes(s).len() as int),
    decreases s.len(),
{
    if s.len() > 0 && s[s.len() - 1] == '/' {
        lemma_trim_slashes_prefix(s.drop_last());
        assert(s.drop_last().subrange(0, trim_slashes(s).len() as int) =~= s.subrange(
            0,
            trim_slashes(s).len() as int,
        ));
    } else {
        assert(s.subrange(0, s.len() as int) =~= s);
    }
}

/// The length of `s` without its trailing separators.
fn trimmed_len(s: &str) -> (r: usize)
    ensures
        r == trim_slashes(s@).len(),
        r <= s@.len(),
{
    let mut n = s.unicode_len();
    proof {
        lemma_trim_slashes_prefix(s@);
        assert(s@.subrange(0, n as int) =~= s@);
    }
    while n > 0 && s.get_char(n - 1) == '/'
        invariant
            n <= s@.len(),
            trim_slashes(s@) == trim_slashes(s@.subrange(0, n as int)),
        decreases n,
    {
        assert(s@.subrange(0, n as int).drop_last() =~= s@.subrange(0, n - 1));
        n = n - 1;
    }
    proof {
        let t = s@.subrange(0, n as int);
        assert(trim_slashes(t) == t);
    }
    n
}

/// A path without its leading separators.
pub open spec fn trim_leading_slashes(s: Seq<char>) -> Seq<char>
    decreases s.len(),
{
    if s.len() > 0 && s[0] == '/' {
        trim_leading_slashes(s.drop_first())
    } else {
        s
    }
}

/// The part of `p` below the directory `root`: `p` must begin with `root`
/// (trailing separators aside) followed by a separator; the part is what
/// follows all the separators there.
pub open spec fn relative_to(root: Seq<char>, p: Seq<char>) -> Option<Seq<char>> {
    let r = trim_slashes(root);
    if p.len() > r.len() && p.subrange(0, r.len() as int) == r && p[r.len() as int] == '/' {
        Some(trim_leading_slashes(p.subrange(r.len() as int, p.len() as int)))
    } else {
        None
    }
}

/// Whether `p` begins with `q`, character by character.
fn starts_with(p: &str, q: &str, n: usize) -> (r: bool)
    requires
        n <= q@.len(),
        n <= p@.len(),
    ensures
        r == (p@.subrange(0, n as int) == q@.subrange(0, n as int)),
{
    let mut i: usize = 0;
    while i < n
        invariant
            n <= q@.len(),
            n <= p@.len(),
            i <= n,
            p@.subrange(0, i as int) == q@.subrange(0, i as int),
        decreases n - i,
    {
        if p.get_char(i) != q.get_char(i) {
            assert(p@.subrange(0, n as int)[i as int] != q@.subrange(0, n as int)[i as int]);
            return false;
        }
        assert(p@.subrange(0, i + 1) =~= p@.subrange(0, i as int).push(p@[i as int]));
        assert(q@.subrange(0, i + 1) =~= q@.subrange(0, i as int).push(q@[i as int]));
        i = i + 1;
    }
    true
}

/// The part of `p` below `root`, as `relative_to` states.
pub fn strip_root(root: &str, p: &str) -> (r: Option<String>)
    ensures
        r matches Some(s) ==> relative_to(root@, p@) == Some(s@),
        r is None ==> relative_to(root@, p@) is None,
        r matches Some(s) ==> !(s@.len() > 0 && s@[0] == '/'),
{
    let n = trimmed_len(root);
    let lp = p.unicode_len();
    proof {
        lemma_trim_slashes_prefix(root@);
    }
    if lp <= n {
        return None;
    }
    if !starts_with(p, root, n) {
        return None;
    }
    if p.get_char(n) != '/' {
        return None;
    }
    let mut j = n;
    assert(p@.subrange(n as int, lp as int) =~= p@.subrange(j as int, lp as int));
    while j < lp && p.get_char(j) == '/'
        invariant
            n <= j <= lp,
            lp == p@.len(),
            trim_leading_slashes(p@.subrange(n as int, lp as int)) == trim_leading_slashes(
                p@.subrange(j as int, lp as int),
            ),
        decreases lp - j,
    {
        assert(p@.subrange(j as int, lp as int).drop_first() =~= p@.subrange(j + 1, lp as int));
        j = j + 1;
    }
    Some(String::from_str(p.substring_char(j, lp)))
}

/// Whether `p` lies in a category directory of `root`: the first component of
/// `p` below `root` begins with a dot.
pub open spec fn in_category_dir(root: Seq<char>, p: Seq<char>) -> bool {
    match relative_to(root, p) {
        Some(rest) => rest.len() > 0 && rest[0] == '.',
        None => false,
    }
}

/// Whether `p` lies in a category directory of `root`.
pub fn is_in_category_dir(root: &str, p: &str) -> (r: bool)
    ensures
        r == in_category_dir(root@, p@),
{
    match strip_root(root, p) {
        Some(rest) => rest.as_str().unicode_len() > 0 && rest.as_str().get_char(0) == '.',
        None => false,
    }
}

} // verus!
