//! Text helpers: decimal rendering of integers and substring search.

use vstd::prelude::*;

verus! {

/// The character of a decimal digit `d` (0 to 9).
pub open spec fn digit_char(d: nat) -> char {
    (48 + d) as char
}

/// Decimal digits of a natural number, most significant first, no leading zeros.
pub open spec fn nat_digits(n: nat) -> Seq<char>
    decreases n,
{
    if n < 10 {
        seq![digit_char(n)]
    } else {
        nat_digits(n / 10).push(digit_char(n % 10))
    }
}

/// Decimal text of an integer, with a leading `-` when it is negative.
pub open spec fn int_decimal(x: int) -> Seq<char> {
    if x < 0 {
        seq!['-'] + nat_digits((-x) as nat)
    } else {
        nat_digits(x as nat)
    }
}

/// The text of one decimal digit.
fn digit_text(d: u64) -> (t: &'static str)
    requires
        d < 10,
    ensures
        t@ == seq![digit_char(d as nat)],
{
    proof {
        reveal_strlit("0");
        reveal_strlit("1");
        reveal_strlit("2");
        reveal_strlit("3");
        reveal_strlit("4");
        reveal_strlit("5");
        reveal_strlit("6");
        reveal_strlit("7");
        reveal_strlit("8");
        reveal_strlit("9");
    }
    let t = if d == 0 {
        "0"
    } else if d == 1 {
        "1"
    } else if d == 2 {
        "2"
    } else if d == 3 {
        "3"
    } else if d == 4 {
        "4"
    } else if d == 5 {
        "5"
    } else if d == 6 {
        "6"
    } else if d == 7 {
        "7"
    } else if d == 8 {
        "8"
    } else {
        "9"
    };
    assert(t@ =~= seq![digit_char(d as nat)]);
    t
}

/// Appends the decimal digits of `n` to `out`.
fn push_digits(out: &mut String, n: u64)
    ensures
        final(out)@ == old(out)@ + nat_digits(n as nat),
    decreases n,
{
    if n >= 10 {
        push_digits(out, n / 10);
    }
    out.append(digit_text(n % 10));
    assert(final(out)@ =~= old(out)@ + nat_digits(n as nat));
}

/// The decimal text of `x`, with a `-` sign when it is negative.
pub fn decimal_of_i64(x: i64) -> (text: String)
    ensures
        text@ == int_decimal(x as int),
{
    let mut out = String::new();
    if x < 0 {
        out.append("-");
        proof {
            reveal_strlit("-");
        }
        let magnitude: u64 = (-(x as i128)) as u64;
        push_digits(&mut out, magnitude);
        assert(out@ =~= int_decimal(x as int));
    } else {
        push_digits(&mut out, x as u64);
        assert(out@ =~= int_decimal(x as int));
    }
    out
}

/// The decimal text of `x`.
pub fn decimal_of_u64(x: u64) -> (text: String)
    ensures
        text@ == int_decimal(x as int),
{
    let mut out = String::new();
    push_digits(&mut out, x);
    assert(out@ =~= int_decimal(x as int));
    out
}

/// `needle` occurs in `hay` starting at position `i`.
pub open spec fn occurs_at(hay: Seq<char>, needle: Seq<char>, i: int) -> bool {
    &&& 0 <= i
    &&& i + needle.len() <= hay.len()
    &&& hay.subrange(i, i + needle.len()) == needle
}

/// `needle` occurs somewhere in `hay`.
pub open spec fn has_substring(hay: Seq<char>, needle: Seq<char>) -> bool {
    exists|i: int| occurs_at(hay, needle, i)
}

/// The characters of `s`, in order.
fn chars_of(s: &str) -> (out: Vec<char>)
    ensures
        out@ == s@,
{
    let n = s.unicode_len();
    let mut out: Vec<char> = Vec::new();
    let mut i: usize = 0;
    while i < n
        invariant
            n == s@.len(),
            i <= n,
            out@ == s@.subrange(0, i as int),
        decreases n - i,
    {
        let c = s.get_char(i);
        out.push(c);
        i = i + 1;
        assert(out@ =~= s@.subrange(0, i as int));
    }
    assert(out@ =~= s@);
    out
}

/// Whether `needle` occurs in `hay` (what `str::contains` answers for a
/// string pattern).
pub fn contains_text(hay: &str, needle: &str) -> (found: bool)
    ensures
        found == has_substring(hay@, needle@),
{
    let h = chars_of(hay);
    let n = chars_of(needle);
    let hl = h.len();
    let nl = n.len();
    if nl > hl {
        assert forall|k: int| !occurs_at(hay@, needle@, k) by {}
        return false;
    }
    let mut i: usize = 0;
    while i <= hl - nl
        invariant
            h@ == hay@,
            n@ == needle@,
            hl == h.len(),
            nl == n.len(),
            nl <= hl,
            i <= hl - nl + 1,
            forall|k: int| 0 <= k < i ==> !occurs_at(hay@, needle@, k),
        decreases hl - nl + 1 - i,
    {
        let mut j: usize = 0;
        let mut same = true;
        while j < nl
            invariant
                h@ == hay@,
                n@ == needle@,
                hl == h.len(),
                nl == n.len(),
                i + nl <= hl,
                j <= nl,
                same <==> (forall|t: int| 0 <= t < j ==> h@[i + t] == n@[t]),
            decreases nl - j,
        {
            if h[i + j] != n[j] {
                same = false;
            }
            j = j + 1;
        }
        if same {
            assert(hay@.subrange(i as int, i + nl) =~= needle@);
            assert(occurs_at(hay@, needle@, i as int));
            return true;
        } else {
            assert(!occurs_at(hay@, needle@, i as int)) by {
                if occurs_at(hay@, needle@, i as int) {
                    let t = choose|t: int| 0 <= t < nl && h@[i + t] != n@[t];
                    assert(hay@.subrange(i as int, i + nl)[t] == h@[i + t]);
                }
            }
        }
        i = i + 1;
    }
    assert forall|k: int| !occurs_at(hay@, needle@, k) by {
        if 0 <= k < i {
        }
    }
    false
}

/// Decimal digit characters are never a minus sign, and distinct digits
/// have distinct characters.
proof fn lemma_digit_char(a: nat, b: nat)
    requires
        a < 10,
        b < 10,
    ensures
        digit_char(a) != '-',
        digit_char(a) == digit_char(b) ==> a == b,
{
    assert(digit_char(a) as int == 48 + a);
    assert(digit_char(b) as int == 48 + b);
}

/// The digits of a number are at least one character, at least two from 10
/// on, and none of them is a minus sign.
pub proof fn lemma_nat_digits_shape(n: nat)
    ensures
        nat_digits(n).len() >= 1,
        n >= 10 ==> nat_digits(n).len() >= 2,
        forall|i: int| 0 <= i < nat_digits(n).len() ==> #[trigger] nat_digits(n)[i] != '-',
    decreases n,
{
    lemma_digit_char(n % 10, 0);
    if n >= 10 {
        lemma_nat_digits_shape(n / 10);
    }
}

/// Different numbers have different decimal digits.
pub proof fn lemma_nat_digits_injective(a: nat, b: nat)
    requires
        nat_digits(a) == nat_digits(b),
    ensures
        a == b,
    decreases a,
{
    lemma_nat_digits_shape(a);
    lemma_nat_digits_shape(b);
    let s = nat_digits(a);
    if a < 10 && b < 10 {
        assert(s[0] == digit_char(a));
        assert(nat_digits(b)[0] == digit_char(b));
        lemma_digit_char(a, b);
    } else if a >= 10 && b >= 10 {
        assert(s.last() == digit_char(a % 10));
        assert(nat_digits(b).last() == digit_char(b % 10));
        lemma_digit_char(a % 10, b % 10);
        assert(s.drop_last() =~= nat_digits(a / 10));
        assert(nat_digits(b).drop_last() =~= nat_digits(b / 10));
        lemma_nat_digits_injective(a / 10, b / 10);
    }
}

/// Different integers have different decimal texts: the text determines
/// the number, sign included.
pub proof fn lemma_int_decimal_injective(x: int, y: int)
    requires
        int_decimal(x) == int_decimal(y),
    ensures
        x == y,
{
    lemma_nat_digits_shape(x as nat);
    lemma_nat_digits_shape(y as nat);
    lemma_nat_digits_shape((-x) as nat);
    lemma_nat_digits_shape((-y) as nat);
    let t = int_decimal(x);
    if x < 0 && y < 0 {
        assert(t.subrange(1, t.len() as int) =~= nat_digits((-x) as nat));
        assert(int_decimal(y).subrange(1, t.len() as int) =~= nat_digits((-y) as nat));
        lemma_nat_digits_injective((-x) as nat, (-y) as nat);
    } else if x >= 0 && y >= 0 {
        lemma_nat_digits_injective(x as nat, y as nat);
    } else if x < 0 {
        assert(t[0] == '-');
        assert(int_decimal(y)[0] == nat_digits(y as nat)[0]);
    } else {
        assert(int_decimal(y)[0] == '-');
        assert(t[0] == nat_digits(x as nat)[0]);
    }
}

} // verus!
