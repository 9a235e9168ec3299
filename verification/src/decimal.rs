//! Fixed-point decimal numbers.
//!
//! Exchange wire formats carry prices and quantities as decimal strings
//! (`"0.07530500"`).  To keep ranking and spread computations exact, the
//! library parses such a string directly into an integer count of *atoms*,
//! where one atom is 10^-8 of a unit; it never goes through a binary float.

use vstd::prelude::*;

verus! {

/// Number of fractional digits a fixed-point value carries.
pub const FRAC_DIGITS: usize = 8;

/// Atoms per whole unit: 10 to the `FRAC_DIGITS`.
pub const SCALE: u64 = 100000000;

/// Is `c` an ASCII decimal digit?
pub open spec fn is_digit(c: char) -> bool {
    c == '0' || c == '1' || c == '2' || c == '3' || c == '4' || c == '5' || c == '6' || c == '7'
        || c == '8' || c == '9'
}

/// Numeric value of one digit character (0 for anything else).
pub open spec fn digit_val(c: char) -> nat {
    if c == '1' {
        1
    } else if c == '2' {
        2
    } else if c == '3' {
        3
    } else if c == '4' {
        4
    } else if c == '5' {
        5
    } else if c == '6' {
        6
    } else if c == '7' {
        7
    } else if c == '8' {
        8
    } else if c == '9' {
        9
    } else {
        0
    }
}

/// Every character of `s` is a decimal digit.
pub open spec fn all_digits(s: Seq<char>) -> bool {
    forall|i: int| 0 <= i < s.len() ==> is_digit(#[trigger] s[i])
}

/// Value of a digit string read in base 10.
pub open spec fn digits_val(s: Seq<char>) -> nat
    decreases s.len(),
{
    if s.len() == 0 {
        0
    } else {
        digits_val(s.drop_last()) * 10 + digit_val(s.last())
    }
}

/// 10 to the `n`.
pub open spec fn pow10(n: nat) -> nat
    decreases n,
{
    if n == 0 {
        1
    } else {
        10 * pow10((n - 1) as nat)
    }
}

/// Index of the first `.` in `s`, or `s.len()` if there is none.
pub open spec fn dot_pos(s: Seq<char>) -> int
    decreases s.len(),
{
    if s.len() == 0 {
        0
    } else if s[0] == '.' {
        0
    } else {
        1 + dot_pos(s.drop_first())
    }
}

/// The integer-part digits of `s` (everything before the first `.`).
pub open spec fn int_part(s: Seq<char>) -> Seq<char> {
    s.subrange(0, dot_pos(s))
}

/// The fractional-part digits of `s` (everything after the first `.`;
/// empty when there is no `.`).
pub open spec fn frac_part(s: Seq<char>) -> Seq<char> {
    if dot_pos(s) == s.len() {
        Seq::empty()
    } else {
        s.subrange(dot_pos(s) + 1, s.len() as int)
    }
}

/// Does `s` denote a non-negative fixed-point number the library accepts?
/// Grammar: digits, optionally one `.`, at least one digit in all, and no
/// more fractional digits than the fixed scale keeps (rejecting, rather than
/// silently rounding, anything the fixed point cannot represent exactly).
pub open spec fn valid_fixed(s: Seq<char>) -> bool {
    &&& all_digits(int_part(s))
    &&& all_digits(frac_part(s))
    &&& int_part(s).len() + frac_part(s).len() > 0
    &&& frac_part(s).len() <= FRAC_DIGITS
}

/// The value of a valid fixed-point string, in atoms.
pub open spec fn fixed_atoms(s: Seq<char>) -> nat {
    digits_val(int_part(s)) * (SCALE as nat) + digits_val(frac_part(s)) * pow10(
        (FRAC_DIGITS - frac_part(s).len()) as nat,
    )
}

/// `pow10` is positive.
proof fn lemma_pow10_pos(n: nat)
    ensures
        pow10(n) >= 1,
    decreases n,
{
    if n > 0 {
        lemma_pow10_pos((n - 1) as nat);
    }
}

/// `pow10` is monotone.
proof fn lemma_pow10_le(a: nat, b: nat)
    requires
        a <= b,
    ensures
        pow10(a) <= pow10(b),
    decreases b,
{
    lemma_pow10_pos(a);
    if b > 0 && a < b {
        lemma_pow10_le(a, (b - 1) as nat);
    }
}

/// The concrete scale: 10^8 atoms per unit.
proof fn lemma_pow10_8()
    ensures
        pow10(8) == 100000000,
{
    reveal_with_fuel(pow10, 9);
}

/// `pow10` turns addition of exponents into multiplication.
proof fn lemma_pow10_split(a: nat, b: nat)
    ensures
        pow10(a + b) == pow10(a) * pow10(b),
    decreases a,
{
    if a > 0 {
        lemma_pow10_split((a - 1) as nat, b);
        assert(a + b >= 1);
        assert(pow10(a + b) == 10 * pow10((a + b - 1) as nat));
        assert((a + b - 1) as nat == (a - 1) as nat + b);
        assert(pow10(a) == 10 * pow10((a - 1) as nat));
        assert(pow10(a + b) == 10 * (pow10((a - 1) as nat) * pow10(b)));
        assert(10 * (pow10((a - 1) as nat) * pow10(b)) == (10 * pow10((a - 1) as nat)) * pow10(b))
            by (nonlinear_arith);
        assert(pow10(a + b) == pow10(a) * pow10(b));
    } else {
        assert(a + b == b);
        assert(pow10(a) == 1);
        assert(pow10(a + b) == pow10(a) * pow10(b));
    }
}

/// A fraction of `l` digits scaled by the remaining digits stays under the scale.
proof fn lemma_pow10_mul_bound(v: nat, l: nat)
    requires
        l <= 8,
        v < pow10(l),
    ensures
        v * pow10((8 - l) as nat) < pow10(8),
{
    lemma_pow10_split(l, (8 - l) as nat);
    lemma_pow10_pos((8 - l) as nat);
    assert(v * pow10((8 - l) as nat) < pow10(l) * pow10((8 - l) as nat)) by (nonlinear_arith)
        requires
            v < pow10(l),
            pow10((8 - l) as nat) >= 1,
    ;
}

/// Scanning one digit further can only grow a digit string's value.
proof fn lemma_digits_val_prefix_le(s: Seq<char>, k: int)
    requires
        0 <= k <= s.len(),
    ensures
        digits_val(s.subrange(0, k)) <= digits_val(s),
    decreases s.len() - k,
{
    if k < s.len() {
        let t = s.subrange(0, k + 1);
        assert(t.drop_last() =~= s.subrange(0, k));
        assert(digits_val(s.subrange(0, k)) <= digits_val(t));
        lemma_digits_val_prefix_le(s, k + 1);
        assert(s.subrange(0, s.len() as int) =~= s);
    } else {
        assert(s.subrange(0, k) =~= s);
    }
}

/// A digit string's value is below 10 to its length.
proof fn lemma_digits_val_bound(s: Seq<char>)
    requires
        all_digits(s),
    ensures
        digits_val(s) < pow10(s.len()),
    decreases s.len(),
{
    if s.len() > 0 {
        assert(forall|i: int| 0 <= i < s.len() - 1 ==> #[trigger] s.drop_last()[i] == s[i]);
        lemma_digits_val_bound(s.drop_last());
        assert(digit_val(s.last()) <= 9);
    }
}

/// If no `.` occurs before `k`, the first dot is at `k` or later.
proof fn lemma_dot_pos_ge(s: Seq<char>, k: int)
    requires
        0 <= k <= s.len(),
        forall|j: int| 0 <= j < k ==> s[j] != '.',
    ensures
        dot_pos(s) >= k,
    decreases k,
{
    lemma_dot_pos_le(s);
    if k > 0 {
        assert(s[0] != '.');
        let t = s.drop_first();
        assert(forall|j: int| 0 <= j < k - 1 ==> #[trigger] t[j] == s[j + 1]);
        lemma_dot_pos_ge(t, k - 1);
        assert(dot_pos(s) == 1 + dot_pos(s.drop_first()));
    }
}

/// The first dot is never past the end.
proof fn lemma_dot_pos_le(s: Seq<char>)
    ensures
        0 <= dot_pos(s) <= s.len(),
    decreases s.len(),
{
    if s.len() > 0 && s[0] != '.' {
        lemma_dot_pos_le(s.drop_first());
    }
}

/// A dot at position `k` bounds the first dot by `k`.
proof fn lemma_dot_pos_at(s: Seq<char>, k: int)
    requires
        0 <= k < s.len(),
        s[k] == '.',
    ensures
        dot_pos(s) <= k,
    decreases k,
{
    if k > 0 && s[0] != '.' {
        let t = s.drop_first();
        assert(t[k - 1] == s[k]);
        lemma_dot_pos_at(t, k - 1);
    }
}

/// When scanning stopped at `k`, the first dot is exactly `k` (either a dot
/// stands there or the string ended).
proof fn lemma_dot_pos_exact(s: Seq<char>, k: int)
    requires
        0 <= k <= s.len(),
        forall|j: int| 0 <= j < k ==> s[j] != '.',
        k < s.len() ==> s[k] == '.',
    ensures
        dot_pos(s) == k,
{
    lemma_dot_pos_ge(s, k);
    lemma_dot_pos_le(s);
    if k < s.len() {
        lemma_dot_pos_at(s, k);
    }
}

/// Parse a digit string, returning its value, or `None` on a non-digit,
/// an empty string, or a value over `u64::MAX`.
pub fn parse_u64(s: &str) -> (r: Option<u64>)
    ensures
        r is Some <==> all_digits(s@) && s@.len() > 0 && digits_val(s@) <= u64::MAX,
        r matches Some(v) ==> v == digits_val(s@),
{
    let n = s.unicode_len();
    if n == 0 {
        return None;
    }
    let mut acc: u64 = 0;
    let mut i: usize = 0;
    while i < n
        invariant
            0 < n == s@.len(),
            0 <= i <= n,
            all_digits(s@.subrange(0, i as int)),
            acc == digits_val(s@.subrange(0, i as int)),
        decreases n - i,
    {
        let c = s.get_char(i);
        let d: u64 = match c {
            '0' => 0,
            '1' => 1,
            '2' => 2,
            '3' => 3,
            '4' => 4,
            '5' => 5,
            '6' => 6,
            '7' => 7,
            '8' => 8,
            '9' => 9,
            _ => {
                assert(!is_digit(s@[i as int]));
                return None;
            },
        };
        let wide: u128 = (acc as u128) * 10 + (d as u128);
        proof {
            assert(s@.subrange(0, i + 1).drop_last() =~= s@.subrange(0, i as int));
            assert(s@.subrange(0, i + 1).last() == s@[i as int]);
        }
        if wide > u64::MAX as u128 {
            proof {
                lemma_digits_val_prefix_le(s@, i + 1);
            }
            return None;
        }
        acc = wide as u64;
        i = i + 1;
    }
    proof {
        assert(s@.subrange(0, n as int) =~= s@);
    }
    Some(acc)
}

/// Parse a decimal string into fixed-point atoms.  Returns `None` when the
/// string is not a plain non-negative decimal, carries more fractional
/// digits than the scale keeps, or does not fit in a `u64` of atoms.
pub fn parse_fixed(s: &str) -> (r: Option<u64>)
    ensures
        r is Some <==> valid_fixed(s@) && fixed_atoms(s@) <= u64::MAX,
        r matches Some(v) ==> v == fixed_atoms(s@),
{
    let n = s.unicode_len();
    let mut i: usize = 0;
    let mut int_acc: u64 = 0;
    // Integer part, up to the first '.' or the end.
    loop
        invariant
            n == s@.len(),
            0 <= i <= n,
            forall|k: int| 0 <= k < i ==> s@[k] != '.',
            all_digits(s@.subrange(0, i as int)),
            int_acc == digits_val(s@.subrange(0, i as int)),
        ensures
            n == s@.len(),
            0 <= i <= n,
            dot_pos(s@) == i,
            all_digits(int_part(s@)),
            int_acc == digits_val(int_part(s@)),
        decreases n - i,
    {
        if i >= n {
            proof {
                lemma_dot_pos_exact(s@, i as int);
                assert(int_part(s@) =~= s@.subrange(0, i as int));
            }
            break;
        }
        let c = s.get_char(i);
        if c == '.' {
            proof {
                lemma_dot_pos_exact(s@, i as int);
                assert(int_part(s@) =~= s@.subrange(0, i as int));
            }
            break;
        }
        let d: u64 = match c {
            '0' => 0,
            '1' => 1,
            '2' => 2,
            '3' => 3,
            '4' => 4,
            '5' => 5,
            '6' => 6,
            '7' => 7,
            '8' => 8,
            '9' => 9,
            _ => {
                proof {
                    lemma_dot_pos_ge(s@, i + 1);
                    lemma_dot_pos_le(s@);
                    assert(int_part(s@)[i as int] == s@[i as int]);
                    assert(!is_digit(int_part(s@)[i as int]));
                }
                return None;
            },
        };
        let wide: u128 = (int_acc as u128) * 10 + (d as u128);
        proof {
            assert(s@.subrange(0, i + 1).drop_last() =~= s@.subrange(0, i as int));
            assert(s@.subrange(0, i + 1).last() == s@[i as int]);
        }
        if wide > u64::MAX as u128 {
            proof {
                lemma_dot_pos_ge(s@, i + 1);
                lemma_dot_pos_le(s@);
                assert(int_part(s@).subrange(0, i + 1) =~= s@.subrange(0, i + 1));
                lemma_digits_val_prefix_le(int_part(s@), i + 1);
                assert(digits_val(int_part(s@)) * (SCALE as nat) >= digits_val(int_part(s@)) * 1)
                    by (nonlinear_arith)
                    requires
                        (SCALE as nat) >= 1,
                ;
                assert(fixed_atoms(s@) > u64::MAX);
            }
            return None;
        }
        int_acc = wide as u64;
        i = i + 1;
    }
    let frac_start = if i < n {
        i + 1
    } else {
        i
    };
    if frac_start >= n && i == 0 {
        // Neither integer nor fractional digits.
        proof {
            if i < n {
                assert(frac_part(s@) =~= Seq::<char>::empty());
            }
        }
        return None;
    }
    proof {
        if i < n {
            assert(frac_part(s@) =~= s@.subrange(frac_start as int, n as int));
        } else {
            assert(frac_part(s@) =~= Seq::<char>::empty());
            assert(frac_part(s@) =~= s@.subrange(frac_start as int, n as int));
        }
    }
    let mut j: usize = frac_start;
    let mut frac_acc: u64 = 0;
    let mut frac_len: usize = 0;
    while j < n
        invariant
            n == s@.len(),
            frac_start <= j <= n,
            frac_start <= n,
            frac_len == j - frac_start,
            frac_len <= FRAC_DIGITS,
            frac_part(s@) == s@.subrange(frac_start as int, n as int),
            all_digits(s@.subrange(frac_start as int, j as int)),
            frac_acc == digits_val(s@.subrange(frac_start as int, j as int)),
            frac_acc < pow10(frac_len as nat),
        decreases n - j,
    {
        let c = s.get_char(j);
        let d: u64 = match c {
            '0' => 0,
            '1' => 1,
            '2' => 2,
            '3' => 3,
            '4' => 4,
            '5' => 5,
            '6' => 6,
            '7' => 7,
            '8' => 8,
            '9' => 9,
            _ => {
                assert(!is_digit(frac_part(s@)[j - frac_start]));
                return None;
            },
        };
        if frac_len >= FRAC_DIGITS {
            assert(frac_part(s@).len() > FRAC_DIGITS);
            return None;
        }
        proof {
            assert(s@.subrange(frac_start as int, j + 1).drop_last() =~= s@.subrange(
                frac_start as int,
                j as int,
            ));
            assert(s@.subrange(frac_start as int, j + 1).last() == s@[j as int]);
            lemma_pow10_le(frac_len as nat, 7);
            lemma_pow10_8();
            reveal_with_fuel(pow10, 9);
        }
        frac_acc = frac_acc * 10 + d;
        frac_len = frac_len + 1;
        j = j + 1;
    }
    proof {
        assert(s@.subrange(frac_start as int, n as int) =~= frac_part(s@));
    }
    // Scale the fraction out to the full number of fractional digits.
    let mut scale_pow: u64 = 1;
    let mut k: usize = frac_len;
    while k < FRAC_DIGITS
        invariant
            frac_len <= k <= FRAC_DIGITS,
            scale_pow == pow10((k - frac_len) as nat),
        decreases FRAC_DIGITS - k,
    {
        proof {
            lemma_pow10_le((k + 1 - frac_len) as nat, 8);
            lemma_pow10_8();
        }
        scale_pow = scale_pow * 10;
        k = k + 1;
    }
    proof {
        lemma_pow10_mul_bound(frac_acc as nat, frac_len as nat);
        lemma_pow10_8();
        assert((int_acc as nat) * (SCALE as nat) <= (u64::MAX as nat) * (SCALE as nat))
            by (nonlinear_arith)
            requires
                int_acc <= u64::MAX,
        ;
    }
    let atoms: u128 = (int_acc as u128) * (SCALE as u128) + (frac_acc as u128) * (scale_pow
        as u128);
    if atoms > u64::MAX as u128 {
        return None;
    }
    Some(atoms as u64)
}

/// The single-character string for one digit value.
pub fn digit_str(d: u64) -> (r: &'static str)
    requires
        d <= 9,
    ensures
        r@.len() == 1,
        is_digit(r@[0]),
        digit_val(r@[0]) == d,
{
    proof {
        reveal_strlit("0");
        reveal_strlit("1");
        reveal_strlit("2");
        reveal_strlit("3");
        reveal_strlit("4");
        reveal_strlit("5");
        reveal_strlit("6");
        reveal_strlit("7");
        reveal_strlit("8");
        reveal_strlit("9");
    }
    match d {
        0 => "0",
        1 => "1",
        2 => "2",
        3 => "3",
        4 => "4",
        5 => "5",
        6 => "6",
        7 => "7",
        8 => "8",
        _ => "9",
    }
}

/// Render a `u64` in decimal, without leading zeros.
pub fn render_u64(v: u64) -> (r: String)
    ensures
        all_digits(r@),
        digits_val(r@) == v,
        r@.len() >= 1,
        r@.len() > 1 ==> r@[0] != '0',
    decreases v,
{
    if v < 10 {
        let r = String::from_str(digit_str(v));
        proof {
            assert(r@.drop_last() =~= Seq::<char>::empty());
            assert(digits_val(Seq::<char>::empty()) == 0);
            assert(r@.last() == r@[0]);
        }
        r
    } else {
        let mut r = render_u64(v / 10);
        let ghost prefix = r@;
        r.append(digit_str(v % 10));
        proof {
            assert(r@.drop_last() =~= prefix);
            assert(digits_val(r@) == digits_val(prefix) * 10 + digit_val(r@.last()));
            assert(r@[0] == prefix[0]);
            if prefix.len() == 1 && prefix[0] == '0' {
                assert(prefix.drop_last() =~= Seq::<char>::empty());
                assert(digits_val(Seq::<char>::empty()) == 0);
                assert(digits_val(prefix) == 0);
                assert(false);
            }
        }
        r
    }
}

/// Render `v` as exactly `width` digits, with leading zeros.
fn render_padded(v: u64, width: usize) -> (r: String)
    requires
        1 <= width <= FRAC_DIGITS,
        v < pow10(width as nat),
    ensures
        all_digits(r@),
        digits_val(r@) == v,
        r@.len() == width,
    decreases width,
{
    if width == 1 {
        let r = String::from_str(digit_str(v));
        proof {
            assert(r@.drop_last() =~= Seq::<char>::empty());
            assert(digits_val(Seq::<char>::empty()) == 0);
            assert(r@.last() == r@[0]);
        }
        r
    } else {
        proof {
            lemma_pow10_le((width - 1) as nat, 8);
            lemma_pow10_8();
            assert(pow10(width as nat) == 10 * pow10((width - 1) as nat));
            assert(v / 10 < pow10((width - 1) as nat)) by (nonlinear_arith)
                requires
                    v < 10 * pow10((width - 1) as nat),
            ;
        }
        let mut r = render_padded(v / 10, width - 1);
        let ghost prefix = r@;
        r.append(digit_str(v % 10));
        proof {
            assert(r@.drop_last() =~= prefix);
            assert(digits_val(r@) == digits_val(prefix) * 10 + digit_val(r@.last()));
        }
        r
    }
}

/// Render fixed-point atoms as a decimal string: the whole units, and the
/// full eight fractional digits whenever the fraction is not zero.  The
/// result always parses back to the same atoms.
pub fn render_fixed(v: u64) -> (r: String)
    ensures
        valid_fixed(r@),
        fixed_atoms(r@) == v,
{
    let whole = v / SCALE;
    let frac = v % SCALE;
    let int_str = render_u64(whole);
    if frac == 0 {
        proof {
            assert(forall|j: int| 0 <= j < int_str@.len() ==> #[trigger] int_str@[j] != '.');
            lemma_dot_pos_exact(int_str@, int_str@.len() as int);
            assert(int_part(int_str@) =~= int_str@);
            assert(frac_part(int_str@) =~= Seq::<char>::empty());
            assert(digits_val(Seq::<char>::empty()) == 0);
        }
        int_str
    } else {
        let mut r = int_str;
        let ghost istr = r@;
        r.append(".");
        proof {
            reveal_strlit(".");
        }
        proof {
            lemma_pow10_8();
        }
        let fstr = render_padded(frac, FRAC_DIGITS);
        r.append(fstr.as_str());
        proof {
            let s = r@;
            assert(s.len() == istr.len() + 1 + 8);
            assert(forall|j: int| 0 <= j < istr.len() ==> #[trigger] s[j] == istr[j]);
            assert(forall|j: int| 0 <= j < istr.len() ==> #[trigger] s[j] != '.');
            assert(s[istr.len() as int] == '.');
            lemma_dot_pos_exact(s, istr.len() as int);
            assert(int_part(s) =~= istr);
            assert(frac_part(s) =~= fstr@);
            assert(pow10((FRAC_DIGITS - frac_part(s).len()) as nat) == 1);
            assert(fixed_atoms(s) == (v / SCALE) * (SCALE as nat) + (v % SCALE));
        }
        r
    }
}

} // verus!
