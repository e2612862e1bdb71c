use vstd::prelude::*;

verus! {

pub open spec fn is_digit(c: char) -> bool {
    0x30 <= (c as u32) <= 0x39
}

pub open spec fn digit_value(c: char) -> int {
    (c as u32) - 0x30
}

/// The value of a run of decimal digits.
pub open spec fn digits_value(d: Seq<char>) -> int
    decreases d.len(),
{
    if d.len() == 0 {
        0
    } else {
        digits_value(d.drop_last()) * 10 + digit_value(d.last())
    }
}

pub open spec fn all_digits(d: Seq<char>) -> bool {
    forall|i: int| 0 <= i < d.len() ==> is_digit(#[trigger] d[i])
}

/// The digits of `s` after an optional sign, and whether the sign is `-`.
pub open spec fn unsigned_part(s: Seq<char>) -> (bool, Seq<char>) {
    if s.len() > 0 && s[0] == '-' {
        (true, s.drop_first())
    } else if s.len() > 0 && s[0] == '+' {
        (false, s.drop_first())
    } else {
        (false, s)
    }
}

/// The `i32` that `s` spells in decimal, as `str::parse::<i32>` reads it: an
/// optional `+` or `-`, then one or more digits, nothing else, and a value in
/// range.
pub open spec fn decimal_i32(s: Seq<char>) -> Option<i32> {
    let (negative, d) = unsigned_part(s);
    if d.len() == 0 || !all_digits(d) {
        None
    } else {
        let v = if negative { -digits_value(d) } else { digits_value(d) };
        if i32::MIN <= v <= i32::MAX {
            Some(v as i32)
        } else {
            None
        }
    }
}

proof fn lemma_digits_value_grows(d: Seq<char>, k: int)
    requires
        all_digits(d),
        0 <= k <= d.len(),
    ensures
        digits_value(d) >= digits_value(d.subrange(0, k)),
        digits_value(d.subrange(0, k)) >= 0,
    decreases d.len(),
{
    if k < d.len() {
        let shorter = d.drop_last();
        assert(shorter.subrange(0, k) =~= d.subrange(0, k));
        lemma_digits_value_grows(shorter, k);
        lemma_digits_value_grows(shorter, shorter.len() as int);
        assert(shorter.subrange(0, shorter.len() as int) =~= shorter);
        assert(is_digit(d[d.len() - 1]));
    } else {
        assert(d.subrange(0, k) =~= d);
        if d.len() > 0 {
            let shorter = d.drop_last();
            lemma_digits_value_grows(shorter, shorter.len() as int);
            assert(shorter.subrange(0, shorter.len() as int) =~= shorter);
            assert(is_digit(d[d.len() - 1]));
        }
    }
}

/// Reads `s` as a decimal `i32`; `None` when it is not one.
pub fn parse_i32(s: &str) -> (r: Option<i32>)
    ensures
        r == decimal_i32(s@),
{
    let n = s.unicode_len();
    if n == 0 {
        return None;
    }
    let first = s.get_char(0);
    let negative = first == '-';
    let start: usize = if first == '-' || first == '+' { 1 } else { 0 };
    let ghost d = unsigned_part(s@).1;
    assert(d =~= s@.subrange(start as int, n as int));
    if start == n {
        return None;
    }
    let mut acc: i64 = 0;
    let mut i: usize = start;
    while i < n
        invariant
            n == s@.len(),
            start <= i <= n,
            d == s@.subrange(start as int, n as int),
            d == unsigned_part(s@).1,
            negative == unsigned_part(s@).0,
            all_digits(d.subrange(0, i - start)),
            acc == digits_value(d.subrange(0, i - start)),
            0 <= acc <= 0x8000_0000,
        decreases n - i,
    {
        let c = s.get_char(i);
        if !(0x30 <= (c as u32) && (c as u32) <= 0x39) {
            assert(!is_digit(d[i - start]));
            assert(!all_digits(d));
            return None;
        }
        let ghost before = d.subrange(0, i - start);
        let ghost after = d.subrange(0, i + 1 - start);
        assert(after.drop_last() =~= before);
        assert(after.last() == c);
        assert(digits_value(after) == digits_value(before) * 10 + digit_value(c));
        acc = acc * 10 + (c as u32 - 0x30) as i64;
        i += 1;
        assert(all_digits(after)) by {
            assert forall|j: int| 0 <= j < after.len() implies is_digit(#[trigger] after[j]) by {
                if j < before.len() {
                    assert(after[j] == before[j]);
                }
            }
        }
        if acc > 0x8000_0000 {
            proof {
                if all_digits(d) {
                    lemma_digits_value_grows(d, i - start);
                    assert(digits_value(d) > 0x8000_0000);
                }
            }
            return None;
        }
    }
    assert(d.subrange(0, n - start) =~= d);
    if negative {
        Some((-acc) as i32)
    } else if acc <= 0x7fff_ffff {
        Some(acc as i32)
    } else {
        None
    }
}

/// The text of one decimal digit.
pub open spec fn digit_text(d: nat) -> Seq<char> {
    if d == 0 {
        "0"@
    } else if d == 1 {
        "1"@
    } else if d == 2 {
        "2"@
    } else if d == 3 {
        "3"@
    } else if d == 4 {
        "4"@
    } else if d == 5 {
        "5"@
    } else if d == 6 {
        "6"@
    } else if d == 7 {
        "7"@
    } else if d == 8 {
        "8"@
    } else {
        "9"@
    }
}

/// The decimal digits of `n`, without leading zeros.
pub open spec fn nat_text(n: nat) -> Seq<char>
    decreases n,
{
    if n < 10 {
        digit_text(n)
    } else {
        nat_text(n / 10) + digit_text(n % 10)
    }
}

/// `n` in decimal, with a `-` before a negative value, as `to_string` writes it.
pub open spec fn int_text(n: int) -> Seq<char> {
    if n < 0 {
        "-"@ + nat_text((-n) as nat)
    } else {
        nat_text(n as nat)
    }
}

/// `n` in decimal with at least two digits, as `format!("{:02}", n)` writes it.
pub open spec fn two_digit_text(n: nat) -> Seq<char> {
    if n < 10 {
        "0"@ + digit_text(n)
    } else {
        nat_text(n)
    }
}

fn digit_str(d: u64) -> (r: &'static str)
    requires
        d < 10,
    ensures
        r@ == digit_text(d as nat),
{
    if d == 0 {
        "0"
    } else if d == 1 {
        "1"
    } else if d == 2 {
        "2"
    } else if d == 3 {
        "3"
    } else if d == 4 {
        "4"
    } else if d == 5 {
        "5"
    } else if d == 6 {
        "6"
    } else if d == 7 {
        "7"
    } else if d == 8 {
        "8"
    } else {
        "9"
    }
}

fn append_digits(out: &mut String, n: u64)
    ensures
        final(out)@ == old(out)@ + nat_text(n as nat),
    decreases n,
{
    if n >= 10 {
        append_digits(out, n / 10);
    }
    out.append(digit_str(n % 10));
    proof {
        assert(old(out)@ + nat_text(n as nat) =~= (if n >= 10 {
            old(out)@ + nat_text((n / 10) as nat)
        } else {
            old(out)@
        }) + digit_text((n % 10) as nat));
    }
}

/// `n` in decimal.
pub fn int_to_string(n: i64) -> (r: String)
    ensures
        r@ == int_text(n as int),
{
    let mut out = String::new();
    if n < 0 {
        out.append("-");
        let magnitude = (-(n as i128)) as u64;
        append_digits(&mut out, magnitude);
    } else {
        append_digits(&mut out, n as u64);
    }
    out
}

/// `n` in decimal with at least two digits.
pub fn two_digits(n: u32) -> (r: String)
    ensures
        r@ == two_digit_text(n as nat),
{
    let mut out = String::new();
    if n < 10 {
        out.append("0");
    }
    append_digits(&mut out, n as u64);
    out
}

} // verus!
