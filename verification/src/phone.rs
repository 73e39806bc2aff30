//! Phone numbers held as plain digits, with the formatting the operator
//! screens use.
//!
//! A number is stored as one integer; the accessors cut it into the
//! familiar groups (country code, two groups of three, a group of four, or
//! two-digit pairs) and the formatters render those groups with separators.

use vstd::prelude::*;
use vstd::arithmetic::div_mod::lemma_div_denominator;
use vstd::string::StringExecFns;
use vstd::string::StrSliceExecFns;

verus! {

/// Ten to the `n`-th power.
pub open spec fn pow10_spec(n: nat) -> int
    decreases n,
{
    if n == 0 {
        1
    } else {
        10 * pow10_spec((n - 1) as nat)
    }
}

pub proof fn lemma_pow10_pos(n: nat)
    ensures
        pow10_spec(n) >= 1,
    decreases n,
{
    if n > 0 {
        lemma_pow10_pos((n - 1) as nat);
    }
}

pub proof fn lemma_pow10_le(a: nat, b: nat)
    requires
        a <= b,
    ensures
        pow10_spec(a) <= pow10_spec(b),
    decreases b,
{
    if a < b {
        lemma_pow10_le(a, (b - 1) as nat);
        lemma_pow10_pos((b - 1) as nat);
    }
}

/// Ten to the `n`-th power, as a machine word.
pub fn pow10(n: u32) -> (r: u64)
    requires
        n <= 19,
    ensures
        r == pow10_spec(n as nat),
{
    proof {
        reveal_with_fuel(pow10_spec, 21);
    }
    match n {
        0 => 1,
        1 => 10,
        2 => 100,
        3 => 1_000,
        4 => 10_000,
        5 => 100_000,
        6 => 1_000_000,
        7 => 10_000_000,
        8 => 100_000_000,
        9 => 1_000_000_000,
        10 => 10_000_000_000,
        11 => 100_000_000_000,
        12 => 1_000_000_000_000,
        13 => 10_000_000_000_000,
        14 => 100_000_000_000_000,
        15 => 1_000_000_000_000_000,
        16 => 10_000_000_000_000_000,
        17 => 100_000_000_000_000_000,
        18 => 1_000_000_000_000_000_000,
        19 => 10_000_000_000_000_000_000,
        _ => unreached(),
    }
}

/// The decimal digit character for `d` (for `d` between 0 and 9).
pub open spec fn digit_char(d: int) -> char {
    if d == 0 {
        '0'
    } else if d == 1 {
        '1'
    } else if d == 2 {
        '2'
    } else if d == 3 {
        '3'
    } else if d == 4 {
        '4'
    } else if d == 5 {
        '5'
    } else if d == 6 {
        '6'
    } else if d == 7 {
        '7'
    } else if d == 8 {
        '8'
    } else {
        '9'
    }
}

/// Decimal digits of `n`, no padding (a single `0` for zero).
pub open spec fn dec_spec(n: int) -> Seq<char>
    decreases n,
{
    if n < 10 {
        seq![digit_char(n)]
    } else {
        dec_spec(n / 10).push(digit_char(n % 10))
    }
}

/// `n` rendered as exactly two digits.
pub open spec fn pad2_spec(n: int) -> Seq<char> {
    seq![digit_char((n / 10) % 10), digit_char(n % 10)]
}

/// `n` rendered as exactly three digits.
pub open spec fn pad3_spec(n: int) -> Seq<char> {
    seq![digit_char((n / 100) % 10), digit_char((n / 10) % 10), digit_char(n % 10)]
}

/// `n` rendered as exactly four digits.
pub open spec fn pad4_spec(n: int) -> Seq<char> {
    seq![
        digit_char((n / 1000) % 10),
        digit_char((n / 100) % 10),
        digit_char((n / 10) % 10),
        digit_char(n % 10),
    ]
}

fn digit_str(d: u8) -> (r: &'static str)
    requires
        d <= 9,
    ensures
        r@ == seq![digit_char(d as int)],
{
    proof {
        reveal_strlit("0");
        reveal_strlit("1");
        reveal_strlit("2");
        reveal_strlit("3");
        reveal_strlit("4");
        reveal_strlit("5");
        reveal_strlit("6");
        reveal_strlit("7");
        reveal_strlit("8");
        reveal_strlit("9");
    }
    let s = match d {
        0 => "0",
        1 => "1",
        2 => "2",
        3 => "3",
        4 => "4",
        5 => "5",
        6 => "6",
        7 => "7",
        8 => "8",
        9 => "9",
        _ => unreached(),
    };
    proof {
        assert(s@ =~= seq![digit_char(d as int)]);
    }
    s
}

fn u16_dec(n: u16) -> (r: String)
    ensures
        r@ == dec_spec(n as int),
    decreases n,
{
    if n < 10 {
        digit_str(n as u8).to_owned()
    } else {
        let mut s = u16_dec(n / 10);
        let t = digit_str((n % 10) as u8);
        s.append(t);
        proof {
            assert(s@ =~= dec_spec(n as int));
        }
        s
    }
}

fn u8_pad2(n: u8) -> (r: String)
    requires
        n < 100,
    ensures
        r@ == pad2_spec(n as int),
{
    let mut s = digit_str(n / 10).to_owned();
    let t = digit_str(n % 10);
    s.append(t);
    proof {
        assert(s@ =~= pad2_spec(n as int));
    }
    s
}

fn u16_pad3(n: u16) -> (r: String)
    requires
        n < 1000,
    ensures
        r@ == pad3_spec(n as int),
{
    let mut s = digit_str((n / 100) as u8).to_owned();
    let t = digit_str(((n / 10) % 10) as u8);
    s.append(t);
    let t = digit_str((n % 10) as u8);
    s.append(t);
    proof {
        assert(s@ =~= pad3_spec(n as int));
    }
    s
}

fn u16_pad4(n: u16) -> (r: String)
    requires
        n < 10000,
    ensures
        r@ == pad4_spec(n as int),
{
    let mut s = digit_str((n / 1000) as u8).to_owned();
    let t = digit_str(((n / 100) % 10) as u8);
    s.append(t);
    let t = digit_str(((n / 10) % 10) as u8);
    s.append(t);
    let t = digit_str((n % 10) as u8);
    s.append(t);
    proof {
        assert(s@ =~= pad4_spec(n as int));
    }
    s
}

/// A phone number held as its plain digits.
#[derive(Debug, Clone, Copy, PartialEq, Eq, Structural)]
pub struct PhoneNumber {
    num: u64,
}

/// The North-American rendering of a number: the country code when there is
/// one, then three, three and four digits, dash-separated.
pub open spec fn format_na_spec(num: int) -> Seq<char> {
    let cc = (num / 10_000_000_000) % 0x10000;
    let s3 = (num / 10_000_000) % 1000;
    let sl3 = (num / 10_000) % 1000;
    let l4 = num % 10_000;
    if cc > 0 {
        dec_spec(cc) + "-"@ + pad3_spec(s3) + "-"@ + pad3_spec(sl3) + "-"@ + pad4_spec(l4)
    } else {
        pad3_spec(s3) + "-"@ + pad3_spec(sl3) + "-"@ + pad4_spec(l4)
    }
}

/// The pairwise rendering of a number: seven two-digit pairs,
/// dash-separated, most significant first.
pub open spec fn format_fr_spec(num: int) -> Seq<char> {
    pad2_spec((num / pow10_spec(12)) % 100) + "-"@ + pad2_spec((num / pow10_spec(10)) % 100) + "-"@
        + pad2_spec((num / pow10_spec(8)) % 100) + "-"@ + pad2_spec((num / pow10_spec(6)) % 100)
        + "-"@ + pad2_spec((num / pow10_spec(4)) % 100) + "-"@ + pad2_spec(
        (num / pow10_spec(2)) % 100,
    ) + "-"@ + pad2_spec(num % 100)
}

impl PhoneNumber {
    /// The number's digits as one integer.
    pub closed spec fn spec_num(self) -> u64 {
        self.num
    }

    pub fn new(num: u64) -> (p: PhoneNumber)
        ensures
            p.spec_num() == num,
    {
        PhoneNumber { num }
    }

    /// The country code: everything above the ten standard digits,
    /// truncated to sixteen bits as the plain cast does.
    pub fn first_three(&self) -> (r: u16)
        ensures
            r == (self.spec_num() / 10_000_000_000) % 0x10000,
    {
        ((self.num / 10_000_000_000) % 0x10000) as u16
    }

    /// The area code: digits ten down to eight.
    pub fn second_three(&self) -> (r: u16)
        ensures
            r == (self.spec_num() / 10_000_000) % 1000,
    {
        proof {
            lemma_div_denominator(self.num as int, 10_000_000, 1000);
        }
        ((self.num / 10_000_000) - (self.num / 10_000_000_000) * 1000) as u16
    }

    /// The exchange: digits seven down to five.
    pub fn second_last_three(&self) -> (r: u16)
        ensures
            r == (self.spec_num() / 10_000) % 1000,
    {
        proof {
            lemma_div_denominator(self.num as int, 10_000, 1000);
        }
        ((self.num / 10_000) - ((self.num / 10_000_000) * 1000)) as u16
    }

    /// The line number: the last four digits.
    pub fn last_four(&self) -> (r: u16)
        ensures
            r == self.spec_num() % 10_000,
    {
        (self.num - ((self.num / 10_000) * 10_000)) as u16
    }

    /// The `pnum`-th two-digit pair, counting from the least significant.
    pub fn get_pair(&self, pnum: u8) -> (r: u8)
        requires
            pnum <= 8,
        ensures
            r == (self.spec_num() as int / pow10_spec((2 * pnum) as nat)) % 100,
    {
        let n: u32 = (pnum as u32) * 2 + 2;
        let upper = pow10(n);
        let lower = pow10(n - 2);
        proof {
            let nn = n as nat;
            assert(pow10_spec(nn) == 10 * pow10_spec((nn - 1) as nat));
            assert(pow10_spec((nn - 1) as nat) == 10 * pow10_spec((nn - 2) as nat));
            lemma_pow10_pos((nn - 2) as nat);
            lemma_div_denominator(self.num as int, pow10_spec((nn - 2) as nat), 100);
        }
        ((self.num / lower) - ((self.num / upper) * 100)) as u8
    }

    /// Render in the North-American shape, with the country code only when
    /// it is non-zero.
    pub fn format_na(&self) -> (r: String)
        ensures
            r@ == format_na_spec(self.spec_num() as int),
    {
        let country_code = self.first_three();
        let s3 = self.second_three();
        let sl3 = self.second_last_three();
        let l4 = self.last_four();
        if country_code > 0 {
            let mut s = u16_dec(country_code);
            s.append("-");
            let t = u16_pad3(s3);
            s.append(t.as_str());
            s.append("-");
            let t = u16_pad3(sl3);
            s.append(t.as_str());
            s.append("-");
            let t = u16_pad4(l4);
            s.append(t.as_str());
            proof {
                assert(s@ =~= format_na_spec(self.spec_num() as int));
            }
            s
        } else {
            let mut s = u16_pad3(s3);
            s.append("-");
            let t = u16_pad3(sl3);
            s.append(t.as_str());
            s.append("-");
            let t = u16_pad4(l4);
            s.append(t.as_str());
            proof {
                assert(s@ =~= format_na_spec(self.spec_num() as int));
            }
            s
        }
    }

    /// Render as seven dash-separated two-digit pairs.
    pub fn format_fr(&self) -> (r: String)
        ensures
            r@ == format_fr_spec(self.spec_num() as int),
    {
        let p6 = self.get_pair(6);
        let p5 = self.get_pair(5);
        let p4 = self.get_pair(4);
        let p3 = self.get_pair(3);
        let p2 = self.get_pair(2);
        let p1 = self.get_pair(1);
        let p0 = self.get_pair(0);
        let mut s = u8_pad2(p6);
        s.append("-");
        let t = u8_pad2(p5);
        s.append(t.as_str());
        s.append("-");
        let t = u8_pad2(p4);
        s.append(t.as_str());
        s.append("-");
        let t = u8_pad2(p3);
        s.append(t.as_str());
        s.append("-");
        let t = u8_pad2(p2);
        s.append(t.as_str());
        s.append("-");
        let t = u8_pad2(p1);
        s.append(t.as_str());
        s.append("-");
        let t = u8_pad2(p0);
        s.append(t.as_str());
        proof {
            assert(pow10_spec(0) == 1);
            assert(s@ =~= format_fr_spec(self.spec_num() as int));
        }
        s
    }
}

/// What a parse of a phone-number string can fail with.
#[derive(Debug, Clone, Copy, PartialEq, Eq, Structural)]
pub enum PhoneNumberError {
    /// No digits were left once the separators were dropped.
    Parse,
    /// A character that is neither a digit nor a separator.
    InvalidChar,
    /// More than thirteen digits.
    Range,
}

/// Characters a phone-number string may hold besides digits.
pub open spec fn is_sep(c: char) -> bool {
    c == '-' || c == '+' || c == ' '
}

/// A decimal digit character.
pub open spec fn is_digit(c: char) -> bool {
    48 <= c as u32 <= 57
}

/// The value of a decimal digit character.
pub open spec fn digit_val(c: char) -> int {
    c as u32 - 48
}

/// The digit characters of `s`, in order, separators dropped.
pub open spec fn phone_digits(s: Seq<char>) -> Seq<char>
    decreases s.len(),
{
    if s.len() == 0 {
        Seq::empty()
    } else {
        let rest = phone_digits(s.drop_last());
        if is_digit(s.last()) {
            rest.push(s.last())
        } else {
            rest
        }
    }
}

/// The number a digit string denotes.
pub open spec fn phone_value(d: Seq<char>) -> int
    decreases d.len(),
{
    if d.len() == 0 {
        0
    } else {
        phone_value(d.drop_last()) * 10 + digit_val(d.last())
    }
}

impl PhoneNumber {
    /// Parse a phone-number string: separators (`-`, `+`, space) are
    /// dropped, the digits become the number.  Any other character fails
    /// with `InvalidChar`; more than thirteen digits fail with `Range`; no
    /// digits at all fail with `Parse`.
    pub fn parse_str(s: &str) -> (r: Result<PhoneNumber, PhoneNumberError>)
        ensures
            match r {
                Ok(p) => ({
                    &&& forall|i: int| 0 <= i < s@.len() ==> is_sep(s@[i]) || is_digit(s@[i])
                    &&& 1 <= phone_digits(s@).len() <= 13
                    &&& p.spec_num() == phone_value(phone_digits(s@))
                }),
                Err(e) => match e {
                    PhoneNumberError::InvalidChar => exists|i: int|
                        0 <= i < s@.len() && !is_sep(s@[i]) && !is_digit(s@[i]),
                    PhoneNumberError::Range => (forall|i: int|
                        0 <= i < s@.len() ==> is_sep(s@[i]) || is_digit(s@[i])) && phone_digits(
                        s@,
                    ).len() > 13,
                    PhoneNumberError::Parse => (forall|i: int|
                        0 <= i < s@.len() ==> is_sep(s@[i]) || is_digit(s@[i])) && phone_digits(
                        s@,
                    ).len() == 0,
                },
            },
    {
        let n = s.unicode_len();
        let mut i: usize = 0;
        let mut count: usize = 0;
        let mut val: u64 = 0;
        while i < n
            invariant
                n == s@.len(),
                0 <= i <= n,
                count <= i,
                forall|j: int| 0 <= j < i ==> is_sep(s@[j]) || is_digit(s@[j]),
                count == phone_digits(s@.take(i as int)).len(),
                count <= 13 ==> val == phone_value(phone_digits(s@.take(i as int))) && val
                    < pow10_spec(count as nat),
            decreases n - i,
        {
            let c = s.get_char(i);
            proof {
                assert(s@.take(i + 1).drop_last() =~= s@.take(i as int));
                assert(s@.take(i + 1).last() == s@[i as int]);
            }
            if c == '-' || c == '+' || c == ' ' {
                proof {
                    assert(!is_digit(c)) by {
                        assert(c == '-' || c == '+' || c == ' ');
                    }
                }
            } else {
                let u = c as u32;
                if 48 <= u && u <= 57 {
                    proof {
                        let pd = phone_digits(s@.take(i as int));
                        assert(pd.push(s@[i as int]).drop_last() =~= pd);
                        assert(pd.push(s@[i as int]).last() == s@[i as int]);
                    }
                    if count < 13 {
                        proof {
                            lemma_pow10_le(count as nat, 12);
                            reveal_with_fuel(pow10_spec, 14);
                            assert(pow10_spec((count + 1) as nat) == 10 * pow10_spec(
                                count as nat,
                            ));
                        }
                        let d = (u - 48) as u64;
                        val = val * 10 + d;
                    }
                    count = count + 1;
                } else {
                    proof {
                        assert(!is_sep(s@[i as int]) && !is_digit(s@[i as int]));
                    }
                    return Err(PhoneNumberError::InvalidChar);
                }
            }
            i = i + 1;
        }
        proof {
            assert(s@.take(n as int) =~= s@);
        }
        if count > 13 {
            return Err(PhoneNumberError::Range);
        }
        if count == 0 {
            return Err(PhoneNumberError::Parse);
        }
        Ok(PhoneNumber { num: val })
    }
}

impl core::str::FromStr for PhoneNumber {
    type Err = PhoneNumberError;

    fn from_str(s: &str) -> Result<PhoneNumber, PhoneNumberError> {
        PhoneNumber::parse_str(s)
    }
}

} // verus!
