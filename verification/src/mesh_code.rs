//! The mesh code value type and its canonical decimal string form.

use vstd::prelude::*;

verus! {

use crate::arith::lemma_div_range;
use crate::error::MeshCodeError;
use crate::grid::{pow10, pow10_u64, lemma_pow10_pos, lemma_pow10_mono};
use crate::level::{MeshLevel, level_len};
use vstd::arithmetic::div_mod::{lemma_div_basics, lemma_div_denominator, lemma_fundamental_div_mod,
    lemma_mod_bound};
use vstd::string::{StrSliceExecFns, StringExecFns};

/// The decimal digit character for a value 0..9.
pub open spec fn digit_char(d: int) -> char {
    if d == 0 {
        '0'
    } else if d == 1 {
        '1'
    } else if d == 2 {
        '2'
    } else if d == 3 {
        '3'
    } else if d == 4 {
        '4'
    } else if d == 5 {
        '5'
    } else if d == 6 {
        '6'
    } else if d == 7 {
        '7'
    } else if d == 8 {
        '8'
    } else {
        '9'
    }
}

/// Whether a character is a decimal digit.
pub open spec fn is_digit_char(c: char) -> bool {
    48 <= c as u32 <= 57
}

/// Whether every character of a sequence is a decimal digit.
pub open spec fn all_digits(s: Seq<char>) -> bool {
    forall|i: int| 0 <= i < s.len() ==> is_digit_char(#[trigger] s[i])
}

/// Numeric value of a decimal digit character.
pub open spec fn char_digit(c: char) -> int {
    c as u32 - 48
}

/// The numeric value of a sequence of decimal digit characters.
pub open spec fn seq_to_num(s: Seq<char>) -> int
    decreases s.len(),
{
    if s.len() == 0 {
        0
    } else {
        seq_to_num(s.drop_last()) * 10 + char_digit(s.last())
    }
}

/// The canonical digit characters of `code`, zero-padded to `len` digits.
pub open spec fn code_chars(code: int, len: nat) -> Seq<char> {
    Seq::new(len, |i: int| digit_char((code / pow10((len - 1 - i) as nat) as int) % 10))
}

/// `digit_char` produces decimal digits, and `char_digit` undoes it.
pub proof fn lemma_digit_char_inverse(d: int)
    requires
        0 <= d < 10,
    ensures
        is_digit_char(digit_char(d)),
        char_digit(digit_char(d)) == d,
{
}

/// The canonical digit characters of a value below 10^len are digits and
/// denote that value.
pub proof fn lemma_code_chars_value(code: int, len: nat)
    requires
        0 <= code < pow10(len),
    ensures
        forall|i: int| 0 <= i < len ==> is_digit_char(#[trigger] code_chars(code, len)[i]),
        seq_to_num(code_chars(code, len)) == code,
    decreases len,
{
    let s = code_chars(code, len);
    assert forall|i: int| 0 <= i < len implies is_digit_char(#[trigger] s[i]) by {
        lemma_mod_bound(code / pow10((len - 1 - i) as nat) as int, 10);
        lemma_digit_char_inverse((code / pow10((len - 1 - i) as nat) as int) % 10);
    }
    if len == 0 {
    } else {
        lemma_pow10_pos((len - 1) as nat);
        lemma_div_range(code, 10, 0, pow10((len - 1) as nat) as int);
        lemma_code_chars_value(code / 10, (len - 1) as nat);
        assert forall|i: int| 0 <= i < len - 1 implies s[i] == code_chars(
            code / 10,
            (len - 1) as nat,
        )[i] by {
            lemma_pow10_pos((len - 2 - i) as nat);
            lemma_div_denominator(code, 10, pow10((len - 2 - i) as nat) as int);
            assert(10 * pow10((len - 2 - i) as nat) == pow10((len - 1 - i) as nat));
        }
        assert(s.drop_last() =~= code_chars(code / 10, (len - 1) as nat));
        lemma_div_basics(code);
        assert(code / pow10(0) as int == code);
        lemma_mod_bound(code, 10);
        lemma_digit_char_inverse(code % 10);
        assert(char_digit(s.last()) == code % 10);
        lemma_fundamental_div_mod(code, 10);
    }
}

/// A single decimal digit as a string slice.
fn digit_str(d: u64) -> (s: &'static str)
    requires
        d < 10,
    ensures
        s@ =~= seq![digit_char(d as int)],
{
    let s: &'static str = if d == 0 {
        "0"
    } else if d == 1 {
        "1"
    } else if d == 2 {
        "2"
    } else if d == 3 {
        "3"
    } else if d == 4 {
        "4"
    } else if d == 5 {
        "5"
    } else if d == 6 {
        "6"
    } else if d == 7 {
        "7"
    } else if d == 8 {
        "8"
    } else {
        "9"
    };
    proof {
        reveal_strlit("0");
        reveal_strlit("1");
        reveal_strlit("2");
        reveal_strlit("3");
        reveal_strlit("4");
        reveal_strlit("5");
        reveal_strlit("6");
        reveal_strlit("7");
        reveal_strlit("8");
        reveal_strlit("9");
    }
    s
}

/// A grid cell identifier: a mesh level together with the numeric value of
/// the cell's code digits.
///
/// The value always fits the level's digit count, so the canonical
/// zero-padded string form is faithful.
#[derive(Debug, Clone, Copy, PartialEq, Eq, Hash, Structural)]
pub struct MeshCode {
    level: MeshLevel,
    code: u64,
}

impl MeshCode {
    /// The level of this code.
    pub closed spec fn spec_level(self) -> MeshLevel {
        self.level
    }

    /// The numeric value of this code's digits.
    pub closed spec fn spec_code(self) -> u64 {
        self.code
    }

    /// The numeric code fits the level's digit count. This holds of every
    /// value of the type.
    #[verifier::type_invariant]
    pub open spec fn inv(self) -> bool {
        self.spec_code() < pow10(level_len(self.spec_level()) as nat)
    }

    /// Two codes with the same level and numeric value are the same code.
    pub proof fn lemma_fields_determine(a: Self, b: Self)
        requires
            a.spec_level() == b.spec_level(),
            a.spec_code() == b.spec_code(),
        ensures
            a == b,
    {
    }

    /// Packs a level and a code value known to fit the level's digit count.
    pub(crate) fn from_parts(level: MeshLevel, code: u64) -> (m: Self)
        requires
            code < pow10(level_len(level) as nat),
        ensures
            m.spec_level() == level,
            m.spec_code() == code,
    {
        MeshCode { level, code }
    }

    /// Packs a level and a numeric code value, rejecting values that do not
    /// fit the level's digit count.
    pub fn new(level: MeshLevel, code: u64) -> (r: Result<Self, MeshCodeError>)
        ensures
            code < pow10(level_len(level) as nat) ==> (r matches Ok(m) && m.spec_level() == level
                && m.spec_code() == code),
            code >= pow10(level_len(level) as nat) ==> r == Err::<Self, MeshCodeError>(
                MeshCodeError::OutOfRange,
            ),
    {
        let limit = pow10_u64(level.code_length());
        if code < limit {
            Ok(MeshCode { level, code })
        } else {
            Err(MeshCodeError::OutOfRange)
        }
    }

    /// The level of this code.
    pub fn level(&self) -> (r: MeshLevel)
        ensures
            r == self.spec_level(),
    {
        self.level
    }

    /// The numeric value of this code's digits.
    pub fn code(&self) -> (r: u64)
        ensures
            r == self.spec_code(),
    {
        self.code
    }

    /// Parses the canonical decimal string form of a code.
    ///
    /// Rejects the empty string, any non-digit character (reporting the first
    /// offender and its position), and any digit count that matches no level.
    /// Ten-digit strings are classified by their ninth digit (1..4 marks a
    /// quarter mesh, anything else Level 5).
    pub fn from_str(s: &str) -> (r: Result<Self, MeshCodeError>)
        ensures
            s@.len() == 0 ==> (r matches Err(e) && e matches MeshCodeError::InvalidFormat(m) && m@
                == "Empty string"@),
            (s@.len() > 0 && !all_digits(s@)) ==> (r matches Err(e) && e matches
                MeshCodeError::InvalidDigit { .. }),
            (match r {
                Err(MeshCodeError::InvalidDigit { position, digit }) => position < s@.len()
                    && s@[position as int] == digit && !is_digit_char(digit) && (forall|j: int|
                    0 <= j < position ==> is_digit_char(#[trigger] s@[j])),
                _ => true,
            }),
            (match MeshLevel::spec_from_code_string(s@) {
                Err(e) => (s@.len() > 0 && all_digits(s@)) ==> r == Err::<Self, MeshCodeError>(e),
                Ok(l) => (s@.len() > 0 && all_digits(s@)) ==> (r matches Ok(m) && m.spec_level()
                    == l && m.spec_code() == seq_to_num(s@)),
            }),
    {
        let n = s.unicode_len();
        if n == 0 {
            return Err(MeshCodeError::InvalidFormat(String::from_str("Empty string")));
        }
        let mut i: usize = 0;
        while i < n
            invariant
                i <= n == s@.len(),
                forall|j: int| 0 <= j < i ==> is_digit_char(#[trigger] s@[j]),
            decreases n - i,
        {
            let c = s.get_char(i);
            let cu = c as u32;
            if cu < 48 || cu > 57 {
                return Err(MeshCodeError::InvalidDigit { position: i, digit: c });
            }
            i = i + 1;
        }
        let level = match MeshLevel::from_code_string(s) {
            Ok(l) => l,
            Err(e) => {
                return Err(e);
            },
        };
        proof {
            assert(n == level_len(level));
            assert(pow10(11) == 100000000000) by {
                reveal_with_fuel(pow10, 12);
            }
        }
        let mut v: u64 = 0;
        i = 0;
        while i < n
            invariant
                i <= n == s@.len(),
                n <= 11,
                forall|j: int| 0 <= j < n ==> is_digit_char(#[trigger] s@[j]),
                v == seq_to_num(s@.take(i as int)),
                v < pow10(i as nat),
                pow10(11) == 100000000000,
            decreases n - i,
        {
            let c = s.get_char(i);
            let d = (c as u32 - 48) as u64;
            proof {
                assert(is_digit_char(s@[i as int]));
                assert(s@.take(i + 1).drop_last() =~= s@.take(i as int));
                assert(s@.take(i + 1).last() == s@[i as int]);
                lemma_pow10_mono((i + 1) as nat, 11);
            }
            v = v * 10 + d;
            i = i + 1;
        }
        proof {
            assert(s@.take(n as int) =~= s@);
        }
        Ok(MeshCode { level, code: v })
    }

    /// The canonical string form: the code's decimal digits, zero-padded to
    /// the level's digit count.
    pub fn as_string(&self) -> (r: String)
        ensures
            r@ == code_chars(self.spec_code() as int, level_len(self.spec_level()) as nat),
    {
        proof {
            use_type_invariant(self);
        }
        let len = self.level.code_length();
        let ghost target = code_chars(self.code as int, len as nat);
        let mut out = String::new();
        let mut i: usize = 0;
        while i < len
            invariant
                i <= len <= 11,
                out@ =~= target.take(i as int),
                target == code_chars(self.code as int, len as nat),
            decreases len - i,
        {
            let p = pow10_u64(len - 1 - i);
            proof {
                lemma_pow10_pos((len - 1 - i) as nat);
            }
            let d = (self.code / p) % 10;
            let ds = digit_str(d);
            out.append(ds);
            proof {
                assert(target[i as int] == digit_char(d as int));
                assert(out@ =~= target.take(i + 1));
            }
            i = i + 1;
        }
        proof {
            assert(target.take(len as int) =~= target);
        }
        out
    }
}

} // verus!
