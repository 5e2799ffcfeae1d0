//! Numeric text. The feed encodes some numbers as strings; such a string
//! is accepted exactly when it reads as a floating-point literal: an
//! optional sign, then `inf`, `infinity` or `nan` in any letter case, or a
//! mantissa (digits, digits with a dot, or a dot with digits) followed by
//! an optional exponent (`e` or `E`, an optional sign, and digits).

use vstd::prelude::*;

use crate::error::{ErrorKind, ErrorKindV};
use crate::json::{JVal, JsonValue};
use crate::text::chars_vec;

verus! {

/// A decimal digit.
pub open spec fn is_digit(c: char) -> bool {
    '0' <= c && c <= '9'
}

/// The end of the run of digits that starts at `j`: the first position at
/// or after `j` that is past the end or holds a non-digit.
pub open spec fn digit_run_end(s: Seq<char>, j: int) -> int
    decreases s.len() - j,
{
    if 0 <= j < s.len() && is_digit(s[j]) {
        digit_run_end(s, j + 1)
    } else {
        j
    }
}

/// The run of digits stays inside the string and is made of digits.
pub proof fn lemma_digit_run_end(s: Seq<char>, j: int)
    requires
        0 <= j <= s.len(),
    ensures
        j <= digit_run_end(s, j) <= s.len(),
        digit_run_end(s, j) < s.len() ==> !is_digit(s[digit_run_end(s, j)]),
    decreases s.len() - j,
{
    if j < s.len() && is_digit(s[j]) {
        lemma_digit_run_end(s, j + 1);
    }
}

/// The lower-case form of the letters that the special words use; any
/// other character is left as it is.
pub open spec fn lchar(c: char) -> char {
    if c == 'I' {
        'i'
    } else if c == 'N' {
        'n'
    } else if c == 'F' {
        'f'
    } else if c == 'A' {
        'a'
    } else if c == 'T' {
        't'
    } else if c == 'Y' {
        'y'
    } else {
        c
    }
}

/// `inf`, `infinity` or `nan`, in any letter case.
pub open spec fn is_special_word(t: Seq<char>) -> bool {
    ||| (t.len() == 3 && lchar(t[0]) == 'i' && lchar(t[1]) == 'n' && lchar(t[2]) == 'f')
    ||| (t.len() == 8 && lchar(t[0]) == 'i' && lchar(t[1]) == 'n' && lchar(t[2]) == 'f'
        && lchar(t[3]) == 'i' && lchar(t[4]) == 'n' && lchar(t[5]) == 'i' && lchar(t[6]) == 't'
        && lchar(t[7]) == 'y')
    ||| (t.len() == 3 && lchar(t[0]) == 'n' && lchar(t[1]) == 'a' && lchar(t[2]) == 'n')
}

/// From `j` on, the string is empty or holds one whole exponent part.
pub open spec fn exp_ok(t: Seq<char>, j: int) -> bool {
    ||| j == t.len()
    ||| {
        &&& j < t.len()
        &&& (t[j] == 'e' || t[j] == 'E')
        &&& {
            let k = if j + 1 < t.len() && (t[j + 1] == '+' || t[j + 1] == '-') {
                j + 2
            } else {
                j + 1
            };
            let m = digit_run_end(t, k);
            m > k && m == t.len()
        }
    }
}

/// A whole mantissa (with its optional exponent): digits with an optional
/// dot and optional further digits, or a dot followed by digits.
pub open spec fn mantissa_ok(t: Seq<char>) -> bool {
    let a = digit_run_end(t, 0);
    if a > 0 {
        if a < t.len() && t[a] == '.' {
            exp_ok(t, digit_run_end(t, a + 1))
        } else {
            exp_ok(t, a)
        }
    } else {
        t.len() > 1 && t[0] == '.' && {
            let b = digit_run_end(t, 1);
            b > 1 && exp_ok(t, b)
        }
    }
}

/// Where the number begins once an optional leading sign is passed.
pub open spec fn sign_start(s: Seq<char>) -> int {
    if s.len() > 0 && (s[0] == '+' || s[0] == '-') {
        1
    } else {
        0
    }
}

/// The string reads as one whole floating-point literal.
pub open spec fn is_float_literal(s: Seq<char>) -> bool {
    let t = s.skip(sign_start(s));
    is_special_word(t) || mantissa_ok(t)
}

/// A decimal digit.
fn digit(c: char) -> (b: bool)
    ensures
        b == is_digit(c),
{
    '0' <= c && c <= '9'
}

/// The lower-case form used by the special words.
fn lchar_exec(c: char) -> (r: char)
    ensures
        r == lchar(c),
{
    if c == 'I' {
        'i'
    } else if c == 'N' {
        'n'
    } else if c == 'F' {
        'f'
    } else if c == 'A' {
        'a'
    } else if c == 'T' {
        't'
    } else if c == 'Y' {
        'y'
    } else {
        c
    }
}

/// Scan the run of digits that starts at `j`.
fn digit_run(t: &Vec<char>, j: usize) -> (r: usize)
    requires
        j <= t@.len(),
    ensures
        r == digit_run_end(t@, j as int),
        j <= r <= t@.len(),
{
    let mut k = j;
    while k < t.len() && digit(t[k])
        invariant
            j <= k <= t@.len(),
            digit_run_end(t@, j as int) == digit_run_end(t@, k as int),
        decreases t@.len() - k,
    {
        k = k + 1;
    }
    proof {
        lemma_digit_run_end(t@, j as int);
    }
    k
}

/// Does the string read as one whole floating-point literal?
pub fn check_float_literal(s: &str) -> (b: bool)
    ensures
        b == is_float_literal(s@),
{
    let v = chars_vec(s);
    let st: usize = if v.len() > 0 && (v[0] == '+' || v[0] == '-') {
        1
    } else {
        0
    };
    let mut t: Vec<char> = Vec::new();
    let mut i: usize = st;
    while i < v.len()
        invariant
            st <= i <= v@.len(),
            t@ =~= v@.subrange(st as int, i as int),
        decreases v@.len() - i,
    {
        t.push(v[i]);
        proof {
            assert(t@ =~= v@.subrange(st as int, i + 1 as int));
        }
        i += 1;
    }
    proof {
        assert(t@ =~= s@.skip(sign_start(s@)));
    }
    if special_word(&t) {
        return true;
    }
    let a = digit_run(&t, 0);
    if a > 0 {
        if a < t.len() && t[a] == '.' {
            let b = digit_run(&t, a + 1);
            exponent(&t, b)
        } else {
            exponent(&t, a)
        }
    } else {
        if t.len() > 1 && t[0] == '.' {
            let b = digit_run(&t, 1);
            b > 1 && exponent(&t, b)
        } else {
            false
        }
    }
}

/// Is the text from `j` on empty or one whole exponent part?
fn exponent(t: &Vec<char>, j: usize) -> (b: bool)
    requires
        j <= t@.len(),
    ensures
        b == exp_ok(t@, j as int),
{
    if j == t.len() {
        return true;
    }
    if t[j] != 'e' && t[j] != 'E' {
        return false;
    }
    let k: usize = if j + 1 < t.len() && (t[j + 1] == '+' || t[j + 1] == '-') {
        j + 2
    } else {
        j + 1
    };
    if k > t.len() {
        return false;
    }
    let m = digit_run(t, k);
    m > k && m == t.len()
}

/// `inf`, `infinity` or `nan`, in any letter case.
fn special_word(t: &Vec<char>) -> (b: bool)
    ensures
        b == is_special_word(t@),
{
    if t.len() == 3 {
        let c0 = lchar_exec(t[0]);
        let c1 = lchar_exec(t[1]);
        let c2 = lchar_exec(t[2]);
        (c0 == 'i' && c1 == 'n' && c2 == 'f') || (c0 == 'n' && c1 == 'a' && c2 == 'n')
    } else if t.len() == 8 {
        lchar_exec(t[0]) == 'i' && lchar_exec(t[1]) == 'n' && lchar_exec(t[2]) == 'f'
            && lchar_exec(t[3]) == 'i' && lchar_exec(t[4]) == 'n' && lchar_exec(t[5]) == 'i'
            && lchar_exec(t[6]) == 't' && lchar_exec(t[7]) == 'y'
    } else {
        false
    }
}

/// A string-encoded floating-point number, held as its validated text.
/// The text is guaranteed to read as a floating-point literal; turning
/// it into a machine float is left to the caller.
#[derive(Debug, PartialEq)]
pub struct WrappedStrF32 {
    repr: String,
}

impl View for WrappedStrF32 {
    type V = Seq<char>;

    closed spec fn view(&self) -> Seq<char> {
        self.repr@
    }
}

impl DeepView for WrappedStrF32 {
    type V = Seq<char>;

    open spec fn deep_view(&self) -> Seq<char> {
        self.view()
    }
}

/// What coercing a raw value to a string-encoded float yields: the
/// validated text, or the failure.
pub open spec fn spec_strf32(v: JVal) -> Result<Seq<char>, ErrorKindV> {
    match v {
        JVal::Str(s) => if is_float_literal(s) {
            Ok(s)
        } else {
            Err(ErrorKindV::NotFloat { value: s })
        },
        _ => Err(ErrorKindV::NotAString),
    }
}

impl WrappedStrF32 {
    /// The coerced text always reads as a floating-point literal.
    pub open spec fn wf(&self) -> bool {
        is_float_literal(self@)
    }

    /// Coerce a raw value: it must be a string whose text reads as a
    /// floating-point literal.
    pub fn coerce(v: &JsonValue) -> (r: Result<WrappedStrF32, ErrorKind>)
        ensures
            match r {
                Ok(w) => spec_strf32(v@) == Ok::<_, ErrorKindV>(w@) && w.wf(),
                Err(k) => spec_strf32(v@) == Err::<Seq<char>, _>(k.deep_view()),
            },
    {
        match v {
            JsonValue::Str(s) => {
                if check_float_literal(s.as_str()) {
                    Ok(WrappedStrF32 { repr: s.clone() })
                } else {
                    Err(ErrorKind::NotFloat { value: s.clone() })
                }
            },
            _ => Err(ErrorKind::NotAString),
        }
    }

    /// The validated text.
    pub fn as_str(&self) -> (r: &str)
        ensures
            r@ == self@,
    {
        self.repr.as_str()
    }
}

impl Clone for WrappedStrF32 {
    /// A clone holds the same text.
    fn clone(&self) -> (r: Self)
        ensures
            r@ == self@,
    {
        WrappedStrF32 { repr: self.repr.clone() }
    }
}

} // verus!
