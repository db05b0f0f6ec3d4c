//! Character classes, maximal runs, and small conversions shared by the
//! decoders.

use vstd::prelude::*;

use crate::backing::char_from_u32;

verus! {

/// The character classes that the escape grammars distinguish.
#[derive(Clone, Copy)]
pub enum CharClass {
    /// ASCII letters and digits.
    Alnum,
    /// ASCII decimal digits.
    Digit,
    /// ASCII hexadecimal digits, either case.
    XDigit,
    /// Folding whitespace: space, tab, carriage return, newline.
    FoldWs,
    /// Any character other than `'?'`.
    NonQuestion,
}

pub open spec fn class_holds(k: CharClass, c: char) -> bool {
    let u = c as u32;
    match k {
        CharClass::Alnum => (48 <= u && u <= 57) || (65 <= u && u <= 90) || (97 <= u && u
            <= 122),
        CharClass::Digit => 48 <= u && u <= 57,
        CharClass::XDigit => (48 <= u && u <= 57) || (65 <= u && u <= 70) || (97 <= u && u
            <= 102),
        CharClass::FoldWs => u == 32 || u == 9 || u == 13 || u == 10,
        CharClass::NonQuestion => c != '?',
    }
}

/// Length of the maximal prefix of `s` whose characters all lie in class `k`.
pub open spec fn run_len(s: Seq<char>, k: CharClass) -> nat
    decreases s.len(),
{
    if s.len() > 0 && class_holds(k, s[0]) {
        (1 + run_len(s.skip(1), k)) as nat
    } else {
        0
    }
}

proof fn lemma_run_len_index(s: Seq<char>, k: CharClass, i: int)
    requires
        0 <= i <= s.len(),
        forall|t: int| 0 <= t < i ==> class_holds(k, s[t]),
        i < s.len() ==> !class_holds(k, s[i]),
    ensures
        run_len(s, k) == i,
    decreases i,
{
    if i == 0 {
    } else {
        assert(class_holds(k, s[0]));
        lemma_run_len_index(s.skip(1), k, i - 1);
    }
}

pub proof fn lemma_run_len_props(s: Seq<char>, k: CharClass)
    ensures
        run_len(s, k) <= s.len(),
        forall|t: int| 0 <= t < run_len(s, k) ==> class_holds(k, s[t]),
        run_len(s, k) < s.len() ==> !class_holds(k, s[run_len(s, k) as int]),
    decreases s.len(),
{
    if s.len() > 0 && class_holds(k, s[0]) {
        lemma_run_len_props(s.skip(1), k);
        assert forall|t: int| 0 <= t < run_len(s, k) implies class_holds(k, s[t]) by {
            if t > 0 {
                assert(class_holds(k, s.skip(1)[t - 1]));
            }
        }
    }
}

fn class_check(k: CharClass, c: char) -> (r: bool)
    ensures
        r == class_holds(k, c),
{
    let u = c as u32;
    match k {
        CharClass::Alnum => (48 <= u && u <= 57) || (65 <= u && u <= 90) || (97 <= u && u
            <= 122),
        CharClass::Digit => 48 <= u && u <= 57,
        CharClass::XDigit => (48 <= u && u <= 57) || (65 <= u && u <= 70) || (97 <= u && u
            <= 102),
        CharClass::FoldWs => u == 32 || u == 9 || u == 13 || u == 10,
        CharClass::NonQuestion => c != '?',
    }
}

/// First index at or after `start` whose character leaves class `k`, so that
/// `v[start .. end]` is the maximal run of `k`-characters beginning at `start`.
pub fn run_end(v: &Vec<char>, start: usize, k: CharClass) -> (end: usize)
    requires
        start <= v@.len(),
    ensures
        start <= end <= v@.len(),
        end - start == run_len(v@.skip(start as int), k),
{
    let mut j: usize = start;
    while j < v.len() && class_check(k, v[j])
        invariant
            start <= j <= v@.len(),
            forall|t: int| start <= t < j ==> class_holds(k, v@[t]),
        decreases v@.len() - j,
    {
        j = j + 1;
    }
    proof {
        let s = v@.skip(start as int);
        assert forall|t: int| 0 <= t < j - start implies class_holds(k, s[t]) by {
            assert(s[t] == v@[start + t]);
        }
        if (j - start) < s.len() {
            assert(s[j - start] == v@[j as int]);
        }
        lemma_run_len_index(s, k, j - start);
    }
    j
}

/// The characters of `s`, in order, as a vector.
pub fn str_to_chars(s: &str) -> (r: Vec<char>)
    ensures
        r@ == s@,
{
    let n = s.unicode_len();
    let mut v: Vec<char> = Vec::new();
    let mut i: usize = 0;
    while i < n
        invariant
            i <= n,
            n == s@.len(),
            v@ == s@.subrange(0, i as int),
        decreases n - i,
    {
        let c = s.get_char(i);
        v.push(c);
        proof {
            assert(s@.subrange(0, i + 1) =~= s@.subrange(0, i as int).push(s@[i as int]));
        }
        i = i + 1;
    }
    proof {
        assert(s@.subrange(0, n as int) =~= s@);
    }
    v
}

/// Whether the vector holds exactly the characters of `s`.
pub fn chars_eq_str(v: &Vec<char>, s: &str) -> (r: bool)
    ensures
        r == (v@ == s@),
{
    let n = s.unicode_len();
    if v.len() != n {
        proof {
            assert(v@.len() != s@.len());
        }
        return false;
    }
    let mut i: usize = 0;
    while i < n
        invariant
            i <= n,
            n == s@.len(),
            v@.len() == n,
            forall|t: int| 0 <= t < i ==> v@[t] == s@[t],
        decreases n - i,
    {
        if v[i] != s.get_char(i) {
            return false;
        }
        i = i + 1;
    }
    proof {
        assert(v@ =~= s@);
    }
    true
}

/// Whether the two vectors hold the same characters.
pub fn chars_eq_vec(a: &Vec<char>, b: &Vec<char>) -> (r: bool)
    ensures
        r == (a@ == b@),
{
    if a.len() != b.len() {
        proof {
            assert(a@.len() != b@.len());
        }
        return false;
    }
    let mut i: usize = 0;
    while i < a.len()
        invariant
            i <= a@.len(),
            a@.len() == b@.len(),
            forall|t: int| 0 <= t < i ==> a@[t] == b@[t],
        decreases a@.len() - i,
    {
        if a[i] != b[i] {
            return false;
        }
        i = i + 1;
    }
    proof {
        assert(a@ =~= b@);
    }
    true
}

/// A copy of `v[a .. b]`.
pub fn vec_subrange(v: &Vec<char>, a: usize, b: usize) -> (r: Vec<char>)
    requires
        a <= b <= v@.len(),
    ensures
        r@ == v@.subrange(a as int, b as int),
{
    let mut out: Vec<char> = Vec::new();
    let mut i: usize = a;
    while i < b
        invariant
            a <= i <= b <= v@.len(),
            out@ == v@.subrange(a as int, i as int),
        decreases b - i,
    {
        out.push(v[i]);
        proof {
            assert(v@.subrange(a as int, i + 1) =~= v@.subrange(a as int, i as int).push(
                v@[i as int],
            ));
        }
        i = i + 1;
    }
    out
}

/// Appends all characters of `piece` to `out`.
pub fn vec_extend(out: &mut Vec<char>, piece: &Vec<char>)
    ensures
        final(out)@ == old(out)@ + piece@,
{
    let mut i: usize = 0;
    while i < piece.len()
        invariant
            i <= piece@.len(),
            out@ == old(out)@ + piece@.subrange(0, i as int),
        decreases piece@.len() - i,
    {
        out.push(piece[i]);
        proof {
            assert(old(out)@ + piece@.subrange(0, i + 1) =~= (old(out)@ + piece@.subrange(
                0,
                i as int,
            )).push(piece@[i as int]));
        }
        i = i + 1;
    }
    proof {
        assert(old(out)@ + piece@.subrange(0, piece@.len() as int) =~= old(out)@ + piece@);
    }
}

/// Numeric value of an ASCII decimal digit.
pub open spec fn digit_val(c: char) -> nat
    recommends
        class_holds(CharClass::Digit, c),
{
    ((c as u32) - 48) as nat
}

/// Numeric value of an ASCII hexadecimal digit, either case.
pub open spec fn xdigit_val(c: char) -> nat
    recommends
        class_holds(CharClass::XDigit, c),
{
    let u = c as u32;
    if 48 <= u && u <= 57 {
        (u - 48) as nat
    } else if 65 <= u && u <= 70 {
        (u - 55) as nat
    } else {
        (u - 87) as nat
    }
}

/// Value of a decimal digit string, most significant digit first.
pub open spec fn dec_val(s: Seq<char>) -> nat
    decreases s.len(),
{
    if s.len() == 0 {
        0
    } else {
        dec_val(s.drop_last()) * 10 + digit_val(s.last())
    }
}

/// Value of a hexadecimal digit string, most significant digit first.
pub open spec fn hex_val(s: Seq<char>) -> nat
    decreases s.len(),
{
    if s.len() == 0 {
        0
    } else {
        hex_val(s.drop_last()) * 16 + xdigit_val(s.last())
    }
}

/// Whether `n` is a Unicode scalar value.
pub open spec fn scalar_nat(n: nat) -> bool {
    n <= 0x10FFFF && !(0xD800 <= n && n <= 0xDFFF)
}

/// Value of the decimal digits `v[a .. b]`, or `None` when it exceeds `u32`.
pub fn parse_dec(v: &Vec<char>, a: usize, b: usize) -> (r: Option<u32>)
    requires
        a <= b <= v@.len(),
        forall|t: int| a <= t < b ==> class_holds(CharClass::Digit, v@[t]),
    ensures
        match r {
            Some(x) => dec_val(v@.subrange(a as int, b as int)) == x,
            None => dec_val(v@.subrange(a as int, b as int)) > u32::MAX,
        },
{
    let mut val: u32 = 0;
    let mut big: bool = false;
    let mut i: usize = a;
    while i < b
        invariant
            a <= i <= b <= v@.len(),
            forall|t: int| a <= t < b ==> class_holds(CharClass::Digit, v@[t]),
            big ==> dec_val(v@.subrange(a as int, i as int)) > u32::MAX,
            !big ==> dec_val(v@.subrange(a as int, i as int)) == val,
        decreases b - i,
    {
        assert(class_holds(CharClass::Digit, v@[i as int]));
        let d: u32 = (v[i] as u32) - 48;
        proof {
            assert(v@.subrange(a as int, i + 1).drop_last() =~= v@.subrange(a as int, i as int));
            assert(v@.subrange(a as int, i + 1).last() == v@[i as int]);
        }
        if !big {
            if val > 429496729 || (val == 429496729 && d > 5) {
                big = true;
            } else {
                val = val * 10 + d;
            }
        }
        i = i + 1;
    }
    if big {
        None
    } else {
        Some(val)
    }
}

/// Value of the hexadecimal digits `v[a .. b]`, or `None` when it exceeds `u32`.
pub fn parse_hex(v: &Vec<char>, a: usize, b: usize) -> (r: Option<u32>)
    requires
        a <= b <= v@.len(),
        forall|t: int| a <= t < b ==> class_holds(CharClass::XDigit, v@[t]),
    ensures
        match r {
            Some(x) => hex_val(v@.subrange(a as int, b as int)) == x,
            None => hex_val(v@.subrange(a as int, b as int)) > u32::MAX,
        },
{
    let mut val: u32 = 0;
    let mut big: bool = false;
    let mut i: usize = a;
    while i < b
        invariant
            a <= i <= b <= v@.len(),
            forall|t: int| a <= t < b ==> class_holds(CharClass::XDigit, v@[t]),
            big ==> hex_val(v@.subrange(a as int, i as int)) > u32::MAX,
            !big ==> hex_val(v@.subrange(a as int, i as int)) == val,
        decreases b - i,
    {
        assert(class_holds(CharClass::XDigit, v@[i as int]));
        let u: u32 = v[i] as u32;
        let d: u32 = if u <= 57 {
            u - 48
        } else if u <= 70 {
            u - 55
        } else {
            u - 87
        };
        proof {
            assert(v@.subrange(a as int, i + 1).drop_last() =~= v@.subrange(a as int, i as int));
            assert(v@.subrange(a as int, i + 1).last() == v@[i as int]);
        }
        if !big {
            if val > 268435455 {
                big = true;
            } else {
                val = val * 16 + d;
            }
        }
        i = i + 1;
    }
    if big {
        None
    } else {
        Some(val)
    }
}

/// Whether the byte is an ASCII letter or digit.
pub open spec fn alnum_byte(b: u8) -> bool {
    (48 <= b && b <= 57) || (65 <= b && b <= 90) || (97 <= b && b <= 122)
}

pub fn alnum_byte_check(b: u8) -> (r: bool)
    ensures
        r == alnum_byte(b),
{
    (48 <= b && b <= 57) || (65 <= b && b <= 90) || (97 <= b && b <= 122)
}

/// Whether the byte is an ASCII hexadecimal digit, either case.
pub open spec fn xdigit_byte(b: u8) -> bool {
    (48 <= b && b <= 57) || (65 <= b && b <= 70) || (97 <= b && b <= 102)
}

/// Numeric value of an ASCII hexadecimal digit byte.
pub open spec fn hex_byte_val(b: u8) -> nat
    recommends
        xdigit_byte(b),
{
    if 48 <= b && b <= 57 {
        (b - 48) as nat
    } else if 65 <= b && b <= 70 {
        (b - 55) as nat
    } else {
        (b - 87) as nat
    }
}

/// The byte encoded by the hex digit pair `x y`, or `fallback` when either
/// byte is not a hex digit.
pub open spec fn hex_pair_or(x: u8, y: u8, fallback: u8) -> u8 {
    if xdigit_byte(x) && xdigit_byte(y) {
        (hex_byte_val(x) * 16 + hex_byte_val(y)) as u8
    } else {
        fallback
    }
}

pub fn hex_pair_or_exec(x: u8, y: u8, fallback: u8) -> (r: u8)
    ensures
        r == hex_pair_or(x, y, fallback),
{
    let hx: u8 = if 48 <= x && x <= 57 {
        x - 48
    } else if 65 <= x && x <= 70 {
        x - 55
    } else if 97 <= x && x <= 102 {
        x - 87
    } else {
        return fallback;
    };
    let hy: u8 = if 48 <= y && y <= 57 {
        y - 48
    } else if 65 <= y && y <= 70 {
        y - 55
    } else if 97 <= y && y <= 102 {
        y - 87
    } else {
        return fallback;
    };
    hx * 16 + hy
}

/// ASCII lowercasing of one character.
pub open spec fn lower_char(c: char) -> char {
    if 65 <= c as u32 && c as u32 <= 90 {
        (((c as u32) + 32) as u32) as char
    } else {
        c
    }
}

/// ASCII lowercasing of a text.
pub open spec fn ascii_lower(s: Seq<char>) -> Seq<char> {
    s.map_values(|c: char| lower_char(c))
}

pub fn ascii_lower_exec(v: &Vec<char>) -> (r: Vec<char>)
    ensures
        r@ == ascii_lower(v@),
{
    let mut out: Vec<char> = Vec::new();
    let mut i: usize = 0;
    while i < v.len()
        invariant
            i <= v@.len(),
            out@.len() == i,
            forall|t: int| 0 <= t < i ==> out@[t] == lower_char(v@[t]),
        decreases v@.len() - i,
    {
        let c = v[i];
        let u = c as u32;
        if 65 <= u && u <= 90 {
            let lc = char_from_u32(u + 32);
            proof {
                assert(vstd::utf8::is_scalar((u + 32) as u32));
            }
            out.push(lc.unwrap());
        } else {
            out.push(c);
        }
        i = i + 1;
    }
    proof {
        assert(out@ =~= ascii_lower(v@));
    }
    out
}

} // verus!
