//! HTML/XML character-reference decoding: named (`&name;`), decimal
//! (`&#digits;`) and hexadecimal (`&#xHEX;`) references are replaced, and
//! the pass repeats until a pass changes nothing, so that references
//! revealed by earlier replacements are decoded too.

use vstd::prelude::*;

use crate::backing::char_from_u32;
use crate::backing::chars_to_string;
use crate::table::entity_value;
use crate::table::lookup_entity;
use crate::text::CharClass;
use crate::text::chars_eq_vec;
use crate::text::class_holds;
use crate::text::dec_val;
use crate::text::hex_val;
use crate::text::lemma_run_len_props;
use crate::text::parse_dec;
use crate::text::parse_hex;
use crate::text::run_end;
use crate::text::run_len;
use crate::text::scalar_nat;
use crate::text::str_to_chars;
use crate::text::vec_extend;
use crate::text::vec_subrange;

verus! {

/// Length of the alphanumeric run after a leading `&`.
pub open spec fn name_run(s: Seq<char>) -> nat {
    run_len(s.skip(1), CharClass::Alnum)
}

/// Whether a named reference `&name;` starts the text.
pub open spec fn name_matches(s: Seq<char>) -> bool {
    &&& s.len() >= 3
    &&& s[0] == '&'
    &&& name_run(s) >= 1
    &&& 1 + name_run(s) < s.len()
    &&& s[(1 + name_run(s)) as int] == ';'
}

/// What a named reference becomes: its character when the name is known,
/// the bare name with the delimiters stripped when it is not.
pub open spec fn name_repl(name: Seq<char>) -> Seq<char> {
    match entity_value(name) {
        Some(c) => seq![c],
        None => name,
    }
}

/// One left-to-right pass that resolves named references.
pub open spec fn name_pass(s: Seq<char>) -> Seq<char>
    decreases s.len(),
{
    if s.len() == 0 {
        s
    } else if name_matches(s) {
        let k = name_run(s) as int;
        name_repl(s.subrange(1, 1 + k)) + name_pass(s.skip(2 + k))
    } else {
        seq![s[0]] + name_pass(s.skip(1))
    }
}

/// Length of the digit run after a leading `&#`.
pub open spec fn dec_run(s: Seq<char>) -> nat {
    run_len(s.skip(2), CharClass::Digit)
}

/// Whether a decimal reference `&#digits;` starts the text.
pub open spec fn dec_matches(s: Seq<char>) -> bool {
    &&& s.len() >= 4
    &&& s[0] == '&'
    &&& s[1] == '#'
    &&& dec_run(s) >= 1
    &&& 2 + dec_run(s) < s.len()
    &&& s[(2 + dec_run(s)) as int] == ';'
}

/// The character a numeric reference of value `n` stands for: the code
/// point itself when it is a Unicode scalar value, U+FFFD otherwise.
pub open spec fn numeric_char(n: nat) -> char {
    if scalar_nat(n) {
        (n as u32) as char
    } else {
        '\u{fffd}'
    }
}

/// One left-to-right pass that resolves decimal references.
pub open spec fn dec_pass(s: Seq<char>) -> Seq<char>
    decreases s.len(),
{
    if s.len() == 0 {
        s
    } else if dec_matches(s) {
        let k = dec_run(s) as int;
        seq![numeric_char(dec_val(s.subrange(2, 2 + k)))] + dec_pass(s.skip(3 + k))
    } else {
        seq![s[0]] + dec_pass(s.skip(1))
    }
}

/// Length of the hex-digit run after a leading `&#x`.
pub open spec fn hex_run(s: Seq<char>) -> nat {
    run_len(s.skip(3), CharClass::XDigit)
}

/// Whether a hexadecimal reference `&#xHEX;` starts the text.
pub open spec fn hex_matches(s: Seq<char>) -> bool {
    &&& s.len() >= 5
    &&& s[0] == '&'
    &&& s[1] == '#'
    &&& s[2] == 'x'
    &&& hex_run(s) >= 1
    &&& 3 + hex_run(s) < s.len()
    &&& s[(3 + hex_run(s)) as int] == ';'
}

/// One left-to-right pass that resolves hexadecimal references.
pub open spec fn hex_pass(s: Seq<char>) -> Seq<char>
    decreases s.len(),
{
    if s.len() == 0 {
        s
    } else if hex_matches(s) {
        let k = hex_run(s) as int;
        seq![numeric_char(hex_val(s.subrange(3, 3 + k)))] + hex_pass(s.skip(4 + k))
    } else {
        seq![s[0]] + hex_pass(s.skip(1))
    }
}

/// One full pass: named, then decimal, then hexadecimal references, each
/// pass running over the previous pass's output.
pub open spec fn entity_pass(s: Seq<char>) -> Seq<char> {
    hex_pass(dec_pass(name_pass(s)))
}

proof fn lemma_name_pass_len(s: Seq<char>)
    ensures
        name_pass(s).len() <= s.len(),
        name_pass(s) != s ==> name_pass(s).len() < s.len(),
    decreases s.len(),
{
    if s.len() == 0 {
    } else if name_matches(s) {
        let k = name_run(s) as int;
        lemma_name_pass_len(s.skip(2 + k));
    } else {
        lemma_name_pass_len(s.skip(1));
        if name_pass(s.skip(1)) == s.skip(1) {
            assert(seq![s[0]] + s.skip(1) =~= s);
        }
    }
}

proof fn lemma_dec_pass_len(s: Seq<char>)
    ensures
        dec_pass(s).len() <= s.len(),
        dec_pass(s) != s ==> dec_pass(s).len() < s.len(),
    decreases s.len(),
{
    if s.len() == 0 {
    } else if dec_matches(s) {
        let k = dec_run(s) as int;
        lemma_dec_pass_len(s.skip(3 + k));
    } else {
        lemma_dec_pass_len(s.skip(1));
        if dec_pass(s.skip(1)) == s.skip(1) {
            assert(seq![s[0]] + s.skip(1) =~= s);
        }
    }
}

proof fn lemma_hex_pass_len(s: Seq<char>)
    ensures
        hex_pass(s).len() <= s.len(),
        hex_pass(s) != s ==> hex_pass(s).len() < s.len(),
    decreases s.len(),
{
    if s.len() == 0 {
    } else if hex_matches(s) {
        let k = hex_run(s) as int;
        lemma_hex_pass_len(s.skip(4 + k));
    } else {
        lemma_hex_pass_len(s.skip(1));
        if hex_pass(s.skip(1)) == s.skip(1) {
            assert(seq![s[0]] + s.skip(1) =~= s);
        }
    }
}

/// A pass that changes anything strictly shortens the text, which bounds
/// the fixed-point iteration.
pub proof fn lemma_entity_pass_len(s: Seq<char>)
    ensures
        entity_pass(s).len() <= s.len(),
        entity_pass(s) != s ==> entity_pass(s).len() < s.len(),
{
    lemma_name_pass_len(s);
    lemma_dec_pass_len(name_pass(s));
    lemma_hex_pass_len(dec_pass(name_pass(s)));
}

fn name_scan(v: &Vec<char>) -> (out: Vec<char>)
    ensures
        out@ == name_pass(v@),
{
    let mut out: Vec<char> = Vec::new();
    let mut i: usize = 0;
    proof {
        assert(v@.skip(0) =~= v@);
        assert(out@ + name_pass(v@) =~= name_pass(v@));
    }
    while i < v.len()
        invariant
            i <= v@.len(),
            name_pass(v@) == out@ + name_pass(v@.skip(i as int)),
        decreases v@.len() - i,
    {
        let ghost rest = v@.skip(i as int);
        let ghost prefix = out@;
        proof {
            assert(rest.skip(1) =~= v@.skip(i + 1));
        }
        let mut matched = false;
        if v[i] == '&' {
            let j = run_end(v, i + 1, CharClass::Alnum);
            proof {
                assert(name_run(rest) == j - (i + 1));
            }
            if j > i + 1 && j < v.len() && v[j] == ';' {
                assert(name_matches(rest));
                let k: usize = j - (i + 1);
                let name = vec_subrange(v, i + 1, j);
                proof {
                    assert(rest.subrange(1, 1 + k) =~= v@.subrange(i + 1, j as int));
                    assert(rest.skip(2 + k) =~= v@.skip(j + 1));
                }
                match lookup_entity(&name) {
                    Some(c) => {
                        out.push(c);
                    },
                    None => {
                        vec_extend(&mut out, &name);
                    },
                }
                proof {
                    assert(name_pass(rest) == name_repl(name@) + name_pass(v@.skip(j + 1)));
                    assert(prefix + (name_repl(name@) + name_pass(v@.skip(j + 1))) =~= out@
                        + name_pass(v@.skip(j + 1)));
                }
                i = j + 1;
                matched = true;
            }
        }
        if !matched {
            assert(!name_matches(rest));
            out.push(v[i]);
            proof {
                assert(name_pass(rest) == seq![rest[0]] + name_pass(rest.skip(1)));
                assert(prefix + (seq![rest[0]] + name_pass(v@.skip(i + 1))) =~= out@ + name_pass(
                    v@.skip(i + 1),
                ));
            }
            i = i + 1;
        }
    }
    proof {
        assert(v@.skip(v@.len() as int) =~= Seq::<char>::empty());
        assert(out@ + name_pass(v@.skip(v@.len() as int)) =~= out@);
    }
    out
}

fn dec_scan(v: &Vec<char>) -> (out: Vec<char>)
    ensures
        out@ == dec_pass(v@),
{
    let mut out: Vec<char> = Vec::new();
    let mut i: usize = 0;
    proof {
        assert(v@.skip(0) =~= v@);
        assert(out@ + dec_pass(v@) =~= dec_pass(v@));
    }
    while i < v.len()
        invariant
            i <= v@.len(),
            dec_pass(v@) == out@ + dec_pass(v@.skip(i as int)),
        decreases v@.len() - i,
    {
        let ghost rest = v@.skip(i as int);
        let ghost prefix = out@;
        proof {
            assert(rest.skip(1) =~= v@.skip(i + 1));
        }
        let mut matched = false;
        if v[i] == '&' && v.len() - i > 2 && v[i + 1] == '#' {
            let j = run_end(v, i + 2, CharClass::Digit);
            proof {
                assert(dec_run(rest) == j - (i + 2)) by {
                    assert(rest.skip(2) =~= v@.skip(i + 2));
                }
            }
            if j > i + 2 && j < v.len() && v[j] == ';' {
                assert(dec_matches(rest));
                let k: usize = j - (i + 2);
                proof {
                    assert(rest.subrange(2, 2 + k) =~= v@.subrange(i + 2, j as int));
                    assert(rest.skip(3 + k) =~= v@.skip(j + 1));
                    lemma_run_len_props(v@.skip(i + 2), CharClass::Digit);
                    assert forall|t: int| i + 2 <= t < j implies class_holds(
                        CharClass::Digit,
                        v@[t],
                    ) by {
                        assert(v@[t] == v@.skip(i + 2)[t - (i + 2)]);
                    }
                }
                let c: char = match parse_dec(v, i + 2, j) {
                    Some(x) => {
                        match char_from_u32(x) {
                            Some(c) => c,
                            None => '\u{fffd}',
                        }
                    },
                    None => '\u{fffd}',
                };
                assert(c == numeric_char(dec_val(v@.subrange(i + 2, j as int))));
                out.push(c);
                proof {
                    assert(dec_pass(rest) == seq![c] + dec_pass(v@.skip(j + 1)));
                    assert(prefix + (seq![c] + dec_pass(v@.skip(j + 1))) =~= out@ + dec_pass(
                        v@.skip(j + 1),
                    ));
                }
                i = j + 1;
                matched = true;
            }
        }
        if !matched {
            assert(!dec_matches(rest)) by {
                if rest.len() >= 4 && rest[0] == '&' && rest[1] == '#' {
                    assert(rest.skip(2) =~= v@.skip(i + 2));
                }
            }
            out.push(v[i]);
            proof {
                assert(dec_pass(rest) == seq![rest[0]] + dec_pass(rest.skip(1)));
                assert(prefix + (seq![rest[0]] + dec_pass(v@.skip(i + 1))) =~= out@ + dec_pass(
                    v@.skip(i + 1),
                ));
            }
            i = i + 1;
        }
    }
    proof {
        assert(v@.skip(v@.len() as int) =~= Seq::<char>::empty());
        assert(out@ + dec_pass(v@.skip(v@.len() as int)) =~= out@);
    }
    out
}

fn hex_scan(v: &Vec<char>) -> (out: Vec<char>)
    ensures
        out@ == hex_pass(v@),
{
    let mut out: Vec<char> = Vec::new();
    let mut i: usize = 0;
    proof {
        assert(v@.skip(0) =~= v@);
        assert(out@ + hex_pass(v@) =~= hex_pass(v@));
    }
    while i < v.len()
        invariant
            i <= v@.len(),
            hex_pass(v@) == out@ + hex_pass(v@.skip(i as int)),
        decreases v@.len() - i,
    {
        let ghost rest = v@.skip(i as int);
        let ghost prefix = out@;
        proof {
            assert(rest.skip(1) =~= v@.skip(i + 1));
        }
        let mut matched = false;
        if v[i] == '&' && v.len() - i > 3 && v[i + 1] == '#' && v[i + 2] == 'x' {
            let j = run_end(v, i + 3, CharClass::XDigit);
            proof {
                assert(hex_run(rest) == j - (i + 3)) by {
                    assert(rest.skip(3) =~= v@.skip(i + 3));
                }
            }
            if j > i + 3 && j < v.len() && v[j] == ';' {
                assert(hex_matches(rest));
                let k: usize = j - (i + 3);
                proof {
                    assert(rest.subrange(3, 3 + k) =~= v@.subrange(i + 3, j as int));
                    assert(rest.skip(4 + k) =~= v@.skip(j + 1));
                    lemma_run_len_props(v@.skip(i + 3), CharClass::XDigit);
                    assert forall|t: int| i + 3 <= t < j implies class_holds(
                        CharClass::XDigit,
                        v@[t],
                    ) by {
                        assert(v@[t] == v@.skip(i + 3)[t - (i + 3)]);
                    }
                }
                let c: char = match parse_hex(v, i + 3, j) {
                    Some(x) => {
                        match char_from_u32(x) {
                            Some(c) => c,
                            None => '\u{fffd}',
                        }
                    },
                    None => '\u{fffd}',
                };
                assert(c == numeric_char(hex_val(v@.subrange(i + 3, j as int))));
                out.push(c);
                proof {
                    assert(hex_pass(rest) == seq![c] + hex_pass(v@.skip(j + 1)));
                    assert(prefix + (seq![c] + hex_pass(v@.skip(j + 1))) =~= out@ + hex_pass(
                        v@.skip(j + 1),
                    ));
                }
                i = j + 1;
                matched = true;
            }
        }
        if !matched {
            assert(!hex_matches(rest)) by {
                if rest.len() >= 5 && rest[0] == '&' && rest[1] == '#' && rest[2] == 'x' {
                    assert(rest.skip(3) =~= v@.skip(i + 3));
                }
            }
            out.push(v[i]);
            proof {
                assert(hex_pass(rest) == seq![rest[0]] + hex_pass(rest.skip(1)));
                assert(prefix + (seq![rest[0]] + hex_pass(v@.skip(i + 1))) =~= out@ + hex_pass(
                    v@.skip(i + 1),
                ));
            }
            i = i + 1;
        }
    }
    proof {
        assert(v@.skip(v@.len() as int) =~= Seq::<char>::empty());
        assert(out@ + hex_pass(v@.skip(v@.len() as int)) =~= out@);
    }
    out
}

/// The fixed point that repeated passes reach: the first text that a
/// further pass leaves unchanged.
pub open spec fn entity_fixpoint(s: Seq<char>) -> Seq<char>
    decreases s.len(),
{
    if entity_pass(s) == s {
        s
    } else {
        proof {
            lemma_entity_pass_len(s);
        }
        entity_fixpoint(entity_pass(s))
    }
}

/// Replaces every character reference with the text it stands for and
/// repeats until a full pass changes nothing, so that references revealed
/// by earlier replacements are decoded too. Unknown names degrade to their
/// bare name; numeric references outside the Unicode scalar range become
/// U+FFFD.
pub fn decode_entities(s: &str) -> (r: String)
    ensures
        r@ == entity_fixpoint(s@),
{
    let mut cur = str_to_chars(s);
    loop
        invariant
            entity_fixpoint(s@) == entity_fixpoint(cur@),
        ensures
            entity_pass(cur@) == cur@,
            entity_fixpoint(s@) == entity_fixpoint(cur@),
        decreases cur@.len(),
    {
        let a = name_scan(&cur);
        let b = dec_scan(&a);
        let next = hex_scan(&b);
        assert(next@ == entity_pass(cur@));
        if chars_eq_vec(&next, &cur) {
            break;
        }
        proof {
            lemma_entity_pass_len(cur@);
        }
        cur = next;
    }
    assert(entity_fixpoint(cur@) == cur@);
    chars_to_string(&cur)
}

/// The decoder's result is a fixed point: one more pass changes nothing.
pub proof fn lemma_entity_fixpoint_is_fixed(s: Seq<char>)
    ensures
        entity_pass(entity_fixpoint(s)) == entity_fixpoint(s),
    decreases s.len(),
{
    if entity_pass(s) == s {
    } else {
        lemma_entity_pass_len(s);
        lemma_entity_fixpoint_is_fixed(entity_pass(s));
    }
}

/// Entity decoding is idempotent: decoding an already decoded text returns
/// it unchanged.
pub proof fn lemma_decode_entities_idempotent(s: Seq<char>)
    ensures
        entity_fixpoint(entity_fixpoint(s)) == entity_fixpoint(s),
{
    lemma_entity_fixpoint_is_fixed(s);
}

/// Whether any character reference occurs anywhere in the text.
pub open spec fn has_entity_ref(s: Seq<char>) -> bool {
    exists|i: int|
        0 <= i <= s.len() && (name_matches(s.skip(i)) || dec_matches(s.skip(i)) || hex_matches(
            s.skip(i),
        ))
}

proof fn lemma_name_pass_plain(s: Seq<char>)
    requires
        forall|i: int| 0 <= i <= s.len() ==> !name_matches(#[trigger] s.skip(i)),
    ensures
        name_pass(s) == s,
    decreases s.len(),
{
    if s.len() == 0 {
    } else {
        assert(s.skip(0) =~= s);
        assert(!name_matches(s));
        assert forall|i: int| 0 <= i <= s.skip(1).len() implies !name_matches(
            #[trigger] s.skip(1).skip(i),
        ) by {
            assert(s.skip(1).skip(i) =~= s.skip(i + 1));
        }
        lemma_name_pass_plain(s.skip(1));
        assert(seq![s[0]] + s.skip(1) =~= s);
    }
}

proof fn lemma_dec_pass_plain(s: Seq<char>)
    requires
        forall|i: int| 0 <= i <= s.len() ==> !dec_matches(#[trigger] s.skip(i)),
    ensures
        dec_pass(s) == s,
    decreases s.len(),
{
    if s.len() == 0 {
    } else {
        assert(s.skip(0) =~= s);
        assert(!dec_matches(s));
        assert forall|i: int| 0 <= i <= s.skip(1).len() implies !dec_matches(
            #[trigger] s.skip(1).skip(i),
        ) by {
            assert(s.skip(1).skip(i) =~= s.skip(i + 1));
        }
        lemma_dec_pass_plain(s.skip(1));
        assert(seq![s[0]] + s.skip(1) =~= s);
    }
}

proof fn lemma_hex_pass_plain(s: Seq<char>)
    requires
        forall|i: int| 0 <= i <= s.len() ==> !hex_matches(#[trigger] s.skip(i)),
    ensures
        hex_pass(s) == s,
    decreases s.len(),
{
    if s.len() == 0 {
    } else {
        assert(s.skip(0) =~= s);
        assert(!hex_matches(s));
        assert forall|i: int| 0 <= i <= s.skip(1).len() implies !hex_matches(
            #[trigger] s.skip(1).skip(i),
        ) by {
            assert(s.skip(1).skip(i) =~= s.skip(i + 1));
        }
        lemma_hex_pass_plain(s.skip(1));
        assert(seq![s[0]] + s.skip(1) =~= s);
    }
}

/// Text that holds no character reference decodes to itself.
pub proof fn lemma_entities_plain(s: Seq<char>)
    requires
        !has_entity_ref(s),
    ensures
        entity_fixpoint(s) == s,
{
    assert forall|i: int| 0 <= i <= s.len() implies !name_matches(#[trigger] s.skip(i)) by {
        if name_matches(s.skip(i)) {
            assert(has_entity_ref(s));
        }
    }
    assert forall|i: int| 0 <= i <= s.len() implies !dec_matches(#[trigger] s.skip(i)) by {
        if dec_matches(s.skip(i)) {
            assert(has_entity_ref(s));
        }
    }
    assert forall|i: int| 0 <= i <= s.len() implies !hex_matches(#[trigger] s.skip(i)) by {
        if hex_matches(s.skip(i)) {
            assert(has_entity_ref(s));
        }
    }
    lemma_name_pass_plain(s);
    lemma_dec_pass_plain(s);
    lemma_hex_pass_plain(s);
}

} // verus!
