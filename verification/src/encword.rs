//! RFC 2047 encoded-word decoding: `=?charset?encoding?payload?=` tokens
//! are found and replaced by their decoded text, after folding whitespace
//! between adjacent tokens has been removed.

use vstd::prelude::*;

use crate::backing::base64_decode;
use crate::backing::base64_of;
use crate::backing::chars_to_string;
use crate::backing::charset_decode;
use crate::backing::charset_decode_of;
use crate::backing::utf8_lossy;
use crate::backing::utf8_lossy_of;
use crate::quoted::decode_quoted_printable;
use crate::quoted::qp_spec;
use crate::text::CharClass;
use crate::text::ascii_lower;
use crate::text::ascii_lower_exec;
use crate::text::chars_eq_str;
use crate::text::run_end;
use crate::text::run_len;
use crate::text::str_to_chars;
use crate::text::vec_extend;
use crate::text::vec_subrange;

verus! {

/// Length of the charset label: the `?`-free run after the opening `=?`.
pub open spec fn ew_a(s: Seq<char>) -> nat {
    run_len(s.skip(2), CharClass::NonQuestion)
}

/// Length of the transfer-encoding label: the `?`-free run after the second
/// `?`.
pub open spec fn ew_b(s: Seq<char>) -> nat {
    run_len(s.skip(3 + ew_a(s) as int), CharClass::NonQuestion)
}

/// Length of the payload: the `?`-free run after the third `?`.
pub open spec fn ew_c(s: Seq<char>) -> nat {
    run_len(s.skip(4 + ew_a(s) + ew_b(s) as int), CharClass::NonQuestion)
}

/// Whether an encoded word `=?charset?encoding?payload?=` starts the text.
/// The three inner fields are the maximal `?`-free runs, so the match is
/// unambiguous.
pub open spec fn ew_matches(s: Seq<char>) -> bool {
    &&& s.len() >= 6
    &&& s[0] == '='
    &&& s[1] == '?'
    &&& 2 + ew_a(s) < s.len()
    &&& 3 + ew_a(s) + ew_b(s) < s.len()
    &&& 5 + ew_a(s) + ew_b(s) + ew_c(s) < s.len()
    &&& s[(5 + ew_a(s) + ew_b(s) + ew_c(s)) as int] == '='
}

/// Whether an encoded word occurs anywhere in the text.
pub open spec fn has_ew(s: Seq<char>) -> bool {
    exists|i: int| 0 <= i <= s.len() && ew_matches(#[trigger] s.skip(i))
}

/// What one encoded word decodes to. Labels are compared after ASCII
/// lowercasing. Encoding `b` is base64, with the raw payload as fallback
/// when the payload is not base64; encoding `q` is quoted-printable; any
/// other encoding label yields the raw payload.
pub open spec fn word_decoded(cs: Seq<char>, enc: Seq<char>, txt: Seq<char>) -> Seq<char> {
    let lcs = ascii_lower(cs);
    let lenc = ascii_lower(enc);
    if lenc == "b"@ {
        match base64_of(txt) {
            Some(bytes) => if lcs == "utf-8"@ {
                utf8_lossy_of(bytes)
            } else {
                charset_decode_of(lcs, bytes)
            },
            None => txt,
        }
    } else if lenc == "q"@ {
        qp_spec(txt, lcs)
    } else {
        txt
    }
}

/// One left-to-right pass that replaces every encoded word by its decoded
/// text; everything outside matches passes through.
pub open spec fn ew_replace(s: Seq<char>) -> Seq<char>
    decreases s.len(),
{
    if s.len() == 0 {
        s
    } else if ew_matches(s) {
        let a = ew_a(s) as int;
        let b = ew_b(s) as int;
        let c = ew_c(s) as int;
        word_decoded(
            s.subrange(2, 2 + a),
            s.subrange(3 + a, 3 + a + b),
            s.subrange(4 + a + b, 4 + a + b + c),
        ) + ew_replace(s.skip(6 + a + b + c))
    } else {
        seq![s[0]] + ew_replace(s.skip(1))
    }
}

/// Length of the folding-whitespace run after a leading `?=`.
pub open spec fn fold_run(s: Seq<char>) -> nat {
    run_len(s.skip(2), CharClass::FoldWs)
}

/// Whether `?=`, folding whitespace, `=?` starts the text: the seam between
/// two adjacent encoded words.
pub open spec fn fold_matches(s: Seq<char>) -> bool {
    &&& s.len() >= 5
    &&& s[0] == '?'
    &&& s[1] == '='
    &&& fold_run(s) >= 1
    &&& 3 + fold_run(s) < s.len()
    &&& s[(2 + fold_run(s)) as int] == '='
    &&& s[(3 + fold_run(s)) as int] == '?'
}

/// One left-to-right pass that removes the whitespace from every
/// `?=` whitespace `=?` seam, so adjacent encoded words become one
/// uninterrupted pair.
pub open spec fn fold_ws(s: Seq<char>) -> Seq<char>
    decreases s.len(),
{
    if s.len() == 0 {
        s
    } else if fold_matches(s) {
        seq!['?', '=', '=', '?'] + fold_ws(s.skip(4 + fold_run(s) as int))
    } else {
        seq![s[0]] + fold_ws(s.skip(1))
    }
}

fn ew_try_at(v: &Vec<char>, i: usize) -> (r: Option<(usize, usize, usize)>)
    requires
        i < v@.len(),
    ensures
        ({
            let rest = v@.skip(i as int);
            match r {
                Some(abc) => {
                    &&& ew_matches(rest)
                    &&& abc.0 == ew_a(rest)
                    &&& abc.1 == ew_b(rest)
                    &&& abc.2 == ew_c(rest)
                    &&& i + 5 + abc.0 + abc.1 + abc.2 < v@.len()
                },
                None => !ew_matches(rest),
            }
        }),
{
    let ghost rest = v@.skip(i as int);
    if v[i] != '=' {
        return None;
    }
    if v.len() - i < 6 {
        return None;
    }
    if v[i + 1] != '?' {
        return None;
    }
    let ja = run_end(v, i + 2, CharClass::NonQuestion);
    proof {
        assert(rest.skip(2) =~= v@.skip(i + 2));
        assert(ew_a(rest) == ja - (i + 2));
    }
    if ja >= v.len() {
        return None;
    }
    let jb = run_end(v, ja + 1, CharClass::NonQuestion);
    proof {
        assert(rest.skip(3 + ew_a(rest) as int) =~= v@.skip(ja + 1));
        assert(ew_b(rest) == jb - (ja + 1));
    }
    if jb >= v.len() {
        return None;
    }
    let jc = run_end(v, jb + 1, CharClass::NonQuestion);
    proof {
        assert(rest.skip(4 + ew_a(rest) + ew_b(rest) as int) =~= v@.skip(jb + 1));
        assert(ew_c(rest) == jc - (jb + 1));
    }
    if jc >= v.len() - 1 {
        return None;
    }
    if v[jc + 1] != '=' {
        return None;
    }
    assert(rest[(5 + ew_a(rest) + ew_b(rest) + ew_c(rest)) as int] == v@[jc + 1]);
    Some((ja - (i + 2), jb - (ja + 1), jc - (jb + 1)))
}

fn has_ew_exec(v: &Vec<char>) -> (r: bool)
    ensures
        r == has_ew(v@),
{
    let mut i: usize = 0;
    while i < v.len()
        invariant
            i <= v@.len(),
            forall|t: int| 0 <= t < i ==> !ew_matches(#[trigger] v@.skip(t)),
        decreases v@.len() - i,
    {
        if ew_try_at(v, i).is_some() {
            assert(ew_matches(v@.skip(i as int)));
            return true;
        }
        i = i + 1;
    }
    proof {
        assert(v@.skip(v@.len() as int).len() == 0);
    }
    false
}

fn fold_scan(v: &Vec<char>) -> (out: Vec<char>)
    ensures
        out@ == fold_ws(v@),
{
    let mut out: Vec<char> = Vec::new();
    let mut i: usize = 0;
    proof {
        assert(v@.skip(0) =~= v@);
        assert(out@ + fold_ws(v@) =~= fold_ws(v@));
    }
    while i < v.len()
        invariant
            i <= v@.len(),
            fold_ws(v@) == out@ + fold_ws(v@.skip(i as int)),
        decreases v@.len() - i,
    {
        let ghost rest = v@.skip(i as int);
        let ghost prefix = out@;
        proof {
            assert(rest.skip(1) =~= v@.skip(i + 1));
        }
        let mut matched = false;
        if v[i] == '?' && v.len() - i >= 5 && v[i + 1] == '=' {
            let j = run_end(v, i + 2, CharClass::FoldWs);
            proof {
                assert(rest.skip(2) =~= v@.skip(i + 2));
                assert(fold_run(rest) == j - (i + 2));
            }
            if j > i + 2 && j < v.len() - 1 && v[j] == '=' && v[j + 1] == '?' {
                assert(fold_matches(rest));
                let ghost k = fold_run(rest) as int;
                out.push('?');
                out.push('=');
                out.push('=');
                out.push('?');
                proof {
                    assert(rest.skip(4 + k) =~= v@.skip(j + 2));
                    assert(fold_ws(rest) == seq!['?', '=', '=', '?'] + fold_ws(v@.skip(j + 2)));
                    assert(prefix + (seq!['?', '=', '=', '?'] + fold_ws(v@.skip(j + 2))) =~= out@
                        + fold_ws(v@.skip(j + 2)));
                }
                i = j + 2;
                matched = true;
            }
        }
        if !matched {
            assert(!fold_matches(rest)) by {
                if rest.len() >= 5 && rest[0] == '?' && rest[1] == '=' {
                    assert(rest.skip(2) =~= v@.skip(i + 2));
                }
            }
            out.push(v[i]);
            proof {
                assert(fold_ws(rest) == seq![rest[0]] + fold_ws(rest.skip(1)));
                assert(prefix + (seq![rest[0]] + fold_ws(v@.skip(i + 1))) =~= out@ + fold_ws(
                    v@.skip(i + 1),
                ));
            }
            i = i + 1;
        }
    }
    proof {
        assert(v@.skip(v@.len() as int) =~= Seq::<char>::empty());
        assert(out@ + fold_ws(v@.skip(v@.len() as int)) =~= out@);
    }
    out
}

fn decode_word_exec(cs: &Vec<char>, enc: &Vec<char>, txt: &Vec<char>) -> (r: Vec<char>)
    ensures
        r@ == word_decoded(cs@, enc@, txt@),
{
    let lcs = ascii_lower_exec(cs);
    let lenc = ascii_lower_exec(enc);
    if chars_eq_str(&lenc, "b") {
        let txt_s = chars_to_string(txt);
        match base64_decode(txt_s.as_str()) {
            Some(bytes) => {
                if chars_eq_str(&lcs, "utf-8") {
                    let dec = utf8_lossy(bytes.as_slice());
                    str_to_chars(dec.as_str())
                } else {
                    let lcs_s = chars_to_string(&lcs);
                    let dec = charset_decode(lcs_s.as_str(), bytes.as_slice());
                    str_to_chars(dec.as_str())
                }
            },
            None => {
                let r = vec_subrange(txt, 0, txt.len());
                proof {
                    assert(txt@.subrange(0, txt@.len() as int) =~= txt@);
                }
                r
            },
        }
    } else if chars_eq_str(&lenc, "q") {
        let txt_s = chars_to_string(txt);
        let lcs_s = chars_to_string(&lcs);
        let dec = decode_quoted_printable(txt_s.as_str(), lcs_s.as_str());
        str_to_chars(dec.as_str())
    } else {
        let r = vec_subrange(txt, 0, txt.len());
        proof {
            assert(txt@.subrange(0, txt@.len() as int) =~= txt@);
        }
        r
    }
}

fn ew_scan(v: &Vec<char>) -> (out: Vec<char>)
    ensures
        out@ == ew_replace(v@),
{
    let mut out: Vec<char> = Vec::new();
    let mut i: usize = 0;
    proof {
        assert(v@.skip(0) =~= v@);
        assert(out@ + ew_replace(v@) =~= ew_replace(v@));
    }
    while i < v.len()
        invariant
            i <= v@.len(),
            ew_replace(v@) == out@ + ew_replace(v@.skip(i as int)),
        decreases v@.len() - i,
    {
        let ghost rest = v@.skip(i as int);
        let ghost prefix = out@;
        proof {
            assert(rest.skip(1) =~= v@.skip(i + 1));
        }
        match ew_try_at(v, i) {
            Some((a, b, c)) => {
                assert(ew_matches(rest));
                let cs = vec_subrange(v, i + 2, i + 2 + a);
                let enc = vec_subrange(v, i + 3 + a, i + 3 + a + b);
                let txt = vec_subrange(v, i + 4 + a + b, i + 4 + a + b + c);
                proof {
                    assert(rest.subrange(2, 2 + a as int) =~= v@.subrange(i + 2, i + 2 + a));
                    assert(rest.subrange(3 + a as int, 3 + a + b) =~= v@.subrange(
                        i + 3 + a,
                        i + 3 + a + b,
                    ));
                    assert(rest.subrange(4 + a + b, 4 + a + b + c) =~= v@.subrange(
                        i + 4 + a + b,
                        i + 4 + a + b + c,
                    ));
                    assert(rest.skip(6 + a + b + c) =~= v@.skip(i + 6 + a + b + c));
                }
                let piece = decode_word_exec(&cs, &enc, &txt);
                vec_extend(&mut out, &piece);
                proof {
                    assert(ew_replace(rest) == piece@ + ew_replace(v@.skip(i + 6 + a + b + c)));
                    assert(prefix + (piece@ + ew_replace(v@.skip(i + 6 + a + b + c))) =~= out@
                        + ew_replace(v@.skip(i + 6 + a + b + c)));
                }
                i = i + 6 + a + b + c;
            },
            None => {
                assert(!ew_matches(rest));
                out.push(v[i]);
                proof {
                    assert(ew_replace(rest) == seq![rest[0]] + ew_replace(rest.skip(1)));
                    assert(prefix + (seq![rest[0]] + ew_replace(v@.skip(i + 1))) =~= out@
                        + ew_replace(v@.skip(i + 1)));
                }
                i = i + 1;
            },
        }
    }
    proof {
        assert(v@.skip(v@.len() as int) =~= Seq::<char>::empty());
        assert(out@ + ew_replace(v@.skip(v@.len() as int)) =~= out@);
    }
    out
}

/// Finds every `=?charset?encoding?payload?=` token, removes folding
/// whitespace between adjacent tokens, and replaces each token by its
/// decoded text; text outside tokens, and text without any token, is left
/// unchanged.
pub fn decode_rfc2047(s: &str) -> (r: String)
    ensures
        r@ == rfc2047_spec(s@),
{
    let v = str_to_chars(s);
    if !has_ew_exec(&v) {
        return chars_to_string(&v);
    }
    let folded = fold_scan(&v);
    let replaced = ew_scan(&folded);
    chars_to_string(&replaced)
}

/// Text that holds no encoded word decodes to itself.
pub proof fn lemma_rfc2047_plain(s: Seq<char>)
    requires
        !has_ew(s),
    ensures
        rfc2047_spec(s) == s,
{
}

/// What encoded-word decoding returns: text without any encoded word is
/// passed through unchanged; otherwise whitespace between adjacent words is
/// folded away and every word is replaced by its decoded text.
pub open spec fn rfc2047_spec(s: Seq<char>) -> Seq<char> {
    if has_ew(s) {
        ew_replace(fold_ws(s))
    } else {
        s
    }
}

} // verus!
