//! Quoted-printable payload decoding for encoded words: `=XX` byte escapes
//! and the unconditional underscore-to-space rule, followed by a charset
//! decode of the resulting bytes.

use vstd::prelude::*;
use vstd::string::StringSliceAdditionalSpecFns;

use crate::backing::charset_decode;
use crate::backing::charset_decode_of;
use crate::text::alnum_byte;
use crate::text::alnum_byte_check;
use crate::text::hex_pair_or;
use crate::text::hex_pair_or_exec;

verus! {

/// Whether an `=XX` escape (two ASCII alphanumerics after `=`) starts at `i`.
pub open spec fn qp_esc_at(b: Seq<u8>, i: int) -> bool {
    &&& 0 <= i
    &&& i + 2 < b.len()
    &&& b[i] == 0x3D
    &&& alnum_byte(b[i + 1])
    &&& alnum_byte(b[i + 2])
}

/// Whether the payload holds anything to decode: an `=XX` escape or an
/// underscore.
pub open spec fn qp_gate(b: Seq<u8>) -> bool {
    (exists|i: int| qp_esc_at(b, i)) || (exists|i: int| 0 <= i < b.len() && b[i] == 0x5F)
}

/// One left-to-right pass that replaces every `=XX` escape with the byte it
/// encodes (byte 0 when the digits are not hexadecimal) and every
/// underscore with a space; all other bytes pass through.
pub open spec fn qp_bytes(b: Seq<u8>) -> Seq<u8>
    decreases b.len(),
{
    if b.len() == 0 {
        b
    } else if qp_esc_at(b, 0) {
        seq![hex_pair_or(b[1], b[2], 0x00)] + qp_bytes(b.skip(3))
    } else if b[0] == 0x5F {
        seq![0x20u8] + qp_bytes(b.skip(1))
    } else {
        seq![b[0]] + qp_bytes(b.skip(1))
    }
}

/// What quoted-printable decoding returns: a payload with neither escapes
/// nor underscores is passed through unchanged, without any charset
/// translation; otherwise the decoded byte stream is read through the
/// charset named by the label.
pub open spec fn qp_spec(s: Seq<char>, charset: Seq<char>) -> Seq<char> {
    if qp_gate(vstd::utf8::encode_utf8(s)) {
        charset_decode_of(charset, qp_bytes(vstd::utf8::encode_utf8(s)))
    } else {
        s
    }
}

fn qp_gate_exec(b: &[u8]) -> (r: bool)
    ensures
        r == qp_gate(b@),
{
    let mut i: usize = 0;
    while i < b.len()
        invariant
            i <= b@.len(),
            forall|t: int| 0 <= t < i ==> !qp_esc_at(b@, t),
            forall|t: int| 0 <= t < i ==> b@[t] != 0x5F,
        decreases b@.len() - i,
    {
        if b[i] == 0x5F {
            return true;
        }
        if b.len() - i > 2 && b[i] == 0x3D && alnum_byte_check(b[i + 1]) && alnum_byte_check(
            b[i + 2],
        ) {
            assert(qp_esc_at(b@, i as int));
            return true;
        }
        i = i + 1;
    }
    proof {
        assert forall|t: int| !qp_esc_at(b@, t) by {
            if 0 <= t < b@.len() {
            }
        }
    }
    false
}

fn qp_scan(b: &[u8]) -> (out: Vec<u8>)
    ensures
        out@ == qp_bytes(b@),
{
    let mut out: Vec<u8> = Vec::new();
    let mut i: usize = 0;
    proof {
        assert(b@.skip(0) =~= b@);
        assert(out@ + qp_bytes(b@) =~= qp_bytes(b@));
    }
    while i < b.len()
        invariant
            i <= b@.len(),
            qp_bytes(b@) == out@ + qp_bytes(b@.skip(i as int)),
        decreases b@.len() - i,
    {
        let ghost rest = b@.skip(i as int);
        let ghost prefix = out@;
        if b.len() - i > 2 && b[i] == 0x3D && alnum_byte_check(b[i + 1]) && alnum_byte_check(
            b[i + 2],
        ) {
            assert(qp_esc_at(rest, 0));
            let byte = hex_pair_or_exec(b[i + 1], b[i + 2], 0x00);
            out.push(byte);
            proof {
                assert(rest.skip(3) =~= b@.skip(i + 3));
                assert(qp_bytes(rest) == seq![byte] + qp_bytes(rest.skip(3)));
                assert(prefix + (seq![byte] + qp_bytes(b@.skip(i + 3))) =~= out@ + qp_bytes(
                    b@.skip(i + 3),
                ));
            }
            i = i + 3;
        } else {
            assert(!qp_esc_at(rest, 0));
            let byte: u8 = if b[i] == 0x5F {
                0x20
            } else {
                b[i]
            };
            out.push(byte);
            proof {
                assert(rest.skip(1) =~= b@.skip(i + 1));
                assert(qp_bytes(rest) == seq![byte] + qp_bytes(rest.skip(1)));
                assert(prefix + (seq![byte] + qp_bytes(b@.skip(i + 1))) =~= out@ + qp_bytes(
                    b@.skip(i + 1),
                ));
            }
            i = i + 1;
        }
    }
    proof {
        assert(b@.skip(b@.len() as int) =~= Seq::<u8>::empty());
        assert(out@ + qp_bytes(b@.skip(b@.len() as int)) =~= out@);
    }
    out
}

/// Decodes the payload of a quoted-printable encoded word: `=XX` escapes
/// become raw bytes, underscores become spaces, and the byte stream is read
/// through the charset named by `charset` (Latin-1 when the label is
/// unknown). A payload with neither escapes nor underscores is returned
/// unchanged.
pub fn decode_quoted_printable(s: &str, charset: &str) -> (r: String)
    ensures
        r@ == qp_spec(s@, charset@),
{
    let bytes: &[u8] = s.as_bytes();
    if !qp_gate_exec(bytes) {
        return s.to_owned();
    }
    let out = qp_scan(bytes);
    charset_decode(charset, out.as_slice())
}

/// A payload with neither `=XX` escapes nor underscores decodes to itself,
/// whatever the charset label.
pub proof fn lemma_quoted_printable_plain(s: Seq<char>, charset: Seq<char>)
    requires
        !qp_gate(vstd::utf8::encode_utf8(s)),
    ensures
        qp_spec(s, charset) == s,
{
}

} // verus!
