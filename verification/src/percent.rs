//! RFC 1738 percent-decoding: `%XX` hex-byte triplets are turned into raw
//! bytes and the whole byte stream is then read as UTF-8.

use vstd::prelude::*;
use vstd::string::StringSliceAdditionalSpecFns;
use vstd::string::StrSliceExecFns;

use crate::backing::charset_decode;
use crate::backing::charset_decode_of;
use crate::text::alnum_byte;
use crate::text::alnum_byte_check;
use crate::text::hex_pair_or;
use crate::text::hex_pair_or_exec;

verus! {

/// Whether a `%XX` triplet (two ASCII alphanumerics after `%`) starts at `i`.
pub open spec fn pct_at(b: Seq<u8>, i: int) -> bool {
    &&& 0 <= i
    &&& i + 2 < b.len()
    &&& b[i] == 0x25
    &&& alnum_byte(b[i + 1])
    &&& alnum_byte(b[i + 2])
}

/// Whether the byte stream holds any `%XX` triplet.
pub open spec fn has_pct(b: Seq<u8>) -> bool {
    exists|i: int| pct_at(b, i)
}

/// One left-to-right pass that replaces every `%XX` triplet with the byte it
/// encodes; a triplet whose digits are not hexadecimal yields the
/// replacement code point truncated to a byte.
pub open spec fn pct_bytes(b: Seq<u8>) -> Seq<u8>
    decreases b.len(),
{
    if b.len() == 0 {
        b
    } else if pct_at(b, 0) {
        seq![hex_pair_or(b[1], b[2], 0xFD)] + pct_bytes(b.skip(3))
    } else {
        seq![b[0]] + pct_bytes(b.skip(1))
    }
}

/// What percent-decoding returns: text without triplets is passed through
/// unchanged; otherwise the decoded byte stream is read as UTF-8.
pub open spec fn rfc1738_spec(s: Seq<char>) -> Seq<char> {
    if has_pct(vstd::utf8::encode_utf8(s)) {
        charset_decode_of("utf-8"@, pct_bytes(vstd::utf8::encode_utf8(s)))
    } else {
        s
    }
}

fn has_pct_exec(b: &[u8]) -> (r: bool)
    ensures
        r == has_pct(b@),
{
    if b.len() < 3 {
        return false;
    }
    let mut i: usize = 0;
    while i < b.len() - 2
        invariant
            b@.len() >= 3,
            i <= b@.len() - 2,
            forall|t: int| 0 <= t < i ==> !pct_at(b@, t),
        decreases b@.len() - i,
    {
        if b[i] == 0x25 && alnum_byte_check(b[i + 1]) && alnum_byte_check(b[i + 2]) {
            assert(pct_at(b@, i as int));
            return true;
        }
        i = i + 1;
    }
    proof {
        assert forall|t: int| !pct_at(b@, t) by {
            if 0 <= t < i {
            }
        }
    }
    false
}

fn pct_scan(b: &[u8]) -> (out: Vec<u8>)
    ensures
        out@ == pct_bytes(b@),
{
    let mut out: Vec<u8> = Vec::new();
    let mut i: usize = 0;
    proof {
        assert(b@.skip(0) =~= b@);
        assert(out@ + pct_bytes(b@) =~= pct_bytes(b@));
    }
    while i < b.len()
        invariant
            i <= b@.len(),
            pct_bytes(b@) == out@ + pct_bytes(b@.skip(i as int)),
        decreases b@.len() - i,
    {
        let ghost rest = b@.skip(i as int);
        let ghost prefix = out@;
        if b.len() - i > 2 && b[i] == 0x25 && alnum_byte_check(b[i + 1]) && alnum_byte_check(
            b[i + 2],
        ) {
            assert(pct_at(rest, 0));
            let byte = hex_pair_or_exec(b[i + 1], b[i + 2], 0xFD);
            out.push(byte);
            proof {
                assert(rest.skip(3) =~= b@.skip(i + 3));
                assert(pct_bytes(rest) == seq![byte] + pct_bytes(rest.skip(3)));
                assert(prefix + (seq![byte] + pct_bytes(b@.skip(i + 3))) =~= out@ + pct_bytes(
                    b@.skip(i + 3),
                ));
            }
            i = i + 3;
        } else {
            assert(!pct_at(rest, 0));
            out.push(b[i]);
            proof {
                assert(rest.skip(1) =~= b@.skip(i + 1));
                assert(pct_bytes(rest) == seq![rest[0]] + pct_bytes(rest.skip(1)));
                assert(prefix + (seq![rest[0]] + pct_bytes(b@.skip(i + 1))) =~= out@ + pct_bytes(
                    b@.skip(i + 1),
                ));
            }
            i = i + 1;
        }
    }
    proof {
        assert(b@.skip(b@.len() as int) =~= Seq::<u8>::empty());
        assert(out@ + pct_bytes(b@.skip(b@.len() as int)) =~= out@);
    }
    out
}

/// Replaces every `%XX` triplet with the byte it encodes and reads the
/// resulting byte stream as UTF-8, substituting U+FFFD where that fails;
/// text without any triplet is returned unchanged.
pub fn decode_rfc1738(s: &str) -> (r: String)
    ensures
        r@ == rfc1738_spec(s@),
{
    let bytes: &[u8] = s.as_bytes();
    if !has_pct_exec(bytes) {
        return s.to_owned();
    }
    let out = pct_scan(bytes);
    charset_decode("utf-8", out.as_slice())
}

/// Text that holds no percent-triplet decodes to itself.
pub proof fn lemma_rfc1738_plain(s: Seq<char>)
    requires
        !has_pct(vstd::utf8::encode_utf8(s)),
    ensures
        rfc1738_spec(s) == s,
{
}

} // verus!
