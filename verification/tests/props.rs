use mung::decode_entities;
use mung::decode_quoted_printable;
use mung::decode_rfc1738;
use mung::decode_rfc2047;

#[test]
fn entity_decoding_is_idempotent_on_samples() {
    let samples = ["", "plain", "&amp;", "&amp;amp;lt;", "&#38;#38;", "&fred;&amp;", "&#x2665;"];
    for s in samples {
        let once = decode_entities(s);
        let twice = decode_entities(&once);
        assert_eq!(twice, once);
    }
}

#[test]
fn plain_text_passes_through_every_decoder() {
    let s = "An ordinary header value, nothing escaped.";
    assert_eq!(decode_entities(s), s);
    assert_eq!(decode_rfc1738(s), s);
    assert_eq!(decode_rfc2047(s), s);
    assert_eq!(decode_quoted_printable("plain", "ISO-8859-1"), "plain");
}

#[test]
fn unknown_transfer_encoding_yields_raw_payload() {
    assert_eq!(decode_rfc2047("=?utf-8?z?dGVzdA==?="), "dGVzdA==");
    assert_eq!(
        decode_rfc2047("=?utf-8?z?dGVzdA==?= unknown encoding"),
        "dGVzdA== unknown encoding"
    );
}

#[test]
fn base64_failure_yields_raw_payload() {
    assert_eq!(decode_rfc2047("=?utf-8?b?¢?= kept"), "¢ kept");
}

#[test]
fn unknown_charset_falls_back_to_latin1() {
    assert_eq!(decode_rfc2047("=?zalgo-he-comes?q?=AF?="), "\u{af}");
    assert_eq!(decode_quoted_printable("=E9", "no-such-charset"), "é");
}

#[test]
fn numeric_references_outside_unicode_yield_replacement() {
    assert_eq!(decode_entities("&#x9999999;"), "\u{fffd}");
    assert_eq!(decode_entities("&#55296;"), "\u{fffd}");
    assert_eq!(decode_entities("&#99999999999999999999;"), "\u{fffd}");
    assert_eq!(decode_entities("&#xdabc;"), "\u{fffd}");
}

#[test]
fn malformed_numeric_references_are_left_alone() {
    assert_eq!(decode_entities("&#z;"), "&#z;");
    assert_eq!(decode_entities("&#X41;"), "&#X41;");
    assert_eq!(decode_entities("&#;"), "&#;");
    assert_eq!(decode_entities("&;"), "&;");
}

#[test]
fn percent_triplet_with_invalid_hex_degrades() {
    assert_eq!(decode_rfc1738("%zz"), "\u{fffd}");
}

#[test]
fn quoted_printable_invalid_hex_yields_nul_byte() {
    assert_eq!(decode_quoted_printable("=zz", "UTF-8"), "\u{0}");
}

#[test]
fn entity_table_holds_less_common_names() {
    assert_eq!(decode_entities("&hellip;&euro;&spades;"), "…€♠");
    assert_eq!(decode_entities("&Alpha;&omega;&copy;"), "Αω©");
    assert_eq!(decode_entities("&apos;"), "'");
}

#[test]
fn percent_decoding_joins_multibyte_sequences() {
    assert_eq!(decode_rfc1738("Fran%c3%a7ois"), "François");
    assert_eq!(decode_rfc1738("%e2%80%99"), "’");
}
