//! The named-entity table: the HTML 4 / XHTML entity set plus `apos`,
//! mapping each entity name (case-sensitive, without the `&` and `;`
//! delimiters) to the character it stands for.

use vstd::prelude::*;

use crate::text::chars_eq_str;

verus! {

pub open spec fn entity_value_g0(name: Seq<char>) -> Option<char> {
    if name == "nbsp"@ {
        Some('\u{a0}')
    } else if name == "iexcl"@ {
        Some('\u{a1}')
    } else if name == "cent"@ {
        Some('\u{a2}')
    } else if name == "pound"@ {
        Some('\u{a3}')
    } else if name == "curren"@ {
        Some('\u{a4}')
    } else if name == "yen"@ {
        Some('\u{a5}')
    } else if name == "brvbar"@ {
        Some('\u{a6}')
    } else if name == "sect"@ {
        Some('\u{a7}')
    } else if name == "uml"@ {
        Some('\u{a8}')
    } else if name == "copy"@ {
        Some('\u{a9}')
    } else if name == "ordf"@ {
        Some('\u{aa}')
    } else if name == "laquo"@ {
        Some('\u{ab}')
    } else if name == "not"@ {
        Some('\u{ac}')
    } else if name == "shy"@ {
        Some('\u{ad}')
    } else if name == "reg"@ {
        Some('\u{ae}')
    } else if name == "macr"@ {
        Some('\u{af}')
    } else if name == "deg"@ {
        Some('\u{b0}')
    } else if name == "plusmn"@ {
        Some('\u{b1}')
    } else if name == "sup2"@ {
        Some('\u{b2}')
    } else if name == "sup3"@ {
        Some('\u{b3}')
    } else if name == "acute"@ {
        Some('\u{b4}')
    } else if name == "micro"@ {
        Some('\u{b5}')
    } else if name == "para"@ {
        Some('\u{b6}')
    } else if name == "middot"@ {
        Some('\u{b7}')
    } else if name == "cedil"@ {
        Some('\u{b8}')
    } else if name == "sup1"@ {
        Some('\u{b9}')
    } else if name == "ordm"@ {
        Some('\u{ba}')
    } else if name == "raquo"@ {
        Some('\u{bb}')
    } else if name == "frac14"@ {
        Some('\u{bc}')
    } else if name == "frac12"@ {
        Some('\u{bd}')
    } else if name == "frac34"@ {
        Some('\u{be}')
    } else if name == "iquest"@ {
        Some('\u{bf}')
    } else if name == "Agrave"@ {
        Some('\u{c0}')
    } else if name == "Aacute"@ {
        Some('\u{c1}')
    } else if name == "Acirc"@ {
        Some('\u{c2}')
    } else if name == "Atilde"@ {
        Some('\u{c3}')
    } else {
        None
    }
}

fn lookup_g0(name: &Vec<char>) -> (r: Option<char>)
    ensures
        r == entity_value_g0(name@),
{
    if chars_eq_str(name, "nbsp") {
        Some('\u{a0}')
    } else if chars_eq_str(name, "iexcl") {
        Some('\u{a1}')
    } else if chars_eq_str(name, "cent") {
        Some('\u{a2}')
    } else if chars_eq_str(name, "pound") {
        Some('\u{a3}')
    } else if chars_eq_str(name, "curren") {
        Some('\u{a4}')
    } else if chars_eq_str(name, "yen") {
        Some('\u{a5}')
    } else if chars_eq_str(name, "brvbar") {
        Some('\u{a6}')
    } else if chars_eq_str(name, "sect") {
        Some('\u{a7}')
    } else if chars_eq_str(name, "uml") {
        Some('\u{a8}')
    } else if chars_eq_str(name, "copy") {
        Some('\u{a9}')
    } else if chars_eq_str(name, "ordf") {
        Some('\u{aa}')
    } else if chars_eq_str(name, "laquo") {
        Some('\u{ab}')
    } else if chars_eq_str(name, "not") {
        Some('\u{ac}')
    } else if chars_eq_str(name, "shy") {
        Some('\u{ad}')
    } else if chars_eq_str(name, "reg") {
        Some('\u{ae}')
    } else if chars_eq_str(name, "macr") {
        Some('\u{af}')
    } else if chars_eq_str(name, "deg") {
        Some('\u{b0}')
    } else if chars_eq_str(name, "plusmn") {
        Some('\u{b1}')
    } else if chars_eq_str(name, "sup2") {
        Some('\u{b2}')
    } else if chars_eq_str(name, "sup3") {
        Some('\u{b3}')
    } else if chars_eq_str(name, "acute") {
        Some('\u{b4}')
    } else if chars_eq_str(name, "micro") {
        Some('\u{b5}')
    } else if chars_eq_str(name, "para") {
        Some('\u{b6}')
    } else if chars_eq_str(name, "middot") {
        Some('\u{b7}')
    } else if chars_eq_str(name, "cedil") {
        Some('\u{b8}')
    } else if chars_eq_str(name, "sup1") {
        Some('\u{b9}')
    } else if chars_eq_str(name, "ordm") {
        Some('\u{ba}')
    } else if chars_eq_str(name, "raquo") {
        Some('\u{bb}')
    } else if chars_eq_str(name, "frac14") {
        Some('\u{bc}')
    } else if chars_eq_str(name, "frac12") {
        Some('\u{bd}')
    } else if chars_eq_str(name, "frac34") {
        Some('\u{be}')
    } else if chars_eq_str(name, "iquest") {
        Some('\u{bf}')
    } else if chars_eq_str(name, "Agrave") {
        Some('\u{c0}')
    } else if chars_eq_str(name, "Aacute") {
        Some('\u{c1}')
    } else if chars_eq_str(name, "Acirc") {
        Some('\u{c2}')
    } else if chars_eq_str(name, "Atilde") {
        Some('\u{c3}')
    } else {
        None
    }
}

pub open spec fn entity_value_g1(name: Seq<char>) -> Option<char> {
    if name == "Auml"@ {
        Some('\u{c4}')
    } else if name == "Aring"@ {
        Some('\u{c5}')
    } else if name == "AElig"@ {
        Some('\u{c6}')
    } else if name == "Ccedil"@ {
        Some('\u{c7}')
    } else if name == "Egrave"@ {
        Some('\u{c8}')
    } else if name == "Eacute"@ {
        Some('\u{c9}')
    } else if name == "Ecirc"@ {
        Some('\u{ca}')
    } else if name == "Euml"@ {
        Some('\u{cb}')
    } else if name == "Igrave"@ {
        Some('\u{cc}')
    } else if name == "Iacute"@ {
        Some('\u{cd}')
    } else if name == "Icirc"@ {
        Some('\u{ce}')
    } else if name == "Iuml"@ {
        Some('\u{cf}')
    } else if name == "ETH"@ {
        Some('\u{d0}')
    } else if name == "Ntilde"@ {
        Some('\u{d1}')
    } else if name == "Ograve"@ {
        Some('\u{d2}')
    } else if name == "Oacute"@ {
        Some('\u{d3}')
    } else if name == "Ocirc"@ {
        Some('\u{d4}')
    } else if name == "Otilde"@ {
        Some('\u{d5}')
    } else if name == "Ouml"@ {
        Some('\u{d6}')
    } else if name == "times"@ {
        Some('\u{d7}')
    } else if name == "Oslash"@ {
        Some('\u{d8}')
    } else if name == "Ugrave"@ {
        Some('\u{d9}')
    } else if name == "Uacute"@ {
        Some('\u{da}')
    } else if name == "Ucirc"@ {
        Some('\u{db}')
    } else if name == "Uuml"@ {
        Some('\u{dc}')
    } else if name == "Yacute"@ {
        Some('\u{dd}')
    } else if name == "THORN"@ {
        Some('\u{de}')
    } else if name == "szlig"@ {
        Some('\u{df}')
    } else if name == "agrave"@ {
        Some('\u{e0}')
    } else if name == "aacute"@ {
        Some('\u{e1}')
    } else if name == "acirc"@ {
        Some('\u{e2}')
    } else if name == "atilde"@ {
        Some('\u{e3}')
    } else if name == "auml"@ {
        Some('\u{e4}')
    } else if name == "aring"@ {
        Some('\u{e5}')
    } else if name == "aelig"@ {
        Some('\u{e6}')
    } else if name == "ccedil"@ {
        Some('\u{e7}')
    } else {
        None
    }
}

fn lookup_g1(name: &Vec<char>) -> (r: Option<char>)
    ensures
        r == entity_value_g1(name@),
{
    if chars_eq_str(name, "Auml") {
        Some('\u{c4}')
    } else if chars_eq_str(name, "Aring") {
        Some('\u{c5}')
    } else if chars_eq_str(name, "AElig") {
        Some('\u{c6}')
    } else if chars_eq_str(name, "Ccedil") {
        Some('\u{c7}')
    } else if chars_eq_str(name, "Egrave") {
        Some('\u{c8}')
    } else if chars_eq_str(name, "Eacute") {
        Some('\u{c9}')
    } else if chars_eq_str(name, "Ecirc") {
        Some('\u{ca}')
    } else if chars_eq_str(name, "Euml") {
        Some('\u{cb}')
    } else if chars_eq_str(name, "Igrave") {
        Some('\u{cc}')
    } else if chars_eq_str(name, "Iacute") {
        Some('\u{cd}')
    } else if chars_eq_str(name, "Icirc") {
        Some('\u{ce}')
    } else if chars_eq_str(name, "Iuml") {
        Some('\u{cf}')
    } else if chars_eq_str(name, "ETH") {
        Some('\u{d0}')
    } else if chars_eq_str(name, "Ntilde") {
        Some('\u{d1}')
    } else if chars_eq_str(name, "Ograve") {
        Some('\u{d2}')
    } else if chars_eq_str(name, "Oacute") {
        Some('\u{d3}')
    } else if chars_eq_str(name, "Ocirc") {
        Some('\u{d4}')
    } else if chars_eq_str(name, "Otilde") {
        Some('\u{d5}')
    } else if chars_eq_str(name, "Ouml") {
        Some('\u{d6}')
    } else if chars_eq_str(name, "times") {
        Some('\u{d7}')
    } else if chars_eq_str(name, "Oslash") {
        Some('\u{d8}')
    } else if chars_eq_str(name, "Ugrave") {
        Some('\u{d9}')
    } else if chars_eq_str(name, "Uacute") {
        Some('\u{da}')
    } else if chars_eq_str(name, "Ucirc") {
        Some('\u{db}')
    } else if chars_eq_str(name, "Uuml") {
        Some('\u{dc}')
    } else if chars_eq_str(name, "Yacute") {
        Some('\u{dd}')
    } else if chars_eq_str(name, "THORN") {
        Some('\u{de}')
    } else if chars_eq_str(name, "szlig") {
        Some('\u{df}')
    } else if chars_eq_str(name, "agrave") {
        Some('\u{e0}')
    } else if chars_eq_str(name, "aacute") {
        Some('\u{e1}')
    } else if chars_eq_str(name, "acirc") {
        Some('\u{e2}')
    } else if chars_eq_str(name, "atilde") {
        Some('\u{e3}')
    } else if chars_eq_str(name, "auml") {
        Some('\u{e4}')
    } else if chars_eq_str(name, "aring") {
        Some('\u{e5}')
    } else if chars_eq_str(name, "aelig") {
        Some('\u{e6}')
    } else if chars_eq_str(name, "ccedil") {
        Some('\u{e7}')
    } else {
        None
    }
}

pub open spec fn entity_value_g2(name: Seq<char>) -> Option<char> {
    if name == "egrave"@ {
        Some('\u{e8}')
    } else if name == "eacute"@ {
        Some('\u{e9}')
    } else if name == "ecirc"@ {
        Some('\u{ea}')
    } else if name == "euml"@ {
        Some('\u{eb}')
    } else if name == "igrave"@ {
        Some('\u{ec}')
    } else if name == "iacute"@ {
        Some('\u{ed}')
    } else if name == "icirc"@ {
        Some('\u{ee}')
    } else if name == "iuml"@ {
        Some('\u{ef}')
    } else if name == "eth"@ {
        Some('\u{f0}')
    } else if name == "ntilde"@ {
        Some('\u{f1}')
    } else if name == "ograve"@ {
        Some('\u{f2}')
    } else if name == "oacute"@ {
        Some('\u{f3}')
    } else if name == "ocirc"@ {
        Some('\u{f4}')
    } else if name == "otilde"@ {
        Some('\u{f5}')
    } else if name == "ouml"@ {
        Some('\u{f6}')
    } else if name == "divide"@ {
        Some('\u{f7}')
    } else if name == "oslash"@ {
        Some('\u{f8}')
    } else if name == "ugrave"@ {
        Some('\u{f9}')
    } else if name == "uacute"@ {
        Some('\u{fa}')
    } else if name == "ucirc"@ {
        Some('\u{fb}')
    } else if name == "uuml"@ {
        Some('\u{fc}')
    } else if name == "yacute"@ {
        Some('\u{fd}')
    } else if name == "thorn"@ {
        Some('\u{fe}')
    } else if name == "yuml"@ {
        Some('\u{ff}')
    } else if name == "fnof"@ {
        Some('\u{192}')
    } else if name == "Alpha"@ {
        Some('\u{391}')
    } else if name == "Beta"@ {
        Some('\u{392}')
    } else if name == "Gamma"@ {
        Some('\u{393}')
    } else if name == "Delta"@ {
        Some('\u{394}')
    } else if name == "Epsilon"@ {
        Some('\u{395}')
    } else if name == "Zeta"@ {
        Some('\u{396}')
    } else if name == "Eta"@ {
        Some('\u{397}')
    } else if name == "Theta"@ {
        Some('\u{398}')
    } else if name == "Iota"@ {
        Some('\u{399}')
    } else if name == "Kappa"@ {
        Some('\u{39a}')
    } else if name == "Lambda"@ {
        Some('\u{39b}')
    } else {
        None
    }
}

fn lookup_g2(name: &Vec<char>) -> (r: Option<char>)
    ensures
        r == entity_value_g2(name@),
{
    if chars_eq_str(name, "egrave") {
        Some('\u{e8}')
    } else if chars_eq_str(name, "eacute") {
        Some('\u{e9}')
    } else if chars_eq_str(name, "ecirc") {
        Some('\u{ea}')
    } else if chars_eq_str(name, "euml") {
        Some('\u{eb}')
    } else if chars_eq_str(name, "igrave") {
        Some('\u{ec}')
    } else if chars_eq_str(name, "iacute") {
        Some('\u{ed}')
    } else if chars_eq_str(name, "icirc") {
        Some('\u{ee}')
    } else if chars_eq_str(name, "iuml") {
        Some('\u{ef}')
    } else if chars_eq_str(name, "eth") {
        Some('\u{f0}')
    } else if chars_eq_str(name, "ntilde") {
        Some('\u{f1}')
    } else if chars_eq_str(name, "ograve") {
        Some('\u{f2}')
    } else if chars_eq_str(name, "oacute") {
        Some('\u{f3}')
    } else if chars_eq_str(name, "ocirc") {
        Some('\u{f4}')
    } else if chars_eq_str(name, "otilde") {
        Some('\u{f5}')
    } else if chars_eq_str(name, "ouml") {
        Some('\u{f6}')
    } else if chars_eq_str(name, "divide") {
        Some('\u{f7}')
    } else if chars_eq_str(name, "oslash") {
        Some('\u{f8}')
    } else if chars_eq_str(name, "ugrave") {
        Some('\u{f9}')
    } else if chars_eq_str(name, "uacute") {
        Some('\u{fa}')
    } else if chars_eq_str(name, "ucirc") {
        Some('\u{fb}')
    } else if chars_eq_str(name, "uuml") {
        Some('\u{fc}')
    } else if chars_eq_str(name, "yacute") {
        Some('\u{fd}')
    } else if chars_eq_str(name, "thorn") {
        Some('\u{fe}')
    } else if chars_eq_str(name, "yuml") {
        Some('\u{ff}')
    } else if chars_eq_str(name, "fnof") {
        Some('\u{192}')
    } else if chars_eq_str(name, "Alpha") {
        Some('\u{391}')
    } else if chars_eq_str(name, "Beta") {
        Some('\u{392}')
    } else if chars_eq_str(name, "Gamma") {
        Some('\u{393}')
    } else if chars_eq_str(name, "Delta") {
        Some('\u{394}')
    } else if chars_eq_str(name, "Epsilon") {
        Some('\u{395}')
    } else if chars_eq_str(name, "Zeta") {
        Some('\u{396}')
    } else if chars_eq_str(name, "Eta") {
        Some('\u{397}')
    } else if chars_eq_str(name, "Theta") {
        Some('\u{398}')
    } else if chars_eq_str(name, "Iota") {
        Some('\u{399}')
    } else if chars_eq_str(name, "Kappa") {
        Some('\u{39a}')
    } else if chars_eq_str(name, "Lambda") {
        Some('\u{39b}')
    } else {
        None
    }
}

pub open spec fn entity_value_g3(name: Seq<char>) -> Option<char> {
    if name == "Mu"@ {
        Some('\u{39c}')
    } else if name == "Nu"@ {
        Some('\u{39d}')
    } else if name == "Xi"@ {
        Some('\u{39e}')
    } else if name == "Omicron"@ {
        Some('\u{39f}')
    } else if name == "Pi"@ {
        Some('\u{3a0}')
    } else if name == "Rho"@ {
        Some('\u{3a1}')
    } else if name == "Sigma"@ {
        Some('\u{3a3}')
    } else if name == "Tau"@ {
        Some('\u{3a4}')
    } else if name == "Upsilon"@ {
        Some('\u{3a5}')
    } else if name == "Phi"@ {
        Some('\u{3a6}')
    } else if name == "Chi"@ {
        Some('\u{3a7}')
    } else if name == "Psi"@ {
        Some('\u{3a8}')
    } else if name == "Omega"@ {
        Some('\u{3a9}')
    } else if name == "alpha"@ {
        Some('\u{3b1}')
    } else if name == "beta"@ {
        Some('\u{3b2}')
    } else if name == "gamma"@ {
        Some('\u{3b3}')
    } else if name == "delta"@ {
        Some('\u{3b4}')
    } else if name == "epsilon"@ {
        Some('\u{3b5}')
    } else if name == "zeta"@ {
        Some('\u{3b6}')
    } else if name == "eta"@ {
        Some('\u{3b7}')
    } else if name == "theta"@ {
        Some('\u{3b8}')
    } else if name == "iota"@ {
        Some('\u{3b9}')
    } else if name == "kappa"@ {
        Some('\u{3ba}')
    } else if name == "lambda"@ {
        Some('\u{3bb}')
    } else if name == "mu"@ {
        Some('\u{3bc}')
    } else if name == "nu"@ {
        Some('\u{3bd}')
    } else if name == "xi"@ {
        Some('\u{3be}')
    } else if name == "omicron"@ {
        Some('\u{3bf}')
    } else if name == "pi"@ {
        Some('\u{3c0}')
    } else if name == "rho"@ {
        Some('\u{3c1}')
    } else if name == "sigmaf"@ {
        Some('\u{3c2}')
    } else if name == "sigma"@ {
        Some('\u{3c3}')
    } else if name == "tau"@ {
        Some('\u{3c4}')
    } else if name == "upsilon"@ {
        Some('\u{3c5}')
    } else if name == "phi"@ {
        Some('\u{3c6}')
    } else if name == "chi"@ {
        Some('\u{3c7}')
    } else {
        None
    }
}

fn lookup_g3(name: &Vec<char>) -> (r: Option<char>)
    ensures
        r == entity_value_g3(name@),
{
    if chars_eq_str(name, "Mu") {
        Some('\u{39c}')
    } else if chars_eq_str(name, "Nu") {
        Some('\u{39d}')
    } else if chars_eq_str(name, "Xi") {
        Some('\u{39e}')
    } else if chars_eq_str(name, "Omicron") {
        Some('\u{39f}')
    } else if chars_eq_str(name, "Pi") {
        Some('\u{3a0}')
    } else if chars_eq_str(name, "Rho") {
        Some('\u{3a1}')
    } else if chars_eq_str(name, "Sigma") {
        Some('\u{3a3}')
    } else if chars_eq_str(name, "Tau") {
        Some('\u{3a4}')
    } else if chars_eq_str(name, "Upsilon") {
        Some('\u{3a5}')
    } else if chars_eq_str(name, "Phi") {
        Some('\u{3a6}')
    } else if chars_eq_str(name, "Chi") {
        Some('\u{3a7}')
    } else if chars_eq_str(name, "Psi") {
        Some('\u{3a8}')
    } else if chars_eq_str(name, "Omega") {
        Some('\u{3a9}')
    } else if chars_eq_str(name, "alpha") {
        Some('\u{3b1}')
    } else if chars_eq_str(name, "beta") {
        Some('\u{3b2}')
    } else if chars_eq_str(name, "gamma") {
        Some('\u{3b3}')
    } else if chars_eq_str(name, "delta") {
        Some('\u{3b4}')
    } else if chars_eq_str(name, "epsilon") {
        Some('\u{3b5}')
    } else if chars_eq_str(name, "zeta") {
        Some('\u{3b6}')
    } else if chars_eq_str(name, "eta") {
        Some('\u{3b7}')
    } else if chars_eq_str(name, "theta") {
        Some('\u{3b8}')
    } else if chars_eq_str(name, "iota") {
        Some('\u{3b9}')
    } else if chars_eq_str(name, "kappa") {
        Some('\u{3ba}')
    } else if chars_eq_str(name, "lambda") {
        Some('\u{3bb}')
    } else if chars_eq_str(name, "mu") {
        Some('\u{3bc}')
    } else if chars_eq_str(name, "nu") {
        Some('\u{3bd}')
    } else if chars_eq_str(name, "xi") {
        Some('\u{3be}')
    } else if chars_eq_str(name, "omicron") {
        Some('\u{3bf}')
    } else if chars_eq_str(name, "pi") {
        Some('\u{3c0}')
    } else if chars_eq_str(name, "rho") {
        Some('\u{3c1}')
    } else if chars_eq_str(name, "sigmaf") {
        Some('\u{3c2}')
    } else if chars_eq_str(name, "sigma") {
        Some('\u{3c3}')
    } else if chars_eq_str(name, "tau") {
        Some('\u{3c4}')
    } else if chars_eq_str(name, "upsilon") {
        Some('\u{3c5}')
    } else if chars_eq_str(name, "phi") {
        Some('\u{3c6}')
    } else if chars_eq_str(name, "chi") {
        Some('\u{3c7}')
    } else {
        None
    }
}

pub open spec fn entity_value_g4(name: Seq<char>) -> Option<char> {
    if name == "psi"@ {
        Some('\u{3c8}')
    } else if name == "omega"@ {
        Some('\u{3c9}')
    } else if name == "thetasym"@ {
        Some('\u{3d1}')
    } else if name == "upsih"@ {
        Some('\u{3d2}')
    } else if name == "piv"@ {
        Some('\u{3d6}')
    } else if name == "bull"@ {
        Some('\u{2022}')
    } else if name == "hellip"@ {
        Some('\u{2026}')
    } else if name == "prime"@ {
        Some('\u{2032}')
    } else if name == "Prime"@ {
        Some('\u{2033}')
    } else if name == "oline"@ {
        Some('\u{203e}')
    } else if name == "frasl"@ {
        Some('\u{2044}')
    } else if name == "weierp"@ {
        Some('\u{2118}')
    } else if name == "image"@ {
        Some('\u{2111}')
    } else if name == "real"@ {
        Some('\u{211c}')
    } else if name == "trade"@ {
        Some('\u{2122}')
    } else if name == "alefsym"@ {
        Some('\u{2135}')
    } else if name == "larr"@ {
        Some('\u{2190}')
    } else if name == "uarr"@ {
        Some('\u{2191}')
    } else if name == "rarr"@ {
        Some('\u{2192}')
    } else if name == "darr"@ {
        Some('\u{2193}')
    } else if name == "harr"@ {
        Some('\u{2194}')
    } else if name == "crarr"@ {
        Some('\u{21b5}')
    } else if name == "lArr"@ {
        Some('\u{21d0}')
    } else if name == "uArr"@ {
        Some('\u{21d1}')
    } else if name == "rArr"@ {
        Some('\u{21d2}')
    } else if name == "dArr"@ {
        Some('\u{21d3}')
    } else if name == "hArr"@ {
        Some('\u{21d4}')
    } else if name == "forall"@ {
        Some('\u{2200}')
    } else if name == "part"@ {
        Some('\u{2202}')
    } else if name == "exist"@ {
        Some('\u{2203}')
    } else if name == "empty"@ {
        Some('\u{2205}')
    } else if name == "nabla"@ {
        Some('\u{2207}')
    } else if name == "isin"@ {
        Some('\u{2208}')
    } else if name == "notin"@ {
        Some('\u{2209}')
    } else if name == "ni"@ {
        Some('\u{220b}')
    } else if name == "prod"@ {
        Some('\u{220f}')
    } else {
        None
    }
}

fn lookup_g4(name: &Vec<char>) -> (r: Option<char>)
    ensures
        r == entity_value_g4(name@),
{
    if chars_eq_str(name, "psi") {
        Some('\u{3c8}')
    } else if chars_eq_str(name, "omega") {
        Some('\u{3c9}')
    } else if chars_eq_str(name, "thetasym") {
        Some('\u{3d1}')
    } else if chars_eq_str(name, "upsih") {
        Some('\u{3d2}')
    } else if chars_eq_str(name, "piv") {
        Some('\u{3d6}')
    } else if chars_eq_str(name, "bull") {
        Some('\u{2022}')
    } else if chars_eq_str(name, "hellip") {
        Some('\u{2026}')
    } else if chars_eq_str(name, "prime") {
        Some('\u{2032}')
    } else if chars_eq_str(name, "Prime") {
        Some('\u{2033}')
    } else if chars_eq_str(name, "oline") {
        Some('\u{203e}')
    } else if chars_eq_str(name, "frasl") {
        Some('\u{2044}')
    } else if chars_eq_str(name, "weierp") {
        Some('\u{2118}')
    } else if chars_eq_str(name, "image") {
        Some('\u{2111}')
    } else if chars_eq_str(name, "real") {
        Some('\u{211c}')
    } else if chars_eq_str(name, "trade") {
        Some('\u{2122}')
    } else if chars_eq_str(name, "alefsym") {
        Some('\u{2135}')
    } else if chars_eq_str(name, "larr") {
        Some('\u{2190}')
    } else if chars_eq_str(name, "uarr") {
        Some('\u{2191}')
    } else if chars_eq_str(name, "rarr") {
        Some('\u{2192}')
    } else if chars_eq_str(name, "darr") {
        Some('\u{2193}')
    } else if chars_eq_str(name, "harr") {
        Some('\u{2194}')
    } else if chars_eq_str(name, "crarr") {
        Some('\u{21b5}')
    } else if chars_eq_str(name, "lArr") {
        Some('\u{21d0}')
    } else if chars_eq_str(name, "uArr") {
        Some('\u{21d1}')
    } else if chars_eq_str(name, "rArr") {
        Some('\u{21d2}')
    } else if chars_eq_str(name, "dArr") {
        Some('\u{21d3}')
    } else if chars_eq_str(name, "hArr") {
        Some('\u{21d4}')
    } else if chars_eq_str(name, "forall") {
        Some('\u{2200}')
    } else if chars_eq_str(name, "part") {
        Some('\u{2202}')
    } else if chars_eq_str(name, "exist") {
        Some('\u{2203}')
    } else if chars_eq_str(name, "empty") {
        Some('\u{2205}')
    } else if chars_eq_str(name, "nabla") {
        Some('\u{2207}')
    } else if chars_eq_str(name, "isin") {
        Some('\u{2208}')
    } else if chars_eq_str(name, "notin") {
        Some('\u{2209}')
    } else if chars_eq_str(name, "ni") {
        Some('\u{220b}')
    } else if chars_eq_str(name, "prod") {
        Some('\u{220f}')
    } else {
        None
    }
}

pub open spec fn entity_value_g5(name: Seq<char>) -> Option<char> {
    if name == "sum"@ {
        Some('\u{2211}')
    } else if name == "minus"@ {
        Some('\u{2212}')
    } else if name == "lowast"@ {
        Some('\u{2217}')
    } else if name == "radic"@ {
        Some('\u{221a}')
    } else if name == "prop"@ {
        Some('\u{221d}')
    } else if name == "infin"@ {
        Some('\u{221e}')
    } else if name == "ang"@ {
        Some('\u{2220}')
    } else if name == "and"@ {
        Some('\u{2227}')
    } else if name == "or"@ {
        Some('\u{2228}')
    } else if name == "cap"@ {
        Some('\u{2229}')
    } else if name == "cup"@ {
        Some('\u{222a}')
    } else if name == "int"@ {
        Some('\u{222b}')
    } else if name == "there4"@ {
        Some('\u{2234}')
    } else if name == "sim"@ {
        Some('\u{223c}')
    } else if name == "cong"@ {
        Some('\u{2245}')
    } else if name == "asymp"@ {
        Some('\u{2248}')
    } else if name == "ne"@ {
        Some('\u{2260}')
    } else if name == "equiv"@ {
        Some('\u{2261}')
    } else if name == "le"@ {
        Some('\u{2264}')
    } else if name == "ge"@ {
        Some('\u{2265}')
    } else if name == "sub"@ {
        Some('\u{2282}')
    } else if name == "sup"@ {
        Some('\u{2283}')
    } else if name == "nsub"@ {
        Some('\u{2284}')
    } else if name == "sube"@ {
        Some('\u{2286}')
    } else if name == "supe"@ {
        Some('\u{2287}')
    } else if name == "oplus"@ {
        Some('\u{2295}')
    } else if name == "otimes"@ {
        Some('\u{2297}')
    } else if name == "perp"@ {
        Some('\u{22a5}')
    } else if name == "sdot"@ {
        Some('\u{22c5}')
    } else if name == "lceil"@ {
        Some('\u{2308}')
    } else if name == "rceil"@ {
        Some('\u{2309}')
    } else if name == "lfloor"@ {
        Some('\u{230a}')
    } else if name == "rfloor"@ {
        Some('\u{230b}')
    } else if name == "lang"@ {
        Some('\u{2329}')
    } else if name == "rang"@ {
        Some('\u{232a}')
    } else if name == "loz"@ {
        Some('\u{25ca}')
    } else {
        None
    }
}

fn lookup_g5(name: &Vec<char>) -> (r: Option<char>)
    ensures
        r == entity_value_g5(name@),
{
    if chars_eq_str(name, "sum") {
        Some('\u{2211}')
    } else if chars_eq_str(name, "minus") {
        Some('\u{2212}')
    } else if chars_eq_str(name, "lowast") {
        Some('\u{2217}')
    } else if chars_eq_str(name, "radic") {
        Some('\u{221a}')
    } else if chars_eq_str(name, "prop") {
        Some('\u{221d}')
    } else if chars_eq_str(name, "infin") {
        Some('\u{221e}')
    } else if chars_eq_str(name, "ang") {
        Some('\u{2220}')
    } else if chars_eq_str(name, "and") {
        Some('\u{2227}')
    } else if chars_eq_str(name, "or") {
        Some('\u{2228}')
    } else if chars_eq_str(name, "cap") {
        Some('\u{2229}')
    } else if chars_eq_str(name, "cup") {
        Some('\u{222a}')
    } else if chars_eq_str(name, "int") {
        Some('\u{222b}')
    } else if chars_eq_str(name, "there4") {
        Some('\u{2234}')
    } else if chars_eq_str(name, "sim") {
        Some('\u{223c}')
    } else if chars_eq_str(name, "cong") {
        Some('\u{2245}')
    } else if chars_eq_str(name, "asymp") {
        Some('\u{2248}')
    } else if chars_eq_str(name, "ne") {
        Some('\u{2260}')
    } else if chars_eq_str(name, "equiv") {
        Some('\u{2261}')
    } else if chars_eq_str(name, "le") {
        Some('\u{2264}')
    } else if chars_eq_str(name, "ge") {
        Some('\u{2265}')
    } else if chars_eq_str(name, "sub") {
        Some('\u{2282}')
    } else if chars_eq_str(name, "sup") {
        Some('\u{2283}')
    } else if chars_eq_str(name, "nsub") {
        Some('\u{2284}')
    } else if chars_eq_str(name, "sube") {
        Some('\u{2286}')
    } else if chars_eq_str(name, "supe") {
        Some('\u{2287}')
    } else if chars_eq_str(name, "oplus") {
        Some('\u{2295}')
    } else if chars_eq_str(name, "otimes") {
        Some('\u{2297}')
    } else if chars_eq_str(name, "perp") {
        Some('\u{22a5}')
    } else if chars_eq_str(name, "sdot") {
        Some('\u{22c5}')
    } else if chars_eq_str(name, "lceil") {
        Some('\u{2308}')
    } else if chars_eq_str(name, "rceil") {
        Some('\u{2309}')
    } else if chars_eq_str(name, "lfloor") {
        Some('\u{230a}')
    } else if chars_eq_str(name, "rfloor") {
        Some('\u{230b}')
    } else if chars_eq_str(name, "lang") {
        Some('\u{2329}')
    } else if chars_eq_str(name, "rang") {
        Some('\u{232a}')
    } else if chars_eq_str(name, "loz") {
        Some('\u{25ca}')
    } else {
        None
    }
}

pub open spec fn entity_value_g6(name: Seq<char>) -> Option<char> {
    if name == "spades"@ {
        Some('\u{2660}')
    } else if name == "clubs"@ {
        Some('\u{2663}')
    } else if name == "hearts"@ {
        Some('\u{2665}')
    } else if name == "diams"@ {
        Some('\u{2666}')
    } else if name == "quot"@ {
        Some('"')
    } else if name == "amp"@ {
        Some('&')
    } else if name == "lt"@ {
        Some('<')
    } else if name == "gt"@ {
        Some('>')
    } else if name == "OElig"@ {
        Some('\u{152}')
    } else if name == "oelig"@ {
        Some('\u{153}')
    } else if name == "Scaron"@ {
        Some('\u{160}')
    } else if name == "scaron"@ {
        Some('\u{161}')
    } else if name == "Yuml"@ {
        Some('\u{178}')
    } else if name == "circ"@ {
        Some('\u{2c6}')
    } else if name == "tilde"@ {
        Some('\u{2dc}')
    } else if name == "ensp"@ {
        Some('\u{2002}')
    } else if name == "emsp"@ {
        Some('\u{2003}')
    } else if name == "thinsp"@ {
        Some('\u{2009}')
    } else if name == "zwnj"@ {
        Some('\u{200c}')
    } else if name == "zwj"@ {
        Some('\u{200d}')
    } else if name == "lrm"@ {
        Some('\u{200e}')
    } else if name == "rlm"@ {
        Some('\u{200f}')
    } else if name == "ndash"@ {
        Some('\u{2013}')
    } else if name == "mdash"@ {
        Some('\u{2014}')
    } else if name == "lsquo"@ {
        Some('\u{2018}')
    } else if name == "rsquo"@ {
        Some('\u{2019}')
    } else if name == "sbquo"@ {
        Some('\u{201a}')
    } else if name == "ldquo"@ {
        Some('\u{201c}')
    } else if name == "rdquo"@ {
        Some('\u{201d}')
    } else if name == "bdquo"@ {
        Some('\u{201e}')
    } else if name == "dagger"@ {
        Some('\u{2020}')
    } else if name == "Dagger"@ {
        Some('\u{2021}')
    } else if name == "permil"@ {
        Some('\u{2030}')
    } else if name == "lsaquo"@ {
        Some('\u{2039}')
    } else if name == "rsaquo"@ {
        Some('\u{203a}')
    } else if name == "euro"@ {
        Some('\u{20ac}')
    } else {
        None
    }
}

fn lookup_g6(name: &Vec<char>) -> (r: Option<char>)
    ensures
        r == entity_value_g6(name@),
{
    if chars_eq_str(name, "spades") {
        Some('\u{2660}')
    } else if chars_eq_str(name, "clubs") {
        Some('\u{2663}')
    } else if chars_eq_str(name, "hearts") {
        Some('\u{2665}')
    } else if chars_eq_str(name, "diams") {
        Some('\u{2666}')
    } else if chars_eq_str(name, "quot") {
        Some('"')
    } else if chars_eq_str(name, "amp") {
        Some('&')
    } else if chars_eq_str(name, "lt") {
        Some('<')
    } else if chars_eq_str(name, "gt") {
        Some('>')
    } else if chars_eq_str(name, "OElig") {
        Some('\u{152}')
    } else if chars_eq_str(name, "oelig") {
        Some('\u{153}')
    } else if chars_eq_str(name, "Scaron") {
        Some('\u{160}')
    } else if chars_eq_str(name, "scaron") {
        Some('\u{161}')
    } else if chars_eq_str(name, "Yuml") {
        Some('\u{178}')
    } else if chars_eq_str(name, "circ") {
        Some('\u{2c6}')
    } else if chars_eq_str(name, "tilde") {
        Some('\u{2dc}')
    } else if chars_eq_str(name, "ensp") {
        Some('\u{2002}')
    } else if chars_eq_str(name, "emsp") {
        Some('\u{2003}')
    } else if chars_eq_str(name, "thinsp") {
        Some('\u{2009}')
    } else if chars_eq_str(name, "zwnj") {
        Some('\u{200c}')
    } else if chars_eq_str(name, "zwj") {
        Some('\u{200d}')
    } else if chars_eq_str(name, "lrm") {
        Some('\u{200e}')
    } else if chars_eq_str(name, "rlm") {
        Some('\u{200f}')
    } else if chars_eq_str(name, "ndash") {
        Some('\u{2013}')
    } else if chars_eq_str(name, "mdash") {
        Some('\u{2014}')
    } else if chars_eq_str(name, "lsquo") {
        Some('\u{2018}')
    } else if chars_eq_str(name, "rsquo") {
        Some('\u{2019}')
    } else if chars_eq_str(name, "sbquo") {
        Some('\u{201a}')
    } else if chars_eq_str(name, "ldquo") {
        Some('\u{201c}')
    } else if chars_eq_str(name, "rdquo") {
        Some('\u{201d}')
    } else if chars_eq_str(name, "bdquo") {
        Some('\u{201e}')
    } else if chars_eq_str(name, "dagger") {
        Some('\u{2020}')
    } else if chars_eq_str(name, "Dagger") {
        Some('\u{2021}')
    } else if chars_eq_str(name, "permil") {
        Some('\u{2030}')
    } else if chars_eq_str(name, "lsaquo") {
        Some('\u{2039}')
    } else if chars_eq_str(name, "rsaquo") {
        Some('\u{203a}')
    } else if chars_eq_str(name, "euro") {
        Some('\u{20ac}')
    } else {
        None
    }
}

pub open spec fn entity_value_g7(name: Seq<char>) -> Option<char> {
    if name == "apos"@ {
        Some('\'')
    } else {
        None
    }
}

fn lookup_g7(name: &Vec<char>) -> (r: Option<char>)
    ensures
        r == entity_value_g7(name@),
{
    if chars_eq_str(name, "apos") {
        Some('\'')
    } else {
        None
    }
}

/// The character that the entity name stands for, if the name is known.
pub open spec fn entity_value(name: Seq<char>) -> Option<char> {
    if entity_value_g0(name) is Some {
        entity_value_g0(name)
    } else if entity_value_g1(name) is Some {
        entity_value_g1(name)
    } else if entity_value_g2(name) is Some {
        entity_value_g2(name)
    } else if entity_value_g3(name) is Some {
        entity_value_g3(name)
    } else if entity_value_g4(name) is Some {
        entity_value_g4(name)
    } else if entity_value_g5(name) is Some {
        entity_value_g5(name)
    } else if entity_value_g6(name) is Some {
        entity_value_g6(name)
    } else if entity_value_g7(name) is Some {
        entity_value_g7(name)
    } else {
        None
    }
}

/// Looks the entity name up in the table.
pub fn lookup_entity(name: &Vec<char>) -> (r: Option<char>)
    ensures
        r == entity_value(name@),
{
    let r0 = lookup_g0(name);
    if r0.is_some() {
        return r0;
    }
    let r1 = lookup_g1(name);
    if r1.is_some() {
        return r1;
    }
    let r2 = lookup_g2(name);
    if r2.is_some() {
        return r2;
    }
    let r3 = lookup_g3(name);
    if r3.is_some() {
        return r3;
    }
    let r4 = lookup_g4(name);
    if r4.is_some() {
        return r4;
    }
    let r5 = lookup_g5(name);
    if r5.is_some() {
        return r5;
    }
    let r6 = lookup_g6(name);
    if r6.is_some() {
        return r6;
    }
    let r7 = lookup_g7(name);
    if r7.is_some() {
        return r7;
    }
    None
}

} // verus!
