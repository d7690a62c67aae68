//! The application-level (ReScript) type system that validated field types
//! project into, with display strings and default values.

use vstd::prelude::*;
use vstd::string::StringExecFns;

verus! {

/// Relies on std's String::push: it appends exactly the given character.
pub assume_specification[ std::string::String::push ](s: &mut std::string::String, ch: char)
    ensures
        final(s)@ == old(s)@.push(ch),
;

/// The lower-case image of an ASCII letter; any other character is kept.
pub open spec fn spec_lower_char(c: char) -> char {
    match c {
        'A' => 'a',
        'B' => 'b',
        'C' => 'c',
        'D' => 'd',
        'E' => 'e',
        'F' => 'f',
        'G' => 'g',
        'H' => 'h',
        'I' => 'i',
        'J' => 'j',
        'K' => 'k',
        'L' => 'l',
        'M' => 'm',
        'N' => 'n',
        'O' => 'o',
        'P' => 'p',
        'Q' => 'q',
        'R' => 'r',
        'S' => 's',
        'T' => 't',
        'U' => 'u',
        'V' => 'v',
        'W' => 'w',
        'X' => 'x',
        'Y' => 'y',
        'Z' => 'z',
        _ => c,
    }
}

/// The upper-case image of an ASCII letter; any other character is kept.
pub open spec fn spec_upper_char(c: char) -> char {
    match c {
        'a' => 'A',
        'b' => 'B',
        'c' => 'C',
        'd' => 'D',
        'e' => 'E',
        'f' => 'F',
        'g' => 'G',
        'h' => 'H',
        'i' => 'I',
        'j' => 'J',
        'k' => 'K',
        'l' => 'L',
        'm' => 'M',
        'n' => 'N',
        'o' => 'O',
        'p' => 'P',
        'q' => 'Q',
        'r' => 'R',
        's' => 'S',
        't' => 'T',
        'u' => 'U',
        'v' => 'V',
        'w' => 'W',
        'x' => 'X',
        'y' => 'Y',
        'z' => 'Z',
        _ => c,
    }
}

fn lower_ascii_char(c: char) -> (r: char)
    ensures
        r == spec_lower_char(c),
{
    match c {
        'A' => 'a',
        'B' => 'b',
        'C' => 'c',
        'D' => 'd',
        'E' => 'e',
        'F' => 'f',
        'G' => 'g',
        'H' => 'h',
        'I' => 'i',
        'J' => 'j',
        'K' => 'k',
        'L' => 'l',
        'M' => 'm',
        'N' => 'n',
        'O' => 'o',
        'P' => 'p',
        'Q' => 'q',
        'R' => 'r',
        'S' => 's',
        'T' => 't',
        'U' => 'u',
        'V' => 'v',
        'W' => 'w',
        'X' => 'x',
        'Y' => 'y',
        'Z' => 'z',
        _ => c,
    }
}

fn upper_ascii_char(c: char) -> (r: char)
    ensures
        r == spec_upper_char(c),
{
    match c {
        'a' => 'A',
        'b' => 'B',
        'c' => 'C',
        'd' => 'D',
        'e' => 'E',
        'f' => 'F',
        'g' => 'G',
        'h' => 'H',
        'i' => 'I',
        'j' => 'J',
        'k' => 'K',
        'l' => 'L',
        'm' => 'M',
        'n' => 'N',
        'o' => 'O',
        'p' => 'P',
        'q' => 'Q',
        'r' => 'R',
        's' => 'S',
        't' => 'T',
        'u' => 'U',
        'v' => 'V',
        'w' => 'W',
        'x' => 'X',
        'y' => 'Y',
        'z' => 'Z',
        _ => c,
    }
}

/// A word with its first character lowered.
pub open spec fn spec_uncapitalized(s: Seq<char>) -> Seq<char> {
    if s.len() == 0 {
        s
    } else {
        seq![spec_lower_char(s[0])] + s.drop_first()
    }
}

/// A word with its first character raised.
pub open spec fn spec_capitalized(s: Seq<char>) -> Seq<char> {
    if s.len() == 0 {
        s
    } else {
        seq![spec_upper_char(s[0])] + s.drop_first()
    }
}

/// A name in both of its casings, as code generation wants it.
#[derive(Debug, PartialEq, Eq)]
pub struct CapitalizedOptions {
    pub capitalized: String,
    pub uncapitalized: String,
}

impl Clone for CapitalizedOptions {
    fn clone(&self) -> (r: Self)
        ensures
            r == self,
    {
        CapitalizedOptions { capitalized: self.capitalized.clone(), uncapitalized: self.uncapitalized.clone() }
    }
}

/// Builds both casings of a name.
pub fn to_capitalized_options(s: &str) -> (r: CapitalizedOptions)
    ensures
        r.capitalized@ == spec_capitalized(s@),
        r.uncapitalized@ == spec_uncapitalized(s@),
{
    let n = s.unicode_len();
    if n == 0 {
        CapitalizedOptions { capitalized: String::new(), uncapitalized: String::new() }
    } else {
        let first = s.get_char(0);
        let rest = s.substring_char(1, n);
        let mut cap = String::new();
        cap.push(upper_ascii_char(first));
        cap.append(rest);
        let mut uncap = String::new();
        uncap.push(lower_ascii_char(first));
        uncap.append(rest);
        proof {
            assert(cap@ =~= spec_capitalized(s@));
            assert(uncap@ =~= spec_uncapitalized(s@));
        }
        CapitalizedOptions { capitalized: cap, uncapitalized: uncap }
    }
}

/// An application-level type.
#[derive(Debug, PartialEq, Eq)]
pub enum RescriptType {
    ID,
    Int,
    Float,
    BigInt,
    Address,
    String,
    Bool,
    EnumVariant(CapitalizedOptions),
    Array(Box<RescriptType>),
    Option(Box<RescriptType>),
    Tuple(Vec<RescriptType>),
}

/// The display string of an application-level type.
pub open spec fn rescript_display(t: RescriptType) -> Seq<char>
    decreases t,
{
    match t {
        RescriptType::Int => "int"@,
        RescriptType::Float => "float"@,
        RescriptType::BigInt => "Ethers.BigInt.t"@,
        RescriptType::Address => "Ethers.ethAddress"@,
        RescriptType::String => "string"@,
        RescriptType::ID => "id"@,
        RescriptType::Bool => "bool"@,
        RescriptType::Array(inner) => "array<"@ + rescript_display(*inner) + ">"@,
        RescriptType::Option(inner) => "option<"@ + rescript_display(*inner) + ">"@,
        RescriptType::Tuple(inners) => "("@ + rescript_display_joined(inners@) + ")"@,
        RescriptType::EnumVariant(e) => "Enums."@ + e.uncapitalized@,
    }
}

/// Display strings of several types, joined by a comma and a space.
pub open spec fn rescript_display_joined(ts: Seq<RescriptType>) -> Seq<char>
    decreases ts,
{
    if ts.len() == 0 {
        Seq::empty()
    } else if ts.len() == 1 {
        rescript_display(ts[0])
    } else {
        rescript_display(ts[0]) + ", "@ + rescript_display_joined(ts.drop_first())
    }
}

impl RescriptType {
    pub fn to_string(&self) -> (r: String)
        ensures
            r@ == rescript_display(*self),
        decreases *self,
    {
        match self {
            RescriptType::Int => "int".to_owned(),
            RescriptType::Float => "float".to_owned(),
            RescriptType::BigInt => "Ethers.BigInt.t".to_owned(),
            RescriptType::Address => "Ethers.ethAddress".to_owned(),
            RescriptType::String => "string".to_owned(),
            RescriptType::ID => "id".to_owned(),
            RescriptType::Bool => "bool".to_owned(),
            RescriptType::Array(inner) => {
                let mut out = "array<".to_owned();
                let inner_str = inner.to_string();
                out.append(inner_str.as_str());
                out.append(">");
                out
            },
            RescriptType::Option(inner) => {
                let mut out = "option<".to_owned();
                let inner_str = inner.to_string();
                out.append(inner_str.as_str());
                out.append(">");
                out
            },
            RescriptType::Tuple(inners) => {
                proof {
                    assert(inners@.skip(0) =~= inners@);
                    assert(decreases_to!(*self => inners@));
                }
                let mut out = "(".to_owned();
                let joined = join_displays(inners, 0);
                out.append(joined.as_str());
                out.append(")");
                out
            },
            RescriptType::EnumVariant(e) => {
                let mut out = "Enums.".to_owned();
                out.append(e.uncapitalized.as_str());
                out
            },
        }
    }
}

fn join_displays(ts: &Vec<RescriptType>, i: usize) -> (r: String)
    requires
        i <= ts@.len(),
    ensures
        r@ == rescript_display_joined(ts@.skip(i as int)),
    decreases ts@.skip(i as int),
{
    if i == ts.len() {
        String::new()
    } else {
        proof {
            assert(ts@.skip(i as int)[0] == ts@[i as int]);
        }
        let s0 = ts[i].to_string();
        if i + 1 == ts.len() {
            proof {
                assert(ts@.skip(i as int).len() == 1);
            }
            s0
        } else {
            proof {
                assert(decreases_to!(ts@.skip(i as int) => ts@.skip(i as int + 1))) by {
                    assert(ts@.skip(i as int + 1) =~= ts@.skip(i as int).subrange(
                        1,
                        ts@.skip(i as int).len() as int,
                    ));
                }
            }
            let mut out = s0;
            out.append(", ");
            let rest = join_displays(ts, i + 1);
            out.append(rest.as_str());
            proof {
                assert(ts@.skip(i as int).drop_first() =~= ts@.skip(i as int + 1));
            }
            out
        }
    }
}


/// The serialized-decoder display string of an application-level type, as
/// the event-decoding layer names it.
pub open spec fn rescript_decoded_skar(t: RescriptType) -> Seq<char>
    decreases t,
{
    match t {
        RescriptType::Array(inner) => "array<HyperSyncClient.Decoder.decodedSolType<"@
            + rescript_decoded_skar(*inner) + ">>"@,
        RescriptType::Tuple(inners) => "HyperSyncClient.Decoder.decodedSolType<("@
            + rescript_decoded_joined(inners@) + ")>"@,
        v => "HyperSyncClient.Decoder.decodedSolType<"@ + rescript_display(v) + ">"@,
    }
}

/// The default value of an application-level type, written in that type
/// system itself.
pub open spec fn rescript_default(t: RescriptType) -> Seq<char>
    decreases t,
{
    match t {
        RescriptType::Int => "0"@,
        RescriptType::Float => "0.0"@,
        RescriptType::BigInt => "Ethers.BigInt.zero"@,
        RescriptType::Address => "Ethers.Addresses.defaultAddress"@,
        RescriptType::String => "\"foo\""@,
        RescriptType::ID => "\"my_id\""@,
        RescriptType::Bool => "false"@,
        RescriptType::Array(_) => "[]"@,
        RescriptType::Option(_) => "None"@,
        RescriptType::EnumVariant(e) => "Enums."@ + e.uncapitalized@ + "Default"@,
        RescriptType::Tuple(inners) => "("@ + rescript_default_joined(inners@) + ")"@,
    }
}

/// The default value of an application-level type, written for the host
/// language.
pub open spec fn rescript_default_non(t: RescriptType) -> Seq<char>
    decreases t,
{
    match t {
        RescriptType::Int => "0"@,
        RescriptType::Float => "0"@,
        RescriptType::BigInt => "0n"@,
        RescriptType::Address => "Addresses.defaultAddress"@,
        RescriptType::String => "\"foo\""@,
        RescriptType::ID => "\"my_id\""@,
        RescriptType::Bool => "false"@,
        RescriptType::Array(_) => "[]"@,
        RescriptType::Option(_) => "null"@,
        RescriptType::EnumVariant(e) => e.uncapitalized@ + "Default"@,
        RescriptType::Tuple(inners) => "["@ + rescript_default_non_joined(inners@) + "]"@,
    }
}

/// Serialized-decoder display strings of several types, joined by a comma
/// and a space.
pub open spec fn rescript_decoded_joined(ts: Seq<RescriptType>) -> Seq<char>
    decreases ts,
{
    if ts.len() == 0 {
        Seq::empty()
    } else if ts.len() == 1 {
        rescript_decoded_skar(ts[0])
    } else {
        rescript_decoded_skar(ts[0]) + ", "@ + rescript_decoded_joined(ts.drop_first())
    }
}

fn join_decoded(ts: &Vec<RescriptType>, i: usize) -> (r: String)
    requires
        i <= ts@.len(),
    ensures
        r@ == rescript_decoded_joined(ts@.skip(i as int)),
    decreases ts@.skip(i as int),
{
    if i == ts.len() {
        String::new()
    } else {
        proof {
            assert(ts@.skip(i as int)[0] == ts@[i as int]);
        }
        let s0 = ts[i].to_string_decoded_skar();
        if i + 1 == ts.len() {
            proof {
                assert(ts@.skip(i as int).len() == 1);
            }
            s0
        } else {
            proof {
                assert(decreases_to!(ts@.skip(i as int) => ts@.skip(i as int + 1))) by {
                    assert(ts@.skip(i as int + 1) =~= ts@.skip(i as int).subrange(
                        1,
                        ts@.skip(i as int).len() as int,
                    ));
                }
            }
            let mut out = s0;
            out.append(", ");
            let rest = join_decoded(ts, i + 1);
            out.append(rest.as_str());
            proof {
                assert(ts@.skip(i as int).drop_first() =~= ts@.skip(i as int + 1));
            }
            out
        }
    }
}

/// Default values of several types, joined by a comma and a space.
pub open spec fn rescript_default_joined(ts: Seq<RescriptType>) -> Seq<char>
    decreases ts,
{
    if ts.len() == 0 {
        Seq::empty()
    } else if ts.len() == 1 {
        rescript_default(ts[0])
    } else {
        rescript_default(ts[0]) + ", "@ + rescript_default_joined(ts.drop_first())
    }
}

fn join_defaults(ts: &Vec<RescriptType>, i: usize) -> (r: String)
    requires
        i <= ts@.len(),
    ensures
        r@ == rescript_default_joined(ts@.skip(i as int)),
    decreases ts@.skip(i as int),
{
    if i == ts.len() {
        String::new()
    } else {
        proof {
            assert(ts@.skip(i as int)[0] == ts@[i as int]);
        }
        let s0 = ts[i].get_default_value_rescript();
        if i + 1 == ts.len() {
            proof {
                assert(ts@.skip(i as int).len() == 1);
            }
            s0
        } else {
            proof {
                assert(decreases_to!(ts@.skip(i as int) => ts@.skip(i as int + 1))) by {
                    assert(ts@.skip(i as int + 1) =~= ts@.skip(i as int).subrange(
                        1,
                        ts@.skip(i as int).len() as int,
                    ));
                }
            }
            let mut out = s0;
            out.append(", ");
            let rest = join_defaults(ts, i + 1);
            out.append(rest.as_str());
            proof {
                assert(ts@.skip(i as int).drop_first() =~= ts@.skip(i as int + 1));
            }
            out
        }
    }
}

/// Host-language default values of several types, joined by a comma and a
/// space.
pub open spec fn rescript_default_non_joined(ts: Seq<RescriptType>) -> Seq<char>
    decreases ts,
{
    if ts.len() == 0 {
        Seq::empty()
    } else if ts.len() == 1 {
        rescript_default_non(ts[0])
    } else {
        rescript_default_non(ts[0]) + ", "@ + rescript_default_non_joined(ts.drop_first())
    }
}

fn join_defaults_non(ts: &Vec<RescriptType>, i: usize) -> (r: String)
    requires
        i <= ts@.len(),
    ensures
        r@ == rescript_default_non_joined(ts@.skip(i as int)),
    decreases ts@.skip(i as int),
{
    if i == ts.len() {
        String::new()
    } else {
        proof {
            assert(ts@.skip(i as int)[0] == ts@[i as int]);
        }
        let s0 = ts[i].get_default_value_non_rescript();
        if i + 1 == ts.len() {
            proof {
                assert(ts@.skip(i as int).len() == 1);
            }
            s0
        } else {
            proof {
                assert(decreases_to!(ts@.skip(i as int) => ts@.skip(i as int + 1))) by {
                    assert(ts@.skip(i as int + 1) =~= ts@.skip(i as int).subrange(
                        1,
                        ts@.skip(i as int).len() as int,
                    ));
                }
            }
            let mut out = s0;
            out.append(", ");
            let rest = join_defaults_non(ts, i + 1);
            out.append(rest.as_str());
            proof {
                assert(ts@.skip(i as int).drop_first() =~= ts@.skip(i as int + 1));
            }
            out
        }
    }
}

impl RescriptType {
    /// The display string that the event-decoding layer uses for this type.
    pub fn to_string_decoded_skar(&self) -> (r: String)
        ensures
            r@ == rescript_decoded_skar(*self),
        decreases *self,
    {
        match self {
            RescriptType::Array(inner) => {
                let mut out = "array<HyperSyncClient.Decoder.decodedSolType<".to_owned();
                let inner_str = inner.to_string_decoded_skar();
                out.append(inner_str.as_str());
                out.append(">>");
                out
            },
            RescriptType::Tuple(inners) => {
                proof {
                    assert(inners@.skip(0) =~= inners@);
                    assert(decreases_to!(*self => inners@));
                }
                let mut out = "HyperSyncClient.Decoder.decodedSolType<(".to_owned();
                let joined = join_decoded(inners, 0);
                out.append(joined.as_str());
                out.append(")>");
                out
            },
            v => {
                let mut out = "HyperSyncClient.Decoder.decodedSolType<".to_owned();
                let inner_str = v.to_string();
                out.append(inner_str.as_str());
                out.append(">");
                out
            },
        }
    }

    /// The default value of this type, written in the application type
    /// system itself.
    pub fn get_default_value_rescript(&self) -> (r: String)
        ensures
            r@ == rescript_default(*self),
        decreases *self,
    {
        match self {
            RescriptType::Int => "0".to_owned(),
            RescriptType::Float => "0.0".to_owned(),
            RescriptType::BigInt => "Ethers.BigInt.zero".to_owned(),
            RescriptType::Address => "Ethers.Addresses.defaultAddress".to_owned(),
            RescriptType::String => "\"foo\"".to_owned(),
            RescriptType::ID => "\"my_id\"".to_owned(),
            RescriptType::Bool => "false".to_owned(),
            RescriptType::Array(_) => "[]".to_owned(),
            RescriptType::Option(_) => "None".to_owned(),
            RescriptType::EnumVariant(e) => {
                let mut out = "Enums.".to_owned();
                out.append(e.uncapitalized.as_str());
                out.append("Default");
                out
            },
            RescriptType::Tuple(inners) => {
                proof {
                    assert(inners@.skip(0) =~= inners@);
                    assert(decreases_to!(*self => inners@));
                }
                let mut out = "(".to_owned();
                let joined = join_defaults(inners, 0);
                out.append(joined.as_str());
                out.append(")");
                out
            },
        }
    }

    /// The default value of this type, written for the host language.
    pub fn get_default_value_non_rescript(&self) -> (r: String)
        ensures
            r@ == rescript_default_non(*self),
        decreases *self,
    {
        match self {
            RescriptType::Int => "0".to_owned(),
            RescriptType::Float => "0".to_owned(),
            RescriptType::BigInt => "0n".to_owned(),
            RescriptType::Address => "Addresses.defaultAddress".to_owned(),
            RescriptType::String => "\"foo\"".to_owned(),
            RescriptType::ID => "\"my_id\"".to_owned(),
            RescriptType::Bool => "false".to_owned(),
            RescriptType::Array(_) => "[]".to_owned(),
            RescriptType::Option(_) => "null".to_owned(),
            RescriptType::EnumVariant(e) => {
                let mut out = e.uncapitalized.clone();
                out.append("Default");
                out
            },
            RescriptType::Tuple(inners) => {
                proof {
                    assert(inners@.skip(0) =~= inners@);
                    assert(decreases_to!(*self => inners@));
                }
                let mut out = "[".to_owned();
                let joined = join_defaults_non(inners, 0);
                out.append(joined.as_str());
                out.append("]");
                out
            },
        }
    }
}

} // verus!
