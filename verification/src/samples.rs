use vstd::prelude::*;
use vstd::string::{StrSliceExecFns, StringSliceAdditionalSpecFns};

use crate::encode::{dec_str, hex_str, to_hex, u128_to_dec};
use crate::grammar::str_eq;
use crate::scale::{compact_encode_u128, scale_compact, scale_encode_str};

verus! {

/// Which encoding table a sample run prints.
#[derive(Clone, Copy, Debug, PartialEq, Eq, Structural)]
pub enum RunCommand {
    Int,
    Compact,
    Str,
}

/// Map a command word to the table it selects; an unknown word maps to
/// nothing.
pub fn parse_command(arg: &str) -> (r: Option<RunCommand>)
    ensures
        arg@ == "ints"@ ==> r == Some(RunCommand::Int),
        arg@ == "compacts"@ ==> r == Some(RunCommand::Compact),
        arg@ == "strings"@ ==> r == Some(RunCommand::Str),
        arg@ != "ints"@ && arg@ != "compacts"@ && arg@ != "strings"@ ==> r is None,
{
    proof {
        reveal_strlit("ints");
        reveal_strlit("compacts");
        reveal_strlit("strings");
        assert("ints"@.len() == 4 && "compacts"@.len() == 8 && "strings"@.len() == 7);
        assert("ints"@ != "compacts"@ && "ints"@ != "strings"@ && "compacts"@ != "strings"@);
    }
    if str_eq(arg, "ints") {
        Some(RunCommand::Int)
    } else if str_eq(arg, "compacts") {
        Some(RunCommand::Compact)
    } else if str_eq(arg, "strings") {
        Some(RunCommand::Str)
    } else {
        None
    }
}

/// One row of the compact-encoding table: the value in decimal and its
/// SCALE compact encoding in hexadecimal.
#[derive(Debug, PartialEq, Eq)]
pub struct CompactEncodedInfo {
    pub num: String,
    pub hex: String,
}

/// Describe one value's SCALE compact encoding.
pub fn compact_encoded_info(x: u128) -> (r: CompactEncodedInfo)
    ensures
        r.num@ == dec_str(x as nat),
        r.hex@ == hex_str(scale_compact(x)),
{
    let encoded = compact_encode_u128(x);
    CompactEncodedInfo { num: u128_to_dec(x), hex: to_hex(&encoded) }
}

/// One row of the string-encoding table: the source text, its UTF-8
/// bytes in hexadecimal, and its SCALE encoding in hexadecimal.
#[derive(Debug, PartialEq, Eq)]
pub struct StringEncodedInfo {
    pub src: String,
    pub hex_pure: String,
    pub hex_scale: String,
}

/// Describe one string's raw and SCALE encodings; a text of more than
/// `u32::MAX` bytes cannot be SCALE-encoded and yields nothing.
pub fn string_encoded_info(s: &str) -> (r: Option<StringEncodedInfo>)
    ensures
        s.spec_bytes().len() <= u32::MAX ==> (r matches Some(info) && {
            &&& info.src@ == s@
            &&& info.hex_pure@ == hex_str(s.spec_bytes())
            &&& info.hex_scale@ == hex_str(
                scale_compact(s.spec_bytes().len() as u128) + s.spec_bytes(),
            )
        }),
        s.spec_bytes().len() > u32::MAX ==> r is None,
{
    let bytes = s.as_bytes_vec();
    if bytes.len() as u64 <= 0xFFFF_FFFFu64 {
        let scale = scale_encode_str(s);
        Some(
            StringEncodedInfo {
                src: s.to_owned(),
                hex_pure: to_hex(&bytes),
                hex_scale: to_hex(&scale),
            },
        )
    } else {
        None
    }
}

} // verus!
