use vstd::prelude::*;
use vstd::string::StrSliceExecFns;
use vstd::string::StringExecFns;
use crate::address::hex_digit_value;
use crate::address::hex_val;
use crate::address::is_hex_digit;
use crate::error::Error;

verus! {

/// A well-formed modalias string: a bus tag without colons, one colon,
/// then exactly `v`, four hexadecimal digits, `p`, four digits, `d`,
/// four digits (15 characters after the colon).
pub open spec fn valid_modalias_chars(s: Seq<char>) -> bool {
    &&& s.len() >= 16
    &&& s[s.len() - 16] == ':'
    &&& forall|j: int| 0 <= j < s.len() - 16 ==> #[trigger] s[j] != ':'
    &&& s[s.len() - 15] == 'v'
    &&& s[s.len() - 10] == 'p'
    &&& s[s.len() - 5] == 'd'
    &&& forall|j: int| s.len() - 14 <= j < s.len() - 10 ==> is_hex_digit(#[trigger] s[j])
    &&& forall|j: int| s.len() - 9 <= j < s.len() - 5 ==> is_hex_digit(#[trigger] s[j])
    &&& forall|j: int| s.len() - 4 <= j < s.len() ==> is_hex_digit(#[trigger] s[j])
}

/// Value of the four hexadecimal digits at characters `j` to `j + 3`.
pub open spec fn hex4_val(s: Seq<char>, j: int) -> int {
    ((hex_val(s[j]) * 16 + hex_val(s[j + 1])) * 16 + hex_val(s[j + 2])) * 16 + hex_val(s[j + 3])
}

/// The bus tag of a well-formed modalias string.
pub open spec fn modalias_bus(s: Seq<char>) -> Seq<char> {
    s.take(s.len() - 16)
}

/// The vendor identifier of a well-formed modalias string.
pub open spec fn modalias_vendor(s: Seq<char>) -> int {
    hex4_val(s, s.len() - 14)
}

/// The product identifier of a well-formed modalias string.
pub open spec fn modalias_product(s: Seq<char>) -> int {
    hex4_val(s, s.len() - 9)
}

/// The version of a well-formed modalias string.
pub open spec fn modalias_version(s: Seq<char>) -> int {
    hex4_val(s, s.len() - 4)
}

/// Device-identification record in the kernel's modalias format: a bus
/// tag plus the vendor, product and version identifiers.
#[derive(Debug, Clone, PartialEq, Eq)]
pub struct Modalias {
    /// The bus tag before the colon, for example `usb`.
    pub bus: String,
    /// The vendor identifier after `v`.
    pub vendor: u32,
    /// The product identifier after `p`.
    pub product: u32,
    /// The version after `d`.
    pub version: u32,
}

/// Reads the four hexadecimal digits at characters `j` to `j + 3`.
fn hex4_at(s: &str, j: usize) -> (r: Option<u32>)
    requires
        j + 4 <= s@.len(),
        s@.len() <= usize::MAX,
    ensures
        r is Some <==> is_hex_digit(s@[j as int]) && is_hex_digit(s@[j as int + 1])
            && is_hex_digit(s@[j as int + 2]) && is_hex_digit(s@[j as int + 3]),
        r matches Some(v) ==> v as int == hex4_val(s@, j as int) && v <= 0xFFFF,
{
    let d0 = hex_digit_value(s.get_char(j));
    let d1 = hex_digit_value(s.get_char(j + 1));
    let d2 = hex_digit_value(s.get_char(j + 2));
    let d3 = hex_digit_value(s.get_char(j + 3));
    match (d0, d1, d2, d3) {
        (Some(a), Some(b), Some(c), Some(d)) => {
            let v: u32 = ((a as u32) * 16 + (b as u32)) * 16 + (c as u32);
            Some(v * 16 + (d as u32))
        },
        _ => None,
    }
}

impl Modalias {
    /// Parses a modalias string of the form
    /// `<bus>:v<vendor>p<product>d<version>`, for example
    /// `usb:v1D6Bp0246d053F`.  The delimiter is the first colon; the part
    /// after it must be exactly `v`, four hexadecimal digits, `p`, four
    /// digits, `d`, four digits.  Any other string yields a parse error.
    pub fn parse(s: &str) -> (r: Result<Modalias, Error>)
        ensures
            valid_modalias_chars(s@) ==> (r matches Ok(m) && m.bus@ == modalias_bus(s@)
                && m.vendor as int == modalias_vendor(s@) && m.product as int == modalias_product(
                s@,
            ) && m.version as int == modalias_version(s@)),
            !valid_modalias_chars(s@) ==> (r matches Err(e) && e is Parse),
    {
        let n = s.unicode_len();
        if n < 16 {
            return Err(Error::Parse(String::from_str("malformed modalias")));
        }
        let mut i: usize = 0;
        while i < n - 16
            invariant
                n == s@.len(),
                16 <= n <= usize::MAX,
                i <= n - 16,
                forall|j: int| 0 <= j < i ==> #[trigger] s@[j] != ':',
            decreases n - 16 - i,
        {
            if s.get_char(i) == ':' {
                return Err(Error::Parse(String::from_str("malformed modalias")));
            }
            i += 1;
        }
        if s.get_char(n - 16) != ':' {
            return Err(Error::Parse(String::from_str("malformed modalias")));
        }
        if s.get_char(n - 15) != 'v' || s.get_char(n - 10) != 'p' || s.get_char(n - 5) != 'd' {
            return Err(Error::Parse(String::from_str("malformed modalias")));
        }
        let vendor = match hex4_at(s, n - 14) {
            Some(v) => v,
            None => {
                proof {
                    lemma_hex_range_fails(s@, s@.len() - 14);
                }
                return Err(Error::Parse(String::from_str("malformed modalias")));
            },
        };
        let product = match hex4_at(s, n - 9) {
            Some(v) => v,
            None => {
                proof {
                    lemma_hex_range_fails(s@, s@.len() - 9);
                }
                return Err(Error::Parse(String::from_str("malformed modalias")));
            },
        };
        let version = match hex4_at(s, n - 4) {
            Some(v) => v,
            None => {
                proof {
                    lemma_hex_range_fails(s@, s@.len() - 4);
                }
                return Err(Error::Parse(String::from_str("malformed modalias")));
            },
        };
        let bus_part = s.substring_char(0, n - 16);
        let bus = String::from_str(bus_part);
        proof {
            assert(bus@ =~= modalias_bus(s@));
            assert(valid_modalias_chars(s@)) by {
                assert forall|j: int| s@.len() - 14 <= j < s@.len() - 10 implies is_hex_digit(
                    #[trigger] s@[j],
                ) by {}
                assert forall|j: int| s@.len() - 9 <= j < s@.len() - 5 implies is_hex_digit(
                    #[trigger] s@[j],
                ) by {}
                assert forall|j: int| s@.len() - 4 <= j < s@.len() implies is_hex_digit(
                    #[trigger] s@[j],
                ) by {}
            }
        }
        Ok(Modalias { bus, vendor, product, version })
    }
}

/// If one of the four characters at `j` to `j + 3` is not a hexadecimal
/// digit and that range lies in one of the three digit fields, the whole
/// string is not a well-formed modalias.
proof fn lemma_hex_range_fails(s: Seq<char>, j: int)
    requires
        s.len() >= 16,
        j == s.len() - 14 || j == s.len() - 9 || j == s.len() - 4,
        !(is_hex_digit(s[j]) && is_hex_digit(s[j + 1]) && is_hex_digit(s[j + 2]) && is_hex_digit(
            s[j + 3],
        )),
    ensures
        !valid_modalias_chars(s),
{
    if valid_modalias_chars(s) {
        assert(is_hex_digit(s[j]));
        assert(is_hex_digit(s[j + 1]));
        assert(is_hex_digit(s[j + 2]));
        assert(is_hex_digit(s[j + 3]));
    }
}

} // verus!
