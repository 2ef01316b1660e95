use vstd::prelude::*;
use vstd::string::StrSliceExecFns;
use vstd::string::StringExecFns;
use crate::error::Error;

verus! {

/// True of the characters `0`-`9` (codepoints 48-57), `a`-`f` (97-102)
/// and `A`-`F` (65-70).
pub open spec fn is_hex_digit(c: char) -> bool {
    ||| 48 <= c as int && c as int <= 57
    ||| 97 <= c as int && c as int <= 102
    ||| 65 <= c as int && c as int <= 70
}

/// Numeric value of a hexadecimal digit character.
pub open spec fn hex_val(c: char) -> int {
    if 48 <= c as int && c as int <= 57 {
        c as int - 48
    } else if 97 <= c as int && c as int <= 102 {
        c as int - 87
    } else {
        c as int - 55
    }
}

/// Decodes one hexadecimal digit character.
pub fn hex_digit_value(c: char) -> (r: Option<u8>)
    ensures
        r is Some <==> is_hex_digit(c),
        r matches Some(v) ==> v as int == hex_val(c) && v < 16,
{
    let n = c as u32;
    if 48 <= n && n <= 57 {
        Some((n - 48) as u8)
    } else if 97 <= n && n <= 102 {
        Some((n - 87) as u8)
    } else if 65 <= n && n <= 70 {
        Some((n - 55) as u8)
    } else {
        None
    }
}

/// What must hold of character `i` of a canonical 17-character address
/// string: a colon at every third position, a hexadecimal digit elsewhere.
pub open spec fn address_char_ok(s: Seq<char>, i: int) -> bool {
    if i % 3 == 2 {
        s[i] == ':'
    } else {
        is_hex_digit(s[i])
    }
}

/// A canonical address string: 17 characters, six hexadecimal octet pairs
/// separated by colons.
pub open spec fn valid_address_chars(s: Seq<char>) -> bool {
    &&& s.len() == 17
    &&& forall|i: int| 0 <= i < 17 ==> #[trigger] address_char_ok(s, i)
}

/// Octet `k` (0 to 5) encoded at characters `3k` and `3k + 1`.
pub open spec fn address_octet(s: Seq<char>, k: int) -> u8 {
    (hex_val(s[3 * k]) * 16 + hex_val(s[3 * k + 1])) as u8
}

/// The six octets encoded by a canonical address string.
pub open spec fn parsed_address(s: Seq<char>) -> Seq<u8> {
    Seq::new(6, |k: int| address_octet(s, k))
}

/// Uppercase hexadecimal digit character for a value below 16.
pub open spec fn hex_char_of(v: int) -> char {
    if v < 10 {
        (v + 48) as char
    } else {
        (v + 55) as char
    }
}

/// The canonical colon-separated textual form of six octets.
pub open spec fn address_chars(a: Seq<u8>) -> Seq<char> {
    seq![
        hex_char_of(a[0] as int / 16),
        hex_char_of(a[0] as int % 16),
        ':',
        hex_char_of(a[1] as int / 16),
        hex_char_of(a[1] as int % 16),
        ':',
        hex_char_of(a[2] as int / 16),
        hex_char_of(a[2] as int % 16),
        ':',
        hex_char_of(a[3] as int / 16),
        hex_char_of(a[3] as int % 16),
        ':',
        hex_char_of(a[4] as int / 16),
        hex_char_of(a[4] as int % 16),
        ':',
        hex_char_of(a[5] as int / 16),
        hex_char_of(a[5] as int % 16),
    ]
}

/// A 6-octet Bluetooth hardware address.
#[derive(Debug, Clone, Copy, PartialEq, Eq, Structural)]
pub struct Address {
    pub o0: u8,
    pub o1: u8,
    pub o2: u8,
    pub o3: u8,
    pub o4: u8,
    pub o5: u8,
}

impl View for Address {
    type V = Seq<u8>;

    open spec fn view(&self) -> Seq<u8> {
        seq![self.o0, self.o1, self.o2, self.o3, self.o4, self.o5]
    }
}

/// Reads the two hexadecimal digits at characters `j` and `j + 1`.
fn octet_at(s: &str, j: usize) -> (r: Option<u8>)
    requires
        j + 1 < s@.len(),
        s@.len() <= usize::MAX,
    ensures
        r is Some <==> is_hex_digit(s@[j as int]) && is_hex_digit(s@[j as int + 1]),
        r matches Some(v) ==> v as int == hex_val(s@[j as int]) * 16 + hex_val(s@[j as int + 1]),
{
    match (hex_digit_value(s.get_char(j)), hex_digit_value(s.get_char(j + 1))) {
        (Some(h), Some(l)) => Some(h * 16 + l),
        _ => None,
    }
}

impl Address {
    /// The six octets as a sequence-valued constructor, octet 0 first.
    pub fn new(o0: u8, o1: u8, o2: u8, o3: u8, o4: u8, o5: u8) -> (r: Address)
        ensures
            r@ == seq![o0, o1, o2, o3, o4, o5],
    {
        Address { o0, o1, o2, o3, o4, o5 }
    }

    /// Parses the canonical colon-separated form, for example
    /// `AA:BB:CC:DD:EE:FF`.  Succeeds exactly on 17-character strings with
    /// hexadecimal octet pairs at every position and colons between them;
    /// any other string is rejected with a parse error.
    pub fn parse(s: &str) -> (r: Result<Address, Error>)
        ensures
            valid_address_chars(s@) ==> (r matches Ok(a) && a@ == parsed_address(s@)),
            !valid_address_chars(s@) ==> (r matches Err(e) && e is Parse),
    {
        if s.unicode_len() != 17 {
            return Err(Error::Parse(String::from_str("malformed address")));
        }
        if s.get_char(2) != ':' || s.get_char(5) != ':' || s.get_char(8) != ':' || s.get_char(11)
            != ':' || s.get_char(14) != ':' {
            proof {
                assert(!valid_address_chars(s@)) by {
                    if valid_address_chars(s@) {
                        assert(address_char_ok(s@, 2));
                        assert(address_char_ok(s@, 5));
                        assert(address_char_ok(s@, 8));
                        assert(address_char_ok(s@, 11));
                        assert(address_char_ok(s@, 14));
                    }
                }
            }
            return Err(Error::Parse(String::from_str("malformed address")));
        }
        let r0 = octet_at(s, 0);
        let r1 = octet_at(s, 3);
        let r2 = octet_at(s, 6);
        let r3 = octet_at(s, 9);
        let r4 = octet_at(s, 12);
        let r5 = octet_at(s, 15);
        match (r0, r1, r2, r3, r4, r5) {
            (Some(b0), Some(b1), Some(b2), Some(b3), Some(b4), Some(b5)) => {
                let a = Address { o0: b0, o1: b1, o2: b2, o3: b3, o4: b4, o5: b5 };
                proof {
                    assert(valid_address_chars(s@)) by {
                        assert forall|i: int| 0 <= i < 17 implies #[trigger] address_char_ok(
                            s@,
                            i,
                        ) by {
                            assert(address_char_ok(s@, 0));
                            assert(address_char_ok(s@, 1));
                            assert(address_char_ok(s@, 2));
                            assert(address_char_ok(s@, 3));
                            assert(address_char_ok(s@, 4));
                            assert(address_char_ok(s@, 5));
                            assert(address_char_ok(s@, 6));
                            assert(address_char_ok(s@, 7));
                            assert(address_char_ok(s@, 8));
                            assert(address_char_ok(s@, 9));
                            assert(address_char_ok(s@, 10));
                            assert(address_char_ok(s@, 11));
                            assert(address_char_ok(s@, 12));
                            assert(address_char_ok(s@, 13));
                            assert(address_char_ok(s@, 14));
                            assert(address_char_ok(s@, 15));
                            assert(address_char_ok(s@, 16));
                        }
                    }
                    assert(a@ =~= parsed_address(s@));
                }
                Ok(a)
            },
            _ => {
                proof {
                    assert(!valid_address_chars(s@)) by {
                        if valid_address_chars(s@) {
                            assert(address_char_ok(s@, 0));
                            assert(address_char_ok(s@, 1));
                            assert(address_char_ok(s@, 3));
                            assert(address_char_ok(s@, 4));
                            assert(address_char_ok(s@, 6));
                            assert(address_char_ok(s@, 7));
                            assert(address_char_ok(s@, 9));
                            assert(address_char_ok(s@, 10));
                            assert(address_char_ok(s@, 12));
                            assert(address_char_ok(s@, 13));
                            assert(address_char_ok(s@, 15));
                            assert(address_char_ok(s@, 16));
                        }
                    }
                }
                Err(Error::Parse(String::from_str("malformed address")))
            },
        }
    }

    /// The canonical colon-separated textual form, uppercase hexadecimal.
    pub fn to_string(&self) -> (r: String)
        ensures
            r@ == address_chars(self@),
    {
        let mut out = String::new();
        push_octet(&mut out, self.o0);
        push_colon(&mut out);
        push_octet(&mut out, self.o1);
        push_colon(&mut out);
        push_octet(&mut out, self.o2);
        push_colon(&mut out);
        push_octet(&mut out, self.o3);
        push_colon(&mut out);
        push_octet(&mut out, self.o4);
        push_colon(&mut out);
        push_octet(&mut out, self.o5);
        proof {
            assert(out@ =~= address_chars(self@));
        }
        out
    }
}

/// For a value below 16, its uppercase digit character decodes back to
/// the same value.
proof fn lemma_hex_char_val(v: int)
    requires
        0 <= v < 16,
    ensures
        is_hex_digit(hex_char_of(v)),
        hex_val(hex_char_of(v)) == v,
{
    if v < 10 {
        assert(hex_char_of(v) as int == v + 48);
    } else {
        assert(hex_char_of(v) as int == v + 55);
    }
}

/// Law: the canonical textual form of any six octets is itself a valid
/// address string and parses back to the same octets, so formatting an
/// address and parsing the result returns the address unchanged.
pub proof fn lemma_address_round_trip(a: Seq<u8>)
    requires
        a.len() == 6,
    ensures
        valid_address_chars(address_chars(a)),
        parsed_address(address_chars(a)) == a,
{
    let s = address_chars(a);
    lemma_hex_char_val(a[0] as int / 16);
    lemma_hex_char_val(a[0] as int % 16);
    lemma_hex_char_val(a[1] as int / 16);
    lemma_hex_char_val(a[1] as int % 16);
    lemma_hex_char_val(a[2] as int / 16);
    lemma_hex_char_val(a[2] as int % 16);
    lemma_hex_char_val(a[3] as int / 16);
    lemma_hex_char_val(a[3] as int % 16);
    lemma_hex_char_val(a[4] as int / 16);
    lemma_hex_char_val(a[4] as int % 16);
    lemma_hex_char_val(a[5] as int / 16);
    lemma_hex_char_val(a[5] as int % 16);
    assert(valid_address_chars(s)) by {
        assert forall|i: int| 0 <= i < 17 implies #[trigger] address_char_ok(s, i) by {
            assert(address_char_ok(s, 0));
            assert(address_char_ok(s, 1));
            assert(address_char_ok(s, 2));
            assert(address_char_ok(s, 3));
            assert(address_char_ok(s, 4));
            assert(address_char_ok(s, 5));
            assert(address_char_ok(s, 6));
            assert(address_char_ok(s, 7));
            assert(address_char_ok(s, 8));
            assert(address_char_ok(s, 9));
            assert(address_char_ok(s, 10));
            assert(address_char_ok(s, 11));
            assert(address_char_ok(s, 12));
            assert(address_char_ok(s, 13));
            assert(address_char_ok(s, 14));
            assert(address_char_ok(s, 15));
            assert(address_char_ok(s, 16));
        }
    }
    assert(parsed_address(s) =~= a) by {
        assert(address_octet(s, 0) == a[0]);
        assert(address_octet(s, 1) == a[1]);
        assert(address_octet(s, 2) == a[2]);
        assert(address_octet(s, 3) == a[3]);
        assert(address_octet(s, 4) == a[4]);
        assert(address_octet(s, 5) == a[5]);
    }
}

/// Appends one colon character.
fn push_colon(out: &mut String)
    ensures
        final(out)@ == old(out)@ + seq![':'],
{
    proof {
        reveal_strlit(":");
    }
    out.append(":");
    proof {
        assert(final(out)@ =~= old(out)@ + seq![':']);
    }
}

/// Appends the two uppercase hexadecimal digits of one octet.
fn push_octet(out: &mut String, b: u8)
    ensures
        final(out)@ == old(out)@ + seq![hex_char_of(b as int / 16), hex_char_of(b as int % 16)],
{
    let hi = hex_char_str(b / 16);
    let lo = hex_char_str(b % 16);
    out.append(hi);
    out.append(lo);
    proof {
        assert(final(out)@ =~= old(out)@ + seq![
            hex_char_of(b as int / 16),
            hex_char_of(b as int % 16),
        ]);
    }
}

/// The one-character string of an uppercase hexadecimal digit.
fn hex_char_str(v: u8) -> (r: &'static str)
    requires
        v < 16,
    ensures
        r@ == seq![hex_char_of(v as int)],
{
    proof {
        reveal_strlit("0");
        reveal_strlit("1");
        reveal_strlit("2");
        reveal_strlit("3");
        reveal_strlit("4");
        reveal_strlit("5");
        reveal_strlit("6");
        reveal_strlit("7");
        reveal_strlit("8");
        reveal_strlit("9");
        reveal_strlit("A");
        reveal_strlit("B");
        reveal_strlit("C");
        reveal_strlit("D");
        reveal_strlit("E");
        reveal_strlit("F");
    }
    let r = match v {
        0 => "0",
        1 => "1",
        2 => "2",
        3 => "3",
        4 => "4",
        5 => "5",
        6 => "6",
        7 => "7",
        8 => "8",
        9 => "9",
        10 => "A",
        11 => "B",
        12 => "C",
        13 => "D",
        14 => "E",
        _ => "F",
    };
    proof {
        assert(r@ =~= seq![hex_char_of(v as int)]);
    }
    r
}

} // verus!
