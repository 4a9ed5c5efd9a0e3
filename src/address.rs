use vstd::prelude::*;
use vstd::string::{StrSliceExecFns, StringExecFns};

verus! {

#[verifier::external_type_specification]
#[verifier::external_body]
pub struct ExFromHexError(hex::FromHexError);

/// Whether `c` is a hexadecimal digit, of either case.
pub open spec fn is_hex_digit(c: char) -> bool {
    ('0' <= c && c <= '9') || ('a' <= c && c <= 'f') || ('A' <= c && c <= 'F')
}

/// The value of the hexadecimal digit `c`.
pub open spec fn hex_value(c: char) -> int {
    if '0' <= c && c <= '9' {
        c as int - '0' as int
    } else if 'a' <= c && c <= 'f' {
        c as int - 'a' as int + 10
    } else {
        c as int - 'A' as int + 10
    }
}

/// Whether `h` is an even number of hexadecimal digits.
pub open spec fn is_hex(h: Seq<char>) -> bool {
    h.len() % 2 == 0 && forall|i: int| 0 <= i < h.len() ==> is_hex_digit(#[trigger] h[i])
}

/// The bytes that the hexadecimal digits `h` stand for, two digits a byte.
pub open spec fn hex_bytes(h: Seq<char>) -> Seq<u8> {
    Seq::new(h.len() / 2, |i: int| (hex_value(h[2 * i]) * 16 + hex_value(h[2 * i + 1])) as u8)
}

/// Relies on hex::decode: it succeeds exactly on an even number of hex
/// digits, and then gives one byte for each pair.
#[verifier::external_body]
fn hex_decode(h: &str) -> (r: Result<Vec<u8>, hex::FromHexError>)
    ensures
        r is Ok <==> is_hex(h@),
        r is Ok ==> r->Ok_0@ == hex_bytes(h@),
{
    hex::decode(h)
}

/// The upper-case hex digit of value `v`, below 16.
pub open spec fn upper_digit(v: int) -> char {
    "0123456789ABCDEF"@[v]
}

/// Two upper-case hex digits for each byte of `b`, the high half first.
pub open spec fn hex_upper(b: Seq<u8>) -> Seq<char> {
    Seq::new(
        2 * b.len(),
        |i: int| upper_digit(if i % 2 == 0 { b[i / 2] as int / 16 } else { b[i / 2] as int % 16 }),
    )
}

/// Relies on hex::encode_upper: two upper-case digits for each byte.
#[verifier::external_body]
fn encode_upper(b: &[u8]) -> (r: String)
    ensures
        r@ == hex_upper(b@),
{
    hex::encode_upper(b)
}

/// How many `0` characters `h` starts with.
pub open spec fn leading_zeros(h: Seq<char>) -> nat
    decreases h.len(),
{
    if h.len() > 0 && h[0] == '0' {
        1 + leading_zeros(h.drop_first())
    } else {
        0
    }
}

proof fn lemma_leading_zeros(h: Seq<char>, k: int)
    requires
        0 <= k <= h.len(),
        forall|j: int| 0 <= j < k ==> h[j] == '0',
        k == h.len() || h[k] != '0',
    ensures
        leading_zeros(h) == k,
    decreases k,
{
    if k > 0 {
        lemma_leading_zeros(h.drop_first(), k - 1);
    }
}

/// The digits `h` without their leading zeros, or `0` where nothing is left.
pub open spec fn without_leading_zeros(h: Seq<char>) -> Seq<char> {
    if leading_zeros(h) == h.len() {
        seq!['0']
    } else {
        h.subrange(leading_zeros(h) as int, h.len() as int)
    }
}

/// Why a text is not an address.
#[derive(Debug)]
pub enum AddressParseError {
    /// The digits after the prefix are not hexadecimal.
    InvalidHex { hex: String, error: hex::FromHexError },
    /// The digits stand for more bytes than an address holds.
    TooLong { len: usize },
    /// A byte string of a length other than that of an address.
    InvalidLength { len: usize },
}

/// The digits of an address text: what follows its two-character prefix,
/// with a `0` put in front where their number is odd.
pub open spec fn address_digits(s: Seq<char>) -> Seq<char> {
    let h = s.subrange(2, s.len() as int);
    if h.len() % 2 == 1 {
        seq!['0'] + h
    } else {
        h
    }
}

/// `b` with zero bytes in front, up to the length of an address.
pub open spec fn left_padded(b: Seq<u8>) -> Seq<u8> {
    Seq::new((ADDRESS_LENGTH - b.len()) as nat, |i: int| 0u8) + b
}

/// The number of bytes of an account address.
pub const ADDRESS_LENGTH: usize = 16;

/// An account address: a fixed number of bytes.
#[derive(Clone, Copy, Debug, PartialEq, Eq, Hash, Default)]
pub struct Address(pub [u8; ADDRESS_LENGTH]);

impl Address {
    pub fn new(address: [u8; ADDRESS_LENGTH]) -> (r: Address)
        ensures
            r.0@ == address@,
    {
        Address(address)
    }

    pub fn to_u8(self) -> (r: [u8; ADDRESS_LENGTH])
        ensures
            r@ == self.0@,
    {
        self.0
    }

    /// The address in upper-case hex, with `0x` in front and no leading zeros.
    pub fn short_str(&self) -> (r: String)
        ensures
            r@ == "0x"@ + without_leading_zeros(hex_upper(self.0@)),
    {
        let encoded = encode_upper(self.0.as_slice());
        let digits = encoded.as_str();
        let n = digits.unicode_len();
        let mut k: usize = 0;
        while k < n && digits.get_char(k) == '0'
            invariant
                k <= n,
                n == digits@.len(),
                forall|j: int| 0 <= j < k ==> digits@[j] == '0',
            decreases n - k,
        {
            k = k + 1;
        }
        proof {
            lemma_leading_zeros(digits@, k as int);
            reveal_strlit("0x");
            reveal_strlit("0");
        }
        let prefix = String::from_str("0x");
        if k == n {
            prefix.concat("0")
        } else {
            prefix.concat(digits.substring_char(k, n))
        }
    }

    /// The address made of exactly the bytes `bytes`.
    pub fn from_bytes(bytes: &[u8]) -> (r: Result<Address, AddressParseError>)
        ensures
            r is Ok <==> bytes@.len() == ADDRESS_LENGTH,
            r matches Ok(a) ==> a.0@ == bytes@,
            r matches Err(e) ==> e == (AddressParseError::InvalidLength { len: bytes@.len() as usize }),
    {
        if bytes.len() != ADDRESS_LENGTH {
            return Err(AddressParseError::InvalidLength { len: bytes.len() });
        }
        let mut addr = [0u8; ADDRESS_LENGTH];
        let mut i: usize = 0;
        while i < ADDRESS_LENGTH
            invariant
                bytes@.len() == ADDRESS_LENGTH,
                i <= ADDRESS_LENGTH,
                addr@.len() == ADDRESS_LENGTH,
                forall|j: int| 0 <= j < i ==> addr@[j] == bytes@[j],
            decreases ADDRESS_LENGTH - i,
        {
            addr[i] = bytes[i];
            i = i + 1;
        }
        assert(addr@ =~= bytes@);
        Ok(Address(addr))
    }

    /// Reads an address written as a two-character prefix and hexadecimal
    /// digits, most significant first; fewer digits than an address holds
    /// are padded with zeros in front.
    pub fn parse_str(s: &str) -> (r: Result<Address, AddressParseError>)
        requires
            s@.len() >= 2,
            (s@[0] as u32) < 128,
            (s@[1] as u32) < 128,
        ensures
            r is Ok <==> is_hex(address_digits(s@)) && address_digits(s@).len() / 2 <= ADDRESS_LENGTH,
            r matches Ok(a) ==> a.0@ == left_padded(hex_bytes(address_digits(s@))),
            r matches Err(AddressParseError::InvalidHex { hex, .. }) ==> hex@ == address_digits(s@)
                && !is_hex(address_digits(s@)),
            r matches Err(AddressParseError::TooLong { len }) ==> is_hex(address_digits(s@))
                && len == address_digits(s@).len() / 2,
            !(r matches Err(AddressParseError::InvalidLength { .. })),
    {
        let digits = s.substring_char(2, s.unicode_len());
        let mut hex_string = String::from_str(digits);
        if hex_string.as_str().unicode_len() % 2 != 0 {
            hex_string = String::from_str("0").concat(digits);
            proof {
                reveal_strlit("0");
                assert(hex_string@ =~= address_digits(s@));
            }
        }
        assert(hex_string@ =~= address_digits(s@));
        let decoded = match hex_decode(hex_string.as_str()) {
            Ok(bytes) => bytes,
            Err(error) => {
                return Err(AddressParseError::InvalidHex { hex: hex_string, error });
            },
        };
        let len = decoded.len();
        if len > ADDRESS_LENGTH {
            return Err(AddressParseError::TooLong { len });
        }
        let mut result: Vec<u8> = Vec::new();
        let mut i: usize = 0;
        while i < ADDRESS_LENGTH - len
            invariant
                len <= ADDRESS_LENGTH,
                i <= ADDRESS_LENGTH - len,
                result@ =~= Seq::new(i as nat, |j: int| 0u8),
            decreases ADDRESS_LENGTH - len - i,
        {
            result.push(0u8);
            i = i + 1;
        }
        let mut k: usize = 0;
        while k < len
            invariant
                len == decoded@.len(),
                len <= ADDRESS_LENGTH,
                k <= len,
                result@ =~= Seq::new((ADDRESS_LENGTH - len) as nat, |j: int| 0u8) + decoded@.subrange(0, k as int),
            decreases len - k,
        {
            result.push(decoded[k]);
            k = k + 1;
        }
        assert(decoded@.subrange(0, len as int) =~= decoded@);
        match Address::from_bytes(result.as_slice()) {
            Ok(a) => Ok(a),
            Err(e) => Err(e),
        }
    }
}

} // verus!
