//! Wallet addresses: parsing, canonical comparison and checksummed text.
use vstd::prelude::*;
use vstd::string::StringSliceAdditionalSpecFns;

verus! {

/// Number of bytes in a wallet address.
pub const ADDRESS_LEN: usize = 20;

/// The value of an ASCII hexadecimal digit, either case.
pub open spec fn hex_value(c: u8) -> Option<u8> {
    if 48 <= c && c <= 57 {
        Some((c - 48) as u8)
    } else if 97 <= c && c <= 102 {
        Some((c - 87) as u8)
    } else if 65 <= c && c <= 70 {
        Some((c - 55) as u8)
    } else {
        None
    }
}

/// The hexadecimal digits of an address text: the text without its `0x` prefix.
pub open spec fn address_digits(text: Seq<u8>) -> Seq<u8> {
    if text.len() >= 2 && text[0] == 48u8 && (text[1] == 120u8 || text[1] == 88u8) {
        text.subrange(2, text.len() as int)
    } else {
        text
    }
}

/// A well-formed address text: an optional `0x` prefix, then forty hex digits.
pub open spec fn is_address_text(text: Seq<u8>) -> bool {
    &&& address_digits(text).len() == 2 * ADDRESS_LEN
    &&& forall|i: int| 0 <= i < address_digits(text).len() ==> hex_value(#[trigger] address_digits(text)[i]).is_some()
}

/// The bytes spelled by a sequence of hex digit pairs, high digit first.
pub open spec fn decode_hex(digits: Seq<u8>) -> Seq<u8> {
    Seq::new(
        digits.len() / 2,
        |i: int| (hex_value(digits[2 * i]).unwrap() * 16 + hex_value(digits[2 * i + 1]).unwrap()) as u8,
    )
}

/// The lowercase hex digit for a value below sixteen.
pub open spec fn hex_digit(v: nat) -> u8 {
    if v < 10 {
        (48 + v) as u8
    } else {
        (87 + v) as u8
    }
}

/// Lowercase hex text of a byte sequence, two digits per byte.
pub open spec fn hex_text(b: Seq<u8>) -> Seq<u8>
    decreases b.len(),
{
    if b.len() == 0 {
        Seq::empty()
    } else {
        hex_text(b.drop_last()) + seq![hex_digit(b.last() as nat / 16), hex_digit(b.last() as nat % 16)]
    }
}

/// The EIP-55 mixed-case text of a 20-byte address, as ethers computes it.
pub uninterp spec fn checksum_text(bytes: Seq<u8>) -> Seq<char>;

/// Relies on ethers' `utils::to_checksum` (no chain id): it returns `0x`
/// followed by one hex digit per nibble of the address, cased by a hash of
/// the lowercase text.
#[verifier::external_body]
fn checksum_of(bytes: &Vec<u8>) -> (r: String)
    requires
        bytes@.len() == ADDRESS_LEN,
    ensures
        r@ == checksum_text(bytes@),
        r@.len() == 2 * ADDRESS_LEN + 2,
{
    ethers::utils::to_checksum(&ethers::types::Address::from_slice(bytes), None)
}

/// Why an address text was refused.
#[derive(Debug, Clone, Copy, PartialEq, Eq, Structural)]
pub enum AddressError {
    MalformedAddress,
}

/// A 20-byte wallet address.
#[derive(Debug, Clone, PartialEq, Eq)]
pub struct WalletAddress {
    pub bytes: Vec<u8>,
}

impl View for WalletAddress {
    type V = Seq<u8>;

    open spec fn view(&self) -> Seq<u8> {
        self.bytes@
    }
}

/// Byte-for-byte equality of two byte vectors.
pub fn bytes_equal(a: &Vec<u8>, b: &Vec<u8>) -> (r: bool)
    ensures
        r == (a@ == b@),
{
    if a.len() != b.len() {
        return false;
    }
    let mut i: usize = 0;
    while i < a.len()
        invariant
            a@.len() == b@.len(),
            0 <= i <= a@.len(),
            a@.subrange(0, i as int) == b@.subrange(0, i as int),
        decreases a@.len() - i,
    {
        if a[i] != b[i] {
            assert(a@[i as int] != b@[i as int]);
            return false;
        }
        assert(a@.subrange(0, i + 1) == a@.subrange(0, i as int).push(a@[i as int]));
        assert(b@.subrange(0, i + 1) == b@.subrange(0, i as int).push(b@[i as int]));
        i = i + 1;
    }
    assert(a@ == a@.subrange(0, a@.len() as int));
    assert(b@ == b@.subrange(0, b@.len() as int));
    true
}

/// A copy of a byte vector.
pub fn copy_bytes(a: &Vec<u8>) -> (r: Vec<u8>)
    ensures
        r@ == a@,
{
    let mut r: Vec<u8> = Vec::new();
    let mut i: usize = 0;
    while i < a.len()
        invariant
            0 <= i <= a@.len(),
            r@ == a@.subrange(0, i as int),
        decreases a@.len() - i,
    {
        r.push(a[i]);
        assert(a@.subrange(0, i + 1) == a@.subrange(0, i as int).push(a@[i as int]));
        i = i + 1;
    }
    assert(a@ == a@.subrange(0, a@.len() as int));
    r
}

fn hex_value_of(c: u8) -> (r: Option<u8>)
    ensures
        r == hex_value(c),
{
    if 48 <= c && c <= 57 {
        Some(c - 48)
    } else if 97 <= c && c <= 102 {
        Some(c - 87)
    } else if 65 <= c && c <= 70 {
        Some(c - 55)
    } else {
        None
    }
}

fn hex_digit_of(v: u8) -> (r: u8)
    requires
        v < 16,
    ensures
        r == hex_digit(v as nat),
{
    if v < 10 {
        48 + v
    } else {
        87 + v
    }
}

/// Appends the lowercase hex text of `b` to `out`.
pub fn push_hex_text(out: &mut Vec<u8>, b: &Vec<u8>)
    ensures
        final(out)@ == old(out)@ + hex_text(b@),
{
    let ghost start = out@;
    let mut i: usize = 0;
    while i < b.len()
        invariant
            0 <= i <= b@.len(),
            out@ == start + hex_text(b@.subrange(0, i as int)),
        decreases b@.len() - i,
    {
        let v = b[i];
        let ghost pre = b@.subrange(0, i as int);
        assert(b@.subrange(0, i + 1).drop_last() == pre);
        out.push(hex_digit_of(v / 16));
        out.push(hex_digit_of(v % 16));
        assert(out@ == start + hex_text(b@.subrange(0, i + 1)));
        i = i + 1;
    }
    assert(b@ == b@.subrange(0, b@.len() as int));
}

/// A well-formed hex text of bytes: an optional `0x` prefix, then an even
/// number of hex digits.
pub open spec fn is_hex_bytes_text(text: Seq<u8>) -> bool {
    &&& address_digits(text).len() % 2 == 0
    &&& forall|i: int| 0 <= i < address_digits(text).len() ==> hex_value(#[trigger] address_digits(text)[i]).is_some()
}

/// Parses hex text into the bytes it spells, two digits per byte.
pub fn parse_hex_bytes(text: &str) -> (r: Option<Vec<u8>>)
    ensures
        r is Some == is_hex_bytes_text(text.spec_bytes()),
        r matches Some(b) ==> b@ == decode_hex(address_digits(text.spec_bytes())),
{
    let raw = text.as_bytes();
    let ghost t = text.spec_bytes();
    let start: usize = if raw.len() >= 2 && raw[0] == 48u8 && (raw[1] == 120u8 || raw[1] == 88u8) {
        2
    } else {
        0
    };
    let ghost d = address_digits(t);
    assert(d == t.subrange(start as int, t.len() as int));
    if (raw.len() - start) % 2 != 0 {
        return None;
    }
    let n: usize = (raw.len() - start) / 2;
    let mut bytes: Vec<u8> = Vec::new();
    let mut i: usize = 0;
    while i < n
        invariant
            raw@ == t,
            t == text.spec_bytes(),
            d == address_digits(t),
            d == t.subrange(start as int, t.len() as int),
            start <= 2,
            start + 2 * n == t.len(),
            start + 2 * n <= usize::MAX,
            d.len() == 2 * n,
            0 <= i <= n,
            forall|j: int| 0 <= j < 2 * i ==> #[trigger] hex_value(d[j]).is_some(),
            bytes@.len() == i,
            forall|j: int| 0 <= j < i ==> #[trigger] bytes@[j] == decode_hex(d)[j],
        decreases n - i,
    {
        let hi = hex_value_of(raw[start + 2 * i]);
        let lo = hex_value_of(raw[start + 2 * i + 1]);
        assert(d[2 * i as int] == t[start + 2 * i]);
        assert(d[2 * i + 1] == t[start + 2 * i + 1]);
        match (hi, lo) {
            (Some(h), Some(l)) => {
                bytes.push(h * 16 + l);
            },
            _ => {
                let ghost k: int = if hi.is_none() { 2 * i } else { 2 * i + 1 };
                assert(0 <= k < address_digits(t).len());
                assert(hex_value(address_digits(t)[k]) is None);
                return None;
            },
        }
        i = i + 1;
    }
    assert(bytes@ == decode_hex(d));
    Some(bytes)
}

impl WalletAddress {
    /// Every address holds exactly twenty bytes.
    pub open spec fn wf(&self) -> bool {
        self@.len() == ADDRESS_LEN
    }

    /// The address with the given bytes, if there are twenty of them.
    pub fn from_bytes(bytes: &Vec<u8>) -> (r: Option<WalletAddress>)
        ensures
            r.is_some() == (bytes@.len() == ADDRESS_LEN),
            r matches Some(a) ==> a@ == bytes@ && a.wf(),
    {
        if bytes.len() == ADDRESS_LEN {
            Some(WalletAddress { bytes: copy_bytes(bytes) })
        } else {
            None
        }
    }

    /// The twenty bytes of the address.
    pub fn to_bytes(&self) -> (r: Vec<u8>)
        ensures
            r@ == self@,
    {
        copy_bytes(&self.bytes)
    }

    /// A copy of the address.
    pub fn duplicate(&self) -> (r: WalletAddress)
        ensures
            r@ == self@,
    {
        WalletAddress { bytes: copy_bytes(&self.bytes) }
    }

    /// Parses an address text: an optional `0x` (or `0X`) prefix followed by
    /// exactly forty hex digits of either case.
    pub fn normalize(text: &str) -> (r: Result<WalletAddress, AddressError>)
        ensures
            r is Ok == is_address_text(text.spec_bytes()),
            r matches Ok(a) ==> a.wf() && a@ == decode_hex(address_digits(text.spec_bytes())),
    {
        let raw = text.as_bytes();
        let ghost t = text.spec_bytes();
        let start: usize = if raw.len() >= 2 && raw[0] == 48u8 && (raw[1] == 120u8 || raw[1] == 88u8) {
            2
        } else {
            0
        };
        let ghost d = address_digits(t);
        assert(d == t.subrange(start as int, t.len() as int));
        if raw.len() - start != 2 * ADDRESS_LEN {
            return Err(AddressError::MalformedAddress);
        }
        let mut bytes: Vec<u8> = Vec::new();
        let mut i: usize = 0;
        while i < ADDRESS_LEN
            invariant
                raw@ == t,
                t == text.spec_bytes(),
                d.len() == 2 * ADDRESS_LEN,
                d == address_digits(t),
                d == t.subrange(start as int, t.len() as int),
                start <= 2,
                start + 2 * ADDRESS_LEN == t.len(),
                0 <= i <= ADDRESS_LEN,
                forall|j: int| 0 <= j < 2 * i ==> #[trigger] hex_value(d[j]).is_some(),
                bytes@.len() == i,
                forall|j: int| 0 <= j < i ==> #[trigger] bytes@[j] == decode_hex(d)[j],
            decreases ADDRESS_LEN - i,
        {
            let hi = hex_value_of(raw[start + 2 * i]);
            let lo = hex_value_of(raw[start + 2 * i + 1]);
            assert(d[2 * i as int] == t[start + 2 * i]);
            assert(d[2 * i + 1] == t[start + 2 * i + 1]);
            match (hi, lo) {
                (Some(h), Some(l)) => {
                    bytes.push(h * 16 + l);
                },
                _ => {
                    let ghost k: int = if hi.is_none() { 2 * i } else { 2 * i + 1 };
                    assert(0 <= k < address_digits(t).len());
                    assert(hex_value(address_digits(t)[k]) is None);
                    return Err(AddressError::MalformedAddress);
                },
            }
            i = i + 1;
        }
        assert(bytes@ == decode_hex(d));
        Ok(WalletAddress { bytes })
    }

    /// Canonical comparison: the same twenty bytes, whatever the letter case
    /// of the texts they were parsed from.
    pub fn equals(&self, other: &WalletAddress) -> (r: bool)
        ensures
            r == (self@ == other@),
    {
        bytes_equal(&self.bytes, &other.bytes)
    }

    /// The canonical EIP-55 checksummed text of the address.
    pub fn checksummed(&self) -> (r: String)
        requires
            self.wf(),
        ensures
            r@ == checksum_text(self@),
            r@.len() == 2 * ADDRESS_LEN + 2,
    {
        checksum_of(&self.bytes)
    }

    /// Lowercase `0x`-prefixed hex text of the address.
    pub fn to_lower_hex(&self) -> (r: Vec<u8>)
        ensures
            r@ == seq![48u8, 120u8] + hex_text(self@),
    {
        let mut out: Vec<u8> = Vec::new();
        out.push(48u8);
        out.push(120u8);
        push_hex_text(&mut out, &self.bytes);
        out
    }
}

} // verus!
