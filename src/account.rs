//! Ledger account identifiers: derivation from a principal and a subaccount,
//! and their checksummed hexadecimal text.
use vstd::prelude::*;
use vstd::string::StringSliceAdditionalSpecFns;
use vstd::string::StringExecFns;
use crate::digest::{crc32, crc32_of, sha224, sha224_of};

verus! {

/// A 32-byte disambiguator of several accounts under one principal.
#[derive(Clone, Debug)]
pub struct Subaccount {
    pub bytes: Vec<u8>,
}

impl Subaccount {
    pub open spec fn wf(&self) -> bool {
        self.bytes@.len() == 32
    }
}

/// The 28-byte digest that identifies a ledger account.
#[derive(Clone, Debug)]
pub struct AccountIdentifier {
    pub hash: Vec<u8>,
}

/// Why a text is not an account identifier.
#[derive(Clone, Copy, Debug, PartialEq, Eq, Structural)]
pub enum AccountIdError {
    /// Not an even number of hexadecimal digits.
    InvalidHex,
    /// The digits do not make 32 bytes.
    InvalidLength,
    /// The first four bytes are not the checksum of the other 28.
    ChecksumMismatch,
}

/// Domain separator of account hashing: its length, then `account-id`.
pub open spec fn account_domain() -> Seq<u8> {
    seq![10u8, 97u8, 99u8, 99u8, 111u8, 117u8, 110u8, 116u8, 45u8, 105u8, 100u8]
}

pub open spec fn subaccount_or_zero(sub: Option<Seq<u8>>) -> Seq<u8> {
    match sub {
        Some(s) => s,
        None => Seq::new(32, |i: int| 0u8),
    }
}

/// The account of `principal` under `sub` (the zero subaccount when absent).
pub open spec fn account_hash(principal: Seq<u8>, sub: Option<Seq<u8>>) -> Seq<u8> {
    sha224_of(account_domain() + principal + subaccount_or_zero(sub))
}

/// The big-endian bytes of a 32-bit number.
pub open spec fn be32(n: u32) -> Seq<u8> {
    seq![(n >> 24u32) as u8, (n >> 16u32) as u8, (n >> 8u32) as u8, n as u8]
}

/// The checksum that precedes an account hash in its text form.
pub open spec fn account_checksum(hash: Seq<u8>) -> Seq<u8> {
    be32(crc32_of(hash))
}

pub open spec fn nibble_char(v: u8) -> char {
    if v < 10 {
        (48 + v) as char
    } else {
        (87 + v) as char
    }
}

/// Lower-case hexadecimal text of a byte string, two digits per byte.
pub open spec fn hex_chars(b: Seq<u8>) -> Seq<char> {
    Seq::new(
        2 * b.len(),
        |i: int|
            if i % 2 == 0 {
                nibble_char(b[i / 2] / 16)
            } else {
                nibble_char(b[i / 2] % 16)
            },
    )
}

/// The text of an account: checksum and hash, in hexadecimal.
pub open spec fn account_text(hash: Seq<u8>) -> Seq<char> {
    hex_chars(account_checksum(hash) + hash)
}

pub open spec fn hex_value(c: u8) -> Option<u8> {
    if 48 <= c <= 57 {
        Some((c - 48) as u8)
    } else if 97 <= c <= 102 {
        Some((c - 87) as u8)
    } else if 65 <= c <= 70 {
        Some((c - 55) as u8)
    } else {
        None
    }
}

pub open spec fn is_hex_text(t: Seq<u8>) -> bool {
    &&& t.len() % 2 == 0
    &&& forall|i: int| 0 <= i < t.len() ==> #[trigger] hex_value(t[i]) is Some
}

/// The bytes that a hexadecimal text (of either case) stands for.
pub open spec fn hex_bytes(t: Seq<u8>) -> Seq<u8> {
    Seq::new(
        t.len() / 2,
        |j: int| (16 * hex_value(t[2 * j]).unwrap() + hex_value(t[2 * j + 1]).unwrap()) as u8,
    )
}

/// What reading `t` as an account text gives: the account hash, or the
/// first check that fails.
pub open spec fn parse_account(t: Seq<u8>) -> Result<Seq<u8>, AccountIdError> {
    if !is_hex_text(t) {
        Err(AccountIdError::InvalidHex)
    } else if hex_bytes(t).len() != 32 {
        Err(AccountIdError::InvalidLength)
    } else {
        let b = hex_bytes(t);
        if b.subrange(0, 4) != account_checksum(b.subrange(4, 32)) {
            Err(AccountIdError::ChecksumMismatch)
        } else {
            Ok(b.subrange(4, 32))
        }
    }
}

fn be32_bytes(n: u32) -> (r: Vec<u8>)
    ensures
        r@ == be32(n),
{
    let r = vec![(n >> 24u32) as u8, (n >> 16u32) as u8, (n >> 8u32) as u8, n as u8];
    assert(r@ =~= be32(n));
    r
}

fn nibble_str(v: u8) -> (r: &'static str)
    requires
        v < 16,
    ensures
        r@ == seq![nibble_char(v)],
{
    match v {
        0 => {
            proof {
                reveal_strlit("0");
            }
            "0"
        },
        1 => {
            proof {
                reveal_strlit("1");
            }
            "1"
        },
        2 => {
            proof {
                reveal_strlit("2");
            }
            "2"
        },
        3 => {
            proof {
                reveal_strlit("3");
            }
            "3"
        },
        4 => {
            proof {
                reveal_strlit("4");
            }
            "4"
        },
        5 => {
            proof {
                reveal_strlit("5");
            }
            "5"
        },
        6 => {
            proof {
                reveal_strlit("6");
            }
            "6"
        },
        7 => {
            proof {
                reveal_strlit("7");
            }
            "7"
        },
        8 => {
            proof {
                reveal_strlit("8");
            }
            "8"
        },
        9 => {
            proof {
                reveal_strlit("9");
            }
            "9"
        },
        10 => {
            proof {
                reveal_strlit("a");
            }
            "a"
        },
        11 => {
            proof {
                reveal_strlit("b");
            }
            "b"
        },
        12 => {
            proof {
                reveal_strlit("c");
            }
            "c"
        },
        13 => {
            proof {
                reveal_strlit("d");
            }
            "d"
        },
        14 => {
            proof {
                reveal_strlit("e");
            }
            "e"
        },
        _ => {
            proof {
                reveal_strlit("f");
            }
            "f"
        },
    }
}

fn to_hex_string(b: &[u8]) -> (r: String)
    ensures
        r@ == hex_chars(b@),
{
    let mut out = String::new();
    let mut i: usize = 0;
    while i < b.len()
        invariant
            i <= b@.len(),
            out@ =~= hex_chars(b@.subrange(0, i as int)),
        decreases b@.len() - i,
    {
        let x = b[i];
        out.append(nibble_str(x / 16));
        out.append(nibble_str(x % 16));
        proof {
            let h = hex_chars(b@.subrange(0, i + 1));
            let g = hex_chars(b@.subrange(0, i as int));
            assert forall|k: int| 0 <= k < 2 * i implies h[k] == g[k] by {
                assert(b@.subrange(0, i + 1)[k / 2] == b@.subrange(0, i as int)[k / 2]);
            }
            assert(h[2 * i] == nibble_char(x / 16));
            assert(h[2 * i + 1] == nibble_char(x % 16));
        }
        i = i + 1;
    }
    assert(b@.subrange(0, b@.len() as int) =~= b@);
    out
}

fn hex_digit(c: u8) -> (r: Option<u8>)
    ensures
        r == hex_value(c),
{
    if c >= 48 && c <= 57 {
        Some(c - 48)
    } else if c >= 97 && c <= 102 {
        Some(c - 87)
    } else if c >= 65 && c <= 70 {
        Some(c - 55)
    } else {
        None
    }
}

fn decode_hex(t: &[u8]) -> (r: Option<Vec<u8>>)
    ensures
        r is Some <==> is_hex_text(t@),
        r is Some ==> r.unwrap()@ == hex_bytes(t@),
{
    if t.len() % 2 != 0 {
        return None;
    }
    let mut out: Vec<u8> = Vec::new();
    let mut j: usize = 0;
    while j < t.len() / 2
        invariant
            t@.len() % 2 == 0,
            j <= t@.len() / 2,
            forall|i: int| 0 <= i < 2 * j ==> #[trigger] hex_value(t@[i]) is Some,
            out@ =~= hex_bytes(t@).subrange(0, j as int),
        decreases t@.len() / 2 - j,
    {
        let hi = match hex_digit(t[2 * j]) {
            Some(v) => v,
            None => return None,
        };
        let lo = match hex_digit(t[2 * j + 1]) {
            Some(v) => v,
            None => return None,
        };
        out.push(16 * hi + lo);
        j = j + 1;
    }
    assert(out@ =~= hex_bytes(t@));
    Some(out)
}

impl AccountIdentifier {
    pub open spec fn wf(&self) -> bool {
        self.hash@.len() == 28
    }

    /// The account of `principal` under `sub`, or under the zero subaccount.
    pub fn new(principal: &[u8], sub: Option<&Subaccount>) -> (r: AccountIdentifier)
        requires
            sub matches Some(s) ==> s.wf(),
        ensures
            r.wf(),
            r.hash@ == account_hash(
                principal@,
                match sub {
                    Some(s) => Some(s.bytes@),
                    None => None,
                },
            ),
    {
        let mut data: Vec<u8> = vec![10u8, 97u8, 99u8, 99u8, 111u8, 117u8, 110u8, 116u8, 45u8, 105u8, 100u8];
        data.extend_from_slice(principal);
        match sub {
            Some(s) => data.extend_from_slice(s.bytes.as_slice()),
            None => {
                let zero: Vec<u8> = vec![0u8; 32];
                data.extend_from_slice(zero.as_slice());
            },
        }
        proof {
            let s = match sub {
                Some(s) => Some(s.bytes@),
                None => None,
            };
            assert(data@ =~= account_domain() + principal@ + subaccount_or_zero(s));
        }
        AccountIdentifier { hash: sha224(data.as_slice()) }
    }

    /// The four checksum bytes that lead the account's text.
    pub fn checksum(&self) -> (r: Vec<u8>)
        ensures
            r@ == account_checksum(self.hash@),
    {
        be32_bytes(crc32(self.hash.as_slice()))
    }

    /// The account's text: checksum and hash in lower-case hexadecimal.
    pub fn to_hex(&self) -> (r: String)
        ensures
            r@ == account_text(self.hash@),
    {
        let mut b = self.checksum();
        b.extend_from_slice(self.hash.as_slice());
        to_hex_string(b.as_slice())
    }

    /// Reads an account text, checking its length and checksum.
    pub fn from_hex(text: &str) -> (r: Result<AccountIdentifier, AccountIdError>)
        ensures
            match parse_account(text.spec_bytes()) {
                Ok(h) => r is Ok && r->Ok_0.hash@ == h && r->Ok_0.wf(),
                Err(e) => r matches Err(e2) && e2 == e,
            },
    {
        let b = match decode_hex(text.as_bytes()) {
            Some(b) => b,
            None => return Err(AccountIdError::InvalidHex),
        };
        if b.len() != 32 {
            return Err(AccountIdError::InvalidLength);
        }
        let mut hash: Vec<u8> = Vec::new();
        let mut i: usize = 4;
        while i < 32
            invariant
                4 <= i <= 32,
                b@.len() == 32,
                hash@ =~= b@.subrange(4, i as int),
            decreases 32 - i,
        {
            hash.push(b[i]);
            i = i + 1;
        }
        assert(hash@ =~= b@.subrange(4, 32));
        let expected = be32_bytes(crc32(hash.as_slice()));
        let mut k: usize = 0;
        while k < 4
            invariant
                k <= 4,
                b@.len() == 32,
                expected@ == account_checksum(hash@),
                hash@ == b@.subrange(4, 32),
                b@ == hex_bytes(text.spec_bytes()),
                is_hex_text(text.spec_bytes()),
                forall|m: int| 0 <= m < k ==> b@[m] == expected@[m],
            decreases 4 - k,
        {
            if b[k] != expected[k] {
                assert(b@.subrange(0, 4)[k as int] != expected@[k as int]);
                assert(b@.subrange(0, 4) != account_checksum(b@.subrange(4, 32)));
                return Err(AccountIdError::ChecksumMismatch);
            }
            k = k + 1;
        }
        assert(b@.subrange(0, 4) =~= expected@);
        Ok(AccountIdentifier { hash })
    }
}

proof fn lemma_nibble(v: u8)
    requires
        v < 16,
    ensures
        '\0' <= nibble_char(v) <= '\u{7f}',
        hex_value(nibble_char(v) as u8) == Some(v),
{
}

proof fn lemma_hex_round_trip(b: Seq<u8>)
    ensures
        is_hex_text(vstd::utf8::encode_utf8(hex_chars(b))),
        hex_bytes(vstd::utf8::encode_utf8(hex_chars(b))) == b,
{
    let s = hex_chars(b);
    assert forall|i: int| 0 <= i < s.len() implies '\0' <= #[trigger] s[i] <= '\u{7f}' by {
        lemma_nibble(b[i / 2] / 16);
        lemma_nibble(b[i / 2] % 16);
    }
    assert(vstd::utf8::is_ascii_chars(s));
    vstd::utf8::is_ascii_chars_encode_utf8(s);
    let t = vstd::utf8::encode_utf8(s);
    assert forall|i: int| 0 <= i < t.len() implies #[trigger] hex_value(t[i]) is Some by {
        assert(t[i] == s[i] as u8);
        lemma_nibble(b[i / 2] / 16);
        lemma_nibble(b[i / 2] % 16);
    }
    assert forall|j: int| 0 <= j < b.len() implies #[trigger] hex_bytes(t)[j] == b[j] by {
        assert(t[2 * j] == s[2 * j] as u8);
        assert(t[2 * j + 1] == s[2 * j + 1] as u8);
        assert((2 * j) / 2 == j && (2 * j) % 2 == 0);
        assert((2 * j + 1) / 2 == j && (2 * j + 1) % 2 == 1);
        lemma_nibble(b[j] / 16);
        lemma_nibble(b[j] % 16);
        assert(16 * (b[j] / 16) + b[j] % 16 == b[j]);
    }
    assert(hex_bytes(t) =~= b);
}

/// Reading back the text of any account identifier gives that identifier:
/// `from_hex(to_hex(a))` is `a` for every account, derived ones included.
pub proof fn lemma_account_text_round_trip(id: AccountIdentifier)
    requires
        id.wf(),
    ensures
        parse_account(vstd::utf8::encode_utf8(account_text(id.hash@))) == Ok::<Seq<u8>, AccountIdError>(id.hash@),
{
    let h = id.hash@;
    let b = account_checksum(h) + h;
    lemma_hex_round_trip(b);
    let t = vstd::utf8::encode_utf8(account_text(h));
    assert(hex_bytes(t).subrange(0, 4) =~= account_checksum(h));
    assert(hex_bytes(t).subrange(4, 32) =~= h);
}


/// Changing one digit of an account's text to a digit of another value gives
/// a text of the same shape that stands for other bytes; unless the checksum
/// happens to match those bytes too, reading it fails with `ChecksumMismatch`.
pub proof fn lemma_changed_digit_detected(id: AccountIdentifier, i: int, c: u8)
    requires
        id.wf(),
        0 <= i < 64,
        hex_value(c) is Some,
        hex_value(c) != hex_value(vstd::utf8::encode_utf8(account_text(id.hash@))[i]),
        ({
            let b2 = hex_bytes(vstd::utf8::encode_utf8(account_text(id.hash@)).update(i, c));
            b2.subrange(0, 4) != account_checksum(b2.subrange(4, 32))
        }),
    ensures
        ({
            let t = vstd::utf8::encode_utf8(account_text(id.hash@));
            &&& hex_bytes(t.update(i, c)) != hex_bytes(t)
            &&& parse_account(t.update(i, c)) == Err::<Seq<u8>, AccountIdError>(
                AccountIdError::ChecksumMismatch,
            )
        }),
{
    let h = id.hash@;
    lemma_hex_round_trip(account_checksum(h) + h);
    let t = vstd::utf8::encode_utf8(account_text(h));
    let t2 = t.update(i, c);
    assert(is_hex_text(t2)) by {
        assert forall|k: int| 0 <= k < t2.len() implies #[trigger] hex_value(t2[k]) is Some by {
            if k != i {
                assert(hex_value(t[k]) is Some);
            }
        }
    }
    let j = i / 2;
    let b = hex_bytes(t);
    let b2 = hex_bytes(t2);
    let hi = hex_value(t[2 * j]).unwrap();
    let lo = hex_value(t[2 * j + 1]).unwrap();
    let hi2 = hex_value(t2[2 * j]).unwrap();
    let lo2 = hex_value(t2[2 * j + 1]).unwrap();
    assert(hi < 16 && lo < 16 && hi2 < 16 && lo2 < 16);
    assert(hi != hi2 || lo != lo2);
    assert(b[j] == (16 * hi + lo) as u8);
    assert(b2[j] == (16 * hi2 + lo2) as u8);
    assert(b[j] != b2[j]);
}

} // verus!
