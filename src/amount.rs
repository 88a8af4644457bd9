//! Ledger token amounts and the text forms in which a user writes them.
use vstd::prelude::*;
use vstd::string::StringSliceAdditionalSpecFns;

verus! {

/// Number of e8s in one whole token.
pub const E8S_PER_TOKEN: u64 = 100_000_000;

/// The fee the ledger charges for a transfer when none is given.
pub const DEFAULT_FEE_E8S: u64 = 10_000;

pub open spec fn is_digit(b: u8) -> bool {
    48 <= b && b <= 57
}

pub open spec fn all_digits(s: Seq<u8>) -> bool {
    forall|i: int| 0 <= i < s.len() ==> #[trigger] is_digit(s[i])
}

/// The value of a string of decimal digits, read from the left.
pub open spec fn digits_value(s: Seq<u8>) -> nat
    decreases s.len(),
{
    if s.len() == 0 {
        0
    } else {
        digits_value(s.drop_last()) * 10 + (s.last() - 48) as nat
    }
}

/// The digits of an unsigned integer text, after an optional leading `+`.
pub open spec fn unsigned_digits(s: Seq<u8>) -> Seq<u8> {
    if s.len() > 0 && s[0] == 43u8 {
        s.subrange(1, s.len() as int)
    } else {
        s
    }
}

/// `s` is the text of a `u64`: an optional `+`, then one or more decimal
/// digits whose value fits in 64 bits.
pub open spec fn is_u64_text(s: Seq<u8>) -> bool {
    let d = unsigned_digits(s);
    d.len() > 0 && all_digits(d) && digits_value(d) <= u64::MAX
}

pub open spec fn u64_text_value(s: Seq<u8>) -> nat {
    digits_value(unsigned_digits(s))
}

proof fn lemma_digits_value_prefix(s: Seq<u8>, i: int)
    requires
        0 <= i < s.len(),
        is_digit(s[i]),
    ensures
        digits_value(s.subrange(0, i + 1)) == digits_value(s.subrange(0, i)) * 10 + (s[i] - 48) as nat,
{
    assert(s.subrange(0, i + 1).drop_last() =~= s.subrange(0, i));
}

proof fn lemma_digits_value_grows(s: Seq<u8>, i: int)
    requires
        0 <= i <= s.len(),
        all_digits(s),
    ensures
        digits_value(s.subrange(0, i)) <= digits_value(s),
    decreases s.len() - i,
{
    if i < s.len() {
        lemma_digits_value_prefix(s, i);
        lemma_digits_value_grows(s, i + 1);
    } else {
        assert(s.subrange(0, i) =~= s);
    }
}

/// Reads the decimal digits `b[start..end]` as a number, or `None` where a
/// byte is not a digit or the value does not fit in 64 bits.
fn digits_to_u64(b: &[u8], start: usize, end: usize) -> (r: Option<u64>)
    requires
        start <= end <= b@.len(),
    ensures
        ({
            let d = b@.subrange(start as int, end as int);
            match r {
                Some(v) => all_digits(d) && digits_value(d) <= u64::MAX && v as nat == digits_value(d),
                None => !all_digits(d) || digits_value(d) > u64::MAX,
            }
        }),
{
    let ghost d = b@.subrange(start as int, end as int);
    let mut acc: u64 = 0;
    let mut i: usize = start;
    while i < end
        invariant
            start <= i <= end <= b@.len(),
            d == b@.subrange(start as int, end as int),
            all_digits(d.subrange(0, i - start)),
            acc as nat == digits_value(d.subrange(0, i - start)),
        decreases end - i,
    {
        let c = b[i];
        if c < 48 || c > 57 {
            assert(!is_digit(d[i - start]));
            return None;
        }
        proof {
            lemma_digits_value_prefix(d, i - start);
            assert(d.subrange(0, i - start + 1) =~= d.subrange(0, i - start).push(c));
        }
        let digit: u64 = (c - 48) as u64;
        if acc > (u64::MAX - digit) / 10 {
            proof {
                assert(acc * 10 + digit > u64::MAX) by (nonlinear_arith)
                    requires acc > (u64::MAX - digit) / 10, digit <= 9;
                if all_digits(d) {
                    lemma_digits_value_grows(d, i - start + 1);
                }
            }
            return None;
        }
        acc = acc * 10 + digit;
        i = i + 1;
    }
    assert(d.subrange(0, i - start) =~= d);
    Some(acc)
}

/// Reads the text of a `u64` as `str::parse::<u64>` does.
pub fn parse_u64(s: &str) -> (r: Option<u64>)
    ensures
        r.is_some() <==> is_u64_text(s.spec_bytes()),
        r.is_some() ==> r.unwrap() as nat == u64_text_value(s.spec_bytes()),
{
    let b = s.as_bytes();
    let n = b.len();
    let start: usize = if n > 0 && b[0] == 43u8 { 1 } else { 0 };
    assert(unsigned_digits(b@) =~= b@.subrange(start as int, n as int));
    if start == n {
        return None;
    }
    digits_to_u64(b, start, n)
}


pub open spec fn pow10(n: nat) -> nat
    decreases n,
{
    if n == 0 {
        1
    } else {
        10 * pow10((n - 1) as nat)
    }
}

proof fn lemma_digits_value_bound(s: Seq<u8>)
    requires
        all_digits(s),
    ensures
        digits_value(s) < pow10(s.len()),
    decreases s.len(),
{
    if s.len() > 0 {
        let t = s.drop_last();
        assert(all_digits(t)) by {
            assert forall|i: int| 0 <= i < t.len() implies is_digit(t[i]) by {
                assert(t[i] == s[i]);
            }
        }
        lemma_digits_value_bound(t);
        assert(is_digit(s[s.len() - 1]));
    }
}

/// `s` splits at `k` into a whole part and a fractional part of one to eight
/// digits: `<digits>.<digits>`.
pub open spec fn is_decimal_split(s: Seq<u8>, k: int) -> bool {
    &&& 0 < k
    &&& k + 1 < s.len()
    &&& s.len() - (k + 1) <= 8
    &&& s[k] == 46u8
    &&& all_digits(s.subrange(0, k))
    &&& all_digits(s.subrange(k + 1, s.len() as int))
}

/// The number of e8s that a decimal amount text denotes: `<digits>` whole
/// tokens, or `<digits>.<digits>` with one to eight fractional digits.
pub open spec fn amount_text_e8s(s: Seq<u8>) -> Option<nat> {
    if s.len() > 0 && all_digits(s) {
        Some(digits_value(s) * 100_000_000)
    } else if exists|k: int| is_decimal_split(s, k) {
        let k = choose|k: int| is_decimal_split(s, k);
        let frac = s.subrange(k + 1, s.len() as int);
        Some(digits_value(s.subrange(0, k)) * 100_000_000 + digits_value(frac) * pow10(
            (8 - frac.len()) as nat,
        ))
    } else {
        None
    }
}

/// A decimal amount text that denotes a number of e8s that fits in a `u64`.
pub open spec fn is_amount_text(s: Seq<u8>) -> bool {
    amount_text_e8s(s) is Some && amount_text_e8s(s).unwrap() <= u64::MAX
}

proof fn lemma_split_unique(s: Seq<u8>, k: int)
    requires
        0 <= k < s.len(),
        all_digits(s.subrange(0, k)),
        !is_digit(s[k]),
    ensures
        forall|j: int| is_decimal_split(s, j) ==> j == k,
        !all_digits(s),
{
    assert forall|j: int| is_decimal_split(s, j) implies j == k by {
        if j < k {
            assert(s.subrange(0, k)[j] == s[j]);
            assert(is_digit(s.subrange(0, k)[j]));
        } else if j > k {
            assert(s.subrange(0, j)[k] == s[k]);
            assert(is_digit(s.subrange(0, j)[k]));
        }
    }
}

/// An amount of ledger tokens, counted in e8s.
#[derive(Clone, Copy, Debug, PartialEq, Eq, Structural)]
pub struct Tokens {
    pub e8s: u64,
}

impl Tokens {
    pub fn from_e8s(e8s: u64) -> (r: Tokens)
        ensures
            r.e8s == e8s,
    {
        Tokens { e8s }
    }

    /// A whole number of tokens; `None` where it does not fit in 64 bits of e8s.
    pub fn from_tokens(whole: u64) -> (r: Option<Tokens>)
        ensures
            r is Some <==> whole * 100_000_000 <= u64::MAX,
            r is Some ==> r.unwrap().e8s == whole * 100_000_000,
    {
        match whole.checked_mul(E8S_PER_TOKEN) {
            Some(e8s) => Some(Tokens { e8s }),
            None => None,
        }
    }

    /// The sum of two amounts; `None` where it does not fit.
    pub fn checked_add(self, other: Tokens) -> (r: Option<Tokens>)
        ensures
            r is Some <==> self.e8s + other.e8s <= u64::MAX,
            r is Some ==> r.unwrap().e8s == self.e8s + other.e8s,
    {
        match self.e8s.checked_add(other.e8s) {
            Some(e8s) => Some(Tokens { e8s }),
            None => None,
        }
    }

    /// Reads a decimal amount such as `12` or `100.012`.
    pub fn parse(s: &str) -> (r: Option<Tokens>)
        ensures
            r is Some <==> is_amount_text(s.spec_bytes()),
            r is Some ==> r.unwrap().e8s == amount_text_e8s(s.spec_bytes()).unwrap(),
    {
        let b = s.as_bytes();
        let n = b.len();
        let mut k: usize = 0;
        while k < n && b[k] >= 48 && b[k] <= 57
            invariant
                k <= n == b@.len(),
                all_digits(b@.subrange(0, k as int)),
            decreases n - k,
        {
            assert(b@.subrange(0, k + 1) =~= b@.subrange(0, k as int).push(b@[k as int]));
            k = k + 1;
        }
        if k == n {
            assert(b@.subrange(0, n as int) =~= b@);
            if n == 0 {
                return None;
            }
            match digits_to_u64(b, 0, n) {
                Some(whole) => Tokens::from_tokens(whole),
                None => None,
            }
        } else {
            proof {
                lemma_split_unique(b@, k as int);
            }
            if k == 0 || b[k] != 46u8 || n - (k + 1) > 8 || k + 1 == n {
                return None;
            }
            let flen: usize = n - (k + 1);
            let frac = match digits_to_u64(b, k + 1, n) {
                Some(f) => f,
                None => {
                    proof {
                        let fs = b@.subrange(k + 1, n as int);
                        if all_digits(fs) {
                            lemma_digits_value_bound(fs);
                            lemma_pow10_8();
                            lemma_pow10_mono(fs.len(), 8);
                        }
                    }
                    return None;
                },
            };
            assert(is_decimal_split(b@, k as int));
            proof {
                let fs = b@.subrange(k + 1, n as int);
                lemma_digits_value_bound(fs);
                lemma_pow10_8();
                lemma_pow10_split(fs.len(), (8 - fs.len()) as nat);
                lemma_pow10_mono((8 - fs.len()) as nat, 8);
                let p = pow10(fs.len());
                let q = pow10((8 - fs.len()) as nat);
                assert(frac * q < 100_000_000) by (nonlinear_arith)
                    requires frac < p, p * q == 100_000_000, q >= 1;
            }
            let mut scale: u64 = 1;
            let mut j: usize = flen;
            while j < 8
                invariant
                    flen <= j <= 8,
                    scale as nat == pow10((j - flen) as nat),
                    frac * pow10((8 - flen) as nat) < 100_000_000,
                    pow10((j - flen) as nat) <= pow10((8 - flen) as nat),
                    pow10((8 - flen) as nat) <= 100_000_000,
                decreases 8 - j,
            {
                proof {
                    lemma_pow10_mono((j + 1 - flen) as nat, (8 - flen) as nat);
                    assert(pow10((j + 1 - flen) as nat) == 10 * pow10((j - flen) as nat));
                }
                scale = scale * 10;
                j = j + 1;
            }
            let frac_e8s: u64 = frac * scale;
            match digits_to_u64(b, 0, k) {
                Some(whole) => match Tokens::from_tokens(whole) {
                    Some(w) => w.checked_add(Tokens { e8s: frac_e8s }),
                    None => None,
                },
                None => None,
            }
        }
    }
}

proof fn lemma_pow10_8()
    ensures
        pow10(8) == 100_000_000,
{
    reveal_with_fuel(pow10, 9);
}

proof fn lemma_pow10_split(a: nat, b: nat)
    ensures
        pow10(a + b) == pow10(a) * pow10(b),
    decreases a,
{
    if a > 0 {
        lemma_pow10_split((a - 1) as nat, b);
        assert(pow10(a) == 10 * pow10((a - 1) as nat));
        assert(pow10(a + b) == 10 * pow10((a - 1 + b) as nat));
        assert(10 * (pow10((a - 1) as nat) * pow10(b)) == (10 * pow10((a - 1) as nat)) * pow10(b))
            by (nonlinear_arith);
    } else {
        assert(pow10(a) == 1);
        assert(a + b == b);
    }
}

proof fn lemma_pow10_mono(a: nat, b: nat)
    requires
        a <= b,
    ensures
        1 <= pow10(a) <= pow10(b),
    decreases b,
{
    if b > a {
        lemma_pow10_mono(a, (b - 1) as nat);
    } else if a > 0 {
        lemma_pow10_mono((a - 1) as nat, (a - 1) as nat);
    }
}


/// Why the amount of a transfer could not be settled.
#[derive(Clone, Copy, Debug, PartialEq, Eq, Structural)]
pub enum AmountError {
    /// A decimal amount was given together with a whole-token or e8s part.
    AmbiguousAmount,
    /// The decimal amount is not `<digits>` or `<digits>.<digits>` with up
    /// to eight fractional digits, or does not fit.
    InvalidAmount,
    /// A whole-token, e8s or memo part is not a non-negative whole number.
    InvalidWholeNumber,
    /// The whole-token and e8s parts together do not fit.
    AmountOverflow,
}

pub open spec fn bytes_of(s: String) -> Seq<u8> {
    vstd::utf8::encode_utf8(s@)
}

/// The e8s that the whole-token and e8s parts of a transfer add up to.
pub open spec fn parts_e8s(icp: Option<String>, e8s: Option<String>) -> Result<nat, AmountError> {
    let whole = match icp {
        Some(t) => u64_text_value(bytes_of(t)),
        None => 0,
    };
    let part = match e8s {
        Some(t) => u64_text_value(bytes_of(t)),
        None => 0,
    };
    if icp is Some && !is_u64_text(bytes_of(icp.unwrap())) {
        Err(AmountError::InvalidWholeNumber)
    } else if e8s is Some && !is_u64_text(bytes_of(e8s.unwrap())) {
        Err(AmountError::InvalidWholeNumber)
    } else if whole * 100_000_000 > u64::MAX || whole * 100_000_000 + part > u64::MAX {
        Err(AmountError::AmountOverflow)
    } else {
        Ok(whole * 100_000_000 + part)
    }
}

/// The e8s that a transfer's amount options denote: a decimal amount alone,
/// or the sum of an optional whole-token part and an optional e8s part.
pub open spec fn amount_from_args(
    amount: Option<String>,
    icp: Option<String>,
    e8s: Option<String>,
) -> Result<nat, AmountError> {
    match amount {
        Some(a) => if icp is Some || e8s is Some {
            Err(AmountError::AmbiguousAmount)
        } else if is_amount_text(bytes_of(a)) {
            Ok(amount_text_e8s(bytes_of(a)).unwrap())
        } else {
            Err(AmountError::InvalidAmount)
        },
        None => parts_e8s(icp, e8s),
    }
}

fn parse_whole(t: &Option<String>) -> (r: Result<u64, AmountError>)
    ensures
        match t {
            Some(s) => match r {
                Ok(v) => is_u64_text(bytes_of(*s)) && v as nat == u64_text_value(bytes_of(*s)),
                Err(e) => !is_u64_text(bytes_of(*s)) && e == AmountError::InvalidWholeNumber,
            },
            None => r == Ok::<u64, AmountError>(0),
        },
{
    match t {
        Some(s) => match parse_u64(s.as_str()) {
            Some(v) => Ok(v),
            None => Err(AmountError::InvalidWholeNumber),
        },
        None => Ok(0),
    }
}

/// Settles the amount of a transfer from its three options.
pub fn get_icpts_from_args(amount: Option<String>, icp: Option<String>, e8s: Option<String>) -> (r:
    Result<Tokens, AmountError>)
    ensures
        match amount_from_args(amount, icp, e8s) {
            Ok(v) => r is Ok && r->Ok_0.e8s == v,
            Err(e) => r == Err::<Tokens, AmountError>(e),
        },
{
    match amount {
        Some(a) => {
            if icp.is_some() || e8s.is_some() {
                return Err(AmountError::AmbiguousAmount);
            }
            match Tokens::parse(a.as_str()) {
                Some(t) => Ok(t),
                None => Err(AmountError::InvalidAmount),
            }
        },
        None => {
            let whole = parse_whole(&icp)?;
            let part = parse_whole(&e8s)?;
            let w = match Tokens::from_tokens(whole) {
                Some(w) => w,
                None => return Err(AmountError::AmountOverflow),
            };
            match w.checked_add(Tokens::from_e8s(part)) {
                Some(t) => Ok(t),
                None => Err(AmountError::AmountOverflow),
            }
        },
    }
}

/// Accepts the text of a non-negative whole number of e8s.
pub fn e8s_validator(e8s: &str) -> (r: Result<(), String>)
    ensures
        r is Ok <==> is_u64_text(e8s.spec_bytes()),
        r is Err ==> r->Err_0@ == "Must specify a non negative whole number."@,
{
    if parse_u64(e8s).is_some() {
        return Ok(());
    }
    Err("Must specify a non negative whole number.".to_owned())
}

/// Accepts a decimal amount of tokens.
pub fn icpts_amount_validator(icpts: &str) -> (r: Result<(), String>)
    ensures
        r is Ok <==> is_amount_text(icpts.spec_bytes()),
        r is Err ==> r->Err_0@ == "Must specify a decimal amount with at most 8 fractional digits."@,
{
    match Tokens::parse(icpts) {
        Some(_) => Ok(()),
        None => Err("Must specify a decimal amount with at most 8 fractional digits.".to_owned()),
    }
}

/// Accepts the text of a memo: a non-negative whole number.
pub fn memo_validator(memo: &str) -> (r: Result<(), String>)
    ensures
        r is Ok <==> is_u64_text(memo.spec_bytes()),
        r is Err ==> r->Err_0@ == "Must specify a non negative whole number."@,
{
    if parse_u64(memo).is_some() {
        return Ok(());
    }
    Err("Must specify a non negative whole number.".to_owned())
}

/// The memo of a transfer: the given whole number, or 0.
pub fn memo_or_default(memo: &Option<String>) -> (r: Result<u64, AmountError>)
    ensures
        match memo {
            Some(s) => match r {
                Ok(v) => is_u64_text(bytes_of(*s)) && v as nat == u64_text_value(bytes_of(*s)),
                Err(e) => !is_u64_text(bytes_of(*s)) && e == AmountError::InvalidWholeNumber,
            },
            None => r == Ok::<u64, AmountError>(0),
        },
{
    parse_whole(memo)
}

/// The fee of a transfer: the given decimal amount, or the ledger's default fee.
pub fn fee_or_default(fee: &Option<String>) -> (r: Result<Tokens, AmountError>)
    ensures
        match fee {
            Some(s) => match r {
                Ok(t) => is_amount_text(bytes_of(*s)) && t.e8s == amount_text_e8s(bytes_of(*s)).unwrap(),
                Err(e) => !is_amount_text(bytes_of(*s)) && e == AmountError::InvalidAmount,
            },
            None => r == Ok::<Tokens, AmountError>(Tokens { e8s: DEFAULT_FEE_E8S }),
        },
{
    match fee {
        Some(s) => match Tokens::parse(s.as_str()) {
            Some(t) => Ok(t),
            None => Err(AmountError::InvalidAmount),
        },
        None => Ok(Tokens::from_e8s(DEFAULT_FEE_E8S)),
    }
}

/// A decimal amount given together with a whole-token or an e8s part is
/// refused as ambiguous, whatever the texts are.
pub proof fn lemma_amount_with_parts_is_ambiguous(amount: String, icp: Option<String>, e8s: Option<String>)
    requires
        icp is Some || e8s is Some,
    ensures
        amount_from_args(Some(amount), icp, e8s) == Err::<nat, AmountError>(AmountError::AmbiguousAmount),
{
}

/// Splitting an amount into whole tokens and e8s gives the same amount as
/// its decimal text with all eight fractional digits written out.
pub proof fn lemma_parts_match_decimal(whole: Seq<u8>, frac: Seq<u8>)
    requires
        whole.len() > 0,
        all_digits(whole),
        frac.len() == 8,
        all_digits(frac),
    ensures
        amount_text_e8s(whole + seq![46u8] + frac) == Some(
            digits_value(whole) * 100_000_000 + digits_value(frac),
        ),
{
    let s = whole + seq![46u8] + frac;
    let k = whole.len() as int;
    assert(s.subrange(0, k) =~= whole);
    assert(s.subrange(k + 1, s.len() as int) =~= frac);
    assert(is_decimal_split(s, k));
    assert(!is_digit(s[k]));
    assert(!all_digits(s));
    lemma_split_unique(s, k);
    let c = choose|j: int| is_decimal_split(s, j);
    assert(c == k);
    assert(pow10(0) == 1);
    assert(digits_value(frac) * pow10(0) == digits_value(frac));
}

} // verus!
