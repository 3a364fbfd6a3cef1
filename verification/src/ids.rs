//! Typed identifiers for songs and albums: small numeric ids parsed from
//! and rendered to decimal strings, zero-padded where the remote catalog's
//! textual form asks for it.
use vstd::prelude::*;
use vstd::string::*;
use vstd::arithmetic::div_mod::lemma_fundamental_div_mod;
use crate::errors::DomainError;

verus! {

/// A decimal digit character.
pub open spec fn is_decimal_digit(c: char) -> bool {
    '0' as int <= c as int && c as int <= '9' as int
}

/// Numeric value of a decimal digit character.
pub open spec fn digit_value(c: char) -> nat {
    (c as int - '0' as int) as nat
}

/// A non-empty string of decimal digits.
pub open spec fn str_is_numeric(s: Seq<char>) -> bool {
    s.len() > 0 && forall|i: int| 0 <= i < s.len() ==> is_decimal_digit(#[trigger] s[i])
}

/// The number denoted by a string of decimal digits, most significant first.
pub open spec fn digits_to_nat(s: Seq<char>) -> nat
    decreases s.len(),
{
    if s.len() == 0 {
        0
    } else {
        digits_to_nat(s.drop_last()) * 10 + digit_value(s.last())
    }
}

/// A string that denotes a valid identifier: all digits, value within the
/// numeric id space.
pub open spec fn valid_id_chars(s: Seq<char>) -> bool {
    str_is_numeric(s) && digits_to_nat(s) <= u32::MAX
}

/// The decimal digit character for a value below ten.
pub open spec fn digit_char(d: int) -> char {
    if d == 0 {
        '0'
    } else if d == 1 {
        '1'
    } else if d == 2 {
        '2'
    } else if d == 3 {
        '3'
    } else if d == 4 {
        '4'
    } else if d == 5 {
        '5'
    } else if d == 6 {
        '6'
    } else if d == 7 {
        '7'
    } else if d == 8 {
        '8'
    } else {
        '9'
    }
}

/// The decimal rendering of a number, most significant digit first, no
/// leading zeros (a single zero for zero itself).
pub open spec fn u32_to_digits(n: nat) -> Seq<char>
    decreases n,
{
    if n < 10 {
        seq![digit_char(n as int)]
    } else {
        u32_to_digits(n / 10).push(digit_char((n % 10) as int))
    }
}

/// A string left-padded with zero characters up to `width`; one that is
/// already long enough is unchanged.
pub open spec fn zero_pad(s: Seq<char>, width: nat) -> Seq<char> {
    if s.len() >= width {
        s
    } else {
        Seq::new((width - s.len()) as nat, |i: int| '0') + s
    }
}

/// The decimal rendering of a number is numeric and denotes the number
/// itself: rendering and parsing round-trip.
pub proof fn lemma_digits_round_trip(n: nat)
    ensures
        str_is_numeric(u32_to_digits(n)),
        digits_to_nat(u32_to_digits(n)) == n,
    decreases n,
{
    if n < 10 {
        let s = u32_to_digits(n);
        assert(s.drop_last() =~= Seq::<char>::empty());
        assert(digits_to_nat(Seq::<char>::empty()) == 0);
        assert(digits_to_nat(s) == digit_value(digit_char(n as int)));
    } else {
        lemma_digits_round_trip(n / 10);
        let prefix = u32_to_digits(n / 10);
        let s = u32_to_digits(n);
        assert(s.drop_last() =~= prefix);
        lemma_fundamental_div_mod(n as int, 10);
        assert(digits_to_nat(s) == (n / 10) * 10 + n % 10);
    }
}

/// Extending a digit string to the right never decreases the number it
/// denotes: the value of `s.take(i)` is at most the value of `s.take(j)`
/// when positions `i..j` hold digits.
pub proof fn lemma_digits_prefix_le(s: Seq<char>, i: int, j: int)
    requires
        0 <= i <= j <= s.len(),
        forall|k: int| i <= k < j ==> is_decimal_digit(#[trigger] s[k]),
    ensures
        digits_to_nat(s.take(i)) <= digits_to_nat(s.take(j)),
    decreases j - i,
{
    if i < j {
        lemma_digits_prefix_le(s, i, j - 1);
        assert(s.take(j).drop_last() =~= s.take(j - 1));
        assert(digits_to_nat(s.take(j)) == digits_to_nat(s.take(j - 1)) * 10 + digit_value(
            s.take(j).last(),
        ));
    }
}

/// Parse a non-empty all-digits string into a number; reject anything else,
/// including values that do not fit the id space.
fn parse_u32(s: &str) -> (r: Option<u32>)
    ensures
        match r {
            Some(v) => valid_id_chars(s@) && v as nat == digits_to_nat(s@),
            None => !valid_id_chars(s@),
        },
{
    let n = s.unicode_len();
    if n == 0 {
        return None;
    }
    let mut acc: u32 = 0;
    let mut i: usize = 0;
    while i < n
        invariant
            n == s@.len(),
            0 < n,
            0 <= i <= n,
            forall|k: int| 0 <= k < i ==> is_decimal_digit(#[trigger] s@[k]),
            acc as nat == digits_to_nat(s@.take(i as int)),
        decreases n - i,
    {
        let c = s.get_char(i);
        let cv = c as u32;
        if cv < '0' as u32 || cv > '9' as u32 {
            assert(!is_decimal_digit(s@[i as int]));
            return None;
        }
        let d = cv - '0' as u32;
        proof {
            assert(s@.take(i + 1).drop_last() =~= s@.take(i as int));
            assert(s@.take(i + 1).last() == c);
            assert(digit_value(c) == d);
        }
        let ghost next_val = digits_to_nat(s@.take(i + 1));
        assert(next_val == acc as nat * 10 + d);
        let m = match acc.checked_mul(10) {
            Some(m) => m,
            None => {
                proof {
                    if str_is_numeric(s@) {
                        lemma_digits_prefix_le(s@, i + 1, n as int);
                        assert(s@.take(n as int) =~= s@);
                    }
                }
                return None;
            },
        };
        let acc2 = match m.checked_add(d) {
            Some(a) => a,
            None => {
                proof {
                    if str_is_numeric(s@) {
                        lemma_digits_prefix_le(s@, i + 1, n as int);
                        assert(s@.take(n as int) =~= s@);
                    }
                }
                return None;
            },
        };
        acc = acc2;
        i = i + 1;
    }
    proof {
        assert(s@.take(n as int) =~= s@);
    }
    Some(acc)
}

/// The one-character string for a decimal digit.
fn digit_str(d: u32) -> (r: &'static str)
    requires
        d < 10,
    ensures
        r@ =~= seq![digit_char(d as int)],
{
    proof {
        reveal_strlit("0");
        reveal_strlit("1");
        reveal_strlit("2");
        reveal_strlit("3");
        reveal_strlit("4");
        reveal_strlit("5");
        reveal_strlit("6");
        reveal_strlit("7");
        reveal_strlit("8");
        reveal_strlit("9");
    }
    if d == 0 {
        "0"
    } else if d == 1 {
        "1"
    } else if d == 2 {
        "2"
    } else if d == 3 {
        "3"
    } else if d == 4 {
        "4"
    } else if d == 5 {
        "5"
    } else if d == 6 {
        "6"
    } else if d == 7 {
        "7"
    } else if d == 8 {
        "8"
    } else {
        "9"
    }
}

/// Render a number in decimal, most significant digit first.
pub fn u32_to_decimal(n: u32) -> (s: String)
    ensures
        s@ == u32_to_digits(n as nat),
    decreases n,
{
    if n < 10 {
        let s = String::from_str(digit_str(n));
        proof {
            assert(s@ =~= u32_to_digits(n as nat));
        }
        s
    } else {
        let mut s = u32_to_decimal(n / 10);
        s.append(digit_str(n % 10));
        proof {
            assert(s@ =~= u32_to_digits(n as nat));
        }
        s
    }
}

/// Render a number in decimal, left-padded with zeros to the given width,
/// as the remote catalog's textual id form asks.
pub fn zero_padded_decimal(n: u32, width: usize) -> (s: String)
    ensures
        s@ == zero_pad(u32_to_digits(n as nat), width as nat),
{
    let digits = u32_to_decimal(n);
    let len = digits.as_str().unicode_len();
    if len >= width {
        return digits;
    }
    let pad = width - len;
    let mut out = String::new();
    let mut k: usize = 0;
    while k < pad
        invariant
            out@.len() == k,
            0 <= k <= pad,
            forall|j: int| 0 <= j < k ==> out@[j] == '0',
        decreases pad - k,
    {
        proof {
            reveal_strlit("0");
        }
        out.append("0");
        k = k + 1;
    }
    out.append(digits.as_str());
    proof {
        assert(out@ =~= zero_pad(u32_to_digits(n as nat), width as nat));
    }
    out
}

/// Identifier of a song in the catalog.
#[derive(Clone, Copy, Debug, PartialEq, Eq, Hash, PartialOrd, Ord)]
pub struct SongId(pub u32);

impl SongId {
    pub fn new(id: u32) -> (r: Self)
        ensures
            r == SongId(id),
    {
        SongId(id)
    }

    /// Parse a decimal string into a song id; fails with the id-parse
    /// domain error, carrying the offending string, on non-numeric or
    /// out-of-range input.
    pub fn try_new(s: String) -> (r: Result<Self, DomainError>)
        ensures
            valid_id_chars(s@) ==> r == Ok::<SongId, DomainError>(
                SongId(digits_to_nat(s@) as u32),
            ),
            !valid_id_chars(s@) ==> r == Err::<SongId, DomainError>(
                DomainError::FailedToParseSongId { s },
            ),
    {
        match parse_u32(s.as_str()) {
            Some(v) => Ok(SongId(v)),
            None => Err(DomainError::FailedToParseSongId { s }),
        }
    }

    /// The decimal rendering of this id, without padding.
    pub fn to_string(&self) -> (r: String)
        ensures
            r@ == u32_to_digits(self.0 as nat),
    {
        u32_to_decimal(self.0)
    }
}

impl Default for SongId {
    fn default() -> (r: Self)
        ensures
            r == SongId(0u32),
    {
        SongId(0)
    }
}

impl From<u32> for SongId {
    fn from(id: u32) -> (r: Self) {
        SongId(id)
    }
}

impl vstd::std_specs::convert::FromSpecImpl<u32> for SongId {
    open spec fn obeys_from_spec() -> bool {
        true
    }

    open spec fn from_spec(id: u32) -> Self {
        SongId(id)
    }
}

/// Identifier of an album in the catalog.
#[derive(Clone, Copy, Debug, PartialEq, Eq, Hash, PartialOrd, Ord)]
pub struct AlbumId(pub u32);

impl AlbumId {
    pub fn new(id: u32) -> (r: Self)
        ensures
            r == AlbumId(id),
    {
        AlbumId(id)
    }

    /// Parse a decimal string into an album id; fails with the id-parse
    /// domain error, carrying the offending string, on non-numeric or
    /// out-of-range input.
    pub fn try_new(s: String) -> (r: Result<Self, DomainError>)
        ensures
            valid_id_chars(s@) ==> r == Ok::<AlbumId, DomainError>(
                AlbumId(digits_to_nat(s@) as u32),
            ),
            !valid_id_chars(s@) ==> r == Err::<AlbumId, DomainError>(
                DomainError::FailedToParseAlbumId { s },
            ),
    {
        match parse_u32(s.as_str()) {
            Some(v) => Ok(AlbumId(v)),
            None => Err(DomainError::FailedToParseAlbumId { s }),
        }
    }

    /// The decimal rendering of this id, without padding.
    pub fn to_string(&self) -> (r: String)
        ensures
            r@ == u32_to_digits(self.0 as nat),
    {
        u32_to_decimal(self.0)
    }
}

impl Default for AlbumId {
    fn default() -> (r: Self)
        ensures
            r == AlbumId(0u32),
    {
        AlbumId(0)
    }
}

impl From<u32> for AlbumId {
    fn from(id: u32) -> (r: Self) {
        AlbumId(id)
    }
}

impl vstd::std_specs::convert::FromSpecImpl<u32> for AlbumId {
    open spec fn obeys_from_spec() -> bool {
        true
    }

    open spec fn from_spec(id: u32) -> Self {
        AlbumId(id)
    }
}

/// Law: identifier rendering and parsing round-trip. The decimal string of
/// any id value is a valid identifier string and parses back to the same
/// number, so `try_new` applied to `to_string` returns the same id.
pub proof fn lemma_id_round_trip(n: u32)
    ensures
        valid_id_chars(u32_to_digits(n as nat)),
        digits_to_nat(u32_to_digits(n as nat)) == n as nat,
{
    lemma_digits_round_trip(n as nat);
}

} // verus!
