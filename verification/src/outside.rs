//! The calls this library makes into `uuid`, `chrono` and `std` text handling.
use vstd::prelude::*;

verus! {

/// The lower-case hexadecimal digit of `d` (0 to 15).
pub open spec fn hex_digit(d: int) -> char {
    if d < 10 {
        ((d + 48) as u8) as char
    } else {
        ((d + 87) as u8) as char
    }
}

/// 16 to the power `n`.
pub open spec fn pow16(n: nat) -> nat
    decreases n,
{
    if n == 0 {
        1
    } else {
        16 * pow16((n - 1) as nat)
    }
}

/// The `k`-th of the 32 hexadecimal digits of `id`, most significant first.
pub open spec fn nibble(id: u128, k: int) -> int {
    (id as int / pow16((31 - k) as nat) as int) % 16
}

/// The canonical hyphenated lower-case text of the UUID whose value is `id`:
/// its 32 hexadecimal digits, most significant first, in groups of 8, 4, 4,
/// 4 and 12 joined by hyphens.
pub open spec fn uuid_text(id: u128) -> Seq<char> {
    Seq::new(
        36,
        |i: int|
            if i == 8 || i == 13 || i == 18 || i == 23 {
                '-'
            } else {
                let k = if i < 8 {
                    i
                } else if i < 13 {
                    i - 1
                } else if i < 18 {
                    i - 2
                } else if i < 23 {
                    i - 3
                } else {
                    i - 4
                };
                hex_digit(nibble(id, k))
            },
    )
}

/// Unicode lower-casing of a text, as `str::to_lowercase` computes it.
pub uninterp spec fn lowercase(s: Seq<char>) -> Seq<char>;

/// Whether `c` has the Unicode White_Space property, which is what
/// `char::is_whitespace` tests: the 25 code points below.
pub open spec fn is_white_space(c: char) -> bool {
    let u = c as u32;
    ||| 0x9 <= u <= 0xD
    ||| u == 0x20
    ||| u == 0x85
    ||| u == 0xA0
    ||| u == 0x1680
    ||| 0x2000 <= u <= 0x200A
    ||| u == 0x2028
    ||| u == 0x2029
    ||| u == 0x202F
    ||| u == 0x205F
    ||| u == 0x3000
}

/// A text without its leading white space.
pub open spec fn trim_start_ws(s: Seq<char>) -> Seq<char>
    decreases s.len(),
{
    if s.len() > 0 && is_white_space(s[0]) {
        trim_start_ws(s.drop_first())
    } else {
        s
    }
}

/// A text without its trailing white space.
pub open spec fn trim_end_ws(s: Seq<char>) -> Seq<char>
    decreases s.len(),
{
    if s.len() > 0 && is_white_space(s.last()) {
        trim_end_ws(s.drop_last())
    } else {
        s
    }
}

/// A text without its leading and trailing white space, as `str::trim`
/// computes it.
pub open spec fn trimmed(s: Seq<char>) -> Seq<char> {
    trim_end_ws(trim_start_ws(s))
}

/// Calls `uuid::Uuid::now_v7` and returns the new identifier's value. The
/// value depends on the clock and on random bits, so nothing is stated of it.
#[verifier::external_body]
pub(crate) fn new_id() -> u128 {
    uuid::Uuid::now_v7().as_u128()
}

/// Calls `chrono::Utc::now` and returns it in UNIX milliseconds. The value
/// depends on the clock, so nothing is stated of it.
#[verifier::external_body]
pub(crate) fn now_millis() -> i64 {
    chrono::Utc::now().timestamp_millis()
}

/// Calls the `Display` of `uuid::Uuid::from_u128(id)`: the hyphenated
/// lower-case form that `uuid_text` spells out.
#[verifier::external_body]
pub(crate) fn id_text(id: u128) -> (s: String)
    ensures
        s@ == uuid_text(id),
{
    uuid::Uuid::from_u128(id).to_string()
}

/// The first instant chrono represents, 1 January of year -262143
/// (262144 BCE), in UNIX milliseconds.
pub open spec fn first_chrono_millis() -> int {
    -8_334_601_315_200_000
}

/// The last millisecond chrono represents, 31 December of year 262142.
pub open spec fn last_chrono_millis() -> int {
    8_210_266_876_799_999
}

/// What `chrono::DateTime::checked_add_signed` gives for `seconds` whole
/// seconds after the instant `now` (UNIX milliseconds): the sum, exactly when
/// both instants lie within chrono's range.
pub open spec fn instant_plus_seconds(now: i64, seconds: u32) -> Option<i64> {
    let t = now + 1000 * seconds;
    if first_chrono_millis() <= now <= last_chrono_millis() && first_chrono_millis() <= t <= last_chrono_millis() {
        Some(t as i64)
    } else {
        None
    }
}

/// Calls `chrono::DateTime::from_timestamp_millis` on `now` and then
/// `checked_add_signed` with `seconds` whole seconds; chrono represents the
/// years -262143 to 262142, and the result is `instant_plus_seconds`.
#[verifier::external_body]
pub(crate) fn checked_add_seconds(now: i64, seconds: u32) -> (r: Option<i64>)
    ensures
        r == instant_plus_seconds(now, seconds),
{
    chrono::DateTime::from_timestamp_millis(now)
        .and_then(|instant| instant.checked_add_signed(chrono::TimeDelta::seconds(seconds as i64)))
        .map(|instant| instant.timestamp_millis())
}

/// Calls `str::to_lowercase`; the result is named by `lowercase`.
#[verifier::external_body]
pub(crate) fn to_lowercase(s: &str) -> (r: String)
    ensures
        r@ == lowercase(s@),
{
    s.to_lowercase()
}

/// Calls `str::trim`; the result is named by `trimmed`.
#[verifier::external_body]
pub(crate) fn trim(s: &str) -> (r: &str)
    ensures
        r@ == trimmed(s@),
{
    s.trim()
}


/// How many bytes the UTF-8 encoding of a character takes.
pub open spec fn utf8_width(c: char) -> nat {
    if (c as u32) < 0x80 {
        1
    } else if (c as u32) < 0x800 {
        2
    } else if (c as u32) < 0x10000 {
        3
    } else {
        4
    }
}

/// How many bytes the UTF-8 encoding of a text takes.
pub open spec fn utf8_len(s: Seq<char>) -> nat
    decreases s.len(),
{
    if s.len() == 0 {
        0
    } else {
        utf8_len(s.drop_last()) + utf8_width(s.last())
    }
}

/// Calls `str::len`: the length of a text in bytes of UTF-8.
#[verifier::external_body]
pub(crate) fn byte_len(s: &str) -> (n: usize)
    ensures
        n == utf8_len(s@),
{
    s.len()
}

/// Whether `url::Url::parse` accepts a text as an absolute URL.
pub uninterp spec fn parses_as_url(s: Seq<char>) -> bool;

/// The text `url::Url` serializes a successfully parsed URL as.
pub uninterp spec fn canonical_url_of(raw: Seq<char>) -> Seq<char>;

/// Calls `url::Url::parse`; on success returns the parsed URL's serialization
/// (its `Display`), named by `canonical_url_of`, and on failure the parse
/// error's text, of which nothing is stated. A serialization parses again to
/// itself: `url` holds this as an invariant of every `Url` it builds (its
/// `check_invariants` reparses `as_str()` and requires the same serialization).
#[verifier::external_body]
pub(crate) fn parse_url(raw: &str) -> (r: Result<String, String>)
    ensures
        r is Ok <==> parses_as_url(raw@),
        r matches Ok(s) ==> s@ == canonical_url_of(raw@),
        r matches Ok(s) ==> parses_as_url(s@) && canonical_url_of(s@) == s@,
{
    url::Url::parse(raw).map(|url| url.to_string()).map_err(|error| error.to_string())
}

/// The domain `url::Url::domain` reports for the parse of a text: `None`
/// when the text does not parse, or its host is an IP address or absent.
pub uninterp spec fn url_domain_of(raw: Seq<char>) -> Option<Seq<char>>;

/// Calls `url::Url::parse` and then `Url::domain`; the answer is named by
/// `url_domain_of`.
#[verifier::external_body]
pub(crate) fn url_domain(raw: &str) -> (r: Option<String>)
    ensures
        match r {
            Some(d) => url_domain_of(raw@) == Some(d@),
            None => url_domain_of(raw@) is None,
        },
{
    url::Url::parse(raw).ok().and_then(|url| url.domain().map(|domain| domain.to_string()))
}

/// The user name and password `url::Url` reports for the parse of a text.
pub uninterp spec fn url_credentials(raw: Seq<char>) -> (Seq<char>, Option<Seq<char>>);

/// Calls `url::Url::parse` and then `Url::username` and `Url::password`;
/// `None` exactly when the text does not parse, and otherwise the pair named
/// by `url_credentials`.
#[verifier::external_body]
pub(crate) fn url_userinfo(raw: &str) -> (r: Option<(String, Option<String>)>)
    ensures
        r is Some <==> parses_as_url(raw@),
        r matches Some(u) ==> (u.0@, match u.1 {
            Some(p) => Some(p@),
            None => None,
        }) == url_credentials(raw@),
{
    url::Url::parse(raw).ok().map(|url| (url.username().to_string(), url.password().map(|p| p.to_string())))
}

/// The SHA-256 digest of a text's UTF-8 bytes, written as 64 lower-case
/// hexadecimal digits.
pub uninterp spec fn sha256_hex(text: Seq<char>) -> Seq<char>;

/// Calls `sha2::Sha256::digest` on the token's UTF-8 bytes and writes the
/// 32-byte digest as two lower-case hexadecimal digits per byte; the text is
/// named by `sha256_hex`, and is always 64 such digits.
#[verifier::external_body]
pub(crate) fn api_token_hash(token: &str) -> (h: String)
    ensures
        h@ == sha256_hex(token@),
        h@.len() == 64,
        forall|i: int| 0 <= i < 64 ==> ('0' <= #[trigger] h@[i] <= '9' || 'a' <= h@[i] <= 'f'),
{
    <sha2::Sha256 as sha2::Digest>::digest(token.as_bytes()).iter().map(|byte| format!("{byte:02x}")).collect()
}

/// Calls `String::push`: appends one character.
#[verifier::external_body]
pub(crate) fn push_char(s: &mut String, c: char)
    ensures
        final(s)@ == old(s)@.push(c),
{
    s.push(c)
}

} // verus!
