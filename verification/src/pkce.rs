//! The secrets of one authorization attempt: a random code verifier, the
//! challenge derived from it, and a random state token; and the address the
//! browser is sent to with them.

use vstd::prelude::*;
use vstd::utf8::encode_utf8;
use rand::Rng;
use sha2::Digest;
use base64::Engine;

verus! {

/// Number of characters of a code verifier.
pub const VERIFIER_LEN: usize = 128;

/// Number of characters a code verifier is drawn from.
pub const VERIFIER_SYMBOLS: usize = 66;

/// Number of characters of a state token.
pub const STATE_LEN: usize = 16;

/// Where the service sends the browser back to.
pub const REDIRECT_URI: &'static str = "http://127.0.0.1:8888/callback";

/// What the session asks permission for.
pub const SCOPE: &'static str =
    "user-read-private user-read-email playlist-read-private playlist-read-collaborative user-modify-playback-state user-read-playback-state user-read-currently-playing user-read-playback-position user-library-read";

/// The random number generator of the `rand` crate that each thread has.
#[verifier::external_type_specification]
#[verifier::external_body]
pub struct ExThreadRng(rand::rngs::ThreadRng);

/// `rand::rng` hands out the generator of the calling thread. Nothing is
/// claimed of it. The generator is seeded from the operating system; should
/// that source fail, the call panics, whatever the program does.
pub assume_specification[ rand::rng ]() -> (rng: rand::rngs::ThreadRng)
;

/// `Rng::random_range` on `0..bound`: some number below `bound`. Which one
/// is left open. An empty range makes it panic and is ruled out. It also
/// panics when the generator has to be seeded anew and the operating system
/// gives no random bytes, which no argument causes or prevents.
#[verifier::external_body]
fn random_below(rng: &mut rand::rngs::ThreadRng, bound: usize) -> (n: usize)
    requires
        bound > 0,
    ensures
        n < bound,
{
    rng.random_range(0..bound)
}

/// The SHA-256 digest of a byte string.
pub uninterp spec fn sha256_digest(data: Seq<u8>) -> Seq<u8>;

/// The base64 text of a byte string in the URL-safe alphabet, without padding.
pub uninterp spec fn base64_url_text(data: Seq<u8>) -> Seq<char>;

/// `Sha256::digest` of the `sha2` crate: the SHA-256 digest of `data`, which
/// has 32 bytes.
#[verifier::external_body]
fn sha256(data: &[u8]) -> (digest: Vec<u8>)
    ensures
        digest@ == sha256_digest(data@),
        digest@.len() == 32,
{
    sha2::Sha256::digest(data).to_vec()
}

/// `Engine::encode` of the `base64` crate with its `URL_SAFE_NO_PAD` engine.
/// Inputs so long that the length of the text would not fit the machine's
/// integers make it panic and are ruled out.
#[verifier::external_body]
fn base64_url_no_pad(data: &[u8]) -> (text: String)
    requires
        data@.len() <= 0x3fff_ffff,
    ensures
        text@ == base64_url_text(data@),
{
    base64::engine::general_purpose::URL_SAFE_NO_PAD.encode(data)
}

/// A byte that percent-encoding leaves as it is: an ASCII letter or digit,
/// `-`, `.`, `_` or `~`.
pub open spec fn is_unreserved_byte(b: u8) -> bool {
    ||| 0x30 <= b <= 0x39
    ||| 0x41 <= b <= 0x5a
    ||| 0x61 <= b <= 0x7a
    ||| b == 0x2d
    ||| b == 0x2e
    ||| b == 0x5f
    ||| b == 0x7e
}

/// The hexadecimal digit `d` in upper case.
pub open spec fn hex_upper(d: int) -> char
    recommends
        0 <= d < 16,
{
    if d < 10 {
        (0x30 + d) as char
    } else {
        (0x41 + d - 10) as char
    }
}

/// One byte, percent-encoded.
pub open spec fn percent_encoded_byte(b: u8) -> Seq<char> {
    if is_unreserved_byte(b) {
        seq![b as char]
    } else {
        seq!['%', hex_upper(b as int / 16), hex_upper(b as int % 16)]
    }
}

/// A byte string, percent-encoded byte by byte.
pub open spec fn percent_encoded(bytes: Seq<u8>) -> Seq<char>
    decreases bytes.len(),
{
    if bytes.len() == 0 {
        Seq::empty()
    } else {
        percent_encoded(bytes.drop_last()) + percent_encoded_byte(bytes.last())
    }
}

/// A text, percent-encoded byte by byte in its UTF-8 form.
pub open spec fn percent_encoded_text(text: Seq<char>) -> Seq<char> {
    percent_encoded(encode_utf8(text))
}

/// `urlencoding::encode`: every byte of the UTF-8 form of `text` but letters,
/// digits, `-`, `.`, `_` and `~` is replaced by `%` and its two hexadecimal
/// digits in upper case.
#[verifier::external_body]
fn percent_encode(text: &str) -> (out: String)
    ensures
        out@ == percent_encoded_text(text@),
{
    urlencoding::encode(text).into_owned()
}

/// A character that a code verifier may hold: an ASCII letter or digit, `-`,
/// `.`, `_` or `~`.
pub open spec fn is_unreserved(c: char) -> bool {
    ||| 'A' <= c <= 'Z'
    ||| 'a' <= c <= 'z'
    ||| '0' <= c <= '9'
    ||| c == '-'
    ||| c == '.'
    ||| c == '_'
    ||| c == '~'
}

/// The `index`-th of the 66 characters a code verifier is drawn from: the
/// capital letters, the small letters, the digits, then `-`, `.`, `_`, `~`.
pub open spec fn verifier_symbol(index: int) -> char
    recommends
        0 <= index < VERIFIER_SYMBOLS,
{
    if index < 26 {
        (0x41 + index) as char
    } else if index < 52 {
        (0x61 + index - 26) as char
    } else if index < 62 {
        (0x30 + index - 52) as char
    } else if index == 62 {
        '-'
    } else if index == 63 {
        '.'
    } else if index == 64 {
        '_'
    } else {
        '~'
    }
}

/// A lower-case hexadecimal digit.
pub open spec fn is_hex_lower(c: char) -> bool {
    '0' <= c <= '9' || 'a' <= c <= 'f'
}

/// The hexadecimal digit `d` in lower case.
pub open spec fn hex_lower(d: int) -> char
    recommends
        0 <= d < 16,
{
    if d < 10 {
        (0x30 + d) as char
    } else {
        (0x61 + d - 10) as char
    }
}

/// The character of a code verifier that the number `index` stands for.
pub fn verifier_char(index: usize) -> (c: char)
    requires
        index < VERIFIER_SYMBOLS,
    ensures
        c == verifier_symbol(index as int),
        is_unreserved(c),
{
    if index < 26 {
        (0x41u8 + index as u8) as char
    } else if index < 52 {
        (0x61u8 + (index - 26) as u8) as char
    } else if index < 62 {
        (0x30u8 + (index - 52) as u8) as char
    } else if index == 62 {
        '-'
    } else if index == 63 {
        '.'
    } else if index == 64 {
        '_'
    } else {
        '~'
    }
}

/// The lower-case hexadecimal digit for `value`.
pub fn hex_digit(value: usize) -> (c: char)
    requires
        value < 16,
    ensures
        c == hex_lower(value as int),
        is_hex_lower(c),
{
    if value < 10 {
        (0x30u8 + value as u8) as char
    } else {
        (0x61u8 + (value - 10) as u8) as char
    }
}

/// Every character a code verifier may hold is drawn for some number.
pub proof fn lemma_every_unreserved_char_is_drawn(c: char)
    requires
        is_unreserved(c),
    ensures
        exists|index: int| 0 <= index < VERIFIER_SYMBOLS && verifier_symbol(index) == c,
{
    let index: int = if 'A' <= c <= 'Z' {
        c as int - 0x41
    } else if 'a' <= c <= 'z' {
        c as int - 0x61 + 26
    } else if '0' <= c <= '9' {
        c as int - 0x30 + 52
    } else if c == '-' {
        62
    } else if c == '.' {
        63
    } else if c == '_' {
        64
    } else {
        65
    };
    assert(0 <= index < VERIFIER_SYMBOLS && verifier_symbol(index) == c);
}

/// No character is drawn for two numbers, so that a number drawn evenly
/// gives every character the same chance.
pub proof fn lemma_symbols_are_distinct(i: int, j: int)
    requires
        0 <= i < VERIFIER_SYMBOLS,
        0 <= j < VERIFIER_SYMBOLS,
        i != j,
    ensures
        verifier_symbol(i) != verifier_symbol(j),
{
}

/// What a code verifier is: 128 characters, each a letter, a digit, `-`,
/// `.`, `_` or `~`.
pub open spec fn is_code_verifier(text: Seq<char>) -> bool {
    text.len() == VERIFIER_LEN && forall|i: int| 0 <= i < text.len() ==> is_unreserved(#[trigger] text[i])
}

/// What a state token is: 16 lower-case hexadecimal digits.
pub open spec fn is_state_token(text: Seq<char>) -> bool {
    text.len() == STATE_LEN && forall|i: int| 0 <= i < text.len() ==> is_hex_lower(#[trigger] text[i])
}

/// A fresh code verifier, each character drawn at random.
pub fn generate_code_verifier() -> (verifier: String)
    ensures
        is_code_verifier(verifier@),
{
    let mut rng = rand::rng();
    let mut verifier = String::new();
    let mut i: usize = 0;
    while i < VERIFIER_LEN
        invariant
            i <= VERIFIER_LEN,
            verifier@.len() == i,
            forall|j: int| 0 <= j < verifier@.len() ==> is_unreserved(#[trigger] verifier@[j]),
        decreases VERIFIER_LEN - i,
    {
        let index = random_below(&mut rng, VERIFIER_SYMBOLS);
        verifier.push(verifier_char(index));
        i += 1;
    }
    verifier
}

/// The challenge that belongs to `verifier`: the SHA-256 digest of its bytes,
/// as base64 text in the URL-safe alphabet without padding.
pub open spec fn challenge_of(verifier: Seq<char>) -> Seq<char> {
    base64_url_text(sha256_digest(encode_utf8(verifier)))
}

/// The code challenge for `code_verifier`.
pub fn generate_code_challenge(code_verifier: &str) -> (challenge: String)
    ensures
        challenge@ == challenge_of(code_verifier@),
{
    let digest = sha256(code_verifier.as_bytes());
    base64_url_no_pad(digest.as_slice())
}

/// A fresh state token, each digit drawn at random.
pub fn generate_state() -> (state: String)
    ensures
        is_state_token(state@),
{
    let mut rng = rand::rng();
    let mut state = String::new();
    let mut i: usize = 0;
    while i < STATE_LEN
        invariant
            i <= STATE_LEN,
            state@.len() == i,
            forall|j: int| 0 <= j < state@.len() ==> is_hex_lower(#[trigger] state@[j]),
        decreases STATE_LEN - i,
    {
        let value = random_below(&mut rng, 16);
        state.push(hex_digit(value));
        i += 1;
    }
    state
}

/// The secrets of one authorization attempt.
#[derive(Debug, Clone, PartialEq, Eq)]
pub struct AuthorizationAttempt {
    pub code_verifier: String,
    pub code_challenge: String,
    pub state: String,
}

impl AuthorizationAttempt {
    /// The verifier and the state have their shape, and the challenge is the
    /// one that belongs to the verifier.
    pub open spec fn wf(self) -> bool {
        &&& is_code_verifier(self.code_verifier@)
        &&& is_state_token(self.state@)
        &&& self.code_challenge@ == challenge_of(self.code_verifier@)
    }

    /// A new attempt with fresh secrets.
    pub fn new() -> (attempt: AuthorizationAttempt)
        ensures
            attempt.wf(),
    {
        let code_verifier = generate_code_verifier();
        let code_challenge = generate_code_challenge(code_verifier.as_str());
        let state = generate_state();
        AuthorizationAttempt { code_verifier, code_challenge, state }
    }
}

/// The address that asks the user to authorize the application `client_id`,
/// for the given challenge and state.
pub open spec fn authorization_url_text(
    client_id: Seq<char>,
    challenge: Seq<char>,
    state: Seq<char>,
) -> Seq<char> {
    "https://accounts.spotify.com/authorize?client_id="@ + client_id
        + "&response_type=code&redirect_uri="@ + percent_encoded_text(REDIRECT_URI@)
        + "&code_challenge_method=S256&code_challenge="@ + challenge + "&state="@ + state
        + "&scope="@ + percent_encoded_text(SCOPE@)
}

/// The address to open in the browser for `attempt`.
pub fn authorization_url(client_id: &str, attempt: &AuthorizationAttempt) -> (url: String)
    ensures
        url@ == authorization_url_text(client_id@, attempt.code_challenge@, attempt.state@),
{
    let mut url = String::new();
    url.push_str("https://accounts.spotify.com/authorize?client_id=");
    url.push_str(client_id);
    url.push_str("&response_type=code&redirect_uri=");
    url.push_str(percent_encode(REDIRECT_URI).as_str());
    url.push_str("&code_challenge_method=S256&code_challenge=");
    url.push_str(attempt.code_challenge.as_str());
    url.push_str("&state=");
    url.push_str(attempt.state.as_str());
    url.push_str("&scope=");
    url.push_str(percent_encode(SCOPE).as_str());
    url
}

} // verus!
