//! The rules of the dock's connect request: which credentials it carries,
//! how a short code must look, and what the settings become.
use vstd::prelude::*;
use vstd::string::*;
use crate::config::{configured, Config};

verus! {

/// The body of a connect request from the dock.
#[derive(Debug, Clone)]
pub struct ConnectRequest {
    pub code: Option<String>,
    pub url: Option<String>,
    pub match_id: Option<String>,
    pub obs_token: Option<String>,
}

/// How the credentials are to be obtained.
#[derive(Debug, Clone)]
pub enum CredentialSource {
    /// Redeem a short code at the cloud's bootstrap endpoint.
    Code { code: String },
    /// Use the match and token given.
    Direct { match_id: String, obs_token: String },
    /// Fetch match and token from a token URL.
    TokenUrl { url: String },
}

/// Credentials a connection is made with.
#[derive(Debug, Clone)]
pub enum Credentials {
    Code { match_id: String, code: String },
    Token { match_id: String, obs_token: String },
}

/// Why a connect request is refused before any request is made.
#[derive(Debug, Clone, Copy, PartialEq, Eq, Structural)]
pub enum ConnectError {
    /// The code is not six ASCII letters or digits.
    InvalidCode,
    /// Neither a code, a match and token, nor a URL was given.
    MissingCredentials,
}

impl ConnectError {
    pub open spec fn message_text(self) -> Seq<char> {
        match self {
            ConnectError::InvalidCode => "Code must be exactly 6 alphanumeric characters"@,
            ConnectError::MissingCredentials => "provide code, url, or match_id + obs_token"@,
        }
    }

    /// The message the dock shows.
    pub fn message(&self) -> (s: String)
        ensures
            s@ == self.message_text(),
    {
        match self {
            ConnectError::InvalidCode => String::from_str(
                "Code must be exactly 6 alphanumeric characters",
            ),
            ConnectError::MissingCredentials => String::from_str(
                "provide code, url, or match_id + obs_token",
            ),
        }
    }
}

/// An ASCII digit or letter.
pub open spec fn is_ascii_alphanumeric(c: char) -> bool {
    ('0' <= c && c <= '9') || ('a' <= c && c <= 'z') || ('A' <= c && c <= 'Z')
}

/// A short code: exactly six ASCII letters or digits.
pub open spec fn valid_code(code: Seq<char>) -> bool {
    &&& code.len() == 6
    &&& forall|i: int| 0 <= i < code.len() ==> is_ascii_alphanumeric(#[trigger] code[i])
}

/// The ASCII digits and letters by code point: `0`-`9`, `A`-`Z`, `a`-`z`.
pub open spec fn ascii_alphanumeric_code(u: u32) -> bool {
    (48 <= u && u <= 57) || (65 <= u && u <= 90) || (97 <= u && u <= 122)
}

/// A character counts for a short code exactly when it is one of the 62
/// ASCII digits and letters, as `char::is_ascii_alphanumeric` has it.
pub proof fn code_alphabet_is_ascii_alphanumeric(c: char)
    ensures
        is_ascii_alphanumeric(c) <==> ascii_alphanumeric_code(c as u32),
{
}

/// Every string of exactly six characters drawn from `0`-`9`, `a`-`z` and
/// `A`-`Z` is a valid short code, and no other string is.
pub proof fn valid_code_is_six_ascii_alphanumerics(code: Seq<char>)
    ensures
        valid_code(code) <==> (code.len() == 6 && forall|i: int|
            0 <= i < code.len() ==> ascii_alphanumeric_code(#[trigger] code[i] as u32)),
{
    assert forall|i: int| 0 <= i < code.len() implies (is_ascii_alphanumeric(code[i])
        <==> ascii_alphanumeric_code(code[i] as u32)) by {
        code_alphabet_is_ascii_alphanumeric(code[i]);
    }
}

fn ascii_alphanumeric(c: char) -> (b: bool)
    ensures
        b == is_ascii_alphanumeric(c),
        b == ascii_alphanumeric_code(c as u32),
{
    ('0' <= c && c <= '9') || ('a' <= c && c <= 'z') || ('A' <= c && c <= 'Z')
}

/// Whether `code` is a well-formed short code.
pub fn is_valid_code(code: &str) -> (b: bool)
    ensures
        b == valid_code(code@),
        b == (code@.len() == 6 && forall|i: int|
            0 <= i < code@.len() ==> ascii_alphanumeric_code(#[trigger] code@[i] as u32)),
{
    proof {
        valid_code_is_six_ascii_alphanumerics(code@);
    }
    let n = code.unicode_len();
    if n != 6 {
        return false;
    }
    for i in 0..n
        invariant
            n == code@.len(),
            forall|k: int| 0 <= k < i ==> is_ascii_alphanumeric(#[trigger] code@[k]),
    {
        if !ascii_alphanumeric(code.get_char(i)) {
            return false;
        }
    }
    true
}

/// Which credentials a request carries: a code first, then a match and
/// token, then a token URL.
pub open spec fn credential_source_of(body: ConnectRequest) -> Result<CredentialSource, ConnectError> {
    match body.code {
        Some(code) => if valid_code(code@) {
            Ok(CredentialSource::Code { code })
        } else {
            Err(ConnectError::InvalidCode)
        },
        None => match (body.match_id, body.obs_token) {
            (Some(match_id), Some(obs_token)) => Ok(CredentialSource::Direct { match_id, obs_token }),
            _ => match body.url {
                Some(url) => Ok(CredentialSource::TokenUrl { url }),
                None => Err(ConnectError::MissingCredentials),
            },
        },
    }
}

/// Decide how to obtain the credentials of a connect request.
pub fn credential_source(body: ConnectRequest) -> (r: Result<CredentialSource, ConnectError>)
    ensures
        r == credential_source_of(body),
        // A code is accepted exactly when it is six ASCII digits or letters.
        body.code matches Some(c) ==> (r is Ok <==> (c@.len() == 6 && forall|i: int|
            0 <= i < c@.len() ==> ascii_alphanumeric_code(#[trigger] c@[i] as u32))),
{
    proof {
        if body.code is Some {
            valid_code_is_six_ascii_alphanumerics(body.code.unwrap()@);
        }
    }
    match body.code {
        Some(code) => {
            if is_valid_code(code.as_str()) {
                Ok(CredentialSource::Code { code })
            } else {
                Err(ConnectError::InvalidCode)
            }
        },
        None => match (body.match_id, body.obs_token) {
            (Some(match_id), Some(obs_token)) => Ok(CredentialSource::Direct { match_id, obs_token }),
            _ => match body.url {
                Some(url) => Ok(CredentialSource::TokenUrl { url }),
                None => Err(ConnectError::MissingCredentials),
            },
        },
    }
}

/// The settings once a connection's credentials are stored: a code
/// replaces the token, a token replaces the code.
pub open spec fn credentials_applied(c: Config, creds: Credentials) -> Config {
    match creds {
        Credentials::Code { match_id, code } => Config {
            match_id: Some(match_id),
            obs_code: Some(code),
            obs_token: None,
            ..c
        },
        Credentials::Token { match_id, obs_token } => Config {
            match_id: Some(match_id),
            obs_token: Some(obs_token),
            obs_code: None,
            ..c
        },
    }
}

impl Config {
    /// Store the credentials a connection is made with.
    pub fn apply_credentials(&mut self, creds: Credentials)
        ensures
            *final(self) == credentials_applied(*old(self), creds),
    {
        match creds {
            Credentials::Code { match_id, code } => {
                self.match_id = Some(match_id);
                self.obs_code = Some(code);
                self.obs_token = None;
            },
            Credentials::Token { match_id, obs_token } => {
                self.match_id = Some(match_id);
                self.obs_token = Some(obs_token);
                self.obs_code = None;
            },
        }
    }
}

/// Connecting with a match and token leaves the settings configured;
/// connecting with a short code leaves them without a token, so not
/// configured.
pub proof fn credentials_and_configuration(c: Config, creds: Credentials)
    ensures
        configured(credentials_applied(c, creds)) <==> creds is Token,
{
}

/// Why obtaining credentials from the cloud failed after the request
/// was accepted.
#[derive(Debug, Clone, PartialEq, Eq)]
pub enum FetchError {
    /// The configured API URL does not parse; carries the parser's message.
    InvalidApiUrl { reason: String },
    /// The configured API URL cannot take path segments.
    ApiUrlCannotBeABase,
    /// The bootstrap endpoint refused the code.
    InvalidOrExpiredCode,
    /// The bootstrap answer names no match.
    MissingBootstrapMatchId,
    /// The token URL answered with an error status; carries the status text.
    TokenUrlStatus { status: String },
    /// The token URL's answer names no match.
    MissingTokenUrlMatchId,
    /// The token URL's answer holds no token.
    MissingTokenUrlToken,
    /// An answer's body is not JSON.
    BodyDecode,
}

impl FetchError {
    pub open spec fn message_text(self) -> Seq<char> {
        match self {
            FetchError::InvalidApiUrl { reason } => "invalid cloud_api_url: "@ + reason@,
            FetchError::ApiUrlCannotBeABase => "invalid cloud_api_url"@,
            FetchError::InvalidOrExpiredCode => "Invalid or expired code"@,
            FetchError::MissingBootstrapMatchId => "missing match.id in bootstrap response"@,
            FetchError::TokenUrlStatus { status } => "token URL returned status "@ + status@,
            FetchError::MissingTokenUrlMatchId => "missing match_id in token URL response"@,
            FetchError::MissingTokenUrlToken => "missing obs_token in token URL response"@,
            FetchError::BodyDecode => "error decoding response body"@,
        }
    }

    /// The message the dock shows.
    pub fn message(&self) -> (s: String)
        ensures
            s@ == self.message_text(),
    {
        match self {
            FetchError::InvalidApiUrl { reason } => {
                let mut s = String::from_str("invalid cloud_api_url: ");
                s.append(reason.as_str());
                s
            },
            FetchError::ApiUrlCannotBeABase => String::from_str("invalid cloud_api_url"),
            FetchError::InvalidOrExpiredCode => String::from_str("Invalid or expired code"),
            FetchError::MissingBootstrapMatchId => String::from_str(
                "missing match.id in bootstrap response",
            ),
            FetchError::TokenUrlStatus { status } => {
                let mut s = String::from_str("token URL returned status ");
                s.append(status.as_str());
                s
            },
            FetchError::MissingTokenUrlMatchId => String::from_str(
                "missing match_id in token URL response",
            ),
            FetchError::MissingTokenUrlToken => String::from_str(
                "missing obs_token in token URL response",
            ),
            FetchError::BodyDecode => String::from_str("error decoding response body"),
        }
    }
}

/// What the `url` crate makes of `base` with `segments` appended to its
/// path: the serialised URL, or `Err(Some(reason))` when `base` does not
/// parse, or `Err(None)` when it cannot take path segments.
pub uninterp spec fn url_with_segments(base: Seq<char>, segments: Seq<Seq<char>>) -> Result<
    Seq<char>,
    Option<Seq<char>>,
>;

pub open spec fn texts_of(v: Seq<String>) -> Seq<Seq<char>> {
    v.map_values(|s: String| s@)
}

/// How a result of [`url_with_segments_text`] reads as the named result.
pub open spec fn matches_url_result(r: Result<String, FetchError>, u: Result<Seq<char>, Option<Seq<char>>>) -> bool {
    match r {
        Ok(s) => u == Ok::<Seq<char>, Option<Seq<char>>>(s@),
        Err(FetchError::InvalidApiUrl { reason }) => u == Err::<Seq<char>, Option<Seq<char>>>(Some(reason@)),
        Err(FetchError::ApiUrlCannotBeABase) => u == Err::<Seq<char>, Option<Seq<char>>>(None),
        Err(_) => false,
    }
}

/// The number of characters in all of `texts`.
pub open spec fn total_chars(texts: Seq<Seq<char>>) -> nat
    decreases texts.len(),
{
    if texts.len() == 0 {
        0
    } else {
        total_chars(texts.drop_last()) + texts.last().len()
    }
}

/// The URL that `base` with `segments` appended serialises to stays within
/// the `u32` offsets the `url` crate keeps: a parsed character takes at
/// most 128 bytes (percent-encoding takes 12, an internationalised host
/// label's mapping and punycode less than 128), and each appended segment a
/// slash and at most 12 bytes per character.
pub open spec fn url_fits(base: Seq<char>, segments: Seq<Seq<char>>) -> bool {
    128 * base.len() + 12 * total_chars(segments) + segments.len() + 128 <= u32::MAX
}

/// `Url::parse(base)`, then `path_segments_mut()` and `extend(segments)`
/// (each segment percent-encoded and appended), serialised. A parse error
/// is carried as its message; a URL that cannot be a base gives
/// [`FetchError::ApiUrlCannotBeABase`]. The result depends on the arguments
/// alone and is only named here. `extend` unwraps the serialised length as
/// a `u32`, hence the bound.
#[verifier::external_body]
fn url_with_segments_text(base: &str, segments: &Vec<String>) -> (r: Result<String, FetchError>)
    requires
        url_fits(base@, texts_of(segments@)),
    ensures
        matches_url_result(r, url_with_segments(base@, texts_of(segments@))),
{
    let mut url = reqwest::Url::parse(base).map_err(
        |e| FetchError::InvalidApiUrl { reason: e.to_string() },
    )?;
    url.path_segments_mut().map_err(|_| FetchError::ApiUrlCannotBeABase)?.extend(segments);
    Ok(url.to_string())
}

/// The segments of the bootstrap endpoint for a short code.
pub open spec fn bootstrap_segments(code: Seq<char>) -> Seq<Seq<char>> {
    seq!["obs"@, "bootstrap"@, code]
}

/// The bootstrap endpoint for a short code: the configured API URL with
/// `obs/bootstrap/{code}` appended as path segments, so that the code can
/// only ever name a path segment of the trusted base.
pub fn bootstrap_request_url(api_url: &str, code: &str) -> (r: Result<String, FetchError>)
    requires
        url_fits(api_url@, bootstrap_segments(code@)),
    ensures
        matches_url_result(r, url_with_segments(api_url@, bootstrap_segments(code@))),
{
    let mut segments: Vec<String> = Vec::new();
    segments.push(String::from_str("obs"));
    segments.push(String::from_str("bootstrap"));
    segments.push(code.to_owned());
    proof {
        assert(texts_of(segments@) =~= bootstrap_segments(code@));
    }
    url_with_segments_text(api_url, &segments)
}

/// The bound of [`bootstrap_request_url`] in plain terms: the API URL's and
/// the code's lengths.
pub proof fn bootstrap_url_fits(api_url: Seq<char>, code: Seq<char>)
    ensures
        url_fits(api_url, bootstrap_segments(code)) <==> 128 * api_url.len() + 12 * code.len()
            + 275 <= u32::MAX,
{
    reveal_strlit("obs");
    reveal_strlit("bootstrap");
    let s = bootstrap_segments(code);
    assert("obs"@.len() == 3);
    assert("bootstrap"@.len() == 9);
    assert(s.drop_last().drop_last() =~= seq!["obs"@]);
    assert(s.drop_last().drop_last().drop_last() =~= Seq::<Seq<char>>::empty());
    assert(total_chars(Seq::<Seq<char>>::empty()) == 0);
    assert(total_chars(s.drop_last().drop_last()) == 3);
    assert(total_chars(s.drop_last()) == 12);
    assert(total_chars(s) == 12 + code.len());
}

/// The credentials a bootstrap answer gives: the code with the match the
/// answer names, once the answer succeeded.
pub open spec fn bootstrap_outcome(code: String, success: bool, match_id: Option<String>) -> Result<
    Credentials,
    FetchError,
> {
    if !success {
        Err(FetchError::InvalidOrExpiredCode)
    } else {
        match match_id {
            Some(m) => Ok(Credentials::Code { match_id: m, code }),
            None => Err(FetchError::MissingBootstrapMatchId),
        }
    }
}

/// Decide on a bootstrap answer: `success` is whether its status was a
/// success, `match_id` the answer's `match.id` when it is a string.
pub fn credentials_from_bootstrap(code: String, success: bool, match_id: Option<String>) -> (r:
    Result<Credentials, FetchError>)
    ensures
        r == bootstrap_outcome(code, success, match_id),
{
    if !success {
        return Err(FetchError::InvalidOrExpiredCode);
    }
    match match_id {
        Some(m) => Ok(Credentials::Code { match_id: m, code }),
        None => Err(FetchError::MissingBootstrapMatchId),
    }
}

/// The credentials a token URL's answer gives, once the answer succeeded
/// and holds both a match and a token.
pub open spec fn token_url_outcome(
    success: bool,
    status_text: String,
    match_id: Option<String>,
    obs_token: Option<String>,
) -> Result<Credentials, FetchError> {
    if !success {
        Err(FetchError::TokenUrlStatus { status: status_text })
    } else {
        match (match_id, obs_token) {
            (Some(m), Some(t)) => Ok(Credentials::Token { match_id: m, obs_token: t }),
            (None, _) => Err(FetchError::MissingTokenUrlMatchId),
            (Some(_), None) => Err(FetchError::MissingTokenUrlToken),
        }
    }
}

/// Decide on a token URL's answer: `success` is whether its status was a
/// success, `status_text` that status as text, `match_id` and `obs_token`
/// the answer's fields when they are strings.
pub fn credentials_from_token_url(
    success: bool,
    status_text: String,
    match_id: Option<String>,
    obs_token: Option<String>,
) -> (r: Result<Credentials, FetchError>)
    ensures
        r == token_url_outcome(success, status_text, match_id, obs_token),
{
    if !success {
        return Err(FetchError::TokenUrlStatus { status: status_text });
    }
    match match_id {
        None => Err(FetchError::MissingTokenUrlMatchId),
        Some(m) => match obs_token {
            Some(t) => Ok(Credentials::Token { match_id: m, obs_token: t }),
            None => Err(FetchError::MissingTokenUrlToken),
        },
    }
}

/// What `serde_json` finds in a body at a JSON pointer: `None` when the
/// body is not JSON, `Some(None)` when nothing or no string stands there,
/// `Some(Some(text))` for a string.
pub uninterp spec fn json_text_at(body: Seq<u8>, pointer: Seq<char>) -> Option<Option<Seq<char>>>;

pub open spec fn opt_text(t: Option<String>) -> Option<Seq<char>> {
    match t {
        Some(s) => Some(s@),
        None => None,
    }
}

/// `serde_json::from_slice::<Value>(body)`, then `Value::pointer(pointer)`
/// and `Value::as_str`. The result depends on the arguments alone and is
/// only named here.
#[verifier::external_body]
fn json_pointer_text(body: &[u8], pointer: &str) -> (r: Option<Option<String>>)
    ensures
        json_text_at(body@, pointer@) == match r {
            Some(t) => Some(opt_text(t)),
            None => None,
        },
{
    let value: serde_json::Value = match serde_json::from_slice(body) {
        Ok(v) => v,
        Err(_) => return None,
    };
    match value.pointer(pointer) {
        Some(found) => match found.as_str() {
            Some(text) => Some(Some(text.to_string())),
            None => Some(None),
        },
        None => Some(None),
    }
}

/// The bootstrap answer's match id: the string at `/match/id`.
pub open spec fn bootstrap_match_id(body: Seq<u8>) -> Option<Option<Seq<char>>> {
    json_text_at(body, "/match/id"@)
}

/// Decide on the bootstrap endpoint's answer: `success` is whether its
/// status was a success, `body` its body (read only on success).
pub fn bootstrap_answer(code: String, success: bool, body: &[u8]) -> (r: Result<
    Credentials,
    FetchError,
>)
    ensures
        !success ==> r == Err::<Credentials, FetchError>(FetchError::InvalidOrExpiredCode),
        success ==> match bootstrap_match_id(body@) {
            None => r == Err::<Credentials, FetchError>(FetchError::BodyDecode),
            Some(None) => r == Err::<Credentials, FetchError>(FetchError::MissingBootstrapMatchId),
            Some(Some(m)) => r matches Ok(Credentials::Code { match_id, code: c }) && match_id@
                == m && c == code,
        },
{
    if !success {
        return Err(FetchError::InvalidOrExpiredCode);
    }
    match json_pointer_text(body, "/match/id") {
        None => Err(FetchError::BodyDecode),
        Some(match_id) => credentials_from_bootstrap(code, true, match_id),
    }
}

/// Decide on a token URL's answer: `success` is whether its status was a
/// success, `status_text` that status as text, `body` its body (read only
/// on success).
pub fn token_url_answer(success: bool, status_text: String, body: &[u8]) -> (r: Result<
    Credentials,
    FetchError,
>)
    ensures
        !success ==> r == Err::<Credentials, FetchError>(
            FetchError::TokenUrlStatus { status: status_text },
        ),
        success ==> match (json_text_at(body@, "/match_id"@), json_text_at(body@, "/obs_token"@)) {
            (None, _) => r == Err::<Credentials, FetchError>(FetchError::BodyDecode),
            (Some(None), _) => r == Err::<Credentials, FetchError>(
                FetchError::MissingTokenUrlMatchId,
            ),
            (Some(Some(_)), None) => r == Err::<Credentials, FetchError>(FetchError::BodyDecode),
            (Some(Some(_)), Some(None)) => r == Err::<Credentials, FetchError>(
                FetchError::MissingTokenUrlToken,
            ),
            (Some(Some(m)), Some(Some(t))) => r matches Ok(
                Credentials::Token { match_id, obs_token },
            ) && match_id@ == m && obs_token@ == t,
        },
{
    if !success {
        return Err(FetchError::TokenUrlStatus { status: status_text });
    }
    let match_id = match json_pointer_text(body, "/match_id") {
        None => return Err(FetchError::BodyDecode),
        Some(m) => m,
    };
    if match_id.is_none() {
        return Err(FetchError::MissingTokenUrlMatchId);
    }
    match json_pointer_text(body, "/obs_token") {
        None => Err(FetchError::BodyDecode),
        Some(obs_token) => credentials_from_token_url(true, status_text, match_id, obs_token),
    }
}

/// The MIME type `mime_guess` gives a path: the first type its extension
/// maps to, `application/octet-stream` when none. The extension is found by
/// the target's path rules, so a path such as `x.html\` may differ between
/// operating systems; within one build the result is fixed.
pub uninterp spec fn guessed_mime(path: Seq<char>) -> Seq<char>;

/// `mime_guess::from_path(path).first_or_octet_stream()`, written out as
/// text. Its result depends on the path alone and is only named here.
#[verifier::external_body]
fn mime_for_path(path: &str) -> (m: String)
    ensures
        m@ == guessed_mime(path@),
{
    mime_guess::from_path(path).first_or_octet_stream().to_string()
}

/// An answer to a request for an embedded overlay file.
#[derive(Debug, Clone)]
pub struct AssetResponse {
    /// HTTP status code.
    pub status: u16,
    pub content_type: Option<String>,
    pub body: Vec<u8>,
}

/// The embedded file behind an `/assets/...` route.
pub fn asset_file_path(file: &str) -> (p: String)
    ensures
        p@ == "assets/"@ + file@,
{
    let mut p = String::from_str("assets/");
    p.append(file);
    p
}

/// A found file, served with the given content type.
pub fn found_response(content_type: String, data: Vec<u8>) -> (r: AssetResponse)
    ensures
        r.status == 200,
        r.content_type == Some(content_type),
        r.body@ == data@,
{
    AssetResponse { status: 200, content_type: Some(content_type), body: data }
}

/// Serve an embedded file: its content with the MIME type its name
/// suggests, or 404 when there is no such file.
pub fn embedded_response(path: &str, content: Option<Vec<u8>>) -> (r: AssetResponse)
    ensures
        match content {
            Some(data) => {
                &&& r.status == 200
                &&& r.content_type matches Some(m) && m@ == guessed_mime(path@)
                &&& r.body@ == data@
            },
            None => {
                &&& r.status == 404
                &&& r.content_type is None
                &&& r.body@.len() == 0
            },
        },
{
    match content {
        Some(data) => found_response(mime_for_path(path), data),
        None => AssetResponse { status: 404, content_type: None, body: Vec::new() },
    }
}

} // verus!
