//! Bearer tokens: a subject and an expiry, signed with a shared secret.

use jsonwebtoken::{Algorithm, DecodingKey, EncodingKey, Header, Validation};
use vstd::prelude::*;
use vstd::string::StrSliceExecFns;

verus! {

/// How long a token is good for after it was issued: ten days, in seconds.
pub const VALIDITY_SECONDS: u64 = 864_000;

/// The compact HS256 token that carries the claims `exp` and `user` under a
/// secret; `None` where the encoder refuses.
pub uninterp spec fn hs256_token(secret: Seq<u8>, user: Seq<char>, exp: u64) -> Option<Seq<char>>;

/// The `user` and `exp` claims of a token whose HS256 signature holds under
/// the secret; `None` where the token is malformed, the signature does not
/// hold, or either claim is missing or of another type. The expiry is read,
/// not judged.
pub uninterp spec fn hs256_claims(secret: Seq<u8>, token: Seq<char>) -> Option<(Seq<char>, u64)>;

/// The scheme marker that may stand before a token in a header.
pub open spec fn bearer_prefix() -> Seq<char> {
    seq!['B', 'e', 'a', 'r', 'e', 'r', ' ']
}

/// A header value without the scheme marker, if it starts with one.
pub open spec fn without_scheme(value: Seq<char>) -> Seq<char> {
    if bearer_prefix().is_prefix_of(value) {
        value.skip(7)
    } else {
        value
    }
}

/// Whether a text holds no space.
pub open spec fn has_no_space(text: Seq<char>) -> bool {
    forall|i: int| 0 <= i < text.len() ==> #[trigger] text[i] != ' '
}

/// Whether `c` is a letter, a digit, `-` or `_`: the alphabet of base64url.
pub open spec fn is_base64url(c: char) -> bool {
    ||| 'A' <= c <= 'Z'
    ||| 'a' <= c <= 'z'
    ||| '0' <= c <= '9'
    ||| c == '-'
    ||| c == '_'
}

/// Whether the dots at `first` and `second` part a text into three parts,
/// none of them empty, that hold nothing but base64url characters.
pub open spec fn parts_at(token: Seq<char>, first: int, second: int) -> bool {
    &&& 0 < first
    &&& first + 1 < second
    &&& second + 1 < token.len()
    &&& token[first] == '.'
    &&& token[second] == '.'
    &&& forall|k: int|
        0 <= k < token.len() && k != first && k != second ==> is_base64url(#[trigger] token[k])
}

/// Whether a text has the form of a compact token: three parts of base64url
/// characters, none of them empty, joined by two dots.
pub open spec fn is_compact_token(token: Seq<char>) -> bool {
    exists|first: int, second: int| #[trigger] parts_at(token, first, second)
}

/// Why a token was not issued or not accepted.
#[derive(Clone, Copy, Debug, PartialEq, Eq, Structural)]
pub enum TokenError {
    /// The token is malformed, its signature does not hold, or it has expired.
    Invalid,
    /// The time of issue is before the epoch or too late for an expiry to be
    /// written.
    ClockOutOfRange,
    /// The encoder gave no token.
    NotSigned,
}

/// What validating a header value at the time `now` gives: the subject of a
/// token that decodes under the secret and has not expired.
pub open spec fn validation(secret: Seq<u8>, value: Seq<char>, now: u64) -> Result<
    Seq<char>,
    TokenError,
> {
    match hs256_claims(secret, without_scheme(value)) {
        Some((user, exp)) => if exp < now {
            Err(TokenError::Invalid)
        } else {
            Ok(user)
        },
        None => Err(TokenError::Invalid),
    }
}

/// What validating a header value comes to for a reading of the clock:
/// nothing is accepted where the clock stands before the epoch.
pub open spec fn validation_by_clock(
    secret: Seq<u8>,
    value: Seq<char>,
    reading: Option<u64>,
) -> Result<Seq<char>, TokenError> {
    match reading {
        Some(now) => validation(secret, value, now),
        None => Err(TokenError::Invalid),
    }
}

/// What issuing a token for a subject at the time `now` comes to: the token
/// that expires `VALIDITY_SECONDS` later, or why there is none.
pub open spec fn issuing(secret: Seq<u8>, subject: Seq<char>, now: u64) -> Result<
    Seq<char>,
    TokenError,
> {
    if now + VALIDITY_SECONDS > u64::MAX {
        Err(TokenError::ClockOutOfRange)
    } else {
        match hs256_token(secret, subject, (now + VALIDITY_SECONDS) as u64) {
            Some(token) => Ok(token),
            None => Err(TokenError::NotSigned),
        }
    }
}

/// What issuing a token comes to for a reading of the clock: no token where
/// the clock stands before the epoch.
pub open spec fn issuing_by_clock(
    secret: Seq<u8>,
    subject: Seq<char>,
    reading: Option<u64>,
) -> Result<Seq<char>, TokenError> {
    match reading {
        Some(now) => issuing(secret, subject, now),
        None => Err(TokenError::ClockOutOfRange),
    }
}

/// What holds of a token that was issued for a subject at the time `now`: it
/// is the encoding of the subject and of the expiry `VALIDITY_SECONDS` after
/// `now`, it decodes under the secret to these two claims, and it has the
/// form of a compact token, so it holds no space.
pub open spec fn issued(secret: Seq<u8>, subject: Seq<char>, now: u64, token: Seq<char>) -> bool {
    &&& now + VALIDITY_SECONDS <= u64::MAX
    &&& hs256_token(secret, subject, (now + VALIDITY_SECONDS) as u64) == Some(token)
    &&& hs256_claims(secret, token) == Some((subject, (now + VALIDITY_SECONDS) as u64))
    &&& is_compact_token(token)
    &&& has_no_space(token)
}

/// `jsonwebtoken::encode` with the default header (HS256) on the claims
/// object `{"exp": exp, "user": user}` and `EncodingKey::from_secret`. The
/// token is a function of the three arguments. It is the header, the claims
/// and the signature, each in base64url without padding and none empty,
/// joined by two dots, and `decode` with the same secret finds the signature
/// good and reads the two claims back as they were written.
#[verifier::external_body]
fn hs256_encode(secret: &[u8], user: &str, exp: u64) -> (token: Option<String>)
    ensures
        token.deep_view() == hs256_token(secret@, user@, exp),
        token matches Some(t) ==> is_compact_token(t@) && hs256_claims(secret@, t@) == Some(
            (user@, exp),
        ),
{
    let mut claims = serde_json::Map::new();
    claims.insert("exp".to_string(), serde_json::Value::from(exp));
    claims.insert("user".to_string(), serde_json::Value::from(user));
    jsonwebtoken::encode(&Header::default(), &claims, &EncodingKey::from_secret(secret)).ok()
}

/// `jsonwebtoken::decode` for HS256 with `DecodingKey::from_secret`, the
/// check of the expiry against the clock switched off, then the `user` claim
/// read as a string and the `exp` claim as an unsigned integer. The decoder
/// parts the token at its last two dots and reads each part as base64url
/// without padding, so a token that claims are read from has the form of a
/// compact token.
#[verifier::external_body]
fn hs256_decode(secret: &[u8], token: &str) -> (claims: Option<(String, u64)>)
    ensures
        claims.deep_view() == hs256_claims(secret@, token@),
        claims is Some ==> is_compact_token(token@),
{
    let mut validation = Validation::new(Algorithm::HS256);
    validation.validate_exp = false;
    let key = DecodingKey::from_secret(secret);
    let data = jsonwebtoken::decode::<serde_json::Value>(token, &key, &validation).ok()?;
    let user = data.claims.get("user")?.as_str()?.to_string();
    let exp = data.claims.get("exp")?.as_u64()?;
    Some((user, exp))
}

/// `chrono::Local::now().timestamp()`: the seconds since the epoch on this
/// machine's clock. Nothing is claimed of the outcome. The outside call takes
/// no input that could be left out, and panics where the clock stands before
/// the epoch.
#[verifier::external_body]
fn clock_seconds() -> (seconds: i64) {
    chrono::Local::now().timestamp()
}

/// A reading of the clock as a time since the epoch: the seconds themselves,
/// or `None` where the reading lies before the epoch.
pub open spec fn since_epoch(seconds: i64) -> Option<u64> {
    if seconds < 0 {
        None
    } else {
        Some(seconds as u64)
    }
}

/// The value of the outcome of a validation.
pub open spec fn subject_view(r: Result<String, TokenError>) -> Result<Seq<char>, TokenError> {
    match r {
        Ok(subject) => Ok(subject@),
        Err(e) => Err(e),
    }
}

/// The time that the clock shows, in seconds since the epoch; `None` where
/// the clock stands before the epoch. Whatever the clock shows, the result is
/// that reading as a time since the epoch, so a time that comes out is one
/// that a signed reading can hold.
pub(crate) fn clock_now() -> (now: Option<u64>)
    ensures
        exists|seconds: i64| #[trigger] since_epoch(seconds) == now,
        now matches Some(time) ==> time <= i64::MAX,
{
    let seconds = clock_seconds();
    if seconds < 0 {
        assert(since_epoch(seconds) == None::<u64>);
        None
    } else {
        assert(since_epoch(seconds) == Some(seconds as u64));
        Some(seconds as u64)
    }
}

/// Removes a leading `Bearer ` from a header value. The marker is matched
/// letter for letter and only at the start.
pub fn strip_scheme(value: &str) -> (token: &str)
    ensures
        token@ == without_scheme(value@),
{
    let marker = "Bearer ";
    proof {
        reveal_strlit("Bearer ");
    }
    assert(marker@ =~= bearer_prefix());
    let len: usize = value.unicode_len();
    if len < 7 {
        return value;
    }
    let mut i: usize = 0;
    while i < 7
        invariant
            i <= 7,
            7 <= len == value@.len(),
            marker@ == bearer_prefix(),
            forall|j: int| 0 <= j < i ==> value@[j] == bearer_prefix()[j],
        decreases 7 - i,
    {
        if value.get_char(i) != marker.get_char(i) {
            return value;
        }
        i += 1;
    }
    assert(value@.subrange(0, 7) =~= bearer_prefix());
    value.substring_char(7, len)
}

/// Issues and validates tokens under one secret, fixed when the service is
/// made.
pub struct TokenService {
    secret: Vec<u8>,
}

/// What the guard hands to a handler: whether the request carried a valid
/// token, and the subject it vouches for.
#[derive(Debug, PartialEq, Eq)]
pub struct AuthObject {
    pub authorized: bool,
    pub user: String,
}

impl TokenService {
    /// The secret that this service signs and checks with.
    pub closed spec fn secret(&self) -> Seq<u8> {
        self.secret@
    }

    /// A service that signs and checks with `secret`.
    pub fn new(secret: Vec<u8>) -> (service: TokenService)
        ensures
            service.secret() == secret@,
    {
        TokenService { secret }
    }

    /// Issues a token for `subject` at the time `now`, in seconds since the
    /// epoch. The token expires `VALIDITY_SECONDS` later: it decodes to the
    /// subject and that expiry, and until then it validates to the subject,
    /// with or without the scheme marker before it.
    pub fn issue_at(&self, subject: &str, now: u64) -> (r: Result<String, TokenError>)
        ensures
            subject_view(r) == issuing(self.secret(), subject@, now),
            match r {
                Ok(token) => {
                    &&& issued(self.secret(), subject@, now, token@)
                    &&& forall|at: u64|
                        at <= now + VALIDITY_SECONDS ==> {
                            &&& #[trigger] validation(self.secret(), token@, at) == Ok::<
                                Seq<char>,
                                TokenError,
                            >(subject@)
                            &&& validation(self.secret(), bearer_prefix() + token@, at) == Ok::<
                                Seq<char>,
                                TokenError,
                            >(subject@)
                        }
                },
                Err(e) => if now + VALIDITY_SECONDS > u64::MAX {
                    e == TokenError::ClockOutOfRange
                } else {
                    &&& e == TokenError::NotSigned
                    &&& hs256_token(self.secret(), subject@, (now + VALIDITY_SECONDS) as u64)
                        is None
                },
            },
    {
        if now > u64::MAX - VALIDITY_SECONDS {
            return Err(TokenError::ClockOutOfRange);
        }
        let exp: u64 = now + VALIDITY_SECONDS;
        match hs256_encode(self.secret.as_slice(), subject, exp) {
            Some(token) => {
                proof {
                    lemma_compact_has_no_space(token@);
                    lemma_scheme_of_token(token@);
                }
                Ok(token)
            },
            None => Err(TokenError::NotSigned),
        }
    }

    /// Issues a token for `subject` at the time the clock shows: the outcome
    /// is what issuing comes to for some reading of the clock. A token that
    /// comes out was issued at a time that a signed reading can hold; it
    /// decodes to the subject and to the expiry `VALIDITY_SECONDS` after that
    /// time, and it validates at that time.
    pub fn issue(&self, subject: &str) -> (r: Result<String, TokenError>)
        ensures
            exists|seconds: i64|
                issuing_by_clock(self.secret(), subject@, #[trigger] since_epoch(seconds))
                    == subject_view(r),
            r matches Ok(token) ==> exists|now: u64|
                {
                    &&& now <= i64::MAX
                    &&& #[trigger] issued(self.secret(), subject@, now, token@)
                    &&& validation(self.secret(), token@, now) == Ok::<Seq<char>, TokenError>(
                        subject@,
                    )
                },
            r matches Ok(token) ==> has_no_space(token@) && is_compact_token(token@),
            r matches Err(e) ==> e != TokenError::Invalid,
    {
        match clock_now() {
            Some(now) => self.issue_at(subject, now),
            None => Err(TokenError::ClockOutOfRange),
        }
    }

    /// Validates a header value at the time `now`: the scheme marker is
    /// dropped, the signature checked under the service's secret, and a token
    /// whose expiry lies before `now` refused. What is accepted has, without
    /// the marker, the form of a compact token.
    pub fn validate_at(&self, value: &str, now: u64) -> (r: Result<String, TokenError>)
        ensures
            r is Ok ==> is_compact_token(without_scheme(value@)),
            match r {
                Ok(subject) => validation(self.secret(), value@, now) == Ok::<
                    Seq<char>,
                    TokenError,
                >(subject@),
                Err(e) => validation(self.secret(), value@, now) == Err::<Seq<char>, TokenError>(e),
            },
    {
        let token = strip_scheme(value);
        match hs256_decode(self.secret.as_slice(), token) {
            Some((user, exp)) => {
                if exp < now {
                    Err(TokenError::Invalid)
                } else {
                    Ok(user)
                }
            },
            None => Err(TokenError::Invalid),
        }
    }

    /// Validates a header value at the time the clock shows: the outcome is
    /// what validation comes to for some reading of the clock. Under a clock
    /// that stands before the epoch nothing is accepted.
    pub fn validate(&self, value: &str) -> (r: Result<String, TokenError>)
        ensures
            exists|seconds: i64|
                validation_by_clock(self.secret(), value@, #[trigger] since_epoch(seconds))
                    == subject_view(r),
            r is Ok ==> is_compact_token(without_scheme(value@)),
            match r {
                Ok(subject) => exists|now: u64|
                    now <= i64::MAX && #[trigger] validation(self.secret(), value@, now) == Ok::<
                        Seq<char>,
                        TokenError,
                    >(subject@),
                Err(e) => e == TokenError::Invalid,
            },
    {
        match clock_now() {
            Some(now) => self.validate_at(value, now),
            None => Err(TokenError::Invalid),
        }
    }
}

/// A text in the form of a compact token holds no space: a space is neither
/// a dot nor a base64url character.
pub proof fn lemma_compact_has_no_space(token: Seq<char>)
    requires
        is_compact_token(token),
    ensures
        has_no_space(token),
        token.len() >= 5,
{
    let (first, second) = choose|first: int, second: int| #[trigger]
        parts_at(token, first, second);
    assert forall|i: int| 0 <= i < token.len() implies #[trigger] token[i] != ' ' by {
        if i != first && i != second {
            assert(is_base64url(token[i]));
        }
    }
}

/// A token that was issued at `now` is refused at every time after its
/// expiry and accepted at every time up to it, under the secret that it was
/// issued with.
pub proof fn lemma_issued_expires(
    secret: Seq<u8>,
    subject: Seq<char>,
    now: u64,
    token: Seq<char>,
    at: u64,
)
    requires
        issued(secret, subject, now, token),
    ensures
        at <= now + VALIDITY_SECONDS ==> validation(secret, token, at) == Ok::<
            Seq<char>,
            TokenError,
        >(subject),
        at > now + VALIDITY_SECONDS ==> validation(secret, token, at) == Err::<
            Seq<char>,
            TokenError,
        >(TokenError::Invalid),
        without_scheme(token) == token,
        !bearer_prefix().is_prefix_of(token),
{
    lemma_scheme_of_token(token);
    if bearer_prefix().is_prefix_of(token) {
        assert(token[6] == bearer_prefix()[6]);
    }
}

/// A token that holds no space is its own value without the scheme marker,
/// and the marker put before it is taken off again.
pub proof fn lemma_scheme_of_token(token: Seq<char>)
    requires
        has_no_space(token),
    ensures
        without_scheme(token) == token,
        without_scheme(bearer_prefix() + token) == token,
{
    if bearer_prefix().is_prefix_of(token) {
        assert(token[6] == bearer_prefix()[6]);
    }
    let marked = bearer_prefix() + token;
    assert(marked.subrange(0, 7) =~= bearer_prefix());
    assert(marked.skip(7) =~= token);
}

/// A token that has expired is refused whatever else holds of it: of a value
/// whose claims can be read with an expiry before `now`, and of one whose
/// claims cannot be read at all, validation gives `Invalid`.
pub proof fn lemma_expired_is_invalid(secret: Seq<u8>, value: Seq<char>, now: u64)
    requires
        hs256_claims(secret, without_scheme(value)) matches Some((_, exp)) ==> exp < now,
    ensures
        validation(secret, value, now) == Err::<Seq<char>, TokenError>(TokenError::Invalid),
        auth_of(validation(secret, value, now)) == (false, Seq::<char>::empty()),
{
}

/// Signs a token for `user` that expires ten days from now: the outcome is
/// what issuing comes to for some reading of the clock. A token that comes
/// out decodes under the service's secret to `user` and to the expiry ten
/// days after the time that was read, and has the form of a compact token.
pub fn jwt_sign(service: &TokenService, user: &str) -> (r: Result<String, TokenError>)
    ensures
        exists|seconds: i64|
            issuing_by_clock(service.secret(), user@, #[trigger] since_epoch(seconds))
                == subject_view(r),
        r matches Ok(token) ==> exists|now: u64|
            {
                &&& now <= i64::MAX
                &&& #[trigger] issued(service.secret(), user@, now, token@)
                &&& validation(service.secret(), token@, now) == Ok::<Seq<char>, TokenError>(user@)
            },
        r matches Ok(token) ==> has_no_space(token@) && is_compact_token(token@),
        r matches Err(e) ==> e != TokenError::Invalid,
{
    service.issue(user)
}

/// What `jwt_validate` makes of the outcome of a validation: the subject,
/// authorized, or an empty subject, not authorized.
pub open spec fn auth_of(outcome: Result<Seq<char>, TokenError>) -> (bool, Seq<char>) {
    match outcome {
        Ok(user) => (true, user),
        Err(_) => (false, Seq::empty()),
    }
}

/// Validates a header value at the time `now` and reports the outcome as an
/// `AuthObject`. What is authorized has, without the scheme marker, the form
/// of a compact token.
pub fn jwt_validate_at(service: &TokenService, token: &str, now: u64) -> (auth: AuthObject)
    ensures
        (auth.authorized, auth.user@) == auth_of(validation(service.secret(), token@, now)),
        auth.authorized ==> is_compact_token(without_scheme(token@)),
{
    match service.validate_at(token, now) {
        Ok(user) => AuthObject { authorized: true, user },
        Err(_) => AuthObject { authorized: false, user: String::new() },
    }
}

/// Validates a header value at the time the clock shows and reports the
/// outcome as an `AuthObject`: what validation comes to for some reading of
/// the clock. Under a clock that stands before the epoch nothing is
/// authorized.
pub fn jwt_validate(service: &TokenService, token: &str) -> (auth: AuthObject)
    ensures
        exists|seconds: i64|
            auth_of(
                validation_by_clock(service.secret(), token@, #[trigger] since_epoch(seconds)),
            ) == (auth.authorized, auth.user@),
        auth.authorized ==> exists|now: u64|
            now <= i64::MAX && #[trigger] validation(service.secret(), token@, now) == Ok::<
                Seq<char>,
                TokenError,
            >(auth.user@),
        auth.authorized ==> is_compact_token(without_scheme(token@)),
        !auth.authorized ==> auth.user@.len() == 0,
{
    match service.validate(token) {
        Ok(user) => AuthObject { authorized: true, user },
        Err(_) => AuthObject { authorized: false, user: String::new() },
    }
}

} // verus!
