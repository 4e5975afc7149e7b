use crate::util::time_util::current_time;
use vstd::prelude::*;

verus! {

/// The mathematical content of a [`TokenClaims`] record.
pub ghost struct Claims {
    pub user_id: u64,
    pub username: Seq<char>,
    pub exp: usize,
    pub roles: Seq<Seq<char>>,
}

/// What a credential says of its bearer: who they are, which roles they
/// hold, and the second (since the Unix epoch) after which the credential
/// no longer counts.
#[derive(Debug)]
pub struct TokenClaims {
    pub user_id: u64,
    pub username: String,
    pub exp: usize,
    pub roles: Vec<String>,
}

impl View for TokenClaims {
    type V = Claims;

    open spec fn view(&self) -> Claims {
        Claims {
            user_id: self.user_id,
            username: self.username@,
            exp: self.exp,
            roles: self.roles.deep_view(),
        }
    }
}

/// Why the signed form of a credential could not be opened.
#[derive(Debug, Clone, Copy, PartialEq, Eq, Structural)]
pub enum DecodeFault {
    /// The text is no token of three parts with readable claims.
    InvalidFormat,
    /// The signature is not the one that the key gives for the content.
    InvalidSignature,
}

/// Why a credential was not issued or not accepted.
#[derive(Debug, Clone, Copy, PartialEq, Eq, Structural)]
pub enum TokenError {
    /// The text is no token of three parts with readable claims.
    InvalidFormat,
    /// The signature is not the one that the key gives for the content.
    InvalidSignature,
    /// The credential is genuine but its time has run out.
    Expired,
    /// The claims could not be signed.
    Signing,
}

impl TokenError {
    /// The error in words.
    pub open spec fn message_spec(self) -> Seq<char> {
        match self {
            TokenError::InvalidFormat => "InvalidToken"@,
            TokenError::InvalidSignature => "InvalidSignature"@,
            TokenError::Expired => "ExpiredSignature"@,
            TokenError::Signing => "SigningFailed"@,
        }
    }

    /// The error in words, for a response body or a log line.
    pub fn message(&self) -> (text: String)
        ensures
            text@ == self.message_spec(),
    {
        match self {
            TokenError::InvalidFormat => "InvalidToken".to_owned(),
            TokenError::InvalidSignature => "InvalidSignature".to_owned(),
            TokenError::Expired => "ExpiredSignature".to_owned(),
            TokenError::Signing => "SigningFailed".to_owned(),
        }
    }
}

/// The token that `jsonwebtoken::encode` makes of `claims` under HS512 with
/// `secret` as the key, or `None` where it reports a failure.
pub uninterp spec fn hs512_sealed(claims: Claims, secret: Seq<char>) -> Option<Seq<char>>;

/// What `jsonwebtoken::decode` finds in `token` under HS512 with `secret` as
/// the key, the clock left aside: the claims, or why it found none.
pub uninterp spec fn hs512_opened(token: Seq<char>, secret: Seq<char>) -> Result<
    Claims,
    DecodeFault,
>;

/// How many dots a text holds. A signed token holds two: they part its
/// header, its claims and its signature.
pub open spec fn dot_count(text: Seq<char>) -> nat {
    text.filter(|c: char| c == '.').len()
}

/// `other` is `token` with another signature: the two agree up to and
/// including the last dot of `token`, differ after it, and `other` has no
/// further dot there.
pub open spec fn resigned(token: Seq<char>, other: Seq<char>) -> bool {
    exists|dot: int|
        {
            &&& 0 <= dot < token.len()
            &&& dot < other.len()
            &&& #[trigger] token[dot] == '.'
            &&& token.take(dot + 1) == other.take(dot + 1)
            &&& forall|i: int| dot < i < token.len() ==> token[i] != '.'
            &&& forall|i: int| dot < i < other.len() ==> other[i] != '.'
            &&& token != other
        }
}

/// `jsonwebtoken::encode` with an HS512 header and the secret as the key.
/// The claims go in as a JSON object with the members `user_id`,
/// `username`, `exp` and `roles`.
///
/// Believed of it: the token is a function of the claims and the secret
/// (the members are written in a fixed order and the signature is an
/// HMAC); it is three parts in URL-safe base64, which has no dot, joined
/// by two dots; and a token that it made opens again, under the same
/// secret, to the very claims that went in (`decode` signs the same two
/// parts with the same key, finds the same signature, and reads back the
/// JSON text that `encode` wrote).
#[verifier::external_body]
fn hs512_seal(claims: &TokenClaims, secret: &str) -> (sealed: Option<String>)
    ensures
        sealed matches Some(token) ==> hs512_sealed(claims@, secret@) == Some(token@),
        sealed is None ==> hs512_sealed(claims@, secret@) is None,
        sealed matches Some(token) ==> dot_count(token@) == 2,
        sealed matches Some(token) ==> hs512_opened(token@, secret@) is Ok && hs512_opened(
            token@,
            secret@,
        )->Ok_0 == claims@,
{
    let mut body = serde_json::Map::new();
    body.insert("user_id".to_string(), claims.user_id.into());
    body.insert("username".to_string(), claims.username.clone().into());
    body.insert("exp".to_string(), claims.exp.into());
    body.insert("roles".to_string(), claims.roles.clone().into());
    let header = jsonwebtoken::Header::new(jsonwebtoken::Algorithm::HS512);
    let key = jsonwebtoken::EncodingKey::from_secret(secret.as_bytes());
    jsonwebtoken::encode(&header, &body, &key).ok()
}

/// `jsonwebtoken::decode` for HS512 with the secret as the key and without
/// its own look at the clock. The claims come out of the JSON object member
/// by member; an object that lacks one of the four, or holds one of another
/// type, counts as unreadable.
///
/// Believed of it: the outcome is a function of the token and the secret.
/// `decode` reports a signature that does not fit as `InvalidSignature`;
/// every other error of it is taken as an unreadable token. And where a
/// token opens, the same text with another signature part is refused for
/// its signature: `decode` cuts the token at its last dot, signs what
/// stands before it, and compares the result with what stands after it
/// before it reads any claim.
#[verifier::external_body]
fn hs512_open(token: &str, secret: &str) -> (opened: Result<TokenClaims, DecodeFault>)
    ensures
        opened is Ok <==> hs512_opened(token@, secret@) is Ok,
        opened matches Ok(claims) ==> hs512_opened(token@, secret@)->Ok_0 == claims@,
        opened matches Err(fault) ==> hs512_opened(token@, secret@)->Err_0 == fault,
        opened is Ok ==> forall|other: Seq<char>| #[trigger]
            resigned(token@, other) ==> hs512_opened(other, secret@) is Err && hs512_opened(
                other,
                secret@,
            )->Err_0 == DecodeFault::InvalidSignature,
{
    let mut rules = jsonwebtoken::Validation::new(jsonwebtoken::Algorithm::HS512);
    rules.validate_exp = false;
    let key = jsonwebtoken::DecodingKey::from_secret(secret.as_bytes());
    let body = jsonwebtoken::decode::<serde_json::Value>(token, &key, &rules)
        .map_err(|e| match e.kind() {
            jsonwebtoken::errors::ErrorKind::InvalidSignature => DecodeFault::InvalidSignature,
            _ => DecodeFault::InvalidFormat,
        })?.claims;
    let members = ["user_id", "username", "exp", "roles"].map(|name| body[name].clone());
    let (user_id, username, exp, roles) = serde_json::from_value(members.to_vec().into())
        .map_err(|_| DecodeFault::InvalidFormat)?;
    Ok(TokenClaims { user_id, username, exp, roles })
}

/// The mathematical content of the outcome of a validation.
pub open spec fn outcome_view(outcome: Result<TokenClaims, TokenError>) -> Result<Claims, TokenError> {
    match outcome {
        Ok(claims) => Ok(claims@),
        Err(error) => Err(error),
    }
}

/// What becomes of an opened credential at the time `now`: a fault found on
/// opening stays that fault, and claims are accepted unless `now` lies
/// after their `exp`.
pub open spec fn judged(opened: Result<Claims, DecodeFault>, now: usize) -> Result<
    Claims,
    TokenError,
> {
    match opened {
        Err(DecodeFault::InvalidFormat) => Err(TokenError::InvalidFormat),
        Err(DecodeFault::InvalidSignature) => Err(TokenError::InvalidSignature),
        Ok(claims) => if now > claims.exp {
            Err(TokenError::Expired)
        } else {
            Ok(claims)
        },
    }
}

/// Judges what opening a credential gave, as of the time `now`.
pub fn judge_claims(opened: Result<TokenClaims, DecodeFault>, now: usize) -> (outcome: Result<
    TokenClaims,
    TokenError,
>)
    ensures
        outcome_view(outcome) == judged(
            match opened {
                Ok(claims) => Ok(claims@),
                Err(fault) => Err(fault),
            },
            now,
        ),
        outcome matches Ok(claims) ==> opened == Ok::<TokenClaims, DecodeFault>(claims),
{
    match opened {
        Err(DecodeFault::InvalidFormat) => Err(TokenError::InvalidFormat),
        Err(DecodeFault::InvalidSignature) => Err(TokenError::InvalidSignature),
        Ok(claims) => {
            if now > claims.exp {
                Err(TokenError::Expired)
            } else {
                Ok(claims)
            }
        },
    }
}

/// What validating `token` at the time `now` comes to. The signature and
/// the shape of the token are judged first, so a forged token is refused as
/// forged even if it is also out of date; a genuine token is refused as
/// expired exactly when `now` lies after its `exp`.
pub open spec fn token_verdict(token: Seq<char>, secret: Seq<char>, now: usize) -> Result<
    Claims,
    TokenError,
> {
    judged(hs512_opened(token, secret), now)
}

/// A genuine credential that is validated after its time has run out is
/// refused as expired, and as nothing else.
pub proof fn lemma_late_is_expired(token: Seq<char>, secret: Seq<char>, now: usize)
    ensures
        hs512_opened(token, secret) is Ok && now > hs512_opened(token, secret)->Ok_0.exp
            ==> token_verdict(token, secret, now) == Err::<Claims, TokenError>(TokenError::Expired),
{
}

/// The signature is judged before the clock: a credential whose signature
/// is wrong is refused for its signature at every time, also after the
/// time that its claims name.
pub proof fn lemma_forged_at_any_time(token: Seq<char>, secret: Seq<char>, now: usize)
    ensures
        hs512_opened(token, secret) == Err::<Claims, DecodeFault>(DecodeFault::InvalidSignature)
            ==> token_verdict(token, secret, now) == Err::<Claims, TokenError>(
            TokenError::InvalidSignature,
        ),
{
}

/// Issues a credential for the given identity and roles that runs out after
/// the second `expiration_time`, signed with `secret`.
///
/// The credential is a text of three parts joined by two dots. It
/// validates, under the same secret and at any time up to
/// `expiration_time`, to exactly the claims given here; after that time it
/// is refused as expired.
pub fn generate_jwt_token(
    user_id: u64,
    username: &str,
    expiration_time: usize,
    roles: &Vec<String>,
    secret: &str,
) -> (issued: Result<String, TokenError>)
    ensures
        match issued {
            Ok(token) => {
                let claims = Claims {
                    user_id,
                    username: username@,
                    exp: expiration_time,
                    roles: roles.deep_view(),
                };
                &&& hs512_sealed(claims, secret@) == Some(token@)
                &&& dot_count(token@) == 2
                &&& forall|now: usize|
                    now <= expiration_time ==> #[trigger] token_verdict(token@, secret@, now) == Ok::<
                        Claims,
                        TokenError,
                    >(claims)
                &&& forall|now: usize|
                    now > expiration_time ==> #[trigger] token_verdict(token@, secret@, now) == Err::<
                        Claims,
                        TokenError,
                    >(TokenError::Expired)
            },
            Err(error) => {
                &&& error == TokenError::Signing
                &&& hs512_sealed(
                    Claims {
                        user_id,
                        username: username@,
                        exp: expiration_time,
                        roles: roles.deep_view(),
                    },
                    secret@,
                ) is None
            },
        },
{
    let mut held: Vec<String> = Vec::new();
    let mut i: usize = 0;
    while i < roles.len()
        invariant
            i <= roles.len(),
            held.len() == i,
            forall|j: int| 0 <= j < i ==> held[j]@ == roles[j]@,
        decreases roles.len() - i,
    {
        held.push(roles[i].clone());
        i += 1;
    }
    assert(held.deep_view() =~= roles.deep_view());
    let claims = TokenClaims {
        user_id,
        username: username.to_owned(),
        exp: expiration_time,
        roles: held,
    };
    match hs512_seal(&claims, secret) {
        Some(token) => Ok(token),
        None => Err(TokenError::Signing),
    }
}

/// Validates `token` as of the time `now` (seconds since the Unix epoch).
///
/// Besides the outcome, the contract states that the signature part of a
/// token that opens cannot be exchanged: the same text with any other
/// signature part is refused with `InvalidSignature`, at every time.
pub fn validate_jwt_token_at(token: &str, secret: &str, now: usize) -> (outcome: Result<
    TokenClaims,
    TokenError,
>)
    ensures
        outcome_view(outcome) == token_verdict(token@, secret@, now),
        hs512_opened(token@, secret@) is Ok ==> forall|other: Seq<char>, at: usize| #[trigger]
            resigned(token@, other) ==> #[trigger] token_verdict(other, secret@, at) == Err::<
                Claims,
                TokenError,
            >(TokenError::InvalidSignature),
{
    judge_claims(hs512_open(token, secret), now)
}

/// Validates `token` as of the time of the call. The time is read from the
/// clock once; the outcome is the one that [`validate_jwt_token_at`] gives
/// for that reading.
pub fn validate_jwt_token(token: &str, secret: &str) -> (outcome: Result<TokenClaims, TokenError>)
    ensures
        exists|now: usize| outcome_view(outcome) == #[trigger] token_verdict(token@, secret@, now),
{
    let now = current_time();
    validate_jwt_token_at(token, secret, now)
}

/// The user that `token` was issued to, if the token validates at the time
/// of the call.
pub fn get_user_id_by_token(token: &str, secret: &str) -> (bearer: Result<u64, TokenError>)
    ensures
        exists|now: usize|
            bearer == match #[trigger] token_verdict(token@, secret@, now) {
                Ok(claims) => Ok::<u64, TokenError>(claims.user_id),
                Err(error) => Err::<u64, TokenError>(error),
            },
{
    match validate_jwt_token(token, secret) {
        Ok(claims) => Ok(claims.user_id),
        Err(error) => Err(error),
    }
}

} // verus!
