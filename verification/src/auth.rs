//! Authentication: how requests without a valid bearer token are refused, and the
//! decisions of logging in, registering and refreshing a session.
use vstd::prelude::*;
use crate::model::{EncryptedMetadata, NodeEntity, NodeId, NodeType, UserEntity, UserId, UserKeys};
use crate::reply::{DatabaseError, Refusal};
use crate::shard::{hyphenated, push_hyphenated};
use crate::text::push_char;
use vstd::string::StringExecFns;

verus! {

/// Why a request could not be authenticated.
#[derive(Clone, Copy, Debug, PartialEq, Eq, Structural)]
pub enum AuthError {
    Unauthorized,
    Expired,
    NoToken,
    ServerError,
    NoUser,
}

/// The message a refused authentication is answered with.
pub open spec fn auth_message(error: AuthError) -> Seq<char> {
    match error {
        AuthError::Unauthorized => "Access denied, this incident will be reported. Watch out for the white van below you window"@,
        AuthError::NoToken => "missing token"@,
        AuthError::Expired => "expired token"@,
        AuthError::ServerError => "server error during authentication"@,
        AuthError::NoUser => "user does not exist"@,
    }
}

impl AuthError {
    /// The message the error is answered with, under the key `error`.
    pub fn error_message(&self) -> (message: String)
        ensures
            message@ == auth_message(*self),
    {
        match self {
            AuthError::Unauthorized => String::from_str(
                "Access denied, this incident will be reported. Watch out for the white van below you window",
            ),
            AuthError::NoToken => String::from_str("missing token"),
            AuthError::Expired => String::from_str("expired token"),
            AuthError::ServerError => String::from_str("server error during authentication"),
            AuthError::NoUser => String::from_str("user does not exist"),
        }
    }

    /// Every refused authentication is answered with 401.
    pub fn status_code(&self) -> (code: u16)
        ensures
            code == 401,
    {
        401
    }
}

/// What a bearer token claims: the user and when the token expires (Unix seconds).
pub struct Claims {
    pub user_id: UserId,
    pub exp: i64,
}

/// The token that `jsonwebtoken::encode` makes with the default header (HS256) for
/// the claims `{"user_id": user_id, "exp": exp}` and the key from `secret`. Its
/// header and claims are base64url-encoded JSON and its signature an HMAC over them,
/// so the token depends on these three values alone.
pub uninterp spec fn signed_token(user_id: Seq<char>, exp: i64, secret: Seq<u8>) -> Seq<char>;

/// The claims `user_id` (a string) and `exp` (an integer from 0 up to `i64::MAX`) of a
/// token that `jsonwebtoken::decode`, with `DecodingKey::from_secret(secret)` and the
/// default validation, accepts when it runs before `exp` has passed: the token has
/// the JWT shape and an HS256 header, its signature checks under the secret, and every
/// check of the claims other than the expiry passes. `None` for every other token.
/// None of these checks depends on the time, so the claims depend on the token and
/// the secret alone.
pub uninterp spec fn verified_claims(token: Seq<char>, secret: Seq<u8>) -> Option<(Seq<char>, i64)>;

/// Signs the claims `user_id` and `exp` with `secret` (`jsonwebtoken::encode` with the
/// default header and `EncodingKey::from_secret`). The claims are handed to it as a
/// JSON object with the fields `user_id` (a string) and `exp` (a number).
///
/// The contract claims what the crate's source shows: `encode` fails only for a key of
/// another algorithm family or claims that do not serialise, neither of which can
/// happen here, so a token always comes back; it is `signed_token` of the arguments;
/// and for an `exp` from 0 on, decoding it with the same secret reads these claims back.
#[verifier::external_body]
fn encode_token(user_id: &str, exp: i64, secret: &[u8]) -> (token: Result<String, ()>)
    ensures
        token is Ok,
        token matches Ok(t) ==> t@ == signed_token(user_id@, exp, secret@),
        token matches Ok(t) ==> (0 <= exp ==> verified_claims(t@, secret@) == Some((user_id@, exp))),
{
    let mut claims = serde_json::Map::new();
    claims.insert(String::from("user_id"), serde_json::Value::from(user_id));
    claims.insert(String::from("exp"), serde_json::Value::from(exp));
    let key = jsonwebtoken::EncodingKey::from_secret(secret);
    jsonwebtoken::encode(&jsonwebtoken::Header::default(), &serde_json::Value::Object(claims), &key).map_err(|_| ())
}

/// Checks a token's signature against `secret` and its expiry against the clock
/// (`jsonwebtoken::decode` with `DecodingKey::from_secret` and the default validation:
/// HS256, `exp` required, 60 seconds of leeway), and reads the claims `user_id` (a
/// string) and `exp` (an integer). `Err(true)` is an expired signature, `Err(false)`
/// every other failure, claims of another form included. The signature and expiry
/// are checked before the claims are read, so an expired token is reported expired
/// whatever its claims hold.
///
/// Whether a token has expired depends on the time of the call, so the contract claims
/// what holds at every time: a token with `verified_claims` gives back exactly those
/// claims or is reported expired; any other token is refused.
#[verifier::external_body]
fn decode_token(token: &str, secret: &[u8]) -> (claims: Result<(String, i64), bool>)
    ensures
        match verified_claims(token@, secret@) {
            Some((user_id, exp)) => claims == Err::<(String, i64), bool>(true) || (claims matches Ok((u, e))
                && u@ == user_id && e == exp),
            None => claims is Err,
        },
{
    let key = jsonwebtoken::DecodingKey::from_secret(secret);
    let validation = jsonwebtoken::Validation::default();
    let data = jsonwebtoken::decode::<serde_json::Map<String, serde_json::Value>>(token, &key, &validation)
        .map_err(|e| match e.kind() {
            jsonwebtoken::errors::ErrorKind::ExpiredSignature => true,
            _ => false,
        })?;
    match (data.claims.get("user_id"), data.claims.get("exp").and_then(serde_json::Value::as_i64)) {
        (Some(serde_json::Value::String(user_id)), Some(exp)) => Ok((user_id.clone(), exp)),
        _ => Err(false),
    }
}

/// The id that `uuid::Uuid::try_parse` reads from a text, as a number (`as_u128`).
pub uninterp spec fn parsed_uuid(text: Seq<char>) -> Option<u128>;

/// Reads a UUID (`uuid::Uuid::try_parse`, then `as_u128`). The crate accepts the
/// hyphenated form, upper or lower case, and the simple, braced and URN forms; the
/// contract names the result and states the one case the library relies on: the
/// lower-case hyphenated form of an id reads back as that id.
#[verifier::external_body]
fn parse_uuid(text: &str) -> (id: Option<u128>)
    ensures
        id == parsed_uuid(text@),
        forall|v: u128| text@ == #[trigger] hyphenated(v) ==> id == Some(v),
{
    uuid::Uuid::try_parse(text).ok().map(|id| id.as_u128())
}

/// The claims a user id text and an expiry stand for: the id read as a UUID, else a
/// failure that is not an expiry.
pub open spec fn claims_of(user_id: Seq<char>, exp: i64) -> Result<Claims, bool> {
    match parsed_uuid(user_id) {
        Some(id) => Ok(Claims { user_id: id, exp }),
        None => Err(false),
    }
}

/// The claims of a decoded token: its user id text read as a UUID; a text that is no
/// UUID fails (not as an expiry), and a failed decoding stays as it is.
pub fn claims_from(decoded: Result<(String, i64), bool>) -> (claims: Result<Claims, bool>)
    ensures
        match decoded {
            Err(expired) => claims == Err::<Claims, bool>(expired),
            Ok((user_id, exp)) => claims == claims_of(user_id@, exp) && forall|id: UserId|
                user_id@ == #[trigger] hyphenated(id) ==> claims == Ok::<Claims, bool>(Claims { user_id: id, exp }),
        },
{
    match decoded {
        Err(expired) => Err(expired),
        Ok((user_id, exp)) => match parse_uuid(user_id.as_str()) {
            Some(id) => Ok(Claims { user_id: id, exp }),
            None => Err(false),
        },
    }
}

/// A bearer token for the user, valid for `expires_in_seconds` from `now` (Unix
/// seconds): its `exp` claim is `now + expires_in_seconds`, and the user's id is
/// written in its hyphenated form. A token always comes back; decoding it with the
/// same secret reads back the id and the expiry, when the expiry is not negative.
pub fn new_bearer_token(user_id: UserId, expires_in_seconds: i64, now: i64, secret: &[u8]) -> (token: Result<String, ()>)
    requires
        -9_223_372_036_854_775 <= expires_in_seconds <= 9_223_372_036_854_775,
        i64::MIN <= now + expires_in_seconds <= i64::MAX,
    ensures
        token is Ok,
        token matches Ok(t) ==> t@ == signed_token(hyphenated(user_id), (now + expires_in_seconds) as i64, secret@),
        token matches Ok(t) ==> (0 <= now + expires_in_seconds ==> verified_claims(t@, secret@) == Some(
            (hyphenated(user_id), (now + expires_in_seconds) as i64),
        )),
{
    let exp = now + expires_in_seconds;
    let mut id_text = String::new();
    push_hyphenated(&mut id_text, user_id);
    assert(id_text@ =~= hyphenated(user_id));
    encode_token(id_text.as_str(), exp, secret)
}

/// The claims of a bearer token signed with `secret`; `Err(true)` when its signature
/// has expired, `Err(false)` for every other failure. A token without `verified_claims`
/// under the secret (a bad signature or shape, claims of another form) is refused.
/// One with verified claims gives back the user read from them and their expiry, or
/// is reported expired, which depends on the time of the call; a user id in the
/// hyphenated form reads back as that id, so a token that `new_bearer_token` made with
/// the same secret gives back the user and expiry it was made for, or is reported
/// expired.
pub fn decode_bearer_token(token: &str, secret: &[u8]) -> (claims: Result<Claims, bool>)
    ensures
        match verified_claims(token@, secret@) {
            Some((user_id, exp)) => claims == Err::<Claims, bool>(true) || claims == claims_of(user_id, exp),
            None => claims is Err,
        },
        verified_claims(token@, secret@) matches Some((user_id, exp)) ==> forall|id: UserId|
            user_id == #[trigger] hyphenated(id) ==> (claims == Ok::<Claims, bool>(Claims { user_id: id, exp })
                || claims == Err::<Claims, bool>(true)),
{
    let decoded = decode_token(token, secret);
    let claims = claims_from(decoded);
    claims
}

/// How a token that could not be decoded is refused: an expired signature is
/// reported as such, everything else as unauthorized.
pub fn decode_failure(expired_signature: bool) -> (error: AuthError)
    ensures
        error == (if expired_signature { AuthError::Expired } else { AuthError::Unauthorized }),
{
    if expired_signature {
        AuthError::Expired
    } else {
        AuthError::Unauthorized
    }
}

/// The user a valid token names: a failed lookup is a server error, a user that no
/// longer exists is refused.
pub fn authenticated_user(lookup: Result<Option<UserEntity>, DatabaseError>) -> (user: Result<UserEntity, AuthError>)
    ensures
        match user {
            Ok(u) => lookup == Result::<Option<UserEntity>, DatabaseError>::Ok(Some(u)),
            Err(e) => match lookup {
                Err(_) => e == AuthError::ServerError,
                Ok(None) => e == AuthError::NoUser,
                Ok(Some(_)) => false,
            },
        },
{
    match lookup {
        Err(_) => Err(AuthError::ServerError),
        Ok(None) => Err(AuthError::NoUser),
        Ok(Some(u)) => Ok(u),
    }
}

/// What a successful login hands the client.
pub struct LoginSuccess {
    pub bearer_token: String,
    /// Where the client goes first: `/` and the id of the user's root node.
    pub redirect_url: String,
    pub root_id: NodeId,
    pub trash_id: NodeId,
    /// Whether the client still has to set up the user's keys.
    pub should_initialize_encryption: bool,
    /// The user's keys, once they are set up.
    pub keys: Option<UserKeys>,
}

/// The user whose name and password matched; refused as unauthorized otherwise.
pub fn login_user(user: Option<UserEntity>) -> (found: Result<UserEntity, Refusal>)
    ensures
        match found {
            Ok(u) => user == Some(u),
            Err(r) => r is Unauthorized && user is None,
        },
{
    match user {
        Some(u) => Ok(u),
        None => Err(Refusal::Unauthorized),
    }
}

/// The answer to a successful login. Every registered user has a root and a trash
/// node; the keys are handed out only once the client has set them up.
pub fn login_success(user: UserEntity, bearer_token: String) -> (success: LoginSuccess)
    requires
        user.root_node is Some,
        user.trash_node is Some,
    ensures
        success.bearer_token == bearer_token,
        success.redirect_url@ == seq!['/'] + hyphenated(user.root_node->0),
        success.root_id == user.root_node->0,
        success.trash_id == user.trash_node->0,
        success.should_initialize_encryption == user.encryption_uninitialized,
        success.keys == (if user.encryption_uninitialized { None } else { Some(user.keys) }),
{
    let root_id = match user.root_node {
        Some(id) => id,
        None => 0,
    };
    let trash_id = match user.trash_node {
        Some(id) => id,
        None => 0,
    };
    let mut redirect_url = String::new();
    push_char(&mut redirect_url, '/');
    push_hyphenated(&mut redirect_url, root_id);
    let keys = if user.encryption_uninitialized {
        None
    } else {
        Some(user.keys)
    };
    LoginSuccess {
        bearer_token,
        redirect_url,
        root_id,
        trash_id,
        should_initialize_encryption: user.encryption_uninitialized,
        keys,
    }
}

/// The storage a new user may use: 15 GB.
pub const DEFAULT_STORAGE_LIMIT: u64 = 15_000_000_000;

/// A name that is taken cannot be registered again: a conflict.
pub fn register_check(username_taken: bool) -> (allowed: Result<(), Refusal>)
    ensures
        allowed is Ok <==> !username_taken,
        allowed matches Err(r) ==> r is Conflict,
{
    if username_taken {
        Err(Refusal::Conflict)
    } else {
        Ok(())
    }
}

/// A folder of a new user without a parent (its root or its trash), whose metadata
/// the client initialises at its first login.
pub fn personal_folder(owner: UserId, id: NodeId) -> (folder: NodeEntity)
    ensures
        folder.id == id,
        folder.parent_id is None,
        folder.owner_id == owner,
        folder.metadata.data@ == Seq::<u8>::empty(),
        folder.metadata.iv@ == seq![0u8; 12],
        folder.deleted_on is None,
        folder.metadata_change_counter == 0,
        folder.current_revision is None,
        folder.node_type == NodeType::Folder,
{
    crate::files::new_node(None, EncryptedMetadata::nil(), owner, NodeType::Folder, id)
}

/// A new user with the root and the trash node created for it.
pub fn with_personal_nodes(user: UserEntity, root: NodeId, trash: NodeId) -> (updated: UserEntity)
    ensures
        updated == (UserEntity { root_node: Some(root), trash_node: Some(trash), ..user }),
{
    UserEntity { root_node: Some(root), trash_node: Some(trash), ..user }
}

/// The refresh token a client presents in its cookie; refused as unauthorized
/// without one.
pub fn refresh_token(cookie: Option<String>) -> (token: Result<String, Refusal>)
    ensures
        match token {
            Ok(t) => cookie == Some(t),
            Err(r) => r is Unauthorized && cookie is None,
        },
{
    match cookie {
        Some(t) => Ok(t),
        None => Err(Refusal::Unauthorized),
    }
}

/// The new refresh token and bearer token of a refreshed session: a failed refresh
/// is a database error, an unknown or spent refresh token is unauthorized.
pub fn refreshed(result: Result<Option<(String, String)>, DatabaseError>) -> (tokens: Result<(String, String), Refusal>)
    ensures
        match tokens {
            Ok(t) => result == Result::<Option<(String, String)>, DatabaseError>::Ok(Some(t)),
            Err(r) => match result {
                Err(_) => r is DatabaseError,
                Ok(None) => r is Unauthorized,
                Ok(Some(_)) => false,
            },
        },
{
    match result {
        Err(_) => Err(Refusal::DatabaseError),
        Ok(None) => Err(Refusal::Unauthorized),
        Ok(Some(t)) => Ok(t),
    }
}

} // verus!
