//! Signing in: how a password is checked against the record of a user, and
//! what a session allows.

use base64::Engine;
use sha2::Digest;
use vstd::prelude::*;
use vstd::string::*;
use crate::config::firebase::{
    CollectionSelector, FieldMap, Filter, FirestoreDocument, FirestoreValue, StructuredQuery,
    WireValue, extract_document_id, flag_at, text_at,
};
use crate::text::{last_segment, str_eq};

verus! {

/// `base64::DecodeError`, the reason why a text did not decode. It is
/// carried through and never looked into.
#[verifier::external_type_specification]
#[verifier::external_body]
pub struct ExDecodeError(base64::DecodeError);

/// The SHA-256 digest of a run of bytes.
pub uninterp spec fn sha256_digest(data: Seq<u8>) -> Seq<u8>;

/// The base64 text of a run of bytes, in the standard alphabet with padding.
pub uninterp spec fn base64_standard(bytes: Seq<u8>) -> Seq<char>;

/// The bytes that a base64 text stands for, in the standard alphabet with
/// padding. `None` where the text is no such encoding.
pub uninterp spec fn base64_standard_decoded(text: Seq<char>) -> Option<Seq<u8>>;

/// Hashes `first` followed by `second` with `sha2::Sha256`: a new hasher,
/// one `update` for each part, then `finalize`. Claimed is that the result
/// is the digest of the two parts joined, and that it is 32 bytes long.
#[verifier::external_body]
fn sha256_of_pair(first: &[u8], second: &[u8]) -> (digest: Vec<u8>)
    ensures
        digest@ == sha256_digest(first@ + second@),
        digest@.len() == 32,
{
    let mut hasher = sha2::Sha256::new();
    hasher.update(first);
    hasher.update(second);
    hasher.finalize().to_vec()
}

/// Encodes bytes with `base64::Engine::encode` of the `STANDARD` engine.
/// Claimed is that the result depends on the bytes alone. Lengths whose
/// encoding would not fit the address space are left out.
#[verifier::external_body]
fn base64_encode(bytes: &[u8]) -> (text: String)
    requires
        bytes@.len() <= 0x3fff_ffff,
    ensures
        text@ == base64_standard(bytes@),
{
    base64::engine::general_purpose::STANDARD.encode(bytes)
}

/// Decodes a text with `base64::Engine::decode` of the `STANDARD` engine.
/// Claimed is that the result depends on the text alone: the bytes where it
/// decodes, and an error where it does not.
#[verifier::external_body]
fn base64_decode(text: &str) -> (decoded: Result<Vec<u8>, base64::DecodeError>)
    ensures
        match decoded {
            Ok(bytes) => base64_standard_decoded(text@) == Some(bytes@),
            Err(_) => base64_standard_decoded(text@).is_none(),
        },
{
    base64::engine::general_purpose::STANDARD.decode(text)
}

/// What `base64::DecodeError` says of itself in words. Nothing is claimed
/// of the text.
#[verifier::external_body]
fn decode_error_text(error: &base64::DecodeError) -> (text: String) {
    format!("{}", error)
}

/// Why signing in, or an action that needs a session, is refused.
#[derive(Debug, Clone, PartialEq)]
pub enum AuthError {
    /// No court was named.
    CourtRequired,
    /// The users of the court could not be asked.
    QueryFailed { detail: String },
    /// The court knows no user of that e-mail address.
    NoAccount,
    /// The record of the user holds no password hash.
    MissingPasswordHash,
    /// The record of the user holds no salt.
    MissingSalt,
    /// The salt of the user is no base64 text.
    InvalidSalt { detail: String },
    /// The password does not match.
    InvalidPassword,
    /// The account is not active.
    Inactive,
    /// Nobody is signed in.
    NotAuthenticated,
}

/// What an error says in words.
pub open spec fn error_text(error: AuthError) -> Seq<char> {
    match error {
        AuthError::CourtRequired => "Court ID is required."@,
        AuthError::QueryFailed { detail } => "Failed to query users: "@ + detail@,
        AuthError::NoAccount => "No account found with that email in this court."@,
        AuthError::MissingPasswordHash => "User record missing password hash."@,
        AuthError::MissingSalt => "User record missing salt."@,
        AuthError::InvalidSalt { detail } => "Invalid salt encoding: "@ + detail@,
        AuthError::InvalidPassword => "Invalid password."@,
        AuthError::Inactive => "Account is not active. Please contact administrator."@,
        AuthError::NotAuthenticated => "Not authenticated. Please log in first."@,
    }
}

impl AuthError {
    /// The error in words.
    pub fn message(&self) -> (text: String)
        ensures
            text@ == error_text(*self),
    {
        match self {
            AuthError::CourtRequired => String::from_str("Court ID is required."),
            AuthError::QueryFailed { detail } => {
                let mut text = String::from_str("Failed to query users: ");
                text.append(detail.as_str());
                text
            },
            AuthError::NoAccount => String::from_str(
                "No account found with that email in this court.",
            ),
            AuthError::MissingPasswordHash => String::from_str("User record missing password hash."),
            AuthError::MissingSalt => String::from_str("User record missing salt."),
            AuthError::InvalidSalt { detail } => {
                let mut text = String::from_str("Invalid salt encoding: ");
                text.append(detail.as_str());
                text
            },
            AuthError::InvalidPassword => String::from_str("Invalid password."),
            AuthError::Inactive => String::from_str(
                "Account is not active. Please contact administrator.",
            ),
            AuthError::NotAuthenticated => String::from_str(
                "Not authenticated. Please log in first.",
            ),
        }
    }
}

/// The hash under which a password is stored: the base64 text of the
/// SHA-256 digest of the salt followed by the password.
pub open spec fn password_hash_of(password: Seq<u8>, salt: Seq<u8>) -> Seq<char> {
    base64_standard(sha256_digest(salt + password))
}

/// Hashes a password with its salt.
pub fn hash_password(password: &str, salt: &[u8]) -> (hash: String)
    ensures
        hash@ == password_hash_of(password.spec_bytes(), salt@),
{
    let digest = sha256_of_pair(salt, password.as_bytes());
    base64_encode(digest.as_slice())
}

/// What is known of a user who signed in.
#[derive(Debug, Clone, PartialEq)]
pub struct LoginInfo {
    pub court_id: String,
    pub full_name: String,
    pub role: String,
}

/// Whether a hash that was computed from a password is the stored one, and
/// the account is active. An account without a status counts as active.
pub open spec fn judged(stored_hash: Seq<char>, computed_hash: Seq<char>, status: Option<Seq<char>>) -> Result<
    (),
    AuthError,
> {
    if computed_hash != stored_hash {
        Err(AuthError::InvalidPassword)
    } else if status.is_some() && status.unwrap() != "ACTIVE"@ {
        Err(AuthError::Inactive)
    } else {
        Ok(())
    }
}

/// Judges a sign-in by the stored hash, the hash computed from the password
/// that was given, and the status of the account.
pub fn judge_login(stored_hash: &str, computed_hash: &str, status: Option<&str>) -> (verdict:
    Result<(), AuthError>)
    ensures
        verdict == judged(
            stored_hash@,
            computed_hash@,
            match status {
                Some(s) => Some(s@),
                None => None,
            },
        ),
{
    if !str_eq(computed_hash, stored_hash) {
        return Err(AuthError::InvalidPassword);
    }
    match status {
        Some(s) => {
            if !str_eq(s, "ACTIVE") {
                return Err(AuthError::Inactive);
            }
        },
        None => {},
    }
    Ok(())
}

/// The text under `key`, or the empty text.
pub open spec fn text_or_empty(fields: Map<Seq<char>, WireValue>, key: Seq<char>) -> Seq<char> {
    match text_at(fields, key) {
        Some(text) => text,
        None => Seq::empty(),
    }
}

/// Whether `outcome` is what the sign-in of a user comes to, given the
/// record of the user and the password that was given. The record must hold
/// a password hash and a salt in base64; the password, hashed with that salt,
/// must give that hash; the account must be active. The name and the role of
/// the user go with a sign-in that succeeds.
pub open spec fn signs_in(
    outcome: Result<(String, String), AuthError>,
    fields: Map<Seq<char>, WireValue>,
    password: Seq<u8>,
) -> bool {
    match text_at(fields, "passwordHash"@) {
        None => outcome == Err::<(String, String), AuthError>(AuthError::MissingPasswordHash),
        Some(stored) => match text_at(fields, "salt"@) {
            None => outcome == Err::<(String, String), AuthError>(AuthError::MissingSalt),
            Some(salt_text) => match base64_standard_decoded(salt_text) {
                None => outcome matches Err(AuthError::InvalidSalt { .. }),
                Some(salt) => match judged(
                    stored,
                    password_hash_of(password, salt),
                    text_at(fields, "status"@),
                ) {
                    Err(error) => outcome == Err::<(String, String), AuthError>(error),
                    Ok(_) => outcome matches Ok(names) && names.0@ == text_or_empty(
                        fields,
                        "fullName"@,
                    ) && names.1@ == text_or_empty(fields, "role"@),
                },
            },
        },
    }
}

/// Checks a password against the record of a user. Gives the full name and
/// the role of the user where the password matches and the account is
/// active.
pub fn check_login(fields: &FieldMap, password: &str) -> (outcome: Result<
    (String, String),
    AuthError,
>)
    ensures
        signs_in(outcome, fields@, password.spec_bytes()),
{
    let stored = match fields.get_str("passwordHash") {
        Some(text) => text,
        None => {
            return Err(AuthError::MissingPasswordHash);
        },
    };
    let salt_text = match fields.get_str("salt") {
        Some(text) => text,
        None => {
            return Err(AuthError::MissingSalt);
        },
    };
    let salt = match base64_decode(salt_text) {
        Ok(bytes) => bytes,
        Err(error) => {
            return Err(AuthError::InvalidSalt { detail: decode_error_text(&error) });
        },
    };
    let computed = hash_password(password, salt.as_slice());
    match judge_login(stored, computed.as_str(), fields.get_str("status")) {
        Err(error) => {
            return Err(error);
        },
        Ok(_) => {},
    }
    let full_name = match fields.get_str("fullName") {
        Some(text) => String::from_str(text),
        None => String::new(),
    };
    let role = match fields.get_str("role") {
        Some(text) => String::from_str(text),
        None => String::new(),
    };
    Ok((full_name, role))
}

/// Whether `query` asks for the one user of the e-mail address `email`.
pub open spec fn asks_for_user(query: &StructuredQuery, email: Seq<char>) -> bool {
    &&& query.from@.len() == 1
    &&& query.from@[0].collection_id@ == "users"@
    &&& query.filter matches Some(filter)
    &&& filter.composite_filter.is_none()
    &&& filter.field_filter matches Some(field)
    &&& field.field.field_path@ == "email"@
    &&& field.op@ == "EQUAL"@
    &&& field.value@ == WireValue::Text(email)
    &&& query.order_by.is_none()
    &&& query.limit == Some(1i32)
    &&& query.offset.is_none()
}

/// The query that finds the user of an e-mail address among the users of a
/// court.
pub fn login_query(email: &str) -> (query: StructuredQuery)
    ensures
        asks_for_user(&query, email@),
{
    let mut from: Vec<CollectionSelector> = Vec::new();
    from.push(CollectionSelector { collection_id: String::from_str("users") });
    StructuredQuery {
        from,
        filter: Some(Filter::field("email", "EQUAL", FirestoreValue::string(email))),
        order_by: None,
        limit: Some(1),
        offset: None,
    }
}

/// Who is signed in, and to which court.
#[derive(Debug, Clone, PartialEq)]
pub struct Session {
    pub court_id: Option<String>,
    pub user_email: Option<String>,
}

impl Session {
    /// A session in which nobody is signed in.
    pub fn new() -> (session: Session)
        ensures
            session.court_id.is_none(),
            session.user_email.is_none(),
    {
        Session { court_id: None, user_email: None }
    }

    /// The court that a sign-in names. Without one nobody signs in.
    pub fn require_court(court_id: Option<String>) -> (court: Result<String, AuthError>)
        ensures
            match court_id {
                Some(id) => court == Ok::<String, AuthError>(id),
                None => court == Err::<String, AuthError>(AuthError::CourtRequired),
            },
    {
        match court_id {
            Some(id) => Ok(id),
            None => Err(AuthError::CourtRequired),
        }
    }

    /// Signs a user in by the answer to the query for the user's record:
    /// the first document that came is the record. The session is bound to
    /// the court and the user where the sign-in succeeds, and is left as it
    /// was where it does not.
    pub fn sign_in(
        &mut self,
        court_id: String,
        email: String,
        password: &str,
        documents: &Vec<FirestoreDocument>,
    ) -> (outcome: Result<LoginInfo, AuthError>)
        ensures
            documents@.len() == 0 ==> outcome matches Err(AuthError::NoAccount),
            documents@.len() > 0 ==> match outcome {
                Ok(info) => info.court_id == court_id && signs_in(
                    Ok((info.full_name, info.role)),
                    documents@[0].fields@,
                    password.spec_bytes(),
                ),
                Err(error) => signs_in(Err(error), documents@[0].fields@, password.spec_bytes()),
            },
            match outcome {
                Ok(_) => final(self).court_id == Some(court_id) && final(self).user_email == Some(
                    email,
                ),
                Err(_) => *final(self) == *old(self),
            },
    {
        if documents.len() == 0 {
            return Err(AuthError::NoAccount);
        }
        match check_login(&documents[0].fields, password) {
            Ok((full_name, role)) => {
                self.court_id = Some(court_id.clone());
                self.user_email = Some(email);
                Ok(LoginInfo { court_id, full_name, role })
            },
            Err(error) => Err(error),
        }
    }

    /// Signs out: the session is bound to no court and no user.
    pub fn sign_out(&mut self)
        ensures
            final(self).court_id.is_none(),
            final(self).user_email.is_none(),
    {
        self.court_id = None;
        self.user_email = None;
    }

    /// Binds the session to a court.
    pub fn set_court_id(&mut self, court_id: String)
        ensures
            final(self).court_id == Some(court_id),
            final(self).user_email == old(self).user_email,
    {
        self.court_id = Some(court_id);
    }

    /// Whether a sync may be asked for: somebody must be signed in.
    pub fn may_sync(&self) -> (allowed: Result<(), AuthError>)
        ensures
            match allowed {
                Ok(_) => self.user_email.is_some(),
                Err(error) => self.user_email.is_none() && error == AuthError::NotAuthenticated,
            },
    {
        match &self.user_email {
            Some(_) => Ok(()),
            None => Err(AuthError::NotAuthenticated),
        }
    }
}

/// A court as the list of courts shows it.
#[derive(Debug, Clone, PartialEq)]
pub struct CourtEntry {
    pub court_id: String,
    pub name: String,
    pub location: String,
    pub is_active: bool,
}

/// Whether `entry` shows the court that `document` describes: its
/// identifier from the document's name, its name (`Unknown` where the
/// document holds none), its location (empty where it holds none), and
/// whether it is active (which it is where the document does not say).
pub open spec fn shows_court(entry: &CourtEntry, document: &FirestoreDocument) -> bool {
    &&& entry.court_id@ == last_segment(document.name@)
    &&& entry.name@ == match text_at(document.fields@, "name"@) {
        Some(text) => text,
        None => "Unknown"@,
    }
    &&& entry.location@ == text_or_empty(document.fields@, "location"@)
    &&& entry.is_active == match flag_at(document.fields@, "isActive"@) {
        Some(flag) => flag,
        None => true,
    }
}

/// The entry of the list of courts for one document.
pub fn court_entry(document: &FirestoreDocument) -> (entry: CourtEntry)
    ensures
        shows_court(&entry, document),
{
    CourtEntry {
        court_id: extract_document_id(document.name.as_str()),
        name: match document.fields.get_str("name") {
            Some(text) => String::from_str(text),
            None => String::from_str("Unknown"),
        },
        location: match document.fields.get_str("location") {
            Some(text) => String::from_str(text),
            None => String::new(),
        },
        is_active: match document.fields.get_bool("isActive") {
            Some(flag) => flag,
            None => true,
        },
    }
}

/// The list of courts for the documents of the collection of courts, in
/// their order.
pub fn list_courts(documents: &Vec<FirestoreDocument>) -> (courts: Vec<CourtEntry>)
    ensures
        courts@.len() == documents@.len(),
        forall|i: int| 0 <= i < documents@.len() ==> shows_court(#[trigger] &courts@[i], &documents@[i]),
{
    let mut courts: Vec<CourtEntry> = Vec::new();
    let mut i: usize = 0;
    while i < documents.len()
        invariant
            0 <= i <= documents@.len(),
            courts@.len() == i,
            forall|j: int| 0 <= j < i ==> shows_court(#[trigger] &courts@[j], &documents@[j]),
        decreases documents@.len() - i,
    {
        courts.push(court_entry(&documents[i]));
        i = i + 1;
    }
    courts
}

} // verus!
