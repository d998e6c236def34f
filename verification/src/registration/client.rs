//! The client that a registration makes: its owner, its name, its record and
//! what is told of it.

use vstd::prelude::*;
use vstd::utf8;

use crate::registration::metadata;
use crate::registration::metadata::{ClientMetadata, MetadataView};
use crate::text;
use crate::text::{byte_len, contains_text, join, starts_with, trim};

verus! {

/// What the name of every dynamically registered client starts with.
pub const DYNAMIC_CLIENT_NAME_PREFIX: &'static str = "[dynamic] ";

/// The name of a client that gives none.
pub const DEFAULT_CLIENT_NAME: &'static str = "MCP client";

/// The most bytes of the name that a client gives.
pub const MAX_CLIENT_NAME_BYTES: usize = 128;

/// The most dynamically registered clients that are not revoked.
pub const MAX_ACTIVE_DYNAMIC_CLIENTS: usize = 256;

/// What the server's configuration says of OAuth.
#[derive(Debug, Clone, PartialEq, Eq)]
pub struct OAuthSettings {
    pub enabled: bool,
    pub dynamic_client_registration_enabled: bool,
    /// The callbacks of clients that may use a refresh token again.
    pub confidential_reuse_redirect_uris: Vec<String>,
}

/// What becomes of a refresh token that is used.
#[derive(Debug, Clone, Copy, PartialEq, Eq, Structural)]
pub enum OAuthRefreshTokenMode {
    /// A new one takes its place.
    Rotating,
    /// The same confidential client may use it again.
    ConfidentialReuse,
}

/// A managed user.
#[derive(Debug, Clone, PartialEq, Eq)]
pub struct ManagedUser {
    pub id: String,
    pub disabled: bool,
}

/// A client as it is stored.
#[derive(Debug, Clone, PartialEq, Eq)]
pub struct OAuthClientRecord {
    pub id: String,
    pub client_id: String,
    /// The hash of the secret that the client was told.
    pub client_secret_hash: String,
    pub name: String,
    /// One to a line.
    pub redirect_uris: String,
    /// With spaces between them.
    pub allowed_scopes: String,
    pub owner_user_id: Option<String>,
    pub owner_project_grant_id: Option<String>,
    pub owner_shared_key_hash: Option<String>,
    pub created_at: i64,
    pub revoked_at: Option<i64>,
}

pub struct RecordView {
    pub id: Seq<char>,
    pub client_id: Seq<char>,
    pub client_secret_hash: Seq<char>,
    pub name: Seq<char>,
    pub redirect_uris: Seq<char>,
    pub allowed_scopes: Seq<char>,
    pub owner_user_id: Option<Seq<char>>,
    pub owner_project_grant_id: Option<Seq<char>>,
    pub owner_shared_key_hash: Option<Seq<char>>,
    pub created_at: i64,
    pub revoked_at: Option<i64>,
}

impl View for OAuthClientRecord {
    type V = RecordView;

    open spec fn view(&self) -> RecordView {
        RecordView {
            id: self.id@,
            client_id: self.client_id@,
            client_secret_hash: self.client_secret_hash@,
            name: self.name@,
            redirect_uris: self.redirect_uris@,
            allowed_scopes: self.allowed_scopes@,
            owner_user_id: text::text_of(self.owner_user_id),
            owner_project_grant_id: text::text_of(self.owner_project_grant_id),
            owner_shared_key_hash: text::text_of(self.owner_shared_key_hash),
            created_at: self.created_at,
            revoked_at: self.revoked_at,
        }
    }
}

/// What a registered client is told.
#[derive(Debug, Clone, PartialEq, Eq)]
pub struct RegistrationResponse {
    pub client_id: String,
    pub client_secret: String,
    pub client_id_issued_at: i64,
    pub client_secret_expires_at: i64,
    pub client_name: String,
    pub redirect_uris: Vec<String>,
    pub grant_types: Vec<String>,
    pub response_types: Vec<String>,
    pub application_type: String,
    pub token_endpoint_auth_method: String,
    pub scope: String,
}

pub struct ResponseView {
    pub client_id: Seq<char>,
    pub client_secret: Seq<char>,
    pub client_id_issued_at: i64,
    pub client_secret_expires_at: i64,
    pub client_name: Seq<char>,
    pub redirect_uris: Seq<Seq<char>>,
    pub grant_types: Seq<Seq<char>>,
    pub response_types: Seq<Seq<char>>,
    pub application_type: Seq<char>,
    pub token_endpoint_auth_method: Seq<char>,
    pub scope: Seq<char>,
}

impl View for RegistrationResponse {
    type V = ResponseView;

    open spec fn view(&self) -> ResponseView {
        ResponseView {
            client_id: self.client_id@,
            client_secret: self.client_secret@,
            client_id_issued_at: self.client_id_issued_at,
            client_secret_expires_at: self.client_secret_expires_at,
            client_name: self.client_name@,
            redirect_uris: text::texts(self.redirect_uris@),
            grant_types: text::texts(self.grant_types@),
            response_types: text::texts(self.response_types@),
            application_type: self.application_type@,
            token_endpoint_auth_method: self.token_endpoint_auth_method@,
            scope: self.scope@,
        }
    }
}

/// What a client proves itself with. The secret is told once and not stored;
/// what is stored in its place is its hash.
#[derive(Debug, Clone, PartialEq, Eq)]
pub struct IssuedCredentials {
    pub client_id: String,
    pub client_secret: String,
}

// The owner.

/// The first user that is not disabled.
pub open spec fn first_enabled(users: Seq<ManagedUser>) -> Option<Seq<char>>
    decreases users.len(),
{
    if users.len() == 0 {
        None
    } else if !users[0].disabled {
        Some(users[0].id@)
    } else {
        first_enabled(users.drop_first())
    }
}

/// The user that owns dynamically registered clients: the first that is not
/// disabled.
pub fn dynamic_client_owner(users: &Vec<ManagedUser>) -> (result: Option<String>)
    ensures
        text::text_of(result) == first_enabled(users@),
{
    let mut i: usize = 0;
    assert(users@.skip(0) =~= users@);
    while i < users.len()
        invariant
            i <= users.len(),
            first_enabled(users@.skip(i as int)) == first_enabled(users@),
        decreases users.len() - i,
    {
        assert(users@.skip(i as int)[0] == users@[i as int]);
        assert(users@.skip(i as int).drop_first() =~= users@.skip(i + 1));
        if !users[i].disabled {
            return Some(users[i].id.clone());
        }
        i = i + 1;
    }
    None
}

/// There is an owner exactly where a user is not disabled, and it is such a
/// user.
pub proof fn law_owner_is_enabled(users: Seq<ManagedUser>)
    ensures
        first_enabled(users) is Some <==> exists|i: int|
            0 <= i < users.len() && !(#[trigger] users[i]).disabled,
        first_enabled(users) matches Some(id) ==> exists|i: int|
            0 <= i < users.len() && !(#[trigger] users[i]).disabled && users[i].id@ == id,
    decreases users.len(),
{
    if users.len() > 0 {
        if !users[0].disabled {
            let first = users[0];
        } else {
            let rest = users.drop_first();
            law_owner_is_enabled(rest);
            assert forall|i: int| 0 <= i < rest.len() implies #[trigger] rest[i] == users[i + 1] by {
            }
            if exists|i: int| 0 <= i < users.len() && !(#[trigger] users[i]).disabled {
                let i = choose|i: int| 0 <= i < users.len() && !(#[trigger] users[i]).disabled;
                assert(rest[i - 1] == users[i]);
            }
            if first_enabled(rest) is Some {
                let i = choose|i: int|
                    0 <= i < rest.len() && !(#[trigger] rest[i]).disabled && rest[i].id@
                        == first_enabled(rest)->0;
                assert(users[i + 1] == rest[i]);
            }
        }
    }
}

// How many there are.

/// A dynamically registered client that is not revoked.
pub open spec fn is_active_dynamic(client: RecordView) -> bool {
    client.revoked_at is None && DYNAMIC_CLIENT_NAME_PREFIX@.is_prefix_of(client.name)
}

/// How many of the clients are dynamically registered and not revoked.
pub open spec fn active_dynamic_clients(clients: Seq<OAuthClientRecord>) -> nat
    decreases clients.len(),
{
    if clients.len() == 0 {
        0
    } else {
        active_dynamic_clients(clients.drop_last()) + if is_active_dynamic(clients.last()@) {
            1nat
        } else {
            0nat
        }
    }
}

pub fn count_active_dynamic_clients(clients: &Vec<OAuthClientRecord>) -> (result: usize)
    ensures
        result == active_dynamic_clients(clients@),
{
    let mut count: usize = 0;
    let mut i: usize = 0;
    while i < clients.len()
        invariant
            i <= clients.len(),
            count <= i,
            count == active_dynamic_clients(clients@.take(i as int)),
        decreases clients.len() - i,
    {
        assert(clients@.take(i + 1).drop_last() =~= clients@.take(i as int));
        assert(clients@.take(i + 1).last() == clients@[i as int]);
        if clients[i].revoked_at.is_none() && starts_with(
            clients[i].name.as_str(),
            DYNAMIC_CLIENT_NAME_PREFIX,
        ) {
            count = count + 1;
        }
        i = i + 1;
    }
    assert(clients@.take(i as int) =~= clients@);
    count
}

// The name.

/// The name of a client: the one that it gives, without the white space around
/// it, or the default name where that leaves none.
pub open spec fn name_or_default(client_name: Option<Seq<char>>) -> Seq<char> {
    match client_name {
        Some(name) => if text::trimmed(name).len() > 0 {
            text::trimmed(name)
        } else {
            DEFAULT_CLIENT_NAME@
        },
        None => DEFAULT_CLIENT_NAME@,
    }
}

pub open spec fn is_name_too_long(name: Seq<char>) -> bool {
    utf8::encode_utf8(name).len() > MAX_CLIENT_NAME_BYTES
}

pub fn requested_client_name(client_name: &Option<String>) -> (result: String)
    ensures
        result@ == name_or_default(text::text_of(*client_name)),
{
    match client_name {
        Some(name) => {
            let name = trim(name.as_str());
            if name.as_str().is_empty() {
                DEFAULT_CLIENT_NAME.to_owned()
            } else {
                name
            }
        },
        None => DEFAULT_CLIENT_NAME.to_owned(),
    }
}

pub fn client_name_too_long(name: &str) -> (result: bool)
    ensures
        result == is_name_too_long(name@),
{
    byte_len(name) > MAX_CLIENT_NAME_BYTES
}

// Refresh tokens.

/// Every one of these callbacks, and there is one, is trusted to use a refresh
/// token again.
pub open spec fn all_trusted(uris: Seq<Seq<char>>, trusted: Seq<Seq<char>>) -> bool {
    uris.len() > 0 && forall|i: int| 0 <= i < uris.len() ==> trusted.contains(#[trigger] uris[i])
}

impl OAuthSettings {
    /// Whether a client with these callbacks may use a refresh token again.
    pub fn dynamic_client_uses_confidential_reuse(&self, redirect_uris: &Vec<String>) -> (result:
        bool)
        ensures
            result == all_trusted(
                text::texts(redirect_uris@),
                text::texts(self.confidential_reuse_redirect_uris@),
            ),
    {
        let mut i: usize = 0;
        while i < redirect_uris.len()
            invariant
                i <= redirect_uris.len(),
                forall|j: int|
                    0 <= j < i ==> text::texts(self.confidential_reuse_redirect_uris@).contains(
                        #[trigger] text::texts(redirect_uris@)[j],
                    ),
            decreases redirect_uris.len() - i,
        {
            assert(text::texts(redirect_uris@)[i as int] == redirect_uris@[i as int]@);
            if !contains_text(&self.confidential_reuse_redirect_uris, redirect_uris[i].as_str()) {
                return false;
            }
            i = i + 1;
        }
        !redirect_uris.is_empty()
    }
}

/// What becomes of the refresh tokens of a client: it may use them again where
/// it gets any and all of its callbacks are trusted.
pub open spec fn refresh_mode(
    grant_types: Seq<Seq<char>>,
    uris: Seq<Seq<char>>,
    trusted: Seq<Seq<char>>,
) -> OAuthRefreshTokenMode {
    if grant_types.contains("refresh_token"@) && all_trusted(uris, trusted) {
        OAuthRefreshTokenMode::ConfidentialReuse
    } else {
        OAuthRefreshTokenMode::Rotating
    }
}

pub fn refresh_token_mode(
    settings: &OAuthSettings,
    grant_types: &Vec<String>,
    redirect_uris: &Vec<String>,
) -> (result: OAuthRefreshTokenMode)
    ensures
        result == refresh_mode(
            text::texts(grant_types@),
            text::texts(redirect_uris@),
            text::texts(settings.confidential_reuse_redirect_uris@),
        ),
{
    if contains_text(grant_types, "refresh_token")
        && settings.dynamic_client_uses_confidential_reuse(redirect_uris) {
        OAuthRefreshTokenMode::ConfidentialReuse
    } else {
        OAuthRefreshTokenMode::Rotating
    }
}

// The record and the answer.

/// A character of a number in lower-case hexadecimal notation.
pub open spec fn is_lower_hex(c: char) -> bool {
    ('0' <= c && c <= '9') || ('a' <= c && c <= 'f')
}

/// The notation of a random UUID: five groups of lower-case hexadecimal digits
/// with hyphens between them, of version 4 and of the variant of RFC 9562.
pub open spec fn is_random_uuid(s: Seq<char>) -> bool {
    &&& s.len() == 36
    &&& forall|i: int|
        0 <= i < 36 ==> if i == 8 || i == 13 || i == 18 || i == 23 {
            #[trigger] s[i] == '-'
        } else {
            is_lower_hex(s[i])
        }
    &&& s[14] == '4'
    &&& s[19] == '8' || s[19] == '9' || s[19] == 'a' || s[19] == 'b'
}

/// `uuid::Uuid::new_v4` makes a random UUID, which its `to_string` writes in
/// lower-case groups with hyphens. Which one it is rests on the random numbers
/// of the host; without any the call panics.
#[verifier::external_body]
fn random_uuid() -> (result: String)
    ensures
        is_random_uuid(result@),
{
    uuid::Uuid::new_v4().to_string()
}

/// `chrono::Utc::now` reads the host's clock, and `timestamp` gives the whole
/// seconds since 1970. How many they are rests on the clock alone. They are
/// never fewer than none: a clock that stands before 1970 makes the call panic.
#[verifier::external_body]
fn unix_time() -> (result: i64)
    ensures
        result >= 0,
{
    chrono::Utc::now().timestamp()
}

/// The record of a client. The secret itself is no part of it.
pub open spec fn record_of(
    id: Seq<char>,
    issued_at: i64,
    client_id: Seq<char>,
    client_secret_hash: Seq<char>,
    client_name: Seq<char>,
    metadata: MetadataView,
    owner: Seq<char>,
) -> RecordView {
    RecordView {
        id,
        client_id,
        client_secret_hash,
        name: DYNAMIC_CLIENT_NAME_PREFIX@ + client_name,
        redirect_uris: text::joined(metadata.redirect_uris, "\n"@),
        allowed_scopes: text::joined(metadata.scopes, " "@),
        owner_user_id: Some(owner),
        owner_project_grant_id: None,
        owner_shared_key_hash: None,
        created_at: issued_at,
        revoked_at: None,
    }
}

/// What a client is told of its registration. Whatever it asked for, it proves
/// itself with its secret, which does not expire.
pub open spec fn response_of(
    issued_at: i64,
    client_id: Seq<char>,
    client_secret: Seq<char>,
    client_name: Seq<char>,
    metadata: MetadataView,
) -> ResponseView {
    ResponseView {
        client_id,
        client_secret,
        client_id_issued_at: issued_at,
        client_secret_expires_at: 0,
        client_name,
        redirect_uris: metadata.redirect_uris,
        grant_types: metadata.grant_types,
        response_types: metadata.response_types,
        application_type: metadata.application_type,
        token_endpoint_auth_method: "client_secret_post"@,
        scope: text::joined(metadata.scopes, " "@),
    }
}

/// The record of a client under a given id, issued at a given time.
pub fn client_record(
    id: String,
    issued_at: i64,
    client_id: &str,
    client_secret_hash: String,
    client_name: &str,
    metadata: &ClientMetadata,
    owner: String,
) -> (result: OAuthClientRecord)
    ensures
        result@ == record_of(
            id@,
            issued_at,
            client_id@,
            client_secret_hash@,
            client_name@,
            metadata@,
            owner@,
        ),
{
    let mut name = DYNAMIC_CLIENT_NAME_PREFIX.to_owned();
    name.append(client_name);
    OAuthClientRecord {
        id,
        client_id: client_id.to_owned(),
        client_secret_hash,
        name,
        redirect_uris: join(&metadata.redirect_uris, "\n"),
        allowed_scopes: join(&metadata.scopes, " "),
        owner_user_id: Some(owner),
        owner_project_grant_id: None,
        owner_shared_key_hash: None,
        created_at: issued_at,
        revoked_at: None,
    }
}

/// What a client is told that was issued at a given time.
pub fn registration_response(
    issued_at: i64,
    credentials: &IssuedCredentials,
    client_name: String,
    metadata: ClientMetadata,
) -> (result: RegistrationResponse)
    ensures
        result@ == response_of(
            issued_at,
            credentials.client_id@,
            credentials.client_secret@,
            client_name@,
            metadata@,
        ),
{
    RegistrationResponse {
        client_id: credentials.client_id.clone(),
        client_secret: credentials.client_secret.clone(),
        client_id_issued_at: issued_at,
        client_secret_expires_at: 0,
        client_name,
        scope: join(&metadata.scopes, " "),
        redirect_uris: metadata.redirect_uris,
        grant_types: metadata.grant_types,
        response_types: metadata.response_types,
        application_type: metadata.application_type,
        token_endpoint_auth_method: "client_secret_post".to_owned(),
    }
}

/// The record of a new client, under an id of its own and issued now, and what
/// the client is told. `client_secret_hash` is the hash of its secret.
pub fn issue_client(
    credentials: IssuedCredentials,
    client_secret_hash: String,
    client_name: String,
    metadata: ClientMetadata,
    owner: String,
) -> (result: (OAuthClientRecord, RegistrationResponse))
    ensures
        is_random_uuid(result.0.id@),
        result.0.created_at >= 0,
        result.0@ == record_of(
            result.0.id@,
            result.0.created_at,
            credentials.client_id@,
            client_secret_hash@,
            client_name@,
            metadata@,
            owner@,
        ),
        result.1@ == response_of(
            result.0.created_at,
            credentials.client_id@,
            credentials.client_secret@,
            client_name@,
            metadata@,
        ),
{
    let issued_at: i64 = unix_time();
    let record = client_record(
        random_uuid(),
        issued_at,
        credentials.client_id.as_str(),
        client_secret_hash,
        client_name.as_str(),
        &metadata,
        owner,
    );
    let response = registration_response(issued_at, &credentials, client_name, metadata);
    (record, response)
}

}
