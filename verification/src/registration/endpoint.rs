//! The registration endpoint, step by step. What needs the network, the
//! storage or the server's secrets is done by the caller: each step demands one
//! thing of it and takes the report on that.

use vstd::prelude::*;

use crate::decimal;
use crate::decimal::parse_usize;
use crate::registration::client;
use crate::registration::client::{
    client_name_too_long, count_active_dynamic_clients, dynamic_client_owner, issue_client,
    refresh_token_mode, requested_client_name, IssuedCredentials, ManagedUser, OAuthClientRecord,
    OAuthRefreshTokenMode, OAuthSettings, RegistrationResponse, MAX_ACTIVE_DYNAMIC_CLIENTS,
};
use crate::registration::error;
use crate::registration::error::{
    metadata_error, redirect_uri_error, registration_error, storage_error, ErrorView,
    RegistrationError,
};
use crate::registration::metadata;
use crate::registration::metadata::{
    trimmed_redirect_uris, validate_metadata, ClientMetadata, MetadataView, RegistrationRequest,
    RequestView, MAX_REDIRECT_URIS,
};
use crate::registration::scopes;
use crate::text;
use crate::text::{eq_ignore_ascii_case, text_before, trim};

verus! {

/// The most bytes of a request's body.
pub const MAX_REGISTRATION_BODY_BYTES: usize = 16384;

// Whether registration is on, and whether a request may be read.

/// Why no request is served, if none is.
pub open spec fn settings_fault(settings: Option<OAuthSettings>) -> Option<ErrorView> {
    match settings {
        None => Some(error::server_error("OAuth configuration is unavailable"@)),
        Some(settings) => if !settings.enabled || !settings.dynamic_client_registration_enabled {
            Some(
                ErrorView {
                    status: 404,
                    error: "invalid_client_metadata"@,
                    description: "dynamic client registration is not enabled"@,
                },
            )
        } else {
            None
        },
    }
}

/// A `Content-Type` header that says JSON, with or without parameters.
pub open spec fn is_json_type(content_type: Option<Seq<char>>) -> bool {
    let named = match content_type {
        Some(named) => named,
        None => Seq::empty(),
    };
    text::same_ignoring_ascii_case(text::trimmed(text::before(named, ';')), "application/json"@)
}

/// A `Content-Length` header that announces more than a body may have. One
/// that is no number, or too large a number to hold, announces nothing.
pub open spec fn announces_too_much(content_length: Option<Seq<char>>) -> bool {
    match content_length {
        Some(length) => match decimal::number_of(length) {
            Some(n) => MAX_REGISTRATION_BODY_BYTES < n <= usize::MAX,
            None => false,
        },
        None => false,
    }
}

pub open spec fn too_large() -> ErrorView {
    ErrorView {
        status: 413,
        error: "invalid_client_metadata"@,
        description: "registration request is too large"@,
    }
}

/// Why the body of a request is not read, if it is not.
pub open spec fn header_fault(
    content_type: Option<Seq<char>>,
    content_length: Option<Seq<char>>,
) -> Option<ErrorView> {
    if !is_json_type(content_type) {
        Some(
            ErrorView {
                status: 415,
                error: "invalid_client_metadata"@,
                description: "Content-Type must be application/json"@,
            },
        )
    } else if announces_too_much(content_length) {
        Some(too_large())
    } else {
        None
    }
}

fn too_large_error() -> (result: RegistrationError)
    ensures
        result@ == too_large(),
{
    registration_error(413, "invalid_client_metadata", "registration request is too large")
}

fn check_settings(settings: &Option<OAuthSettings>) -> (result: Result<
    &OAuthSettings,
    RegistrationError,
>)
    ensures
        match settings_fault(*settings) {
            Some(fault) => error::refused_as(result, fault),
            None => result matches Ok(inner) && *settings == Some(*inner),
        },
{
    match settings {
        None => Err(storage_error("OAuth configuration is unavailable")),
        Some(settings) => {
            if !settings.enabled || !settings.dynamic_client_registration_enabled {
                Err(
                    registration_error(
                        404,
                        "invalid_client_metadata",
                        "dynamic client registration is not enabled",
                    ),
                )
            } else {
                Ok(settings)
            }
        },
    }
}

/// Whether the headers of a request let its body be read.
pub fn check_headers(content_type: &Option<String>, content_length: &Option<String>) -> (result:
    Result<(), RegistrationError>)
    ensures
        match header_fault(text::text_of(*content_type), text::text_of(*content_length)) {
            Some(fault) => error::refused_as(result, fault),
            None => result is Ok,
        },
{
    let named = match content_type {
        Some(named) => named.clone(),
        None => String::new(),
    };
    let media_type = trim(text_before(named.as_str(), ';').as_str());
    if !eq_ignore_ascii_case(media_type.as_str(), "application/json") {
        return Err(
            registration_error(
                415,
                "invalid_client_metadata",
                "Content-Type must be application/json",
            ),
        );
    }
    match content_length {
        Some(length) => match parse_usize(length.as_str()) {
            Some(length) => {
                if length > MAX_REGISTRATION_BODY_BYTES {
                    return Err(too_large_error());
                }
            },
            None => {},
        },
        None => {},
    }
    Ok(())
}

// The steps.

/// What a registration asks of its caller next.
#[derive(Debug, PartialEq, Eq)]
pub enum RegistrationDemand {
    /// Read the body and report it as `BodyRead`.
    ReadBody,
    /// Parse these bytes as JSON and report the request as `Parsed`.
    Parse(Vec<u8>),
    /// See of each of the URIs whether a client may be called back there, and
    /// report it as `RedirectUrisChecked`.
    CheckRedirectUris { request: RegistrationRequest, uris: Vec<String> },
    /// List the managed users and report them as `UsersListed`.
    ListUsers { metadata: ClientMetadata },
    /// List the stored clients and report them as `ClientsListed`.
    ListClients { metadata: ClientMetadata, owner: String },
    /// Make an id and a secret for a client and report them as
    /// `CredentialsIssued`.
    IssueCredentials { metadata: ClientMetadata, owner: String, client_name: String },
    /// Hash this secret, which is that of the credentials, and report the hash
    /// as `SecretHashed`.
    HashSecret {
        secret: String,
        metadata: ClientMetadata,
        owner: String,
        client_name: String,
        credentials: IssuedCredentials,
    },
    /// Store the client and report it as `Stored`.
    Store {
        record: OAuthClientRecord,
        mode: OAuthRefreshTokenMode,
        response: RegistrationResponse,
    },
    /// Answer the request: with status 201 where it succeeded.
    Respond(Result<RegistrationResponse, RegistrationError>),
}

/// What the caller of a registration reports.
#[derive(Debug, PartialEq, Eq)]
pub enum RegistrationReport {
    /// A request came in, with these headers where they are given as text.
    Requested { content_type: Option<String>, content_length: Option<String> },
    /// The body, where it could be read.
    BodyRead(Option<Vec<u8>>),
    /// The request, where the body is one.
    Parsed(Option<RegistrationRequest>),
    RedirectUrisChecked { request: RegistrationRequest, valid: Vec<bool> },
    /// The users, where the storage could be asked.
    UsersListed { metadata: ClientMetadata, users: Option<Vec<ManagedUser>> },
    /// The clients, where the storage could be asked.
    ClientsListed {
        metadata: ClientMetadata,
        owner: String,
        clients: Option<Vec<OAuthClientRecord>>,
    },
    CredentialsIssued {
        metadata: ClientMetadata,
        owner: String,
        client_name: String,
        credentials: IssuedCredentials,
    },
    /// `client_secret_hash` is the hash of the secret that was to be hashed.
    SecretHashed {
        metadata: ClientMetadata,
        owner: String,
        client_name: String,
        credentials: IssuedCredentials,
        client_secret_hash: String,
    },
    /// Whether the client was stored.
    Stored { response: RegistrationResponse, stored: bool },
}

/// The demand ends the registration with this refusal.
pub open spec fn refuses(demand: RegistrationDemand, fault: ErrorView) -> bool {
    demand matches RegistrationDemand::Respond(result) && error::refused_as(result, fault)
}

/// A body that can be read and is not too long is parsed.
pub open spec fn answers_body(body: Option<Vec<u8>>, demand: RegistrationDemand) -> bool {
    match body {
        None => refuses(
            demand,
            error::invalid_metadata("registration request body could not be read"@),
        ),
        Some(bytes) => if bytes@.len() > MAX_REGISTRATION_BODY_BYTES {
            refuses(demand, too_large())
        } else {
            demand matches RegistrationDemand::Parse(parsed) && parsed@ == bytes@
        },
    }
}

/// A request with neither too few nor too many redirect URIs has them checked.
pub open spec fn answers_parsing(
    request: Option<RegistrationRequest>,
    demand: RegistrationDemand,
) -> bool {
    match request {
        None => refuses(demand, error::invalid_metadata("registration request must be valid JSON"@)),
        Some(request) => {
            let count = request@.redirect_uris.len();
            if count == 0 || count > MAX_REDIRECT_URIS {
                refuses(demand, error::invalid_redirect_uri())
            } else {
                demand matches RegistrationDemand::CheckRedirectUris { request: kept, uris }
                    && kept@ == request@ && text::texts(uris@) == metadata::trimmed_all(
                    request@.redirect_uris,
                )
            }
        },
    }
}

/// Metadata without a fault goes on to the storage.
pub open spec fn answers_checking(
    request: RequestView,
    valid: Seq<bool>,
    supported: Seq<Seq<char>>,
    demand: RegistrationDemand,
) -> bool {
    match metadata::metadata_fault(request, valid, supported) {
        Some(fault) => refuses(demand, fault),
        None => demand matches RegistrationDemand::ListUsers { metadata } && metadata@
            == metadata::accepted_metadata(request, supported),
    }
}

/// The first user that is not disabled becomes the owner.
pub open spec fn answers_users(
    metadata: MetadataView,
    users: Option<Vec<ManagedUser>>,
    demand: RegistrationDemand,
) -> bool {
    match users {
        None => refuses(demand, error::server_error("OAuth storage is unavailable"@)),
        Some(users) => match client::first_enabled(users@) {
            None => refuses(
                demand,
                error::temporarily_unavailable(
                    503,
                    "no enabled managed user is available for dynamic clients"@,
                ),
            ),
            Some(id) => demand matches RegistrationDemand::ListClients { metadata: kept, owner }
                && kept@ == metadata && owner@ == id,
        },
    }
}

/// Where there are not too many clients already, and the name is not too long,
/// credentials are made.
pub open spec fn answers_clients(
    metadata: MetadataView,
    owner: Seq<char>,
    clients: Option<Vec<OAuthClientRecord>>,
    demand: RegistrationDemand,
) -> bool {
    let name = client::name_or_default(metadata.client_name);
    match clients {
        None => refuses(demand, error::server_error("OAuth storage is unavailable"@)),
        Some(clients) => if client::active_dynamic_clients(clients@)
            >= MAX_ACTIVE_DYNAMIC_CLIENTS {
            refuses(
                demand,
                error::temporarily_unavailable(429, "dynamic client registration limit reached"@),
            )
        } else if client::is_name_too_long(name) {
            refuses(demand, error::invalid_metadata("client_name is too long"@))
        } else {
            &&& demand matches RegistrationDemand::IssueCredentials {
                metadata: kept,
                owner: kept_owner,
                client_name,
            }
            &&& kept@ == metadata
            &&& kept_owner@ == owner
            &&& client_name@ == name
        },
    }
}

/// The secret that the client will be told is hashed.
pub open spec fn answers_credentials(
    metadata: MetadataView,
    owner: Seq<char>,
    client_name: Seq<char>,
    credentials: IssuedCredentials,
    demand: RegistrationDemand,
) -> bool {
    &&& demand matches RegistrationDemand::HashSecret {
        secret,
        metadata: kept,
        owner: kept_owner,
        client_name: kept_name,
        credentials: kept_credentials,
    }
    &&& secret@ == credentials.client_secret@
    &&& kept@ == metadata
    &&& kept_owner@ == owner
    &&& kept_name@ == client_name
    &&& kept_credentials == credentials
}

/// The client is stored under an id of its own, with its name, its metadata,
/// its owner and the hash of its secret.
pub open spec fn answers_hashing(
    settings: OAuthSettings,
    metadata: MetadataView,
    owner: Seq<char>,
    client_name: Seq<char>,
    credentials: IssuedCredentials,
    client_secret_hash: Seq<char>,
    demand: RegistrationDemand,
) -> bool {
    &&& demand matches RegistrationDemand::Store { record, mode, response }
    &&& client::is_random_uuid(record.id@)
    &&& record.created_at >= 0
    &&& record@ == client::record_of(
        record.id@,
        record.created_at,
        credentials.client_id@,
        client_secret_hash,
        client_name,
        metadata,
        owner,
    )
    &&& mode == client::refresh_mode(
        metadata.grant_types,
        metadata.redirect_uris,
        text::texts(settings.confidential_reuse_redirect_uris@),
    )
    &&& response@ == client::response_of(
        record.created_at,
        credentials.client_id@,
        credentials.client_secret@,
        client_name,
        metadata,
    )
}

/// A client that was stored is told what it was registered with.
pub open spec fn answers_storing(
    response: RegistrationResponse,
    stored: bool,
    demand: RegistrationDemand,
) -> bool {
    if stored {
        demand matches RegistrationDemand::Respond(Ok(told)) && told@ == response@
    } else {
        refuses(demand, error::server_error("client registration could not be stored"@))
    }
}

/// `demand` is the answer to `report` of a server with these settings that
/// supports these scopes.
pub open spec fn registration_answers(
    settings: Option<OAuthSettings>,
    supported: Seq<Seq<char>>,
    report: RegistrationReport,
    demand: RegistrationDemand,
) -> bool {
    match settings_fault(settings) {
        Some(fault) => refuses(demand, fault),
        None => match report {
            RegistrationReport::Requested { content_type, content_length } => match header_fault(
                text::text_of(content_type),
                text::text_of(content_length),
            ) {
                Some(fault) => refuses(demand, fault),
                None => demand is ReadBody,
            },
            RegistrationReport::BodyRead(body) => answers_body(body, demand),
            RegistrationReport::Parsed(request) => answers_parsing(request, demand),
            RegistrationReport::RedirectUrisChecked { request, valid } => answers_checking(
                request@,
                valid@,
                supported,
                demand,
            ),
            RegistrationReport::UsersListed { metadata, users } => answers_users(
                metadata@,
                users,
                demand,
            ),
            RegistrationReport::ClientsListed { metadata, owner, clients } => answers_clients(
                metadata@,
                owner@,
                clients,
                demand,
            ),
            RegistrationReport::CredentialsIssued { metadata, owner, client_name, credentials } =>
                answers_credentials(
                    metadata@,
                    owner@,
                    client_name@,
                    credentials,
                    demand,
                ),
            RegistrationReport::SecretHashed {
                metadata,
                owner,
                client_name,
                credentials,
                client_secret_hash,
            } => answers_hashing(
                settings->0,
                metadata@,
                owner@,
                client_name@,
                credentials,
                client_secret_hash@,
                demand,
            ),
            RegistrationReport::Stored { response, stored } => answers_storing(
                response,
                stored,
                demand,
            ),
        },
    }
}

fn refused(error: RegistrationError) -> (result: RegistrationDemand)
    ensures
        refuses(result, error@),
{
    RegistrationDemand::Respond(Err(error))
}

/// One step of a registration: what is demanded after `report`. `settings` are
/// missing where the server's configuration is; `supported` are the scopes
/// that the server advertises.
pub fn oauth_register(
    settings: &Option<OAuthSettings>,
    supported: &Vec<String>,
    report: RegistrationReport,
) -> (result: RegistrationDemand)
    ensures
        registration_answers(*settings, text::texts(supported@), report, result),
{
    let settings = match check_settings(settings) {
        Ok(settings) => settings,
        Err(error) => return refused(error),
    };
    match report {
        RegistrationReport::Requested { content_type, content_length } => {
            match check_headers(&content_type, &content_length) {
                Ok(_) => RegistrationDemand::ReadBody,
                Err(error) => refused(error),
            }
        },
        RegistrationReport::BodyRead(body) => match body {
            None => refused(metadata_error("registration request body could not be read")),
            Some(bytes) => if bytes.len() > MAX_REGISTRATION_BODY_BYTES {
                refused(too_large_error())
            } else {
                RegistrationDemand::Parse(bytes)
            },
        },
        RegistrationReport::Parsed(request) => match request {
            None => refused(metadata_error("registration request must be valid JSON")),
            Some(request) => {
                if request.redirect_uris.is_empty() || request.redirect_uris.len()
                    > MAX_REDIRECT_URIS {
                    refused(redirect_uri_error())
                } else {
                    let uris = trimmed_redirect_uris(&request.redirect_uris);
                    RegistrationDemand::CheckRedirectUris { request, uris }
                }
            },
        },
        RegistrationReport::RedirectUrisChecked { request, valid } => {
            match validate_metadata(request, &valid, supported) {
                Ok(metadata) => RegistrationDemand::ListUsers { metadata },
                Err(error) => refused(error),
            }
        },
        RegistrationReport::UsersListed { metadata, users } => match users {
            None => refused(storage_error("OAuth storage is unavailable")),
            Some(users) => match dynamic_client_owner(&users) {
                Some(owner) => RegistrationDemand::ListClients { metadata, owner },
                None => refused(
                    registration_error(
                        503,
                        "temporarily_unavailable",
                        "no enabled managed user is available for dynamic clients",
                    ),
                ),
            },
        },
        RegistrationReport::ClientsListed { metadata, owner, clients } => match clients {
            None => refused(storage_error("OAuth storage is unavailable")),
            Some(clients) => {
                if count_active_dynamic_clients(&clients) >= MAX_ACTIVE_DYNAMIC_CLIENTS {
                    return refused(
                        registration_error(
                            429,
                            "temporarily_unavailable",
                            "dynamic client registration limit reached",
                        ),
                    );
                }
                let client_name = requested_client_name(&metadata.client_name);
                if client_name_too_long(client_name.as_str()) {
                    return refused(metadata_error("client_name is too long"));
                }
                RegistrationDemand::IssueCredentials { metadata, owner, client_name }
            },
        },
        RegistrationReport::CredentialsIssued { metadata, owner, client_name, credentials } => {
            RegistrationDemand::HashSecret {
                secret: credentials.client_secret.clone(),
                metadata,
                owner,
                client_name,
                credentials,
            }
        },
        RegistrationReport::SecretHashed {
            metadata,
            owner,
            client_name,
            credentials,
            client_secret_hash,
        } => {
            let mode = refresh_token_mode(
                settings,
                &metadata.grant_types,
                &metadata.redirect_uris,
            );
            let (record, response) = issue_client(
                credentials,
                client_secret_hash,
                client_name,
                metadata,
                owner,
            );
            RegistrationDemand::Store { record, mode, response }
        },
        RegistrationReport::Stored { response, stored } => if stored {
            RegistrationDemand::Respond(Ok(response))
        } else {
            refused(storage_error("client registration could not be stored"))
        },
    }
}

// What holds of every registration.

/// A server on which registration is not enabled answers every request with
/// the same refusal, and asks for nothing.
pub proof fn law_disabled_registration_serves_nothing(
    settings: OAuthSettings,
    supported: Seq<Seq<char>>,
    report: RegistrationReport,
    demand: RegistrationDemand,
)
    requires
        registration_answers(Some(settings), supported, report, demand),
        !settings.enabled || !settings.dynamic_client_registration_enabled,
    ensures
        demand matches RegistrationDemand::Respond(Err(error)) && error.status == 404,
{
}

/// Credentials are made only while there is room, and the client that is then
/// stored takes one place: never more clients are active than allowed.
pub proof fn law_client_limit_is_kept(
    settings: Option<OAuthSettings>,
    supported: Seq<Seq<char>>,
    metadata: ClientMetadata,
    owner: String,
    clients: Vec<OAuthClientRecord>,
    demand: RegistrationDemand,
    record: OAuthClientRecord,
    id: Seq<char>,
    client_id: Seq<char>,
    client_secret_hash: Seq<char>,
)
    requires
        registration_answers(
            settings,
            supported,
            RegistrationReport::ClientsListed { metadata, owner, clients: Some(clients) },
            demand,
        ),
        demand matches RegistrationDemand::IssueCredentials { client_name, .. } && record@
            == client::record_of(
            id,
            record.created_at,
            client_id,
            client_secret_hash,
            client_name@,
            metadata@,
            owner@,
        ),
    ensures
        client::active_dynamic_clients(clients@.push(record)) == client::active_dynamic_clients(
            clients@,
        ) + 1,
        client::active_dynamic_clients(clients@.push(record)) <= MAX_ACTIVE_DYNAMIC_CLIENTS,
{
    assert(clients@.push(record).drop_last() =~= clients@);
    let prefix = client::DYNAMIC_CLIENT_NAME_PREFIX@;
    assert(prefix =~= record.name@.take(prefix.len() as int));
    assert(client::is_active_dynamic(record@));
}

/// Whether a client may use a refresh token again depends on its callbacks and
/// its grant types, and not on the name that it gives.
pub proof fn law_client_name_grants_no_trust(
    request: RequestView,
    other_name: Option<Seq<char>>,
    supported: Seq<Seq<char>>,
    trusted: Seq<Seq<char>>,
)
    ensures
        ({
            let one = metadata::accepted_metadata(request, supported);
            let other = metadata::accepted_metadata(
                RequestView { client_name: other_name, ..request },
                supported,
            );
            client::refresh_mode(one.grant_types, one.redirect_uris, trusted)
                == client::refresh_mode(other.grant_types, other.redirect_uris, trusted)
        }),
{
}

/// A client that may use a refresh token again gets refresh tokens, and every
/// one of its callbacks is a trusted one.
pub proof fn law_only_trusted_callbacks_reuse(
    grant_types: Seq<Seq<char>>,
    uris: Seq<Seq<char>>,
    trusted: Seq<Seq<char>>,
)
    requires
        client::refresh_mode(grant_types, uris, trusted)
            == OAuthRefreshTokenMode::ConfidentialReuse,
    ensures
        grant_types.contains("refresh_token"@),
        uris.len() > 0,
        forall|i: int| 0 <= i < uris.len() ==> trusted.contains(#[trigger] uris[i]),
{
}

/// Whatever method a client asks for, it is told that it proves itself with
/// its secret.
pub proof fn law_every_client_is_confidential(
    settings: Option<OAuthSettings>,
    supported: Seq<Seq<char>>,
    metadata: ClientMetadata,
    owner: String,
    client_name: String,
    credentials: IssuedCredentials,
    client_secret_hash: String,
    demand: RegistrationDemand,
)
    requires
        settings_fault(settings) is None,
        registration_answers(
            settings,
            supported,
            RegistrationReport::SecretHashed {
                metadata,
                owner,
                client_name,
                credentials,
                client_secret_hash,
            },
            demand,
        ),
    ensures
        demand matches RegistrationDemand::Store { response, .. } && response@.client_secret
            == credentials.client_secret@ && response@.client_secret_expires_at == 0
            && response@.token_endpoint_auth_method == "client_secret_post"@,
{
}

/// What is stored of a client does not depend on its secret, only on the
/// secret's hash.
pub proof fn law_stored_client_knows_only_the_hash(
    settings: Option<OAuthSettings>,
    supported: Seq<Seq<char>>,
    metadata: ClientMetadata,
    owner: String,
    client_name: String,
    credentials: IssuedCredentials,
    other: IssuedCredentials,
    client_secret_hash: String,
    demand: RegistrationDemand,
    other_demand: RegistrationDemand,
)
    requires
        settings_fault(settings) is None,
        registration_answers(
            settings,
            supported,
            RegistrationReport::SecretHashed {
                metadata,
                owner,
                client_name,
                credentials,
                client_secret_hash,
            },
            demand,
        ),
        registration_answers(
            settings,
            supported,
            RegistrationReport::SecretHashed {
                metadata,
                owner,
                client_name,
                credentials: other,
                client_secret_hash,
            },
            other_demand,
        ),
        other.client_id@ == credentials.client_id@,
    ensures
        demand is Store && other_demand is Store,
        demand->Store_record@.client_secret_hash == client_secret_hash@,
        ({
            let record = demand->Store_record@;
            let other_record = other_demand->Store_record@;
            other_record == client::RecordView {
                id: other_record.id,
                created_at: other_record.created_at,
                ..record
            }
        }),
{
}

/// The scopes of a client, as they are stored, read back as the scopes that it
/// was granted.
pub proof fn law_stored_client_keeps_its_scopes(
    request: RequestView,
    valid: Seq<bool>,
    supported: Seq<Seq<char>>,
    id: Seq<char>,
    issued_at: i64,
    client_id: Seq<char>,
    client_secret_hash: Seq<char>,
    client_name: Seq<char>,
    owner: Seq<char>,
)
    requires
        metadata::metadata_fault(request, valid, supported) is None,
    ensures
        ({
            let metadata = metadata::accepted_metadata(request, supported);
            let record = client::record_of(
                id,
                issued_at,
                client_id,
                client_secret_hash,
                client_name,
                metadata,
                owner,
            );
            text::words_of(record.allowed_scopes) == metadata.scopes
        }),
{
    scopes::law_stored_scopes_read_back(request.scope, supported);
}

/// The callbacks of a client, as they are stored, read back line by line as
/// those that were accepted, unless one is empty or holds a line feed.
pub proof fn law_stored_client_keeps_its_callbacks(
    request: RequestView,
    supported: Seq<Seq<char>>,
    id: Seq<char>,
    issued_at: i64,
    client_id: Seq<char>,
    client_secret_hash: Seq<char>,
    client_name: Seq<char>,
    owner: Seq<char>,
)
    requires
        ({
            let uris = metadata::accepted_metadata(request, supported).redirect_uris;
            forall|i: int|
                0 <= i < uris.len() ==> (#[trigger] uris[i]).len() > 0 && !uris[i].contains('\n')
        }),
    ensures
        ({
            let metadata = metadata::accepted_metadata(request, supported);
            let record = client::record_of(
                id,
                issued_at,
                client_id,
                client_secret_hash,
                client_name,
                metadata,
                owner,
            );
            text::lines_of(record.redirect_uris) == metadata.redirect_uris
        }),
{
    let uris = metadata::accepted_metadata(request, supported).redirect_uris;
    assert forall|i: int| 0 <= i < uris.len() implies text::is_line(#[trigger] uris[i]) by {
        text::lemma_trimmed_end(request.redirect_uris[i]);
        let uri = uris[i];
        assert forall|j: int| 0 <= j < uri.len() implies #[trigger] uri[j] != '\n' by {
            assert(uri.contains(uri[j]));
        }
    }
    reveal_strlit("\n");
    assert("\n"@ =~= seq!['\n']);
    text::law_lines_of_joined(uris);
}

}
