use webcodex::registration::client::{
    client_record, count_active_dynamic_clients, dynamic_client_owner, registration_response,
    requested_client_name, IssuedCredentials, ManagedUser, OAuthClientRecord,
    OAuthRefreshTokenMode, OAuthSettings, RegistrationResponse,
};
use webcodex::registration::endpoint::{
    check_headers, oauth_register, RegistrationDemand, RegistrationReport,
};
use webcodex::registration::error::{registration_error, RegistrationError};
use webcodex::registration::metadata::{
    validate_exact_values, validate_metadata, ClientMetadata, RegistrationRequest,
};
use webcodex::registration::scopes::{dynamic_client_scopes, normalize_scopes};

const DEFAULT_SCOPES: &str = "runtime:read runner:manage session:collaborate communication:read communication:manage project:read project:write memory:read memory:manage job:run job:detach computer:read computer:control computer:launch computer:display_read computer:pointer_control computer:clipboard_read computer:clipboard_write mcp:local plugin:inspect plugin:invoke plugin:manage ssh:local coding_agent:run account:manage offline_access";
const TRUSTED_REUSE_REDIRECT: &str = "https://notion.example/oauth/callback";

fn strings(values: &[&str]) -> Vec<String> {
    values.iter().map(|value| value.to_string()).collect()
}

/// The scopes that the server of these tests advertises.
fn supported() -> Vec<String> {
    DEFAULT_SCOPES
        .split(' ')
        .filter(|scope| *scope != "offline_access")
        .map(str::to_string)
        .collect()
}

fn request_body() -> RegistrationRequest {
    RegistrationRequest {
        redirect_uris: strings(&["https://notion.example/oauth/callback"]),
        token_endpoint_auth_method: Some("none".to_string()),
        grant_types: Some(strings(&["authorization_code", "refresh_token"])),
        response_types: Some(strings(&["code"])),
        client_name: Some("Notion Custom MCP".to_string()),
        application_type: None,
        scope: None,
    }
}

fn oauth2_enabled() -> OAuthSettings {
    OAuthSettings {
        enabled: true,
        dynamic_client_registration_enabled: false,
        confidential_reuse_redirect_uris: vec![],
    }
}

fn oauth2_enabled_dcr() -> OAuthSettings {
    OAuthSettings {
        dynamic_client_registration_enabled: true,
        ..oauth2_enabled()
    }
}

fn oauth2_enabled_dcr_trusting_reuse_redirect() -> OAuthSettings {
    OAuthSettings {
        confidential_reuse_redirect_uris: vec![TRUSTED_REUSE_REDIRECT.to_string()],
        ..oauth2_enabled_dcr()
    }
}

/// A server with its storage in memory.
struct Server {
    settings: Option<OAuthSettings>,
    users: Option<Vec<ManagedUser>>,
    clients: Option<Vec<OAuthClientRecord>>,
    modes: Vec<OAuthRefreshTokenMode>,
    storing_fails: bool,
    demands: usize,
}

fn server(settings: OAuthSettings) -> Server {
    Server {
        settings: Some(settings),
        users: Some(vec![]),
        clients: Some(vec![]),
        modes: vec![],
        storing_fails: false,
        demands: 0,
    }
}

fn hash_of(secret: &str) -> String {
    format!("hash-{}-{}", secret.len(), secret.chars().rev().collect::<String>())
}

impl Server {
    fn seed_user(&mut self, id: &str) -> String {
        self.users.as_mut().unwrap().push(ManagedUser {
            id: id.to_string(),
            disabled: false,
        });
        id.to_string()
    }

    /// A request with these headers and this body, which reads `request` where
    /// it is valid.
    fn post(
        &mut self,
        content_type: Option<&str>,
        content_length: Option<&str>,
        body: Option<Vec<u8>>,
        request: Option<RegistrationRequest>,
    ) -> Result<RegistrationResponse, RegistrationError> {
        let mut body = Some(body);
        let mut request = Some(request);
        let mut report = RegistrationReport::Requested {
            content_type: content_type.map(str::to_string),
            content_length: content_length.map(str::to_string),
        };
        loop {
            self.demands += 1;
            report = match oauth_register(&self.settings, &supported(), report) {
                RegistrationDemand::ReadBody => {
                    RegistrationReport::BodyRead(body.take().unwrap())
                }
                RegistrationDemand::Parse(_) => RegistrationReport::Parsed(request.take().unwrap()),
                RegistrationDemand::CheckRedirectUris { request, uris } => {
                    let valid = uris
                        .iter()
                        .map(|uri| {
                            uri.starts_with("https://") || uri.starts_with("http://127.0.0.1")
                        })
                        .collect();
                    RegistrationReport::RedirectUrisChecked { request, valid }
                }
                RegistrationDemand::ListUsers { metadata } => RegistrationReport::UsersListed {
                    metadata,
                    users: self.users.clone(),
                },
                RegistrationDemand::ListClients { metadata, owner } => {
                    RegistrationReport::ClientsListed {
                        metadata,
                        owner,
                        clients: self.clients.clone(),
                    }
                }
                RegistrationDemand::IssueCredentials {
                    metadata,
                    owner,
                    client_name,
                } => RegistrationReport::CredentialsIssued {
                    metadata,
                    owner,
                    client_name,
                    credentials: IssuedCredentials {
                        client_id: "wc_client_1".to_string(),
                        client_secret: "wc_csec_secret".to_string(),
                    },
                },
                RegistrationDemand::HashSecret {
                    secret,
                    metadata,
                    owner,
                    client_name,
                    credentials,
                } => RegistrationReport::SecretHashed {
                    metadata,
                    owner,
                    client_name,
                    credentials,
                    client_secret_hash: hash_of(&secret),
                },
                RegistrationDemand::Store {
                    record,
                    mode,
                    response,
                } => {
                    if !self.storing_fails {
                        self.clients.as_mut().unwrap().push(record);
                        self.modes.push(mode);
                    }
                    RegistrationReport::Stored {
                        response,
                        stored: !self.storing_fails,
                    }
                }
                RegistrationDemand::Respond(result) => return result,
            };
        }
    }

    fn register(
        &mut self,
        request: RegistrationRequest,
    ) -> Result<RegistrationResponse, RegistrationError> {
        self.post(
            Some("application/json"),
            Some("2"),
            Some(b"{}".to_vec()),
            Some(request),
        )
    }
}

#[test]
fn oauth_dynamic_registration_is_disabled_by_default() {
    let mut service = server(oauth2_enabled());
    let error = service.register(request_body()).unwrap_err();
    assert_eq!(error.status, 404);
}

#[test]
fn oauth_dynamic_registration_requires_an_enabled_managed_user() {
    let mut service = server(oauth2_enabled_dcr());
    let error = service.register(request_body()).unwrap_err();
    assert_eq!(error.status, 503);
}

#[test]
fn oauth_dynamic_registration_returns_confidential_least_privilege_client() {
    let mut service = server(oauth2_enabled_dcr());
    let owner = service.seed_user("notion-owner");
    let body = service.register(request_body()).unwrap();
    assert!(body.client_id.starts_with("wc_client_"));
    let secret = body.client_secret.as_str();
    assert!(secret.starts_with("wc_csec_"));
    assert_eq!(body.client_secret_expires_at, 0);
    assert_eq!(body.application_type, "web");
    assert_eq!(body.token_endpoint_auth_method, "client_secret_post");
    assert_eq!(
        body.redirect_uris,
        ["https://notion.example/oauth/callback"]
    );
    assert_eq!(
        body.scope,
        "runtime:read runner:manage session:collaborate communication:read communication:manage project:read project:write memory:read memory:manage job:run job:detach computer:read computer:control computer:launch computer:display_read computer:pointer_control computer:clipboard_read computer:clipboard_write mcp:local plugin:inspect plugin:invoke plugin:manage ssh:local coding_agent:run account:manage offline_access"
    );
    assert!(body.scope.contains("account:manage"));
    assert!(!body.scope.contains("admin"));

    let clients = service.clients.as_ref().unwrap();
    assert_eq!(clients.len(), 1);
    let stored = &clients[0];
    assert_eq!(stored.owner_user_id.as_deref(), Some(owner.as_str()));
    assert_eq!(stored.client_secret_hash, hash_of(secret));
    assert!(!stored.client_secret_hash.contains(secret));
    assert_eq!(
        stored.redirect_uris,
        "https://notion.example/oauth/callback"
    );
    assert_eq!(
        stored.allowed_scopes,
        "runtime:read runner:manage session:collaborate communication:read communication:manage project:read project:write memory:read memory:manage job:run job:detach computer:read computer:control computer:launch computer:display_read computer:pointer_control computer:clipboard_read computer:clipboard_write mcp:local plugin:inspect plugin:invoke plugin:manage ssh:local coding_agent:run account:manage offline_access"
    );
}

#[test]
fn oauth_dynamic_registration_normalizes_redirect_uri_name_and_scope_subset() {
    let mut service = server(oauth2_enabled_dcr());
    service.seed_user("notion-owner");
    let mut body = request_body();
    body.client_name = Some("  Notion Custom MCP  ".to_string());
    body.redirect_uris = strings(&["  https://notion.example/oauth/callback  "]);
    body.application_type = Some("web".to_string());
    body.scope = Some("runtime:read project:read".to_string());

    let response = service.register(body).unwrap();
    assert_eq!(response.client_name, "Notion Custom MCP");
    assert_eq!(response.application_type, "web");
    assert_eq!(
        response.redirect_uris,
        ["https://notion.example/oauth/callback"]
    );
    assert_eq!(response.scope, "runtime:read project:read");

    let clients = service.clients.as_ref().unwrap();
    assert_eq!(clients.len(), 1);
    assert_eq!(clients[0].name, "[dynamic] Notion Custom MCP");
    assert_eq!(
        clients[0].redirect_uris,
        "https://notion.example/oauth/callback"
    );
    assert_eq!(clients[0].allowed_scopes, "runtime:read project:read");
}

#[test]
fn oauth_dynamic_registration_rejects_invalid_or_normalized_duplicate_redirect_uris() {
    let mut service = server(oauth2_enabled_dcr());
    service.seed_user("notion-owner");
    for redirect_uris in [
        strings(&["http://notion.example/oauth/callback"]),
        strings(&[
            " https://notion.example/oauth/callback ",
            "https://notion.example/oauth/callback",
        ]),
    ] {
        let mut body = request_body();
        body.redirect_uris = redirect_uris;
        let error = service.register(body).unwrap_err();
        assert_eq!(error.status, 400);
        assert_eq!(error.error, "invalid_redirect_uri");
    }
}

#[test]
fn oauth_dynamic_registration_rejects_disabled_owner() {
    let mut service = server(oauth2_enabled_dcr());
    service.seed_user("notion-owner");
    service.users.as_mut().unwrap()[0].disabled = true;
    let error = service.register(request_body()).unwrap_err();
    assert_eq!(error.status, 503);
}

#[test]
fn oauth_dynamic_registration_requires_json_and_limits_request_size() {
    let mut service = server(oauth2_enabled_dcr());
    let wrong_type = service
        .post(
            Some("text/plain"),
            None,
            Some(b"{}".to_vec()),
            Some(request_body()),
        )
        .unwrap_err();
    assert_eq!(wrong_type.status, 415);

    let oversized = service
        .post(
            Some("application/json"),
            None,
            Some("x".repeat(16 * 1024 + 1).into_bytes()),
            None,
        )
        .unwrap_err();
    assert_eq!(oversized.status, 413);
    let announced = service
        .post(
            Some("application/json"),
            Some("16385"),
            Some(b"{}".to_vec()),
            Some(request_body()),
        )
        .unwrap_err();
    assert_eq!(announced.status, 413);
}

#[test]
fn oauth_dynamic_registration_rejects_privileged_scope() {
    let mut service = server(oauth2_enabled_dcr());
    service.seed_user("notion-owner");
    let mut body = request_body();
    body.scope = Some("runtime:read admin".to_string());
    let error = service.register(body).unwrap_err();
    assert_eq!(error.status, 400);
    assert_eq!(error.error, "invalid_client_metadata");
}

#[test]
fn oauth_dynamic_registration_accepts_full_advertised_scope_set() {
    let mut service = server(oauth2_enabled_dcr());
    service.seed_user("notion-owner");
    let mut body = request_body();
    body.scope = Some("runtime:read session:collaborate communication:read communication:manage project:read project:write memory:read memory:manage job:run job:detach computer:read computer:control computer:launch computer:display_read computer:pointer_control computer:clipboard_read computer:clipboard_write mcp:local coding_agent:run account:manage offline_access".to_string());
    let response = service.register(body).unwrap();
    let scope = response.scope.as_str();
    assert!(scope.contains("account:manage"));
    assert!(scope.contains("offline_access"));
}

#[test]
fn oauth_dynamic_registration_rejects_unsupported_metadata() {
    let mut service = server(oauth2_enabled_dcr());
    service.seed_user("notion-owner");

    let mut grant_types = request_body();
    grant_types.grant_types = Some(strings(&["client_credentials"]));
    let mut response_types = request_body();
    response_types.response_types = Some(strings(&["token"]));
    let mut auth_method = request_body();
    auth_method.token_endpoint_auth_method = Some("client_secret_basic".to_string());

    for (field, body) in [
        ("grant_types", grant_types),
        ("response_types", response_types),
        ("token_endpoint_auth_method", auth_method),
    ] {
        let error = service.register(body).unwrap_err();
        assert_eq!(error.status, 400, "{field}");
    }
}

#[test]
fn oauth_dynamic_registration_defaults_to_rotating_refresh_mode() {
    // Without a confidential-reuse allow-list, even a client that could
    // refresh registers as rotating.
    let mut service = server(oauth2_enabled_dcr());
    service.seed_user("notion-owner");
    service.register(request_body()).unwrap();
    assert_eq!(service.modes, [OAuthRefreshTokenMode::Rotating]);
}

#[test]
fn oauth_dynamic_registration_trusted_redirect_gets_confidential_reuse() {
    let mut service = server(oauth2_enabled_dcr_trusting_reuse_redirect());
    service.seed_user("notion-owner");
    let body = service.register(request_body()).unwrap();
    assert_eq!(service.modes, [OAuthRefreshTokenMode::ConfidentialReuse]);
    // The response stays a client_secret_post confidential client and never
    // exposes the server-internal refresh token mode.
    assert_eq!(body.token_endpoint_auth_method, "client_secret_post");
    assert!(!format!("{body:?}").contains("refresh_token_mode"));
    assert!(!format!("{body:?}").contains("refresh_mode"));
}

#[test]
fn oauth_dynamic_registration_client_name_does_not_grant_trust() {
    // The allow-list trusts a different URI than the one registered here;
    // claiming a well-known client name must not change the outcome.
    let mut service = server(OAuthSettings {
        confidential_reuse_redirect_uris: strings(&["https://notion.example/trusted-callback"]),
        ..oauth2_enabled_dcr()
    });
    service.seed_user("notion-owner");
    let mut body = request_body();
    body.client_name = Some("Notion".to_string());
    service.register(body).unwrap();
    assert_eq!(service.modes, [OAuthRefreshTokenMode::Rotating]);
}

#[test]
fn oauth_dynamic_registration_matches_redirect_uri_not_client_name() {
    let mut service = server(oauth2_enabled_dcr_trusting_reuse_redirect());
    service.seed_user("notion-owner");
    let mut body = request_body();
    body.client_name = Some("Definitely Not Notion".to_string());
    service.register(body).unwrap();
    assert_eq!(service.modes, [OAuthRefreshTokenMode::ConfidentialReuse]);
}

#[test]
fn oauth_dynamic_registration_with_extra_redirect_uri_stays_rotating() {
    let mut service = server(oauth2_enabled_dcr_trusting_reuse_redirect());
    service.seed_user("notion-owner");
    let mut body = request_body();
    body.redirect_uris = strings(&[
        TRUSTED_REUSE_REDIRECT,
        "https://attacker.example/oauth/callback",
    ]);
    service.register(body).unwrap();
    assert_eq!(service.modes, [OAuthRefreshTokenMode::Rotating]);
}

#[test]
fn oauth_dynamic_registration_without_refresh_token_grant_stays_rotating() {
    let mut service = server(oauth2_enabled_dcr_trusting_reuse_redirect());
    service.seed_user("notion-owner");
    let mut body = request_body();
    body.grant_types = Some(strings(&["authorization_code"]));
    service.register(body).unwrap();
    assert_eq!(service.modes, [OAuthRefreshTokenMode::Rotating]);
}

// Every refusal, in the order in which they come.

fn refusal(status: u16, error: &str, description: &str) -> RegistrationError {
    registration_error(status, error, description)
}

#[test]
fn refusals_before_the_body_is_read() {
    let mut service = server(oauth2_enabled_dcr());
    service.settings = None;
    assert_eq!(
        service.register(request_body()).unwrap_err(),
        refusal(500, "server_error", "OAuth configuration is unavailable")
    );
    let mut service = server(OAuthSettings {
        enabled: false,
        ..oauth2_enabled_dcr()
    });
    assert_eq!(
        service.register(request_body()).unwrap_err(),
        refusal(
            404,
            "invalid_client_metadata",
            "dynamic client registration is not enabled"
        )
    );
    let mut service = server(oauth2_enabled_dcr());
    assert_eq!(
        service
            .post(None, Some("99999"), None, None)
            .unwrap_err(),
        refusal(
            415,
            "invalid_client_metadata",
            "Content-Type must be application/json"
        )
    );
    assert_eq!(
        service
            .post(Some("application/json"), Some("99999"), None, None)
            .unwrap_err(),
        refusal(
            413,
            "invalid_client_metadata",
            "registration request is too large"
        )
    );
    assert_eq!(service.demands, 2);
}

#[test]
fn refusals_of_the_body() {
    let mut service = server(oauth2_enabled_dcr());
    assert_eq!(
        service
            .post(Some("application/json"), None, None, None)
            .unwrap_err(),
        refusal(
            400,
            "invalid_client_metadata",
            "registration request body could not be read"
        )
    );
    assert_eq!(
        service
            .post(Some("application/json"), None, Some(b"{".to_vec()), None)
            .unwrap_err(),
        refusal(
            400,
            "invalid_client_metadata",
            "registration request must be valid JSON"
        )
    );
    // A body of exactly the limit is read.
    assert_eq!(
        service
            .post(
                Some("application/json"),
                Some("16384"),
                Some(vec![b' '; 16384]),
                None
            )
            .unwrap_err()
            .description,
        "registration request must be valid JSON"
    );
}

#[test]
fn refusals_of_the_metadata() {
    let mut service = server(oauth2_enabled_dcr());
    let mut body = request_body();
    body.redirect_uris = vec![];
    body.grant_types = Some(strings(&["refresh_token"]));
    body.response_types = Some(vec![]);
    body.token_endpoint_auth_method = Some("private_key_jwt".to_string());
    body.application_type = Some("desktop".to_string());
    body.scope = Some("  ".to_string());

    let refused = |service: &mut Server, body: &RegistrationRequest| {
        service.register(body.clone()).unwrap_err()
    };
    let invalid = |description: &str| refusal(400, "invalid_client_metadata", description);
    assert_eq!(
        refused(&mut service, &body),
        refusal(
            400,
            "invalid_redirect_uri",
            "redirect_uris must contain unique absolute HTTPS or loopback callback URLs"
        )
    );
    body.redirect_uris = strings(&["http://127.0.0.1:8000/cb"]);
    assert_eq!(
        refused(&mut service, &body),
        invalid("grant_types must include authorization_code and may include refresh_token")
    );
    body.grant_types = None;
    assert_eq!(
        refused(&mut service, &body),
        invalid("registration metadata contains an unsupported or duplicate value")
    );
    body.response_types = None;
    assert_eq!(
        refused(&mut service, &body),
        invalid("token_endpoint_auth_method must be none or client_secret_post")
    );
    body.token_endpoint_auth_method = Some("client_secret_post".to_string());
    assert_eq!(
        refused(&mut service, &body),
        invalid("application_type must be web or native")
    );
    body.application_type = Some("native".to_string());
    assert_eq!(
        refused(&mut service, &body),
        invalid("scope must contain at least one supported value")
    );
    body.scope = Some("job:run job:run".to_string());
    assert_eq!(
        refused(&mut service, &body),
        invalid("requested scope is not available to dynamically registered clients")
    );
    body.scope = Some(" job:run\toffline_access\n".to_string());
    assert_eq!(
        refused(&mut service, &body),
        refusal(
            503,
            "temporarily_unavailable",
            "no enabled managed user is available for dynamic clients"
        )
    );
    service.seed_user("owner");
    let response = service.register(body).unwrap();
    assert_eq!(response.scope, "job:run offline_access");
    assert_eq!(response.application_type, "native");
    assert_eq!(
        response.grant_types,
        ["authorization_code", "refresh_token"]
    );
    assert_eq!(response.response_types, ["code"]);
}

#[test]
fn refusals_of_the_storage() {
    let unavailable = refusal(500, "server_error", "OAuth storage is unavailable");
    let mut service = server(oauth2_enabled_dcr());
    service.users = None;
    assert_eq!(service.register(request_body()).unwrap_err(), unavailable);

    let mut service = server(oauth2_enabled_dcr());
    service.seed_user("owner");
    service.clients = None;
    assert_eq!(service.register(request_body()).unwrap_err(), unavailable);

    let mut service = server(oauth2_enabled_dcr());
    service.seed_user("owner");
    service.storing_fails = true;
    assert_eq!(
        service.register(request_body()).unwrap_err(),
        refusal(
            500,
            "server_error",
            "client registration could not be stored"
        )
    );
    assert!(service.clients.unwrap().is_empty());
}

#[test]
fn the_number_of_active_clients_is_limited() {
    let mut service = server(oauth2_enabled_dcr());
    service.seed_user("owner");
    for _ in 0..256 {
        service.register(request_body()).unwrap();
    }
    assert_eq!(
        count_active_dynamic_clients(service.clients.as_ref().unwrap()),
        256
    );
    // The limit comes before the length of the name.
    let mut long_name = request_body();
    long_name.client_name = Some("n".repeat(129));
    assert_eq!(
        service.register(long_name.clone()).unwrap_err(),
        refusal(
            429,
            "temporarily_unavailable",
            "dynamic client registration limit reached"
        )
    );
    // Revoked clients and clients of another kind do not count.
    let clients = service.clients.as_mut().unwrap();
    clients[0].revoked_at = Some(1);
    clients[1].name = "dynamic".to_string();
    assert_eq!(count_active_dynamic_clients(clients), 254);
    assert_eq!(
        service.register(long_name).unwrap_err(),
        refusal(400, "invalid_client_metadata", "client_name is too long")
    );
    service.register(request_body()).unwrap();
}

#[test]
fn every_record_has_an_id_of_its_own() {
    let mut service = server(oauth2_enabled_dcr());
    service.seed_user("owner");
    let first = service.register(request_body()).unwrap();
    assert_eq!(service.demands, 9);
    service.register(request_body()).unwrap();
    assert_eq!(service.demands, 18);
    let clients = service.clients.as_ref().unwrap();
    assert_ne!(clients[0].id, clients[1].id);
    for client in clients {
        let id: Vec<char> = client.id.chars().collect();
        assert_eq!(id.len(), 36);
        for (i, c) in id.iter().enumerate() {
            if [8, 13, 18, 23].contains(&i) {
                assert_eq!(*c, '-');
            } else {
                assert!(c.is_ascii_digit() || ('a'..='f').contains(c), "{c}");
            }
        }
        assert_eq!(id[14], '4');
        assert!("89ab".contains(id[19]));
        assert_eq!(client.revoked_at, None);
        assert_eq!(client.owner_project_grant_id, None);
        assert_eq!(client.owner_shared_key_hash, None);
        // The clock of the host is past 2020.
        assert!(client.created_at > 1_577_836_800, "{}", client.created_at);
    }
    assert_eq!(first.client_id_issued_at, clients[0].created_at);
}

#[test]
fn the_first_enabled_user_owns_the_client() {
    let user = |id: &str, disabled: bool| ManagedUser {
        id: id.to_string(),
        disabled,
    };
    assert_eq!(dynamic_client_owner(&vec![]), None);
    assert_eq!(dynamic_client_owner(&vec![user("a", true)]), None);
    assert_eq!(
        dynamic_client_owner(&vec![user("a", true), user("b", false), user("c", false)]),
        Some("b".to_string())
    );
}

#[test]
fn names_are_trimmed_and_measured_in_bytes() {
    assert_eq!(requested_client_name(&None), "MCP client");
    assert_eq!(requested_client_name(&Some(" \n ".to_string())), "MCP client");
    assert_eq!(requested_client_name(&Some("\u{a0}x y ".to_string())), "x y");

    let mut service = server(oauth2_enabled_dcr());
    service.seed_user("owner");
    let mut body = request_body();
    body.client_name = Some(format!("  {}  ", "ü".repeat(64)));
    assert_eq!(
        service.register(body.clone()).unwrap().client_name,
        "ü".repeat(64)
    );
    body.client_name = Some(format!("{}x", "ü".repeat(64)));
    assert_eq!(service.register(body).unwrap_err().status, 400);
}

#[test]
fn redirect_uris_are_few_and_short() {
    let mut service = server(oauth2_enabled_dcr());
    service.seed_user("owner");
    let mut body = request_body();
    body.redirect_uris = (0..16).map(|i| format!("https://a.example/{i}")).collect();
    let response = service.register(body.clone()).unwrap();
    assert_eq!(response.redirect_uris.len(), 16);
    // What is stored reads back line by line.
    let stored = &service.clients.as_ref().unwrap()[0];
    assert_eq!(
        stored.redirect_uris.lines().collect::<Vec<_>>(),
        response.redirect_uris
    );
    body.redirect_uris.push("https://a.example/16".to_string());
    assert_eq!(
        service.register(body.clone()).unwrap_err().error,
        "invalid_redirect_uri"
    );
    let longest = format!("https://a.example/{}", "x".repeat(2048 - 18));
    assert_eq!(longest.len(), 2048);
    body.redirect_uris = vec![format!("{longest} ")];
    service.register(body.clone()).unwrap();
    body.redirect_uris = vec![format!("{longest}x")];
    assert_eq!(
        service.register(body).unwrap_err().error,
        "invalid_redirect_uri"
    );
    // A URI of which nothing is said is refused.
    assert_eq!(
        validate_metadata(request_body(), &vec![], &supported())
            .unwrap_err()
            .error,
        "invalid_redirect_uri"
    );
}

#[test]
fn content_types_may_carry_parameters() {
    let check = |content_type: &str, content_length: Option<&str>| {
        check_headers(
            &Some(content_type.to_string()),
            &content_length.map(str::to_string),
        )
        .map_err(|error| error.status)
    };
    for content_type in [
        "application/json",
        "Application/JSON",
        " application/json ; charset=utf-8",
        "application/json;",
    ] {
        assert_eq!(check(content_type, None), Ok(()), "{content_type}");
    }
    for content_type in ["", "application/jsonp", "text/json", "; application/json"] {
        assert_eq!(check(content_type, None), Err(415), "{content_type}");
    }
    for (length, result) in [
        ("0", Ok(())),
        ("16384", Ok(())),
        ("16385", Err(413)),
        ("+16385", Err(413)),
        ("016385", Err(413)),
        ("many", Ok(())),
        ("", Ok(())),
        ("-16385", Ok(())),
        ("99999999999999999999999999", Ok(())),
    ] {
        assert_eq!(check("application/json", Some(length)), result, "{length}");
    }
}

#[test]
fn scopes_are_granted_as_asked() {
    assert_eq!(
        normalize_scopes(None, &vec![]).unwrap().join(" "),
        DEFAULT_SCOPES
    );
    assert_eq!(dynamic_client_scopes().len(), 26);
    let granted = normalize_scopes(
        Some("\tproject:write  job:run\r\noffline_access".to_string()),
        &supported(),
    )
    .unwrap();
    assert_eq!(granted, ["project:write", "job:run", "offline_access"]);
    // What was granted is granted again.
    assert_eq!(
        normalize_scopes(Some(granted.join(" ")), &supported()).unwrap(),
        granted
    );
    assert_eq!(
        normalize_scopes(Some(String::new()), &supported()),
        Err("scope must contain at least one supported value")
    );
    assert_eq!(
        normalize_scopes(Some("Job:run".to_string()), &supported()),
        Err("requested scope is not available to dynamically registered clients")
    );
    // The scope for refreshing is there whatever the server advertises.
    assert_eq!(
        normalize_scopes(Some("offline_access".to_string()), &vec![]).unwrap(),
        ["offline_access"]
    );
}

#[test]
fn exact_values_are_allowed_once() {
    let allowed = strings(&["a", "b"]);
    let check = |values: Option<&[&str]>| {
        validate_exact_values(values.map(strings), strings(&["b"]), &allowed)
    };
    assert_eq!(check(None), Ok(strings(&["b"])));
    assert_eq!(check(Some(&["b", "a"])), Ok(strings(&["b", "a"])));
    let fault = Err("registration metadata contains an unsupported or duplicate value");
    assert_eq!(check(Some(&[])), fault);
    assert_eq!(check(Some(&["a", "a"])), fault);
    assert_eq!(check(Some(&["a", "c"])), fault);
    assert_eq!(
        validate_exact_values(None, vec![], &allowed),
        fault
    );
}

#[test]
fn records_and_responses_are_exact() {
    let credentials = IssuedCredentials {
        client_id: "id".to_string(),
        client_secret: "secret".to_string(),
    };
    let metadata = ClientMetadata {
        redirect_uris: strings(&["https://a.example/1", "https://a.example/2"]),
        grant_types: strings(&["authorization_code"]),
        response_types: strings(&["code"]),
        application_type: "native".to_string(),
        scopes: strings(&["job:run", "offline_access"]),
        client_name: None,
    };
    assert_eq!(
        client_record(
            "uuid".to_string(),
            7,
            "id",
            "hash".to_string(),
            "Name",
            &metadata,
            "owner".to_string()
        ),
        OAuthClientRecord {
            id: "uuid".to_string(),
            client_id: "id".to_string(),
            client_secret_hash: "hash".to_string(),
            name: "[dynamic] Name".to_string(),
            redirect_uris: "https://a.example/1\nhttps://a.example/2".to_string(),
            allowed_scopes: "job:run offline_access".to_string(),
            owner_user_id: Some("owner".to_string()),
            owner_project_grant_id: None,
            owner_shared_key_hash: None,
            created_at: 7,
            revoked_at: None,
        }
    );
    let response = registration_response(7, &credentials, "Name".to_string(), metadata);
    assert_eq!(
        response,
        RegistrationResponse {
            client_id: "id".to_string(),
            client_secret: "secret".to_string(),
            client_id_issued_at: 7,
            client_secret_expires_at: 0,
            client_name: "Name".to_string(),
            redirect_uris: strings(&["https://a.example/1", "https://a.example/2"]),
            grant_types: strings(&["authorization_code"]),
            response_types: strings(&["code"]),
            application_type: "native".to_string(),
            token_endpoint_auth_method: "client_secret_post".to_string(),
            scope: "job:run offline_access".to_string(),
        }
    );
}

#[test]
fn trust_needs_every_callback() {
    let settings = OAuthSettings {
        confidential_reuse_redirect_uris: strings(&["https://a.example", "https://b.example"]),
        ..oauth2_enabled_dcr()
    };
    assert!(settings.dynamic_client_uses_confidential_reuse(&strings(&["https://b.example"])));
    assert!(settings.dynamic_client_uses_confidential_reuse(&strings(&[
        "https://b.example",
        "https://a.example"
    ])));
    assert!(!settings.dynamic_client_uses_confidential_reuse(&strings(&["https://b.example/"])));
    assert!(!settings.dynamic_client_uses_confidential_reuse(&vec![]));
}
