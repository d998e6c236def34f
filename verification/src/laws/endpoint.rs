//! Laws of the registration endpoint: what each report is answered with.

use vstd::prelude::*;
use vstd::utf8;

use crate::chars;
use crate::decimal;
use crate::laws::client as client_laws;
use crate::laws::metadata as metadata_laws;
use crate::laws::text as text_laws;
use crate::registration::client;
use crate::registration::client::{
    IssuedCredentials, ManagedUser, OAuthClientRecord, OAuthSettings, RegistrationResponse,
};
use crate::registration::endpoint;
use crate::registration::endpoint::{RegistrationDemand, RegistrationReport};
use crate::registration::metadata;
use crate::registration::metadata::{ClientMetadata, RegistrationRequest};
use crate::text;

verus! {

/// The demand answers the request with this status, error code and description.
pub open spec fn responds_with(
    demand: RegistrationDemand,
    status: u16,
    error: Seq<char>,
    description: Seq<char>,
) -> bool {
    demand matches RegistrationDemand::Respond(Err(refusal)) && refusal.status == status
        && refusal.error@ == error && refusal.description@ == description
}

/// OAuth is configured and on, and so is the registration of clients.
pub open spec fn serves(settings: Option<OAuthSettings>) -> bool {
    settings matches Some(settings) && settings.enabled
        && settings.dynamic_client_registration_enabled
}

// Whether a request is served.

/// Nothing is served without a configuration, nor where OAuth or registration is
/// off: whatever is reported, the answer is the refusal.
pub proof fn law_requests_are_served_where_registration_is_on(
    settings: Option<OAuthSettings>,
    supported: Seq<Seq<char>>,
    report: RegistrationReport,
    demand: RegistrationDemand,
)
    ensures
        endpoint::settings_fault(settings) is None <==> serves(settings),
        endpoint::registration_answers(settings, supported, report, demand) && settings is None
            ==> responds_with(
            demand,
            500,
            "server_error"@,
            "OAuth configuration is unavailable"@,
        ),
        endpoint::registration_answers(settings, supported, report, demand) && settings is Some
            && !serves(settings) ==> responds_with(
            demand,
            404,
            "invalid_client_metadata"@,
            "dynamic client registration is not enabled"@,
        ),
{
}

/// A content type says JSON where what stands before its first semicolon, white
/// space around it aside, is `application/json` in whatever case.
pub proof fn law_json_is_named_in_any_case(
    left: Seq<char>,
    name: Seq<char>,
    right: Seq<char>,
    parameters: Seq<char>,
)
    requires
        forall|i: int| 0 <= i < left.len() ==> chars::is_white_space(#[trigger] left[i]),
        forall|i: int| 0 <= i < right.len() ==> chars::is_white_space(#[trigger] right[i]),
        name.len() > 0 ==> !chars::is_white_space(name[0]) && !chars::is_white_space(name.last()),
        !name.contains(';'),
    ensures
        endpoint::is_json_type(Some(left + name + right))
            <==> text::same_ignoring_ascii_case(name, "application/json"@),
        endpoint::is_json_type(Some(left + name + right + seq![';'] + parameters))
            <==> text::same_ignoring_ascii_case(name, "application/json"@),
        !endpoint::is_json_type(None),
{
    let field = left + name + right;
    assert(!field.contains(';')) by {
        if field.contains(';') {
            let i = choose|i: int| 0 <= i < field.len() && field[i] == ';';
            if i < left.len() {
                assert(field[i] == left[i]);
            } else if i < left.len() + name.len() {
                assert(field[i] == name[i - left.len()]);
                assert(name.contains(name[i - left.len()]));
            } else {
                assert(field[i] == right[i - left.len() - name.len()]);
            }
        }
    }
    text_laws::law_text_before_a_character(field, ';', parameters);
    text_laws::law_trimming_keeps_the_core(left, name, right);
    let nothing = Seq::<char>::empty();
    text_laws::law_text_before_a_character(nothing, ';', nothing);
    text_laws::law_trimming_keeps_the_core(nothing, nothing, nothing);
    assert(nothing + nothing + nothing =~= nothing);
    reveal_strlit("application/json");
    assert("application/json"@.len() == 16);
}

/// A length announces too much exactly where it is a number above 16384 that the
/// machine can hold.
pub proof fn law_announced_lengths(length: Seq<char>)
    ensures
        !endpoint::announces_too_much(None),
        decimal::number_of(length) is None ==> !endpoint::announces_too_much(Some(length)),
        decimal::number_of(length) matches Some(n) ==> (endpoint::announces_too_much(Some(length))
            <==> 16384 < n <= usize::MAX),
{
}

/// The body of a request is read exactly where its type is JSON and its length
/// does not announce too much; the type is looked at first.
pub proof fn law_requests_are_answered_by_their_headers(
    settings: Option<OAuthSettings>,
    supported: Seq<Seq<char>>,
    content_type: Option<String>,
    content_length: Option<String>,
    demand: RegistrationDemand,
)
    requires
        serves(settings),
        endpoint::registration_answers(
            settings,
            supported,
            RegistrationReport::Requested { content_type, content_length },
            demand,
        ),
    ensures
        ({
            let json = endpoint::is_json_type(
                match content_type {
                    Some(named) => Some(named@),
                    None => None,
                },
            );
            let too_much = endpoint::announces_too_much(
                match content_length {
                    Some(length) => Some(length@),
                    None => None,
                },
            );
            &&& demand is ReadBody <==> json && !too_much
            &&& !json ==> responds_with(
                demand,
                415,
                "invalid_client_metadata"@,
                "Content-Type must be application/json"@,
            )
            &&& json && too_much ==> responds_with(
                demand,
                413,
                "invalid_client_metadata"@,
                "registration request is too large"@,
            )
        }),
{
}

// The steps.

/// A body of at most 16384 bytes is parsed, all of it; a longer one, and one that
/// could not be read, is refused.
pub proof fn law_bodies_are_parsed_whole(
    settings: Option<OAuthSettings>,
    supported: Seq<Seq<char>>,
    body: Option<Vec<u8>>,
    demand: RegistrationDemand,
)
    requires
        serves(settings),
        endpoint::registration_answers(
            settings,
            supported,
            RegistrationReport::BodyRead(body),
            demand,
        ),
    ensures
        body is None ==> responds_with(
            demand,
            400,
            "invalid_client_metadata"@,
            "registration request body could not be read"@,
        ),
        body matches Some(bytes) ==> if bytes@.len() > 16384 {
            responds_with(
                demand,
                413,
                "invalid_client_metadata"@,
                "registration request is too large"@,
            )
        } else {
            demand matches RegistrationDemand::Parse(parsed) && parsed@ == bytes@
        },
{
}

/// A request with 1 to 16 redirect URIs is kept, and all of them are checked,
/// without the white space around them; one with none or more is refused, and so
/// is a body that is no request.
pub proof fn law_redirect_uris_are_checked(
    settings: Option<OAuthSettings>,
    supported: Seq<Seq<char>>,
    request: Option<RegistrationRequest>,
    demand: RegistrationDemand,
)
    requires
        serves(settings),
        endpoint::registration_answers(
            settings,
            supported,
            RegistrationReport::Parsed(request),
            demand,
        ),
    ensures
        request is None ==> responds_with(
            demand,
            400,
            "invalid_client_metadata"@,
            "registration request must be valid JSON"@,
        ),
        request matches Some(request) ==> if 1 <= request.redirect_uris@.len() <= 16 {
            &&& demand matches RegistrationDemand::CheckRedirectUris { request: kept, uris }
            &&& kept@ == request@
            &&& uris@.len() == request.redirect_uris@.len()
            &&& forall|i: int|
                0 <= i < uris@.len() ==> (#[trigger] uris@[i])@ == text::trimmed(
                    request.redirect_uris@[i]@,
                )
        } else {
            responds_with(
                demand,
                400,
                "invalid_redirect_uri"@,
                "redirect_uris must contain unique absolute HTTPS or loopback callback URLs"@,
            )
        },
{
    if request is Some && 1 <= request->0.redirect_uris@.len() <= 16 {
        let uris = demand->uris;
        let all = metadata::trimmed_all(request->0@.redirect_uris);
        assert(text::texts(uris@) == all);
        assert(text::texts(uris@).len() == all.len());
        assert forall|i: int| 0 <= i < uris@.len() implies (#[trigger] uris@[i])@ == text::trimmed(
            request->0.redirect_uris@[i]@,
        ) by {
            assert(text::texts(uris@)[i] == all[i]);
        }
    }
}

/// A request whose redirect URIs are checked is refused with the first fault of
/// its metadata, or goes on with what is accepted of it.
pub proof fn law_metadata_is_checked(
    settings: Option<OAuthSettings>,
    supported: Seq<Seq<char>>,
    request: RegistrationRequest,
    valid: Vec<bool>,
    demand: RegistrationDemand,
)
    requires
        serves(settings),
        endpoint::registration_answers(
            settings,
            supported,
            RegistrationReport::RedirectUrisChecked { request, valid },
            demand,
        ),
    ensures
        metadata::metadata_fault(request@, valid@, supported) matches Some(fault)
            ==> responds_with(demand, fault.status, fault.error, fault.description),
        metadata::metadata_fault(request@, valid@, supported) is None ==> (
        demand matches RegistrationDemand::ListUsers { metadata } && metadata@
            == metadata::accepted_metadata(request@, supported)),
{
}

/// A request with accepted redirect URIs that leaves out everything else is never
/// refused: it goes on to its owner.
pub proof fn law_the_least_request_goes_on(
    settings: Option<OAuthSettings>,
    supported: Seq<Seq<char>>,
    request: RegistrationRequest,
    valid: Vec<bool>,
    demand: RegistrationDemand,
)
    requires
        serves(settings),
        endpoint::registration_answers(
            settings,
            supported,
            RegistrationReport::RedirectUrisChecked { request, valid },
            demand,
        ),
        metadata_laws::has_accepted_redirects(request@, valid@),
        request.token_endpoint_auth_method is None,
        request.grant_types is None,
        request.response_types is None,
        request.application_type is None,
        request.scope is None,
    ensures
        demand is ListUsers,
{
    metadata_laws::law_the_first_unfit_member_is_told(request@, valid@, supported);
}

/// The first user that is not disabled becomes the owner, whoever is disabled
/// before; where all are disabled, or the storage could not be asked, the request
/// is refused.
pub proof fn law_owners_are_found(
    settings: Option<OAuthSettings>,
    supported: Seq<Seq<char>>,
    metadata: ClientMetadata,
    users: Option<Vec<ManagedUser>>,
    demand: RegistrationDemand,
    n: int,
)
    requires
        serves(settings),
        endpoint::registration_answers(
            settings,
            supported,
            RegistrationReport::UsersListed { metadata, users },
            demand,
        ),
        users matches Some(list) ==> 0 <= n <= list@.len() && (forall|i: int|
            0 <= i < n ==> (#[trigger] list@[i]).disabled) && (n < list@.len()
            ==> !list@[n].disabled),
    ensures
        users is None ==> responds_with(
            demand,
            500,
            "server_error"@,
            "OAuth storage is unavailable"@,
        ),
        users matches Some(list) ==> if n < list@.len() {
            demand matches RegistrationDemand::ListClients { metadata: kept, owner } && kept@
                == metadata@ && owner@ == list@[n].id@
        } else {
            responds_with(
                demand,
                503,
                "temporarily_unavailable"@,
                "no enabled managed user is available for dynamic clients"@,
            )
        },
{
    if users is Some {
        let list = users->0@;
        let before = list.take(n);
        if n < list.len() {
            let behind = list.skip(n + 1);
            client_laws::law_the_first_enabled_user_owns(before, list[n], behind);
            assert(list =~= before + seq![list[n]] + behind);
        } else {
            assert(before =~= list);
            let nobody = arbitrary::<ManagedUser>();
            client_laws::law_the_first_enabled_user_owns(before, nobody, Seq::empty());
        }
    }
}

/// Credentials are made where fewer than 256 clients are active and the name
/// takes at most 128 bytes; the number of clients is looked at first.
pub proof fn law_clients_are_limited(
    settings: Option<OAuthSettings>,
    supported: Seq<Seq<char>>,
    metadata: ClientMetadata,
    owner: String,
    clients: Option<Vec<OAuthClientRecord>>,
    demand: RegistrationDemand,
)
    requires
        serves(settings),
        endpoint::registration_answers(
            settings,
            supported,
            RegistrationReport::ClientsListed { metadata, owner, clients },
            demand,
        ),
    ensures
        clients is None ==> responds_with(
            demand,
            500,
            "server_error"@,
            "OAuth storage is unavailable"@,
        ),
        clients matches Some(list) ==> {
            let name = client::name_or_default(metadata@.client_name);
            if client::active_dynamic_clients(list@) >= 256 {
                responds_with(
                    demand,
                    429,
                    "temporarily_unavailable"@,
                    "dynamic client registration limit reached"@,
                )
            } else if utf8::encode_utf8(name).len() > 128 {
                responds_with(
                    demand,
                    400,
                    "invalid_client_metadata"@,
                    "client_name is too long"@,
                )
            } else {
                &&& demand matches RegistrationDemand::IssueCredentials {
                    metadata: kept,
                    owner: kept_owner,
                    client_name,
                }
                &&& kept@ == metadata@
                &&& kept_owner@ == owner@
                &&& client_name@ == name
            }
        },
{
}

/// The secret that was made is the one that is hashed, and everything else is
/// kept.
pub proof fn law_the_issued_secret_is_hashed(
    settings: Option<OAuthSettings>,
    supported: Seq<Seq<char>>,
    metadata: ClientMetadata,
    owner: String,
    client_name: String,
    credentials: IssuedCredentials,
    demand: RegistrationDemand,
)
    requires
        serves(settings),
        endpoint::registration_answers(
            settings,
            supported,
            RegistrationReport::CredentialsIssued { metadata, owner, client_name, credentials },
            demand,
        ),
    ensures
        demand matches RegistrationDemand::HashSecret {
            secret,
            metadata: kept,
            owner: kept_owner,
            client_name: kept_name,
            credentials: kept_credentials,
        } && secret@ == credentials.client_secret@ && kept@ == metadata@ && kept_owner@ == owner@
            && kept_name@ == client_name@ && kept_credentials == credentials,
{
}

/// What is stored is the client with all that was accepted of its request, and
/// what it will be told agrees with it. Its refresh tokens may be used again
/// exactly where it gets any and all of its callbacks are trusted by the settings.
pub proof fn law_clients_are_stored_with_their_metadata(
    settings: Option<OAuthSettings>,
    supported: Seq<Seq<char>>,
    metadata: ClientMetadata,
    owner: String,
    client_name: String,
    credentials: IssuedCredentials,
    client_secret_hash: String,
    demand: RegistrationDemand,
)
    requires
        serves(settings),
        endpoint::registration_answers(
            settings,
            supported,
            RegistrationReport::SecretHashed {
                metadata,
                owner,
                client_name,
                credentials,
                client_secret_hash,
            },
            demand,
        ),
    ensures
        demand is Store,
        ({
            let record = demand->Store_record;
            let told = demand->Store_response;
            let trusted = settings->0.confidential_reuse_redirect_uris;
            &&& client::is_random_uuid(record.id@)
            &&& record.client_id@ == credentials.client_id@
            &&& record.client_secret_hash@ == client_secret_hash@
            &&& record.name@ == "[dynamic] "@ + client_name@
            &&& record.redirect_uris@ == text::joined(metadata@.redirect_uris, "\n"@)
            &&& record.allowed_scopes@ == text::joined(metadata@.scopes, " "@)
            &&& record.owner_user_id matches Some(id) && id@ == owner@
            &&& record.owner_project_grant_id is None
            &&& record.owner_shared_key_hash is None
            &&& record.created_at >= 0
            &&& record.revoked_at is None
            &&& told.client_id@ == credentials.client_id@
            &&& told.client_secret@ == credentials.client_secret@
            &&& told.client_id_issued_at == record.created_at
            &&& told.client_secret_expires_at == 0
            &&& told.client_name@ == client_name@
            &&& text::texts(told.redirect_uris@) == metadata@.redirect_uris
            &&& text::texts(told.grant_types@) == metadata@.grant_types
            &&& text::texts(told.response_types@) == metadata@.response_types
            &&& told.application_type@ == metadata@.application_type
            &&& told.token_endpoint_auth_method@ == "client_secret_post"@
            &&& told.scope@ == record.allowed_scopes@
            &&& demand->Store_mode is ConfidentialReuse <==> metadata@.grant_types.contains(
                "refresh_token"@,
            ) && metadata@.redirect_uris.len() > 0 && forall|i: int|
                0 <= i < metadata@.redirect_uris.len() ==> text::texts(trusted@).contains(
                    #[trigger] metadata@.redirect_uris[i],
                )
        }),
{
    let record = demand->Store_record;
    assert(record@.name == record.name@);
    assert(record@.owner_user_id is Some);
}

/// A client that was stored is told what it was registered with; one that was not
/// is refused.
pub proof fn law_stored_clients_are_told(
    settings: Option<OAuthSettings>,
    supported: Seq<Seq<char>>,
    response: RegistrationResponse,
    stored: bool,
    demand: RegistrationDemand,
)
    requires
        serves(settings),
        endpoint::registration_answers(
            settings,
            supported,
            RegistrationReport::Stored { response, stored },
            demand,
        ),
    ensures
        stored ==> (demand matches RegistrationDemand::Respond(Ok(told)) && told@ == response@),
        !stored ==> responds_with(
            demand,
            500,
            "server_error"@,
            "client registration could not be stored"@,
        ),
{
}

}
