//! What a client asks for, and which of it is accepted.

use vstd::prelude::*;
use vstd::utf8;

use crate::registration::error;
use crate::registration::error::{
    metadata_error, redirect_uri_error, ErrorView, RegistrationError,
};
use crate::registration::scopes;
use crate::registration::scopes::normalize_scopes;
use crate::text;
use crate::text::{byte_len, contains_text, is_new_at, text_eq, trim};

verus! {

/// A registration request as its body reads.
#[derive(Debug, Clone, PartialEq, Eq)]
pub struct RegistrationRequest {
    pub redirect_uris: Vec<String>,
    pub token_endpoint_auth_method: Option<String>,
    pub grant_types: Option<Vec<String>>,
    pub response_types: Option<Vec<String>>,
    pub client_name: Option<String>,
    pub application_type: Option<String>,
    pub scope: Option<String>,
}

pub struct RequestView {
    pub redirect_uris: Seq<Seq<char>>,
    pub token_endpoint_auth_method: Option<Seq<char>>,
    pub grant_types: Option<Seq<Seq<char>>>,
    pub response_types: Option<Seq<Seq<char>>>,
    pub client_name: Option<Seq<char>>,
    pub application_type: Option<Seq<char>>,
    pub scope: Option<Seq<char>>,
}

impl View for RegistrationRequest {
    type V = RequestView;

    open spec fn view(&self) -> RequestView {
        RequestView {
            redirect_uris: text::texts(self.redirect_uris@),
            token_endpoint_auth_method: text::text_of(self.token_endpoint_auth_method),
            grant_types: text::texts_of(self.grant_types),
            response_types: text::texts_of(self.response_types),
            client_name: text::text_of(self.client_name),
            application_type: text::text_of(self.application_type),
            scope: text::text_of(self.scope),
        }
    }
}

// Lists of values.

/// The values of a list that was given, or its defaults.
pub open spec fn given_or(
    values: Option<Seq<Seq<char>>>,
    defaults: Seq<Seq<char>>,
) -> Seq<Seq<char>> {
    match values {
        Some(values) => values,
        None => defaults,
    }
}

/// At least one value, each an allowed one, and none twice.
pub open spec fn are_exact_values(values: Seq<Seq<char>>, allowed: Seq<Seq<char>>) -> bool {
    &&& values.len() > 0
    &&& forall|i: int| 0 <= i < values.len() ==> allowed.contains(#[trigger] values[i])
    &&& values.no_duplicates()
}

/// What is said of a list with another value, or with one twice.
pub open spec fn inexact_values() -> Seq<char> {
    "registration metadata contains an unsupported or duplicate value"@
}

/// Whether each of `values` is an allowed one and none comes twice.
fn all_exact(values: &Vec<String>, allowed: &Vec<String>) -> (result: bool)
    ensures
        result == are_exact_values(text::texts(values@), text::texts(allowed@)),
{
    let ghost given = text::texts(values@);
    let mut i: usize = 0;
    while i < values.len()
        invariant
            i <= values.len(),
            given == text::texts(values@),
            forall|j: int| 0 <= j < i ==> text::texts(allowed@).contains(#[trigger] given[j]),
            forall|j: int, k: int| 0 <= j < k < i ==> given[j] != given[k],
        decreases values.len() - i,
    {
        assert(given[i as int] == values@[i as int]@);
        if !contains_text(allowed, values[i].as_str()) || !is_new_at(values, i) {
            return false;
        }
        i = i + 1;
    }
    !values.is_empty()
}

/// The values of a list that was given or its defaults, where each is an
/// allowed one and none comes twice.
pub fn validate_exact_values(
    values: Option<Vec<String>>,
    defaults: Vec<String>,
    allowed: &Vec<String>,
) -> (result: Result<Vec<String>, &'static str>)
    ensures
        ({
            let given = given_or(text::texts_of(values), text::texts(defaults@));
            if are_exact_values(given, text::texts(allowed@)) {
                result matches Ok(accepted) && text::texts(accepted@) == given
            } else {
                result matches Err(description) && description@ == inexact_values()
            }
        }),
{
    let values = match values {
        Some(values) => values,
        None => defaults,
    };
    if all_exact(&values, allowed) {
        Ok(values)
    } else {
        Err("registration metadata contains an unsupported or duplicate value")
    }
}

// Redirect URIs.

/// The most redirect URIs of a client.
pub const MAX_REDIRECT_URIS: usize = 16;

/// The most bytes of a redirect URI.
pub const MAX_REDIRECT_URI_BYTES: usize = 2048;

/// The redirect URIs as they are registered: without the white space around
/// them.
pub open spec fn trimmed_all(uris: Seq<Seq<char>>) -> Seq<Seq<char>> {
    Seq::new(uris.len(), |i: int| text::trimmed(uris[i]))
}

/// The redirect URI at `i` is short enough, and a client may be called back
/// there.
pub open spec fn is_accepted_redirect(uris: Seq<Seq<char>>, valid: Seq<bool>, i: int) -> bool {
    utf8::encode_utf8(uris[i]).len() <= MAX_REDIRECT_URI_BYTES && i < valid.len() && valid[i]
}

/// `valid` says of each of the trimmed `uris` whether a client may be called
/// back there. All may be, they are few and short enough, and none is there
/// twice.
pub open spec fn are_accepted_redirects(uris: Seq<Seq<char>>, valid: Seq<bool>) -> bool {
    &&& 1 <= uris.len() <= MAX_REDIRECT_URIS
    &&& forall|i: int| 0 <= i < uris.len() ==> #[trigger] is_accepted_redirect(uris, valid, i)
    &&& uris.no_duplicates()
}

/// The redirect URIs of a request without the white space around them.
pub fn trimmed_redirect_uris(uris: &Vec<String>) -> (result: Vec<String>)
    ensures
        text::texts(result@) == trimmed_all(text::texts(uris@)),
{
    let mut out: Vec<String> = Vec::new();
    let mut i: usize = 0;
    while i < uris.len()
        invariant
            i <= uris.len(),
            out.len() == i,
            forall|j: int| 0 <= j < i ==> (#[trigger] out@[j])@ == text::trimmed(uris@[j]@),
        decreases uris.len() - i,
    {
        out.push(trim(uris[i].as_str()));
        i = i + 1;
    }
    assert(text::texts(out@) =~= trimmed_all(text::texts(uris@)));
    out
}

fn redirects_accepted(uris: &Vec<String>, valid: &Vec<bool>) -> (result: bool)
    ensures
        result == are_accepted_redirects(text::texts(uris@), valid@),
{
    let ghost all = text::texts(uris@);
    if uris.is_empty() || uris.len() > MAX_REDIRECT_URIS {
        return false;
    }
    let mut i: usize = 0;
    while i < uris.len()
        invariant
            i <= uris.len(),
            all == text::texts(uris@),
            forall|j: int| 0 <= j < i ==> #[trigger] is_accepted_redirect(all, valid@, j),
            forall|j: int, k: int| 0 <= j < k < i ==> all[j] != all[k],
        decreases uris.len() - i,
    {
        let uri = uris[i].as_str();
        assert(all[i as int] == uri@);
        if byte_len(uri) > MAX_REDIRECT_URI_BYTES || i >= valid.len() || !valid[i] {
            assert(!is_accepted_redirect(all, valid@, i as int));
            return false;
        }
        if !is_new_at(uris, i) {
            return false;
        }
        i = i + 1;
    }
    true
}

// The metadata as a whole.

/// The accepted metadata of a client.
#[derive(Debug, Clone, PartialEq, Eq)]
pub struct ClientMetadata {
    pub redirect_uris: Vec<String>,
    pub grant_types: Vec<String>,
    pub response_types: Vec<String>,
    pub application_type: String,
    pub scopes: Vec<String>,
    /// The name that the client asked for, as it reads in the request.
    pub client_name: Option<String>,
}

pub struct MetadataView {
    pub redirect_uris: Seq<Seq<char>>,
    pub grant_types: Seq<Seq<char>>,
    pub response_types: Seq<Seq<char>>,
    pub application_type: Seq<char>,
    pub scopes: Seq<Seq<char>>,
    pub client_name: Option<Seq<char>>,
}

impl View for ClientMetadata {
    type V = MetadataView;

    open spec fn view(&self) -> MetadataView {
        MetadataView {
            redirect_uris: text::texts(self.redirect_uris@),
            grant_types: text::texts(self.grant_types@),
            response_types: text::texts(self.response_types@),
            application_type: self.application_type@,
            scopes: text::texts(self.scopes@),
            client_name: text::text_of(self.client_name),
        }
    }
}

/// The grant types that there are, which are also those of a client that names
/// none.
pub open spec fn known_grant_types() -> Seq<Seq<char>> {
    seq!["authorization_code"@, "refresh_token"@]
}

/// The response types that there are, which are also those of a client that
/// names none.
pub open spec fn known_response_types() -> Seq<Seq<char>> {
    seq!["code"@]
}

/// The grant types are known ones, and an authorization code is among them.
pub open spec fn are_grant_types(values: Seq<Seq<char>>) -> bool {
    are_exact_values(values, known_grant_types()) && values.contains("authorization_code"@)
}

pub open spec fn is_auth_method(method: Option<Seq<char>>) -> bool {
    match method {
        Some(method) => method == "none"@ || method == "client_secret_post"@,
        None => true,
    }
}

/// The type of application that a client says it is.
pub open spec fn application_type_or_web(application_type: Option<Seq<char>>) -> Seq<char> {
    match application_type {
        Some(named) => named,
        None => "web"@,
    }
}

/// Why the metadata of a request is refused, if it is. The first fault in this
/// order counts.
pub open spec fn metadata_fault(
    request: RequestView,
    valid: Seq<bool>,
    supported: Seq<Seq<char>>,
) -> Option<ErrorView> {
    let application_type = application_type_or_web(request.application_type);
    if !are_accepted_redirects(trimmed_all(request.redirect_uris), valid) {
        Some(error::invalid_redirect_uri())
    } else if !are_grant_types(given_or(request.grant_types, known_grant_types())) {
        Some(
            error::invalid_metadata(
                "grant_types must include authorization_code and may include refresh_token"@,
            ),
        )
    } else if !are_exact_values(
        given_or(request.response_types, known_response_types()),
        known_response_types(),
    ) {
        Some(error::invalid_metadata(inexact_values()))
    } else if !is_auth_method(request.token_endpoint_auth_method) {
        Some(
            error::invalid_metadata(
                "token_endpoint_auth_method must be none or client_secret_post"@,
            ),
        )
    } else if application_type != "web"@ && application_type != "native"@ {
        Some(error::invalid_metadata("application_type must be web or native"@))
    } else {
        match scopes::granted_scopes(request.scope, supported) {
            Ok(_) => None,
            Err(description) => Some(error::invalid_metadata(description)),
        }
    }
}

/// What a client is registered with whose request has no fault.
pub open spec fn accepted_metadata(
    request: RequestView,
    supported: Seq<Seq<char>>,
) -> MetadataView {
    MetadataView {
        redirect_uris: trimmed_all(request.redirect_uris),
        grant_types: given_or(request.grant_types, known_grant_types()),
        response_types: given_or(request.response_types, known_response_types()),
        application_type: application_type_or_web(request.application_type),
        scopes: scopes::granted_scopes(request.scope, supported)->Ok_0,
        client_name: request.client_name,
    }
}

fn grant_type_list() -> (result: Vec<String>)
    ensures
        text::texts(result@) == known_grant_types(),
{
    let list: Vec<String> = vec!["authorization_code".to_owned(), "refresh_token".to_owned()];
    assert(text::texts(list@) =~= known_grant_types());
    list
}

fn response_type_list() -> (result: Vec<String>)
    ensures
        text::texts(result@) == known_response_types(),
{
    let list: Vec<String> = vec!["code".to_owned()];
    assert(text::texts(list@) =~= known_response_types());
    list
}

fn auth_method_accepted(method: &Option<String>) -> (result: bool)
    ensures
        result == is_auth_method(text::text_of(*method)),
{
    match method {
        Some(method) => text_eq(method.as_str(), "none") || text_eq(
            method.as_str(),
            "client_secret_post",
        ),
        None => true,
    }
}

/// The metadata of a request, where all of it is accepted. `valid` says of
/// each redirect URI, without the white space around it, whether a client may
/// be called back there; one of which it says nothing is refused.
pub fn validate_metadata(
    request: RegistrationRequest,
    valid: &Vec<bool>,
    supported: &Vec<String>,
) -> (result: Result<ClientMetadata, RegistrationError>)
    ensures
        match metadata_fault(request@, valid@, text::texts(supported@)) {
            Some(fault) => error::refused_as(result, fault),
            None => result matches Ok(metadata) && metadata@ == accepted_metadata(
                request@,
                text::texts(supported@),
            ),
        },
{
    let redirect_uris = trimmed_redirect_uris(&request.redirect_uris);
    if !redirects_accepted(&redirect_uris, valid) {
        return Err(redirect_uri_error());
    }
    let grant_types = match validate_exact_values(
        request.grant_types,
        grant_type_list(),
        &grant_type_list(),
    ) {
        Ok(values) => {
            if !contains_text(&values, "authorization_code") {
                return Err(
                    metadata_error(
                        "grant_types must include authorization_code and may include refresh_token",
                    ),
                );
            }
            values
        },
        Err(_) => {
            return Err(
                metadata_error(
                    "grant_types must include authorization_code and may include refresh_token",
                ),
            );
        },
    };
    let response_types = match validate_exact_values(
        request.response_types,
        response_type_list(),
        &response_type_list(),
    ) {
        Ok(values) => values,
        Err(description) => return Err(metadata_error(description)),
    };
    if !auth_method_accepted(&request.token_endpoint_auth_method) {
        return Err(metadata_error("token_endpoint_auth_method must be none or client_secret_post"));
    }
    let application_type = match request.application_type {
        Some(named) => named,
        None => "web".to_owned(),
    };
    if !text_eq(application_type.as_str(), "web") && !text_eq(
        application_type.as_str(),
        "native",
    ) {
        return Err(metadata_error("application_type must be web or native"));
    }
    let scopes = match normalize_scopes(request.scope, supported) {
        Ok(scopes) => scopes,
        Err(description) => return Err(metadata_error(description)),
    };
    Ok(
        ClientMetadata {
            redirect_uris,
            grant_types,
            response_types,
            application_type,
            scopes,
            client_name: request.client_name,
        },
    )
}

/// Accepted metadata registers a client that gets authorization codes, for
/// distinct callbacks, each of them valid, and distinct scopes.
pub proof fn law_accepted_metadata_is_sound(
    request: RequestView,
    valid: Seq<bool>,
    supported: Seq<Seq<char>>,
)
    requires
        metadata_fault(request, valid, supported) is None,
    ensures
        ({
            let metadata = accepted_metadata(request, supported);
            &&& metadata.grant_types.contains("authorization_code"@)
            &&& metadata.grant_types.no_duplicates()
            &&& metadata.response_types == seq!["code"@]
            &&& metadata.redirect_uris.no_duplicates()
            &&& 1 <= metadata.redirect_uris.len() <= MAX_REDIRECT_URIS
            &&& forall|i: int| 0 <= i < metadata.redirect_uris.len() ==> #[trigger] valid[i]
            &&& metadata.scopes.len() > 0
            &&& metadata.scopes.no_duplicates()
            &&& metadata.application_type == "web"@ || metadata.application_type == "native"@
        }),
{
    let metadata = accepted_metadata(request, supported);
    scopes::law_granted_scopes_are_distinct_and_available(request.scope, supported);
    let types = metadata.response_types;
    assert forall|i: int| 0 <= i < types.len() implies #[trigger] types[i] == "code"@ by {
        assert(known_response_types().contains(types[i]));
    }
    if types.len() > 1 {
        assert(types[0] == types[1]);
    }
    assert(types =~= seq!["code"@]);
    assert forall|i: int| 0 <= i < metadata.redirect_uris.len() implies #[trigger] valid[i] by {
        assert(is_accepted_redirect(metadata.redirect_uris, valid, i));
    }
}

}
