//! Laws of what a client may ask for: which metadata is accepted, what is left
//! out, and which scopes are granted.

use vstd::prelude::*;
use vstd::utf8;

use crate::registration::error;
use crate::registration::error::{ErrorView, RegistrationError};
use crate::registration::metadata;
use crate::registration::metadata::{ClientMetadata, RegistrationRequest, RequestView};
use crate::registration::scopes;
use crate::text;

verus! {

// Reading a request.

/// A request is known by all of its members, each as it was given or left out.
pub proof fn law_requests_are_read_whole(request: RegistrationRequest)
    ensures
        request@.redirect_uris.len() == request.redirect_uris@.len(),
        forall|i: int|
            0 <= i < request.redirect_uris@.len() ==> #[trigger] request@.redirect_uris[i]
                == request.redirect_uris@[i]@,
        request@.token_endpoint_auth_method is Some
            <==> request.token_endpoint_auth_method is Some,
        request.token_endpoint_auth_method matches Some(method)
            ==> request@.token_endpoint_auth_method == Some(method@),
        request@.grant_types is Some <==> request.grant_types is Some,
        request.grant_types matches Some(list) ==> request@.grant_types->0.len() == list@.len()
            && forall|i: int|
            0 <= i < list@.len() ==> #[trigger] request@.grant_types->0[i] == list@[i]@,
        request@.response_types is Some <==> request.response_types is Some,
        request.response_types matches Some(list) ==> request@.response_types->0.len()
            == list@.len() && forall|i: int|
            0 <= i < list@.len() ==> #[trigger] request@.response_types->0[i] == list@[i]@,
        request@.client_name is Some <==> request.client_name is Some,
        request.client_name matches Some(name) ==> request@.client_name == Some(name@),
        request@.application_type is Some <==> request.application_type is Some,
        request.application_type matches Some(named) ==> request@.application_type == Some(named@),
        request@.scope is Some <==> request.scope is Some,
        request.scope matches Some(scope) ==> request@.scope == Some(scope@),
{
}

/// The metadata of a client is known by all of its members.
pub proof fn law_metadata_is_read_whole(metadata: ClientMetadata)
    ensures
        metadata@.redirect_uris.len() == metadata.redirect_uris@.len(),
        forall|i: int|
            0 <= i < metadata.redirect_uris@.len() ==> #[trigger] metadata@.redirect_uris[i]
                == metadata.redirect_uris@[i]@,
        metadata@.grant_types.len() == metadata.grant_types@.len(),
        forall|i: int|
            0 <= i < metadata.grant_types@.len() ==> #[trigger] metadata@.grant_types[i]
                == metadata.grant_types@[i]@,
        metadata@.response_types.len() == metadata.response_types@.len(),
        forall|i: int|
            0 <= i < metadata.response_types@.len() ==> #[trigger] metadata@.response_types[i]
                == metadata.response_types@[i]@,
        metadata@.application_type == metadata.application_type@,
        metadata@.scopes.len() == metadata.scopes@.len(),
        forall|i: int|
            0 <= i < metadata.scopes@.len() ==> #[trigger] metadata@.scopes[i]
                == metadata.scopes@[i]@,
        metadata@.client_name is Some <==> metadata.client_name is Some,
        metadata.client_name matches Some(name) ==> metadata@.client_name == Some(name@),
{
}

// Errors.

/// A refusal is known by its status, its code and its description, and is that
/// of the fault it is for.
pub proof fn law_refusals_are_read_whole<T>(
    refusal: RegistrationError,
    result: Result<T, RegistrationError>,
    fault: ErrorView,
)
    ensures
        refusal@.status == refusal.status,
        refusal@.error == refusal.error@,
        refusal@.description == refusal.description@,
        error::refused_as(result, fault) <==> (result matches Err(found) && found.status
            == fault.status && found.error@ == fault.error && found.description@
            == fault.description),
{
}

/// What the refusals of a registration say.
pub proof fn law_refusals_have_their_codes(status: u16, description: Seq<char>)
    ensures
        error::invalid_metadata(description) == (ErrorView {
            status: 400,
            error: "invalid_client_metadata"@,
            description,
        }),
        error::invalid_redirect_uri() == (ErrorView {
            status: 400,
            error: "invalid_redirect_uri"@,
            description:
                "redirect_uris must contain unique absolute HTTPS or loopback callback URLs"@,
        }),
        error::server_error(description) == (ErrorView {
            status: 500,
            error: "server_error"@,
            description,
        }),
        error::temporarily_unavailable(status, description) == (ErrorView {
            status,
            error: "temporarily_unavailable"@,
            description,
        }),
{
}

// Lists of values.

/// A list that was given is taken as it is, one that was left out as its
/// defaults.
pub proof fn law_lists_left_out_get_their_defaults(
    values: Seq<Seq<char>>,
    defaults: Seq<Seq<char>>,
)
    ensures
        metadata::given_or(Some(values), defaults) == values,
        metadata::given_or(None, defaults) == defaults,
{
}

/// No list is exact without a value. One value is exact where it is allowed, and
/// one more makes an exact list of an exact one where it is allowed and new.
pub proof fn law_exact_lists_grow_by_new_values(
    values: Seq<Seq<char>>,
    value: Seq<char>,
    allowed: Seq<Seq<char>>,
)
    ensures
        !metadata::are_exact_values(Seq::empty(), allowed),
        metadata::are_exact_values(seq![value], allowed) <==> allowed.contains(value),
        values.len() > 0 ==> (metadata::are_exact_values(values.push(value), allowed)
            <==> metadata::are_exact_values(values, allowed) && allowed.contains(value)
            && !values.contains(value)),
{
    let one = seq![value];
    assert(one[0] == value);
    if values.len() > 0 {
        let more = values.push(value);
        assert(more[values.len() as int] == value);
        assert forall|i: int| 0 <= i < values.len() implies more[i] == #[trigger] values[i] by {}
        if metadata::are_exact_values(more, allowed) {
            assert forall|i: int| 0 <= i < values.len() implies allowed.contains(
                #[trigger] values[i],
            ) by {
                assert(allowed.contains(more[i]));
            }
            assert(allowed.contains(more[values.len() as int]));
            if values.contains(value) {
                let i = choose|i: int| 0 <= i < values.len() && values[i] == value;
                assert(more[i] == more[values.len() as int]);
            }
            assert(values.no_duplicates()) by {
                assert forall|i: int, j: int|
                    0 <= i < values.len() && 0 <= j < values.len() && i != j implies values[i]
                    != values[j] by {
                    assert(more[i] != more[j]);
                }
            }
        }
        if metadata::are_exact_values(values, allowed) && allowed.contains(value)
            && !values.contains(value) {
            assert forall|i: int, j: int|
                0 <= i < more.len() && 0 <= j < more.len() && i != j implies more[i] != more[j] by {
                if i < values.len() {
                    assert(values.contains(values[i]));
                }
                if j < values.len() {
                    assert(values.contains(values[j]));
                }
            }
        }
    }
}

proof fn lemma_words_differ()
    ensures
        "authorization_code"@ != "refresh_token"@,
        "none"@ != "client_secret_post"@,
        "web"@ != "native"@,
{
    reveal_strlit("authorization_code");
    reveal_strlit("refresh_token");
    reveal_strlit("none");
    reveal_strlit("client_secret_post");
    reveal_strlit("web");
    reveal_strlit("native");
    assert("authorization_code"@.len() == 18);
    assert("refresh_token"@.len() == 13);
    assert("none"@.len() == 4);
    assert("client_secret_post"@.len() == 18);
    assert("web"@.len() == 3);
    assert("native"@.len() == 6);
}

/// Grant types are an authorization code alone, or that and a refresh token, in
/// either order. The only list of response types is a code.
pub proof fn law_accepted_types(values: Seq<Seq<char>>)
    ensures
        metadata::are_grant_types(values) <==> values == seq!["authorization_code"@] || values
            == seq!["authorization_code"@, "refresh_token"@] || values == seq![
            "refresh_token"@,
            "authorization_code"@,
        ],
        metadata::are_exact_values(values, metadata::known_response_types()) <==> values == seq![
            "code"@,
        ],
        metadata::known_grant_types() == seq!["authorization_code"@, "refresh_token"@],
        metadata::known_response_types() == seq!["code"@],
{
    lemma_words_differ();
    let code = "authorization_code"@;
    let refresh = "refresh_token"@;
    let grants = metadata::known_grant_types();
    let responses = metadata::known_response_types();
    assert(grants[0] == code);
    assert(grants[1] == refresh);
    assert(responses[0] == "code"@);
    if metadata::are_grant_types(values) {
        assert forall|i: int| 0 <= i < values.len() implies values[i] == code || values[i]
            == refresh by {
            assert(grants.contains(values[i]));
        }
        if values.len() > 2 {
            assert(values[0] != values[1] && values[1] != values[2] && values[0] != values[2]);
        }
        if values.len() == 1 {
            assert(values =~= seq![code]);
        } else {
            assert(values[0] != values[1]);
            assert(values =~= seq![code, refresh] || values =~= seq![refresh, code]);
        }
    }
    if values == seq![code] || values == seq![code, refresh] || values == seq![refresh, code] {
        assert(values[0] == code || values[1] == code);
        assert(values.contains(code));
        assert forall|i: int| 0 <= i < values.len() implies grants.contains(
            #[trigger] values[i],
        ) by {}
    }
    if metadata::are_exact_values(values, responses) {
        assert forall|i: int| 0 <= i < values.len() implies values[i] == "code"@ by {
            assert(responses.contains(values[i]));
        }
        if values.len() > 1 {
            assert(values[0] != values[1]);
        }
        assert(values =~= seq!["code"@]);
    }
    if values == seq!["code"@] {
        assert(responses.contains(values[0]));
    }
}

// The metadata as a whole.

/// Redirect URIs are accepted where there are 1 to 16 of them and each, without
/// the white space around it, takes at most 2048 bytes, is valid and differs from
/// all others.
pub open spec fn has_accepted_redirects(request: RequestView, valid: Seq<bool>) -> bool {
    let uris = request.redirect_uris;
    &&& 1 <= uris.len() <= 16
    &&& valid.len() >= uris.len()
    &&& forall|i: int|
        0 <= i < uris.len() ==> utf8::encode_utf8(text::trimmed(#[trigger] uris[i])).len() <= 2048
    &&& forall|i: int| 0 <= i < uris.len() ==> #[trigger] valid[i]
    &&& forall|i: int, j: int|
        0 <= i < j < uris.len() ==> text::trimmed(#[trigger] uris[i]) != text::trimmed(
            #[trigger] uris[j],
        )
}

/// Grant types are left out, or are an authorization code with or without a
/// refresh token.
pub open spec fn has_accepted_grants(request: RequestView) -> bool {
    request.grant_types matches Some(list) ==> {
        ||| list == seq!["authorization_code"@]
        ||| list == seq!["authorization_code"@, "refresh_token"@]
        ||| list == seq!["refresh_token"@, "authorization_code"@]
    }
}

pub open spec fn has_accepted_responses(request: RequestView) -> bool {
    request.response_types matches Some(list) ==> list == seq!["code"@]
}

pub open spec fn has_accepted_method(request: RequestView) -> bool {
    request.token_endpoint_auth_method matches Some(method) ==> method == "none"@ || method
        == "client_secret_post"@
}

pub open spec fn has_accepted_application(request: RequestView) -> bool {
    request.application_type matches Some(named) ==> named == "web"@ || named == "native"@
}

proof fn lemma_redirects(request: RequestView, valid: Seq<bool>)
    ensures
        metadata::are_accepted_redirects(metadata::trimmed_all(request.redirect_uris), valid)
            <==> has_accepted_redirects(request, valid),
{
    let uris = request.redirect_uris;
    let all = metadata::trimmed_all(uris);
    assert(all.len() == uris.len());
    assert forall|i: int| 0 <= i < uris.len() implies all[i] == text::trimmed(
        #[trigger] uris[i],
    ) by {}
    if metadata::are_accepted_redirects(all, valid) {
        assert forall|i: int| 0 <= i < uris.len() implies utf8::encode_utf8(
            text::trimmed(#[trigger] uris[i]),
        ).len() <= 2048 by {
            assert(metadata::is_accepted_redirect(all, valid, i));
        }
        assert forall|i: int| 0 <= i < uris.len() implies #[trigger] valid[i] by {
            assert(metadata::is_accepted_redirect(all, valid, i));
        }
        assert(metadata::is_accepted_redirect(all, valid, uris.len() - 1));
        assert forall|i: int, j: int| 0 <= i < j < uris.len() implies text::trimmed(
            #[trigger] uris[i],
        ) != text::trimmed(#[trigger] uris[j]) by {
            assert(all[i] != all[j]);
        }
    }
    if has_accepted_redirects(request, valid) {
        assert forall|i: int| 0 <= i < all.len() implies #[trigger] metadata::is_accepted_redirect(
            all,
            valid,
            i,
        ) by {
            assert(all[i] == text::trimmed(uris[i]));
            assert(valid[i]);
        }
        assert forall|i: int, j: int| 0 <= i < all.len() && 0 <= j < all.len() && i != j implies
            all[i] != all[j] by {
            if i < j {
                assert(text::trimmed(uris[i]) != text::trimmed(uris[j]));
            } else {
                assert(text::trimmed(uris[j]) != text::trimmed(uris[i]));
            }
        }
    }
}

/// Metadata is accepted exactly where every member of it is, each left out where
/// it may be. Otherwise the first member in this order that is not accepted is
/// told: redirect URIs, grant types, response types, method, application, scope.
pub proof fn law_the_first_unfit_member_is_told(
    request: RequestView,
    valid: Seq<bool>,
    supported: Seq<Seq<char>>,
)
    ensures
        ({
            let fault = metadata::metadata_fault(request, valid, supported);
            let granted = scopes::granted_scopes(request.scope, supported);
            let uris = has_accepted_redirects(request, valid);
            let grants = uris && has_accepted_grants(request);
            let responses = grants && has_accepted_responses(request);
            let method = responses && has_accepted_method(request);
            let application = method && has_accepted_application(request);
            &&& fault is None <==> application && granted is Ok
            &&& !uris ==> fault == Some(
                ErrorView {
                    status: 400,
                    error: "invalid_redirect_uri"@,
                    description:
                        "redirect_uris must contain unique absolute HTTPS or loopback callback URLs"@,
                },
            )
            &&& uris && !grants ==> fault == Some(
                ErrorView {
                    status: 400,
                    error: "invalid_client_metadata"@,
                    description:
                        "grant_types must include authorization_code and may include refresh_token"@,
                },
            )
            &&& grants && !responses ==> fault == Some(
                ErrorView {
                    status: 400,
                    error: "invalid_client_metadata"@,
                    description:
                        "registration metadata contains an unsupported or duplicate value"@,
                },
            )
            &&& responses && !method ==> fault == Some(
                ErrorView {
                    status: 400,
                    error: "invalid_client_metadata"@,
                    description: "token_endpoint_auth_method must be none or client_secret_post"@,
                },
            )
            &&& method && !application ==> fault == Some(
                ErrorView {
                    status: 400,
                    error: "invalid_client_metadata"@,
                    description: "application_type must be web or native"@,
                },
            )
            &&& application && granted is Err ==> fault == Some(
                ErrorView {
                    status: 400,
                    error: "invalid_client_metadata"@,
                    description: granted->Err_0,
                },
            )
        }),
{
    lemma_redirects(request, valid);
    law_accepted_types(metadata::given_or(request.grant_types, metadata::known_grant_types()));
    law_accepted_types(
        metadata::given_or(request.response_types, metadata::known_response_types()),
    );
}

/// A request that leaves out all that may be left out is accepted wherever its
/// redirect URIs are: it has no fault, and gets the defaults.
pub proof fn law_everything_optional_may_be_left_out(
    redirect_uris: Seq<Seq<char>>,
    valid: Seq<bool>,
    supported: Seq<Seq<char>>,
)
    requires
        1 <= redirect_uris.len() <= 16,
        valid.len() == redirect_uris.len(),
        forall|i: int| 0 <= i < valid.len() ==> #[trigger] valid[i],
        forall|i: int|
            0 <= i < redirect_uris.len() ==> utf8::encode_utf8(
                text::trimmed(#[trigger] redirect_uris[i]),
            ).len() <= 2048,
        forall|i: int, j: int|
            0 <= i < j < redirect_uris.len() ==> text::trimmed(#[trigger] redirect_uris[i])
                != text::trimmed(#[trigger] redirect_uris[j]),
    ensures
        ({
            let request = RequestView {
                redirect_uris,
                token_endpoint_auth_method: None,
                grant_types: None,
                response_types: None,
                client_name: None,
                application_type: None,
                scope: None,
            };
            let accepted = metadata::accepted_metadata(request, supported);
            &&& metadata::metadata_fault(request, valid, supported) is None
            &&& accepted.grant_types == seq!["authorization_code"@, "refresh_token"@]
            &&& accepted.response_types == seq!["code"@]
            &&& accepted.application_type == "web"@
            &&& accepted.client_name is None
        }),
{
    let request = RequestView {
        redirect_uris,
        token_endpoint_auth_method: None,
        grant_types: None,
        response_types: None,
        client_name: None,
        application_type: None,
        scope: None,
    };
    law_the_first_unfit_member_is_told(request, valid, supported);
}

/// Leaving out the authentication method comes to the same as asking for "none"
/// or for "client_secret_post", whatever else is in the request; asking for
/// anything else is never accepted.
pub proof fn law_the_method_may_be_left_out(
    request: RequestView,
    valid: Seq<bool>,
    supported: Seq<Seq<char>>,
    method: Seq<char>,
)
    ensures
        ({
            let without = RequestView { token_endpoint_auth_method: None, ..request };
            let public = RequestView { token_endpoint_auth_method: Some("none"@), ..request };
            let secret = RequestView {
                token_endpoint_auth_method: Some("client_secret_post"@),
                ..request
            };
            let other = RequestView { token_endpoint_auth_method: Some(method), ..request };
            let fault = metadata::metadata_fault(without, valid, supported);
            &&& metadata::metadata_fault(public, valid, supported) == fault
            &&& metadata::metadata_fault(secret, valid, supported) == fault
            &&& metadata::accepted_metadata(public, supported) == metadata::accepted_metadata(
                without,
                supported,
            )
            &&& metadata::accepted_metadata(secret, supported) == metadata::accepted_metadata(
                without,
                supported,
            )
            &&& method != "none"@ && method != "client_secret_post"@ ==> metadata::metadata_fault(
                other,
                valid,
                supported,
            ) is Some
        }),
{
    let without = RequestView { token_endpoint_auth_method: None, ..request };
    let public = RequestView { token_endpoint_auth_method: Some("none"@), ..request };
    let secret = RequestView {
        token_endpoint_auth_method: Some("client_secret_post"@),
        ..request
    };
    let other = RequestView { token_endpoint_auth_method: Some(method), ..request };
    law_the_first_unfit_member_is_told(without, valid, supported);
    law_the_first_unfit_member_is_told(public, valid, supported);
    law_the_first_unfit_member_is_told(secret, valid, supported);
    law_the_first_unfit_member_is_told(other, valid, supported);
}

/// What is accepted is what was asked for: the redirect URIs in order and without
/// the white space around them, the types as given, the scopes that are granted,
/// and the name untouched.
pub proof fn law_what_was_asked_for_is_accepted(
    request: RequestView,
    valid: Seq<bool>,
    supported: Seq<Seq<char>>,
)
    requires
        metadata::metadata_fault(request, valid, supported) is None,
    ensures
        ({
            let accepted = metadata::accepted_metadata(request, supported);
            &&& accepted.redirect_uris.len() == request.redirect_uris.len()
            &&& forall|i: int|
                0 <= i < request.redirect_uris.len() ==> #[trigger] accepted.redirect_uris[i]
                    == text::trimmed(request.redirect_uris[i])
            &&& request.grant_types matches Some(list) ==> accepted.grant_types == list
            &&& request.grant_types is None ==> accepted.grant_types == seq![
                "authorization_code"@,
                "refresh_token"@,
            ]
            &&& accepted.response_types == seq!["code"@]
            &&& request.application_type matches Some(named) ==> accepted.application_type == named
            &&& request.application_type is None ==> accepted.application_type == "web"@
            &&& scopes::granted_scopes(request.scope, supported) == Ok::<
                Seq<Seq<char>>,
                Seq<char>,
            >(accepted.scopes)
            &&& accepted.client_name == request.client_name
        }),
{
    law_the_first_unfit_member_is_told(request, valid, supported);
}

// Scopes.

/// A client that asks for no scope gets these, whatever the server supports.
pub proof fn law_scopes_left_out_get_their_defaults(supported: Seq<Seq<char>>)
    ensures
        scopes::granted_scopes(None, supported) == Ok::<Seq<Seq<char>>, Seq<char>>(
            seq![
                "runtime:read"@,
                "runner:manage"@,
                "session:collaborate"@,
                "communication:read"@,
                "communication:manage"@,
                "project:read"@,
                "project:write"@,
                "memory:read"@,
                "memory:manage"@,
                "job:run"@,
                "job:detach"@,
                "computer:read"@,
                "computer:control"@,
                "computer:launch"@,
                "computer:display_read"@,
                "computer:pointer_control"@,
                "computer:clipboard_read"@,
                "computer:clipboard_write"@,
                "mcp:local"@,
                "plugin:inspect"@,
                "plugin:invoke"@,
                "plugin:manage"@,
                "ssh:local"@,
                "coding_agent:run"@,
                "account:manage"@,
                "offline_access"@,
            ],
        ),
        scopes::default_scopes() == scopes::granted_scopes(None, supported)->Ok_0,
{
}

/// Offline access may always be asked for, and every other scope where the
/// server supports it.
pub proof fn law_scopes_that_may_be_asked_for(scope: Seq<char>, supported: Seq<Seq<char>>)
    ensures
        scopes::is_available("offline_access"@, supported),
        scope != "offline_access"@ ==> (scopes::is_available(scope, supported)
            <==> supported.contains(scope)),
{
}

/// Scopes that may be asked for, and of which none comes twice, are granted as
/// they were asked for, whatever their order; one that may not be, or that comes
/// twice, has all of them refused. No scope at all is refused in other words.
pub proof fn law_scopes_are_granted_as_asked(asked: Seq<Seq<char>>, supported: Seq<Seq<char>>)
    requires
        forall|i: int| 0 <= i < asked.len() ==> text::is_word(#[trigger] asked[i]),
    ensures
        ({
            let granted = scopes::granted_scopes(Some(text::joined(asked, " "@)), supported);
            let fit = asked.no_duplicates() && forall|i: int|
                0 <= i < asked.len() ==> (#[trigger] asked[i] == "offline_access"@
                    || supported.contains(asked[i]));
            &&& asked.len() > 0 && fit ==> granted == Ok::<Seq<Seq<char>>, Seq<char>>(asked)
            &&& !fit ==> granted == Err::<Seq<Seq<char>>, Seq<char>>(
                "requested scope is not available to dynamically registered clients"@,
            )
            &&& asked.len() == 0 ==> granted == Err::<Seq<Seq<char>>, Seq<char>>(
                "scope must contain at least one supported value"@,
            )
        }),
{
    reveal_strlit(" ");
    assert(" "@ =~= seq![' ']);
    text::law_words_of_joined(asked);
    let fit = asked.no_duplicates() && forall|i: int|
        0 <= i < asked.len() ==> (#[trigger] asked[i] == "offline_access"@ || supported.contains(
            asked[i],
        ));
    if fit {
        assert forall|i: int| 0 <= i < asked.len() implies scopes::is_available(
            #[trigger] asked[i],
            supported,
        ) by {}
    } else if asked.no_duplicates() {
        let i = choose|i: int|
            0 <= i < asked.len() && !(#[trigger] asked[i] == "offline_access"@
                || supported.contains(asked[i]));
        assert(!scopes::is_available(asked[i], supported));
    }
}

/// Only the words of a scope count, and none of the white space between and
/// around them: texts of the same words are granted the same.
pub proof fn law_scopes_are_words(
    one: Seq<char>,
    other: Seq<char>,
    supported: Seq<Seq<char>>,
)
    requires
        text::words_of(one) == text::words_of(other),
    ensures
        scopes::granted_scopes(Some(one), supported) == scopes::granted_scopes(
            Some(other),
            supported,
        ),
        scopes::granted_scopes(Some(one), supported) matches Ok(granted) ==> granted
            == text::words_of(one),
{
}

}
