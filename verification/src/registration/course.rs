//! The course of a registration from its request to its answer.

use vstd::prelude::*;

use crate::registration::client;
use crate::registration::client::OAuthSettings;
use crate::registration::endpoint;
use crate::registration::endpoint::{
    RegistrationDemand, RegistrationReport, MAX_REGISTRATION_BODY_BYTES,
};
use crate::registration::metadata;
use crate::text;

verus! {

/// `report` is one on `demand`: it tells what was asked for, and hands on what
/// the demand carries.
pub open spec fn reports_on(demand: RegistrationDemand, report: RegistrationReport) -> bool {
    match demand {
        RegistrationDemand::ReadBody => report is BodyRead,
        RegistrationDemand::Parse(_) => report is Parsed,
        RegistrationDemand::CheckRedirectUris { request, .. } => {
            report matches RegistrationReport::RedirectUrisChecked { request: kept, .. } && kept
                == request
        },
        RegistrationDemand::ListUsers { metadata } => {
            report matches RegistrationReport::UsersListed { metadata: kept, .. } && kept
                == metadata
        },
        RegistrationDemand::ListClients { metadata, owner } => {
            report matches RegistrationReport::ClientsListed {
                metadata: kept,
                owner: kept_owner,
                ..
            } && kept == metadata && kept_owner == owner
        },
        RegistrationDemand::IssueCredentials { metadata, owner, client_name } => {
            report matches RegistrationReport::CredentialsIssued {
                metadata: kept,
                owner: kept_owner,
                client_name: kept_name,
                ..
            } && kept == metadata && kept_owner == owner && kept_name == client_name
        },
        RegistrationDemand::HashSecret { metadata, owner, client_name, credentials, .. } => {
            report matches RegistrationReport::SecretHashed {
                metadata: kept,
                owner: kept_owner,
                client_name: kept_name,
                credentials: kept_credentials,
                ..
            } && kept == metadata && kept_owner == owner && kept_name == client_name
                && kept_credentials == credentials
        },
        RegistrationDemand::Store { response, .. } => {
            report matches RegistrationReport::Stored { response: kept, .. } && kept == response
        },
        RegistrationDemand::Respond(_) => false,
    }
}

/// A registration from its request on: every demand answers a report, and the
/// next report is one on it.
pub open spec fn is_course(
    settings: Option<OAuthSettings>,
    supported: Seq<Seq<char>>,
    reports: Seq<RegistrationReport>,
    demands: Seq<RegistrationDemand>,
) -> bool {
    &&& reports.len() == demands.len()
    &&& reports.len() > 0
    &&& reports[0] is Requested
    &&& forall|i: int|
        0 <= i < reports.len() ==> endpoint::registration_answers(
            settings,
            supported,
            #[trigger] reports[i],
            demands[i],
        )
    &&& forall|i: int| 0 <= i < reports.len() - 1 ==> reports_on(#[trigger] demands[i], reports[i + 1])
}

/// Where a registration stands after each of its steps.
proof fn lemma_steps(
    settings: Option<OAuthSettings>,
    supported: Seq<Seq<char>>,
    reports: Seq<RegistrationReport>,
    demands: Seq<RegistrationDemand>,
)
    requires
        is_course(settings, supported, reports, demands),
    ensures
        reports.len() <= 9,
        reports.len() > 1 ==> reports[1] is BodyRead,
        reports.len() > 2 ==> reports[2] is Parsed,
        reports.len() > 3 ==> reports[3] is RedirectUrisChecked,
        reports.len() > 4 ==> reports[4] is UsersListed,
        reports.len() > 5 ==> reports[5] is ClientsListed,
        reports.len() > 6 ==> reports[6] is CredentialsIssued,
        reports.len() > 7 ==> reports[7] is SecretHashed,
        reports.len() > 8 ==> reports[8] is Stored,
{
    let n = reports.len();
    assert(endpoint::registration_answers(settings, supported, reports[0], demands[0]));
    if n > 1 {
        assert(reports_on(demands[0], reports[1]));
        assert(endpoint::registration_answers(settings, supported, reports[1], demands[1]));
    }
    if n > 2 {
        assert(reports_on(demands[1], reports[2]));
        assert(endpoint::registration_answers(settings, supported, reports[2], demands[2]));
    }
    if n > 3 {
        assert(reports_on(demands[2], reports[3]));
        assert(endpoint::registration_answers(settings, supported, reports[3], demands[3]));
    }
    if n > 4 {
        assert(reports_on(demands[3], reports[4]));
        assert(endpoint::registration_answers(settings, supported, reports[4], demands[4]));
    }
    if n > 5 {
        assert(reports_on(demands[4], reports[5]));
        assert(endpoint::registration_answers(settings, supported, reports[5], demands[5]));
    }
    if n > 6 {
        assert(reports_on(demands[5], reports[6]));
        assert(endpoint::registration_answers(settings, supported, reports[6], demands[6]));
    }
    if n > 7 {
        assert(reports_on(demands[6], reports[7]));
        assert(endpoint::registration_answers(settings, supported, reports[7], demands[7]));
    }
    if n > 8 {
        assert(reports_on(demands[7], reports[8]));
        assert(endpoint::registration_answers(settings, supported, reports[8], demands[8]));
    }
    if n > 9 {
        assert(reports_on(demands[8], reports[9]));
    }
}

/// A registration is answered after at most nine steps.
pub proof fn law_registration_is_answered(
    settings: Option<OAuthSettings>,
    supported: Seq<Seq<char>>,
    reports: Seq<RegistrationReport>,
    demands: Seq<RegistrationDemand>,
)
    requires
        is_course(settings, supported, reports, demands),
    ensures
        reports.len() <= 9,
        reports.len() == 9 ==> demands.last() is Respond,
{
    lemma_steps(settings, supported, reports, demands);
    if reports.len() == 9 {
        assert(endpoint::registration_answers(settings, supported, reports[8], demands[8]));
    }
}

/// A registration that succeeds has passed every check: registration is
/// enabled, the headers and the body were accepted, the metadata has no fault,
/// the owner is a user that is not disabled, there was room for one more client
/// and its name is not too long.
pub proof fn law_success_has_passed_every_check(
    settings: Option<OAuthSettings>,
    supported: Seq<Seq<char>>,
    reports: Seq<RegistrationReport>,
    demands: Seq<RegistrationDemand>,
)
    requires
        is_course(settings, supported, reports, demands),
        demands.last() matches RegistrationDemand::Respond(result) && result is Ok,
    ensures
        reports.len() == 9,
        endpoint::settings_fault(settings) is None,
        reports[0] matches RegistrationReport::Requested { content_type, content_length }
            && endpoint::header_fault(text::text_of(content_type), text::text_of(content_length))
            is None,
        reports[1] matches RegistrationReport::BodyRead(Some(body)) && body@.len()
            <= MAX_REGISTRATION_BODY_BYTES,
        reports[2] matches RegistrationReport::Parsed(Some(parsed)) && (
        reports[3] matches RegistrationReport::RedirectUrisChecked { request, valid } && request@
            == parsed@ && metadata::metadata_fault(request@, valid@, supported) is None),
        reports[4] matches RegistrationReport::UsersListed { users: Some(users), .. }
            && client::first_enabled(users@) is Some,
        reports[5] matches RegistrationReport::ClientsListed { clients: Some(clients), .. }
            && client::active_dynamic_clients(clients@) < client::MAX_ACTIVE_DYNAMIC_CLIENTS,
        reports[3] matches RegistrationReport::RedirectUrisChecked { request, .. }
            && !client::is_name_too_long(client::name_or_default(request@.client_name)),
        reports[8] matches RegistrationReport::Stored { stored, .. } && stored,
{
    lemma_steps(settings, supported, reports, demands);
    let n = reports.len();
    assert(endpoint::registration_answers(settings, supported, reports[n - 1], demands[n - 1]));
    assert(endpoint::registration_answers(settings, supported, reports[0], demands[0]));
    assert(endpoint::registration_answers(settings, supported, reports[1], demands[1]));
    assert(endpoint::registration_answers(settings, supported, reports[2], demands[2]));
    assert(endpoint::registration_answers(settings, supported, reports[3], demands[3]));
    assert(endpoint::registration_answers(settings, supported, reports[4], demands[4]));
    assert(endpoint::registration_answers(settings, supported, reports[5], demands[5]));
    assert(reports_on(demands[0], reports[1]));
    assert(reports_on(demands[1], reports[2]));
    assert(reports_on(demands[2], reports[3]));
    assert(reports_on(demands[3], reports[4]));
    assert(reports_on(demands[4], reports[5]));
    assert(reports_on(demands[5], reports[6]));
}

/// What a registration stores and what it answers are those of its own
/// request: the accepted metadata, the first user that is not disabled as the
/// owner, and the credentials that were made for it. The secret that the client
/// is told is the one that was hashed, and the hash is what is stored.
pub proof fn law_success_stores_what_was_asked_for(
    settings: Option<OAuthSettings>,
    supported: Seq<Seq<char>>,
    reports: Seq<RegistrationReport>,
    demands: Seq<RegistrationDemand>,
)
    requires
        is_course(settings, supported, reports, demands),
        demands.last() matches RegistrationDemand::Respond(result) && result is Ok,
    ensures
        ({
            let request = reports[3]->RedirectUrisChecked_request@;
            let users = reports[4]->UsersListed_users->0@;
            let credentials = reports[6]->CredentialsIssued_credentials;
            let accepted = metadata::accepted_metadata(request, supported);
            let name = client::name_or_default(request.client_name);
            let hash = reports[7]->SecretHashed_client_secret_hash@;
            let record = demands[7]->Store_record;
            &&& demands[6] matches RegistrationDemand::HashSecret { secret, .. } && secret@
                == credentials.client_secret@
            &&& record@ == client::record_of(
                record.id@,
                record.created_at,
                credentials.client_id@,
                hash,
                name,
                accepted,
                client::first_enabled(users)->0,
            )
            &&& demands[7]->Store_mode == client::refresh_mode(
                accepted.grant_types,
                accepted.redirect_uris,
                text::texts(settings->0.confidential_reuse_redirect_uris@),
            )
            &&& demands.last()->Respond_0->Ok_0@ == client::response_of(
                record.created_at,
                credentials.client_id@,
                credentials.client_secret@,
                name,
                accepted,
            )
        }),
{
    law_success_has_passed_every_check(settings, supported, reports, demands);
    lemma_steps(settings, supported, reports, demands);
    assert(endpoint::registration_answers(settings, supported, reports[3], demands[3]));
    assert(endpoint::registration_answers(settings, supported, reports[4], demands[4]));
    assert(endpoint::registration_answers(settings, supported, reports[5], demands[5]));
    assert(endpoint::registration_answers(settings, supported, reports[6], demands[6]));
    assert(endpoint::registration_answers(settings, supported, reports[7], demands[7]));
    assert(reports_on(demands[3], reports[4]));
    assert(reports_on(demands[4], reports[5]));
    assert(reports_on(demands[5], reports[6]));
    assert(reports_on(demands[6], reports[7]));
    assert(endpoint::registration_answers(settings, supported, reports[8], demands[8]));
    assert(reports_on(demands[7], reports[8]));
}

}
