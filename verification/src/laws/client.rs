//! Laws of the client that a registration makes: its owner, how many there are,
//! its name, its refresh tokens, its record and what it is told.

use vstd::prelude::*;
use vstd::utf8;

use crate::chars;
use crate::laws::text as text_laws;
use crate::registration::client;
use crate::registration::client::{
    ManagedUser, OAuthClientRecord, RegistrationResponse,
};
use crate::registration::metadata::MetadataView;
use crate::text;

verus! {

// Reading.

/// A record is known by all of its members.
pub proof fn law_records_are_read_whole(record: OAuthClientRecord)
    ensures
        record@.id == record.id@,
        record@.client_id == record.client_id@,
        record@.client_secret_hash == record.client_secret_hash@,
        record@.name == record.name@,
        record@.redirect_uris == record.redirect_uris@,
        record@.allowed_scopes == record.allowed_scopes@,
        record@.owner_user_id is Some <==> record.owner_user_id is Some,
        record.owner_user_id matches Some(id) ==> record@.owner_user_id == Some(id@),
        record@.owner_project_grant_id is Some <==> record.owner_project_grant_id is Some,
        record.owner_project_grant_id matches Some(id) ==> record@.owner_project_grant_id
            == Some(id@),
        record@.owner_shared_key_hash is Some <==> record.owner_shared_key_hash is Some,
        record.owner_shared_key_hash matches Some(hash) ==> record@.owner_shared_key_hash
            == Some(hash@),
        record@.created_at == record.created_at,
        record@.revoked_at == record.revoked_at,
{
}

/// What a client is told is known by all of its members.
pub proof fn law_responses_are_read_whole(response: RegistrationResponse)
    ensures
        response@.client_id == response.client_id@,
        response@.client_secret == response.client_secret@,
        response@.client_id_issued_at == response.client_id_issued_at,
        response@.client_secret_expires_at == response.client_secret_expires_at,
        response@.client_name == response.client_name@,
        response@.redirect_uris.len() == response.redirect_uris@.len(),
        forall|i: int|
            0 <= i < response.redirect_uris@.len() ==> #[trigger] response@.redirect_uris[i]
                == response.redirect_uris@[i]@,
        response@.grant_types.len() == response.grant_types@.len(),
        forall|i: int|
            0 <= i < response.grant_types@.len() ==> #[trigger] response@.grant_types[i]
                == response.grant_types@[i]@,
        response@.response_types.len() == response.response_types@.len(),
        forall|i: int|
            0 <= i < response.response_types@.len() ==> #[trigger] response@.response_types[i]
                == response.response_types@[i]@,
        response@.application_type == response.application_type@,
        response@.token_endpoint_auth_method == response.token_endpoint_auth_method@,
        response@.scope == response.scope@,
{
}

// The owner.

/// The owner is the first user that is not disabled: however many disabled ones
/// stand before, and whoever stands behind. Where all are disabled there is none.
pub proof fn law_the_first_enabled_user_owns(
    before: Seq<ManagedUser>,
    user: ManagedUser,
    behind: Seq<ManagedUser>,
)
    requires
        forall|i: int| 0 <= i < before.len() ==> (#[trigger] before[i]).disabled,
    ensures
        !user.disabled ==> client::first_enabled(before + seq![user] + behind) == Some(user.id@),
        client::first_enabled(before) is None,
    decreases before.len(),
{
    let users = before + seq![user] + behind;
    if before.len() == 0 {
        assert(users[0] == user);
    } else {
        let rest = before.drop_first();
        law_the_first_enabled_user_owns(rest, user, behind);
        assert(users[0] == before[0]);
        assert(users.drop_first() =~= rest + seq![user] + behind);
    }
}

// How many there are.

/// A client counts where it is not revoked and its name starts with "[dynamic] ",
/// and then counts once; the clients of two lists are counted together.
pub proof fn law_active_clients_add_up(
    first: Seq<OAuthClientRecord>,
    second: Seq<OAuthClientRecord>,
    client: OAuthClientRecord,
)
    ensures
        client::active_dynamic_clients(Seq::empty()) == 0,
        client::active_dynamic_clients(seq![client]) == (if client.revoked_at is None
            && "[dynamic] "@.is_prefix_of(client.name@) {
            1nat
        } else {
            0nat
        }),
        client::active_dynamic_clients(first + second) == client::active_dynamic_clients(first)
            + client::active_dynamic_clients(second),
        client::is_active_dynamic(client@) <==> client.revoked_at is None
            && "[dynamic] "@.is_prefix_of(client.name@),
    decreases second.len(),
{
    assert(seq![client].drop_last() =~= Seq::<OAuthClientRecord>::empty());
    assert(seq![client].last() == client);
    reveal_with_fuel(client::active_dynamic_clients, 2);
    if second.len() == 0 {
        assert(first + second =~= first);
    } else {
        law_active_clients_add_up(first, second.drop_last(), client);
        assert((first + second).drop_last() =~= first + second.drop_last());
        assert((first + second).last() == second.last());
    }
}

// The name.

/// A name is taken without the white space around it; a client that gives none,
/// or white space alone, is called "MCP client".
pub proof fn law_names_are_trimmed(left: Seq<char>, name: Seq<char>, right: Seq<char>)
    requires
        forall|i: int| 0 <= i < left.len() ==> chars::is_white_space(#[trigger] left[i]),
        forall|i: int| 0 <= i < right.len() ==> chars::is_white_space(#[trigger] right[i]),
        name.len() > 0 ==> !chars::is_white_space(name[0]) && !chars::is_white_space(name.last()),
    ensures
        name.len() > 0 ==> client::name_or_default(Some(left + name + right)) == name,
        client::name_or_default(Some(left + right)) == "MCP client"@,
        client::name_or_default(None) == "MCP client"@,
{
    text_laws::law_trimming_keeps_the_core(left, name, right);
    let nothing = Seq::<char>::empty();
    text_laws::law_trimming_keeps_the_core(left, nothing, right);
    assert(left + nothing + right =~= left + right);
}

/// A name is too long where it takes more than 128 bytes, not characters.
pub proof fn law_long_names(name: Seq<char>)
    ensures
        client::is_name_too_long(name) <==> utf8::encode_utf8(name).len() > 128,
{
}

// Refresh tokens.

/// A client may use a refresh token again exactly where it gets refresh tokens,
/// has a callback, and has none that is not trusted.
pub proof fn law_refresh_tokens_are_used_again(
    grant_types: Seq<Seq<char>>,
    uris: Seq<Seq<char>>,
    trusted: Seq<Seq<char>>,
)
    ensures
        client::refresh_mode(grant_types, uris, trusted) is ConfidentialReuse
            <==> grant_types.contains("refresh_token"@) && uris.len() > 0 && forall|i: int|
            0 <= i < uris.len() ==> trusted.contains(#[trigger] uris[i]),
        client::refresh_mode(grant_types, uris, trusted) is Rotating
            <==> !grant_types.contains("refresh_token"@) || uris.len() == 0 || exists|i: int|
            0 <= i < uris.len() && !trusted.contains(#[trigger] uris[i]),
        client::all_trusted(uris, trusted) <==> uris.len() > 0 && forall|i: int|
            0 <= i < uris.len() ==> trusted.contains(#[trigger] uris[i]),
{
}

// The record and the answer.

/// An id is 36 characters: 32 lower-case hexadecimal digits, of which the
/// thirteenth is 4 and the seventeenth 8, 9, a or b, in groups of 8, 4, 4, 4 and
/// 12 with hyphens between them.
pub proof fn law_ids_are_random_uuids(id: Seq<char>, i: int)
    requires
        client::is_random_uuid(id),
        0 <= i < id.len(),
    ensures
        id.len() == 36,
        i == 8 || i == 13 || i == 18 || i == 23 <==> id[i] == '-',
        id[i] == '-' || '0' <= id[i] <= '9' || 'a' <= id[i] <= 'f',
        id[14] == '4',
        id[19] == '8' || id[19] == '9' || id[19] == 'a' || id[19] == 'b',
{
    let c = id[i];
}

/// Every 32 lower-case hexadecimal digits, of which the thirteenth is 4 and the
/// seventeenth 8, 9, a or b, make an id where hyphens part them into such groups.
pub proof fn law_all_random_uuids_are_ids(
    first: Seq<char>,
    second: Seq<char>,
    third: Seq<char>,
    variant: char,
    fourth: Seq<char>,
    fifth: Seq<char>,
)
    requires
        first.len() == 8,
        second.len() == 4,
        third.len() == 3,
        fourth.len() == 3,
        fifth.len() == 12,
        variant == '8' || variant == '9' || variant == 'a' || variant == 'b',
        ({
            let digits = first + second + third + fourth + fifth;
            forall|i: int|
                0 <= i < digits.len() ==> ('0' <= #[trigger] digits[i] <= '9' || 'a' <= digits[i]
                    <= 'f')
        }),
    ensures
        client::is_random_uuid(
            first + seq!['-'] + second + seq!['-', '4'] + third + seq!['-', variant] + fourth
                + seq!['-'] + fifth,
        ),
{
    let digits = first + second + third + fourth + fifth;
    let id = first + seq!['-'] + second + seq!['-', '4'] + third + seq!['-', variant] + fourth
        + seq!['-'] + fifth;
    assert(id.len() == 36);
    assert forall|i: int| 0 <= i < 36 implies if i == 8 || i == 13 || i == 18 || i == 23 {
        #[trigger] id[i] == '-'
    } else {
        client::is_lower_hex(id[i])
    } by {
        if i < 8 {
            assert(id[i] == digits[i]);
        } else if 8 < i < 13 {
            assert(id[i] == digits[i - 1]);
        } else if 14 < i < 18 {
            assert(id[i] == digits[i - 3]);
        } else if 19 < i < 23 {
            assert(id[i] == digits[i - 5]);
        } else if 23 < i {
            assert(id[i] == digits[i - 6]);
        }
    }
}

/// A record holds the client's id, the hash of its secret, its name behind
/// "[dynamic] ", its callbacks with line feeds and its scopes with spaces between
/// them, and its owner, and is not revoked.
pub proof fn law_records_hold_the_client(
    id: Seq<char>,
    issued_at: i64,
    client_id: Seq<char>,
    client_secret_hash: Seq<char>,
    client_name: Seq<char>,
    metadata: MetadataView,
    owner: Seq<char>,
)
    ensures
        ({
            let record = client::record_of(
                id,
                issued_at,
                client_id,
                client_secret_hash,
                client_name,
                metadata,
                owner,
            );
            &&& record.id == id
            &&& record.client_id == client_id
            &&& record.client_secret_hash == client_secret_hash
            &&& record.name == "[dynamic] "@ + client_name
            &&& record.redirect_uris == text::joined(metadata.redirect_uris, "\n"@)
            &&& record.allowed_scopes == text::joined(metadata.scopes, " "@)
            &&& record.owner_user_id == Some(owner)
            &&& record.owner_project_grant_id is None
            &&& record.owner_shared_key_hash is None
            &&& record.created_at == issued_at
            &&& record.revoked_at is None
        }),
{
}

/// A client is told its id and its secret, which does not expire, when it was
/// issued, its name, all of its metadata, and that it proves itself with the
/// secret.
pub proof fn law_clients_are_told_their_metadata(
    issued_at: i64,
    client_id: Seq<char>,
    client_secret: Seq<char>,
    client_name: Seq<char>,
    metadata: MetadataView,
)
    ensures
        ({
            let told = client::response_of(
                issued_at,
                client_id,
                client_secret,
                client_name,
                metadata,
            );
            &&& told.client_id == client_id
            &&& told.client_secret == client_secret
            &&& told.client_id_issued_at == issued_at
            &&& told.client_secret_expires_at == 0
            &&& told.client_name == client_name
            &&& told.redirect_uris == metadata.redirect_uris
            &&& told.grant_types == metadata.grant_types
            &&& told.response_types == metadata.response_types
            &&& told.application_type == metadata.application_type
            &&& told.token_endpoint_auth_method == "client_secret_post"@
            &&& told.scope == text::joined(metadata.scopes, " "@)
        }),
{
}

}
