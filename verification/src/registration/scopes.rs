//! The scopes of dynamically registered clients.

use vstd::prelude::*;

use crate::text;
use crate::text::{contains_text, is_new_at, split_ascii_whitespace, text_eq};

verus! {

/// The scope that lets a client refresh its tokens.
pub const OAUTH_OFFLINE_ACCESS_SCOPE: &'static str = "offline_access";

/// The scopes of a client that asks for none in particular.
pub open spec fn default_scopes() -> Seq<Seq<char>> {
    seq![
        "runtime:read"@,
        "runner:manage"@,
        "session:collaborate"@,
        "communication:read"@,
        "communication:manage"@,
        "project:read"@,
        "project:write"@,
        "memory:read"@,
        "memory:manage"@,
        "job:run"@,
        "job:detach"@,
        "computer:read"@,
        "computer:control"@,
        "computer:launch"@,
        "computer:display_read"@,
        "computer:pointer_control"@,
        "computer:clipboard_read"@,
        "computer:clipboard_write"@,
        "mcp:local"@,
        "plugin:inspect"@,
        "plugin:invoke"@,
        "plugin:manage"@,
        "ssh:local"@,
        "coding_agent:run"@,
        "account:manage"@,
        "offline_access"@,
    ]
}

/// The scopes of a client that asks for none in particular.
pub fn dynamic_client_scopes() -> (result: Vec<String>)
    ensures
        text::texts(result@) == default_scopes(),
{
    let scopes: Vec<String> = vec![
        "runtime:read".to_owned(),
        "runner:manage".to_owned(),
        "session:collaborate".to_owned(),
        "communication:read".to_owned(),
        "communication:manage".to_owned(),
        "project:read".to_owned(),
        "project:write".to_owned(),
        "memory:read".to_owned(),
        "memory:manage".to_owned(),
        "job:run".to_owned(),
        "job:detach".to_owned(),
        "computer:read".to_owned(),
        "computer:control".to_owned(),
        "computer:launch".to_owned(),
        "computer:display_read".to_owned(),
        "computer:pointer_control".to_owned(),
        "computer:clipboard_read".to_owned(),
        "computer:clipboard_write".to_owned(),
        "mcp:local".to_owned(),
        "plugin:inspect".to_owned(),
        "plugin:invoke".to_owned(),
        "plugin:manage".to_owned(),
        "ssh:local".to_owned(),
        "coding_agent:run".to_owned(),
        "account:manage".to_owned(),
        "offline_access".to_owned(),
    ];
    assert(text::texts(scopes@) =~= default_scopes());
    scopes
}

/// A scope that may be asked for, of a server that supports `supported`.
pub open spec fn is_available(scope: Seq<char>, supported: Seq<Seq<char>>) -> bool {
    supported.contains(scope) || scope == OAUTH_OFFLINE_ACCESS_SCOPE@
}

/// The scopes that a request gets, or why it gets none: the default ones, or
/// those that it asks for where all of them may be asked for and none is twice.
pub open spec fn granted_scopes(
    requested: Option<Seq<char>>,
    supported: Seq<Seq<char>>,
) -> Result<Seq<Seq<char>>, Seq<char>> {
    match requested {
        None => Ok(default_scopes()),
        Some(requested) => {
            let scopes = text::words_of(requested);
            if !scopes.no_duplicates() || exists|i: int|
                0 <= i < scopes.len() && !is_available(#[trigger] scopes[i], supported) {
                Err("requested scope is not available to dynamically registered clients"@)
            } else if scopes.len() == 0 {
                Err("scope must contain at least one supported value"@)
            } else {
                Ok(scopes)
            }
        },
    }
}

/// Whether all of `scopes` may be asked for and none is there twice.
fn all_available(scopes: &Vec<String>, supported: &Vec<String>) -> (result: bool)
    ensures
        result == (text::texts(scopes@).no_duplicates() && forall|i: int|
            0 <= i < scopes@.len() ==> is_available(
                #[trigger] text::texts(scopes@)[i],
                text::texts(supported@),
            )),
{
    let ghost all = text::texts(scopes@);
    let mut i: usize = 0;
    while i < scopes.len()
        invariant
            i <= scopes.len(),
            all == text::texts(scopes@),
            forall|j: int|
                0 <= j < i ==> is_available(#[trigger] all[j], text::texts(supported@)),
            forall|j: int, k: int| 0 <= j < k < i ==> all[j] != all[k],
        decreases scopes.len() - i,
    {
        let scope = scopes[i].as_str();
        assert(all[i as int] == scope@);
        if !contains_text(supported, scope) && !text_eq(scope, OAUTH_OFFLINE_ACCESS_SCOPE) {
            return false;
        }
        if !is_new_at(scopes, i) {
            return false;
        }
        i = i + 1;
    }
    true
}

/// The scopes that a request gets from a server that supports `supported`.
pub fn normalize_scopes(requested: Option<String>, supported: &Vec<String>) -> (result: Result<
    Vec<String>,
    &'static str,
>)
    ensures
        match granted_scopes(text::text_of(requested), text::texts(supported@)) {
            Ok(scopes) => result matches Ok(granted) && text::texts(granted@) == scopes,
            Err(fault) => result matches Err(description) && description@ == fault,
        },
{
    let requested = match requested {
        Some(requested) => requested,
        None => return Ok(dynamic_client_scopes()),
    };
    let scopes = split_ascii_whitespace(requested.as_str());
    let ghost all = text::texts(scopes@);
    assert(all.len() == scopes@.len());
    if !all_available(&scopes, supported) {
        return Err("requested scope is not available to dynamically registered clients");
    }
    if scopes.is_empty() {
        return Err("scope must contain at least one supported value");
    }
    Ok(scopes)
}

// What holds of all granted scopes.

/// Where a default scope stands, by its length, its first character and its
/// last but one.
spec fn scope_position(scope: Seq<char>) -> int {
    let m = (scope.len(), scope[0], scope[scope.len() - 2]);
    if m == (12nat, 'r', 'a') {
        0
    } else if m == (13nat, 'r', 'g') {
        1
    } else if m == (19nat, 's', 't') {
        2
    } else if m == (18nat, 'c', 'a') {
        3
    } else if m == (20nat, 'c', 'g') {
        4
    } else if m == (12nat, 'p', 'a') {
        5
    } else if m == (13nat, 'p', 't') {
        6
    } else if m == (11nat, 'm', 'a') {
        7
    } else if m == (13nat, 'm', 'g') {
        8
    } else if m == (7nat, 'j', 'u') {
        9
    } else if m == (10nat, 'j', 'c') {
        10
    } else if m == (13nat, 'c', 'a') {
        11
    } else if m == (16nat, 'c', 'o') {
        12
    } else if m == (15nat, 'c', 'c') {
        13
    } else if m == (21nat, 'c', 'a') {
        14
    } else if m == (24nat, 'c', 'o') {
        15
    } else if m == (23nat, 'c', 'a') {
        16
    } else if m == (24nat, 'c', 't') {
        17
    } else if m == (9nat, 'm', 'a') {
        18
    } else if m == (14nat, 'p', 'c') {
        19
    } else if m == (13nat, 'p', 'k') {
        20
    } else if m == (13nat, 'p', 'g') {
        21
    } else if m == (9nat, 's', 'a') {
        22
    } else if m == (16nat, 'c', 'u') {
        23
    } else if m == (14nat, 'a', 'g') {
        24
    } else if m == (14nat, 'o', 's') {
        25
    } else {
        26
    }
}

/// The default scopes are words, and none of them is there twice.
proof fn lemma_default_scopes()
    ensures
        default_scopes().no_duplicates(),
        forall|i: int|
            0 <= i < default_scopes().len() ==> text::is_word(#[trigger] default_scopes()[i]),
{
    reveal_strlit("runtime:read");
    reveal_strlit("runner:manage");
    reveal_strlit("session:collaborate");
    reveal_strlit("communication:read");
    reveal_strlit("communication:manage");
    reveal_strlit("project:read");
    reveal_strlit("project:write");
    reveal_strlit("memory:read");
    reveal_strlit("memory:manage");
    reveal_strlit("job:run");
    reveal_strlit("job:detach");
    reveal_strlit("computer:read");
    reveal_strlit("computer:control");
    reveal_strlit("computer:launch");
    reveal_strlit("computer:display_read");
    reveal_strlit("computer:pointer_control");
    reveal_strlit("computer:clipboard_read");
    reveal_strlit("computer:clipboard_write");
    reveal_strlit("mcp:local");
    reveal_strlit("plugin:inspect");
    reveal_strlit("plugin:invoke");
    reveal_strlit("plugin:manage");
    reveal_strlit("ssh:local");
    reveal_strlit("coding_agent:run");
    reveal_strlit("account:manage");
    reveal_strlit("offline_access");
    assert(scope_position(default_scopes()[0]) == 0);
    assert(scope_position(default_scopes()[1]) == 1);
    assert(scope_position(default_scopes()[2]) == 2);
    assert(scope_position(default_scopes()[3]) == 3);
    assert(scope_position(default_scopes()[4]) == 4);
    assert(scope_position(default_scopes()[5]) == 5);
    assert(scope_position(default_scopes()[6]) == 6);
    assert(scope_position(default_scopes()[7]) == 7);
    assert(scope_position(default_scopes()[8]) == 8);
    assert(scope_position(default_scopes()[9]) == 9);
    assert(scope_position(default_scopes()[10]) == 10);
    assert(scope_position(default_scopes()[11]) == 11);
    assert(scope_position(default_scopes()[12]) == 12);
    assert(scope_position(default_scopes()[13]) == 13);
    assert(scope_position(default_scopes()[14]) == 14);
    assert(scope_position(default_scopes()[15]) == 15);
    assert(scope_position(default_scopes()[16]) == 16);
    assert(scope_position(default_scopes()[17]) == 17);
    assert(scope_position(default_scopes()[18]) == 18);
    assert(scope_position(default_scopes()[19]) == 19);
    assert(scope_position(default_scopes()[20]) == 20);
    assert(scope_position(default_scopes()[21]) == 21);
    assert(scope_position(default_scopes()[22]) == 22);
    assert(scope_position(default_scopes()[23]) == 23);
    assert(scope_position(default_scopes()[24]) == 24);
    assert(scope_position(default_scopes()[25]) == 25);
    assert forall|i: int, j: int|
        0 <= i < 26 && 0 <= j < 26 && default_scopes()[i] == default_scopes()[j] implies i == j by {
        assert(scope_position(default_scopes()[i]) == i);
        assert(scope_position(default_scopes()[j]) == j);
    }
}

/// Whatever is asked for: granted scopes are words, at least one and none
/// twice, and where they were asked for, each may be.
pub proof fn law_granted_scopes_are_distinct_and_available(
    requested: Option<Seq<char>>,
    supported: Seq<Seq<char>>,
)
    requires
        granted_scopes(requested, supported) is Ok,
    ensures
        ({
            let scopes = granted_scopes(requested, supported)->Ok_0;
            &&& scopes.len() > 0
            &&& scopes.no_duplicates()
            &&& forall|i: int| 0 <= i < scopes.len() ==> text::is_word(#[trigger] scopes[i])
            &&& requested is Some ==> forall|i: int|
                0 <= i < scopes.len() ==> is_available(#[trigger] scopes[i], supported)
        }),
{
    match requested {
        None => lemma_default_scopes(),
        Some(requested) => text::lemma_words_of_are_words(requested),
    }
}

/// Granted scopes that are stored as one text, with spaces between them, read
/// back as the same scopes.
pub proof fn law_stored_scopes_read_back(requested: Option<Seq<char>>, supported: Seq<Seq<char>>)
    requires
        granted_scopes(requested, supported) is Ok,
    ensures
        ({
            let scopes = granted_scopes(requested, supported)->Ok_0;
            text::words_of(text::joined(scopes, " "@)) == scopes
        }),
{
    law_granted_scopes_are_distinct_and_available(requested, supported);
    reveal_strlit(" ");
    assert(" "@ =~= seq![' ']);
    text::law_words_of_joined(granted_scopes(requested, supported)->Ok_0);
}

/// A client that asks for the scopes that it was granted is granted the same.
pub proof fn law_granted_scopes_are_granted_again(
    requested: Seq<char>,
    supported: Seq<Seq<char>>,
)
    requires
        granted_scopes(Some(requested), supported) is Ok,
    ensures
        ({
            let scopes = granted_scopes(Some(requested), supported)->Ok_0;
            granted_scopes(Some(text::joined(scopes, " "@)), supported)
                == granted_scopes(Some(requested), supported)
        }),
{
    law_stored_scopes_read_back(Some(requested), supported);
}

}
