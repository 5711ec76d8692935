//! The rules by which the chat store answers for chats: what a missing row
//! means, and what is written in place of absent parameters.
use vstd::prelude::*;
use vstd::string::*;

use crate::structs::opt_string_view;

verus! {

/// The status of a chat that the store knows nothing of.
pub open spec fn initial_status() -> Seq<char> {
    "wait_for_command"@
}

/// What the store answers when asked whether a chat is authorized.
pub struct AuthorizationLookup {
    pub authorized: bool,
    /// The chat was unknown and is to be recorded as not authorized.
    pub register: bool,
}

/// What the store answers when asked for a chat's status.
pub struct StatusLookup {
    pub status: String,
    pub params: String,
    /// The chat had no status and is to be recorded with [`initial_status`].
    pub register: bool,
}

/// Turns the chat's authorization row, if one could be read, into the answer:
/// an unknown chat is not authorized and gets recorded as such.
pub fn authorization_from_row(row: Option<bool>) -> (r: AuthorizationLookup)
    ensures
        r.authorized == (row == Some(true)),
        r.register == (row is None),
{
    match row {
        Some(authorized) => AuthorizationLookup { authorized, register: false },
        None => AuthorizationLookup { authorized: false, register: true },
    }
}

/// The answer to a status lookup, given the row that was read, if any: the
/// status, the parameters, and whether the chat is to be recorded.
pub open spec fn status_lookup_view(row: Option<(Seq<char>, Seq<char>)>) -> (Seq<char>, Seq<char>, bool) {
    match row {
        Some((status, params)) => (status, params, false),
        None => (initial_status(), Seq::empty(), true),
    }
}

/// A status row, taken by its view.
pub open spec fn status_row_view(row: Option<(String, String)>) -> Option<(Seq<char>, Seq<char>)> {
    match row {
        Some((status, params)) => Some((status@, params@)),
        None => None,
    }
}

/// Turns the chat's status row, if one could be read, into the answer: a chat
/// with no status waits for a command, with empty parameters, and gets recorded so.
pub fn status_from_row(row: Option<(String, String)>) -> (r: StatusLookup)
    ensures
        (r.status@, r.params@, r.register) == status_lookup_view(status_row_view(row)),
{
    match row {
        Some((status, params)) => StatusLookup { status, params, register: false },
        None => StatusLookup { status: "wait_for_command".to_owned(), params: String::new(), register: true },
    }
}

/// The parameters as the store keeps them: absent ones as the empty text.
pub open spec fn stored_params_view(params: Option<Seq<char>>) -> Seq<char> {
    match params {
        Some(p) => p,
        None => Seq::empty(),
    }
}

/// The parameters to write for a chat's status.
pub fn stored_params(params: Option<String>) -> (s: String)
    ensures
        s@ == stored_params_view(opt_string_view(params)),
{
    match params {
        Some(p) => p,
        None => String::new(),
    }
}


/// What is written for a chat's status is what is read back for it, with absent
/// parameters read back as the empty text.
pub proof fn stored_status_reads_back(status: Seq<char>, params: Option<Seq<char>>)
    ensures
        status_lookup_view(Some((status, stored_params_view(params)))) == (
            status,
            match params {
                Some(p) => p,
                None => Seq::<char>::empty(),
            },
            false,
        ),
{
}

/// A chat that the store knows nothing of waits for a command, with empty
/// parameters, and is recorded with that status.
pub proof fn unknown_chat_waits_for_command()
    ensures
        status_lookup_view(None) == ("wait_for_command"@, Seq::<char>::empty(), true),
{
}

} // verus!
