//! The mathematical model of how the bot handles one update: the states it
//! passes through, the actions it asks for and the events it is answered with.
use vstd::prelude::*;

use crate::structs::EntityView;
use crate::text::decimal;
use crate::utils::{entity_in_text, entity_text};

verus! {

/// Why the handling of an update stopped with an error.
pub enum ErrorView {
    NoMessage,
    NoText,
    NoCommand,
    /// The chat is not authorized; the payload is the error's reason.
    NotAuthorized(Seq<char>),
}

/// What the bot asks the outside world to do next.
pub enum ActionView {
    CheckAuthorization { chat_id: i64 },
    LoadStatus { chat_id: i64 },
    StoreStatus { chat_id: i64, status: Seq<char>, params: Option<Seq<char>> },
    SendMessage { chat_id: i64, text: Seq<char> },
    DownloadFile { url: Seq<char>, filename: Seq<char> },
    Finish(Result<(), ErrorView>),
}

/// The answer to the last action.
pub enum EventView {
    Authorization(bool),
    ChatStatus { status: Seq<char>, params: Seq<char> },
    DownloadFinished(Result<(), Seq<char>>),
    Completed,
}

/// Where the handling of an update stands.
#[allow(inconsistent_fields)]
pub enum StateView {
    AwaitingAuthorization { chat_id: i64, text: Option<Seq<char>>, entities: Option<Seq<EntityView>> },
    AwaitingStatus { chat_id: i64, text: Seq<char>, entities: Option<Seq<EntityView>> },
    Replying { chat_id: i64, pending: Seq<ActionView> },
    AwaitingDownload { chat_id: i64, filename: Seq<char> },
    Finished,
}

/* The texts that the bot sends and stores. */

pub open spec fn bot_command_kind() -> Seq<char> { "bot_command"@ }
pub open spec fn url_kind() -> Seq<char> { "url"@ }
pub open spec fn cancel_command() -> Seq<char> { "/cancel"@ }
pub open spec fn authorize_command() -> Seq<char> { "/authorize"@ }
pub open spec fn download_command() -> Seq<char> { "/download"@ }

pub open spec fn wait_for_command() -> Seq<char> { "wait_for_command"@ }
pub open spec fn wait_for_url() -> Seq<char> { "wait_for_url"@ }
pub open spec fn wait_for_filename() -> Seq<char> { "wait_for_filename"@ }
pub open spec fn download_wait_for_url() -> Seq<char> { "download_wait_for_url"@ }
pub open spec fn download_wait_for_filename() -> Seq<char> { "download_wait_for_filename"@ }
pub open spec fn download_wait_for_command() -> Seq<char> { "download_wait_for_command"@ }

pub open spec fn not_authorized_notice(chat_id: i64) -> Seq<char> {
    "Your chat is not authorized (#"@ + decimal(chat_id as int) + ")"@
}

pub open spec fn not_authorized_reason(chat_id: i64) -> Seq<char> {
    "Chat "@ + decimal(chat_id as int) + " not authorized"@
}

pub open spec fn unknown_command_notice(command: Seq<char>) -> Seq<char> {
    "Command "@ + command + " doesn't exist"@
}

pub open spec fn downloading_notice(filename: Seq<char>) -> Seq<char> {
    "Downloading "@ + filename
}

pub open spec fn download_result_notice(filename: Seq<char>, result: Result<(), Seq<char>>) -> Seq<char> {
    match result {
        Ok(_) => filename + " downloaded"@,
        Err(e) => "cannot download "@ + e,
    }
}

pub open spec fn task_cancelled() -> Seq<char> { "Task cancelled"@ }
pub open spec fn ask_filename() -> Seq<char> { "What's the filename ?"@ }
pub open spec fn ask_url() -> Seq<char> { "Give me the URL"@ }
pub open spec fn no_url_recognized() -> Seq<char> { "I can't recognize any URL, please try again or /cancel"@ }
pub open spec fn not_understood() -> Seq<char> { "I don't get what you mean"@ }

/// The text with which an error displays.
pub open spec fn error_text(e: ErrorView) -> Seq<char> {
    match e {
        ErrorView::NoMessage => "No message found"@,
        ErrorView::NoText => "no text found"@,
        ErrorView::NoCommand => "Waiting for a command"@,
        ErrorView::NotAuthorized(reason) => reason,
    }
}

/* Entities. */

/// `i` is the index of the first entity of the given kind.
pub open spec fn is_first_of_kind(es: Seq<EntityView>, kind: Seq<char>, i: int) -> bool {
    &&& 0 <= i < es.len()
    &&& es[i].kind == kind
    &&& forall|j: int| 0 <= j < i ==> #[trigger] es[j].kind != kind
}

/// Some entity has the given kind.
pub open spec fn has_kind(es: Seq<EntityView>, kind: Seq<char>) -> bool {
    exists|i: int| 0 <= i < es.len() && #[trigger] es[i].kind == kind
}

/// The index of the first entity of the given kind, where there is one.
pub open spec fn first_of_kind(es: Seq<EntityView>, kind: Seq<char>) -> int {
    choose|i: int| is_first_of_kind(es, kind, i)
}

/// The first entity of the given kind lies in the text, where there is one.
pub open spec fn first_of_kind_in_text(es: Seq<EntityView>, kind: Seq<char>, text: Seq<char>) -> bool {
    has_kind(es, kind) ==> entity_in_text(es[first_of_kind(es, kind)], text)
}

/// The text of the first entity of the given kind.
pub open spec fn first_text_of_kind(es: Seq<EntityView>, kind: Seq<char>, text: Seq<char>) -> Seq<char> {
    entity_text(es[first_of_kind(es, kind)], text)
}

/// Entity `i` is a bot command that reads `/cancel`.
pub open spec fn is_cancel_at(es: Seq<EntityView>, text: Seq<char>, i: int) -> bool {
    &&& es[i].kind == bot_command_kind()
    &&& entity_in_text(es[i], text)
    &&& entity_text(es[i], text) == cancel_command()
}

/// Some bot command of the message reads `/cancel`.
pub open spec fn mentions_cancel(es: Seq<EntityView>, text: Seq<char>) -> bool {
    exists|i: int| 0 <= i < es.len() && #[trigger] is_cancel_at(es, text, i)
}

/// Looking for `/cancel` reads the bot commands in order until one reads `/cancel`:
/// each of them that is read lies in the text.
pub open spec fn cancel_scan_in_text(es: Seq<EntityView>, text: Seq<char>) -> bool {
    forall|i: int|
        0 <= i < es.len() && #[trigger] es[i].kind == bot_command_kind()
            && (forall|j: int| 0 <= j < i ==> !#[trigger] is_cancel_at(es, text, j))
            ==> entity_in_text(es[i], text)
}

/// There is at most one first entity of a kind, and [`first_of_kind`] gives it.
pub proof fn lemma_first_of_kind_unique(es: Seq<EntityView>, kind: Seq<char>, i: int)
    requires
        is_first_of_kind(es, kind, i),
    ensures
        has_kind(es, kind),
        first_of_kind(es, kind) == i,
{
    assert(es[i].kind == kind);
    let j = first_of_kind(es, kind);
    assert(is_first_of_kind(es, kind, j));
    if j < i {
        assert(es[j].kind != kind);
    } else if i < j {
        assert(es[i].kind != kind);
    }
}

/// Where some entity has the given kind, there is a first one.
pub proof fn lemma_first_of_kind_exists(es: Seq<EntityView>, kind: Seq<char>)
    requires
        has_kind(es, kind),
    ensures
        is_first_of_kind(es, kind, first_of_kind(es, kind)),
    decreases es.len(),
{
    let init = es.drop_last();
    if has_kind(init, kind) {
        lemma_first_of_kind_exists(init, kind);
        let k = first_of_kind(init, kind);
        assert forall|j: int| 0 <= j < k implies #[trigger] es[j].kind != kind by {
            assert(init[j] == es[j]);
        }
        assert(is_first_of_kind(es, kind, k));
    } else {
        let i = choose|i: int| 0 <= i < es.len() && #[trigger] es[i].kind == kind;
        if i < es.len() - 1 {
            assert(init[i] == es[i]);
        }
        let k = es.len() - 1;
        assert forall|j: int| 0 <= j < k implies #[trigger] es[j].kind != kind by {
            assert(init[j] == es[j]);
        }
        assert(is_first_of_kind(es, kind, k));
    }
}

/* The transitions. */

/// How the handling of an update begins, given the update's message (its chat,
/// its text and its entities), or no message.
pub open spec fn start_view(message: Option<(i64, Option<Seq<char>>, Option<Seq<EntityView>>)>) -> (StateView, ActionView) {
    match message {
        None => (StateView::Finished, ActionView::Finish(Err(ErrorView::NoMessage))),
        Some((chat_id, text, entities)) => (
            StateView::AwaitingAuthorization { chat_id, text, entities },
            ActionView::CheckAuthorization { chat_id },
        ),
    }
}

/// Replies with one message and then finishes without error.
pub open spec fn reply_then_finish(chat_id: i64, text: Seq<char>) -> (StateView, ActionView) {
    (
        StateView::Replying { chat_id, pending: seq![ActionView::Finish(Ok(()))] },
        ActionView::SendMessage { chat_id, text },
    )
}

/// Stores a status, then sends a message, then finishes without error.
pub open spec fn store_then_reply(chat_id: i64, status: Seq<char>, params: Option<Seq<char>>, text: Seq<char>) -> (StateView, ActionView) {
    (
        StateView::Replying {
            chat_id,
            pending: seq![ActionView::SendMessage { chat_id, text }, ActionView::Finish(Ok(()))],
        },
        ActionView::StoreStatus { chat_id, status, params },
    )
}

/// The `/download` command: waits for a file name when the message holds a URL,
/// for a URL otherwise.
pub open spec fn download_view(chat_id: i64, es: Seq<EntityView>, text: Seq<char>) -> (StateView, ActionView) {
    if has_kind(es, url_kind()) {
        store_then_reply(chat_id, download_wait_for_filename(), Some(first_text_of_kind(es, url_kind(), text)), ask_filename())
    } else {
        store_then_reply(chat_id, download_wait_for_url(), None, ask_url())
    }
}

/// A message in a chat that waits for a command.
pub open spec fn command_view(chat_id: i64, text: Seq<char>, entities: Option<Seq<EntityView>>) -> (StateView, ActionView) {
    match entities {
        None => reply_then_finish(chat_id, not_understood()),
        Some(es) => if !has_kind(es, bot_command_kind()) {
            (StateView::Finished, ActionView::Finish(Err(ErrorView::NoCommand)))
        } else {
            let command = first_text_of_kind(es, bot_command_kind(), text);
            if command == authorize_command() {
                (StateView::Finished, ActionView::Finish(Ok(())))
            } else if command == download_command() {
                download_view(chat_id, es, text)
            } else {
                reply_then_finish(chat_id, unknown_command_notice(command))
            }
        },
    }
}

/// A message in a chat that waits for a URL.
pub open spec fn url_view(chat_id: i64, text: Seq<char>, entities: Option<Seq<EntityView>>) -> (StateView, ActionView) {
    match entities {
        Some(es) => if has_kind(es, url_kind()) {
            store_then_reply(chat_id, download_wait_for_filename(), Some(first_text_of_kind(es, url_kind(), text)), ask_filename())
        } else {
            reply_then_finish(chat_id, no_url_recognized())
        },
        None => reply_then_finish(chat_id, no_url_recognized()),
    }
}

/// A message in a chat that waits for a file name: the text names the file, the
/// stored parameter is the URL.
pub open spec fn filename_view(chat_id: i64, filename: Seq<char>, url: Seq<char>) -> (StateView, ActionView) {
    (
        StateView::Replying {
            chat_id,
            pending: seq![
                ActionView::StoreStatus { chat_id, status: download_wait_for_command(), params: None },
                ActionView::DownloadFile { url, filename },
            ],
        },
        ActionView::SendMessage { chat_id, text: downloading_notice(filename) },
    )
}

/// What the chat's stored status makes of the message.
pub open spec fn status_view(chat_id: i64, text: Seq<char>, entities: Option<Seq<EntityView>>, status: Seq<char>, params: Seq<char>) -> (StateView, ActionView) {
    if status == wait_for_command() {
        command_view(chat_id, text, entities)
    } else if status == wait_for_url() {
        url_view(chat_id, text, entities)
    } else if status == wait_for_filename() {
        filename_view(chat_id, text, params)
    } else {
        reply_then_finish(chat_id, not_understood())
    }
}

/// The next queued action, and the state that follows it.
pub open spec fn pop_view(chat_id: i64, pending: Seq<ActionView>) -> (StateView, ActionView) {
    let next = pending[0];
    match next {
        ActionView::Finish(_) => (StateView::Finished, next),
        ActionView::DownloadFile { url, filename } => (StateView::AwaitingDownload { chat_id, filename }, next),
        _ => (StateView::Replying { chat_id, pending: pending.drop_first() }, next),
    }
}

/// The state accepts the event: it is the kind of answer that the last action asked for.
pub open spec fn accepts(state: StateView, event: EventView) -> bool {
    match state {
        StateView::AwaitingAuthorization { .. } => event is Authorization,
        StateView::AwaitingStatus { .. } => event is ChatStatus,
        StateView::Replying { .. } => event is Completed,
        StateView::AwaitingDownload { .. } => event is DownloadFinished,
        StateView::Finished => false,
    }
}

/// The action is one after which the queue of a reply ends.
pub open spec fn is_terminal(a: ActionView) -> bool {
    a is Finish || a is DownloadFile
}

/// The action stores a status or sends a message: the actions that a reply queues
/// before its last one.
pub open spec fn is_reply(a: ActionView) -> bool {
    a is StoreStatus || a is SendMessage
}

/// The state is one that the transitions produce.
pub open spec fn well_formed(state: StateView) -> bool {
    match state {
        StateView::Replying { pending, .. } => {
            &&& pending.len() > 0
            &&& is_terminal(pending.last())
            &&& forall|i: int| 0 <= i < pending.len() - 1 ==> #[trigger] is_reply(pending[i])
        },
        _ => true,
    }
}

/// One transition: the next state and the action that it asks for.
pub open spec fn step_view(state: StateView, event: EventView) -> (StateView, ActionView) {
    match (state, event) {
        (StateView::AwaitingAuthorization { chat_id, text, entities }, EventView::Authorization(authorized)) =>
            if !authorized {
                (
                    StateView::Replying {
                        chat_id,
                        pending: seq![ActionView::Finish(Err(ErrorView::NotAuthorized(not_authorized_reason(chat_id))))],
                    },
                    ActionView::SendMessage { chat_id, text: not_authorized_notice(chat_id) },
                )
            } else {
                match text {
                    None => (StateView::Finished, ActionView::Finish(Err(ErrorView::NoText))),
                    Some(t) => if entities is Some && mentions_cancel(entities->0, t) {
                        store_then_reply(chat_id, wait_for_command(), None, task_cancelled())
                    } else {
                        (StateView::AwaitingStatus { chat_id, text: t, entities }, ActionView::LoadStatus { chat_id })
                    },
                }
            },
        (StateView::AwaitingStatus { chat_id, text, entities }, EventView::ChatStatus { status, params }) =>
            status_view(chat_id, text, entities, status, params),
        (StateView::Replying { chat_id, pending }, EventView::Completed) => pop_view(chat_id, pending),
        (StateView::AwaitingDownload { chat_id, filename }, EventView::DownloadFinished(result)) =>
            reply_then_finish(chat_id, download_result_notice(filename, result)),
        _ => (StateView::Finished, ActionView::Finish(Ok(()))),
    }
}

/// Every span of the message that the transition reads lies in the text (the
/// transition would otherwise fail on it).
pub open spec fn reads_in_text(state: StateView, event: EventView) -> bool {
    match (state, event) {
        (StateView::AwaitingAuthorization { text, entities, .. }, EventView::Authorization(authorized)) =>
            authorized && text is Some && entities is Some ==> cancel_scan_in_text(entities->0, text->0),
        (StateView::AwaitingStatus { text, entities, .. }, EventView::ChatStatus { status, .. }) =>
            entities is Some ==> {
                let es = entities->0;
                &&& status == wait_for_command() ==> {
                    &&& first_of_kind_in_text(es, bot_command_kind(), text)
                    &&& has_kind(es, bot_command_kind())
                        && first_text_of_kind(es, bot_command_kind(), text) == download_command()
                        ==> first_of_kind_in_text(es, url_kind(), text)
                }
                &&& status == wait_for_url() ==> first_of_kind_in_text(es, url_kind(), text)
            },
        _ => true,
    }
}

} // verus!
