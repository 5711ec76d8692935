//! The decisions that handle one update, as a machine driven by its caller:
//! [`start`] gives the first action, and [`step`] turns the answer to the last
//! action into the next one, until an [`Action::Finish`].
use vstd::prelude::*;
use vstd::string::*;

use crate::model::{
    accepts, bot_command_kind, cancel_scan_in_text, command_view, download_command,
    download_result_notice, download_view, download_wait_for_command, error_text, filename_view,
    first_of_kind, first_of_kind_in_text, first_text_of_kind, has_kind, is_cancel_at,
    is_first_of_kind, lemma_first_of_kind_unique, mentions_cancel, not_authorized_notice, not_authorized_reason,
    reads_in_text, reply_then_finish, start_view, step_view, store_then_reply, task_cancelled,
    url_kind, url_view, wait_for_command, wait_for_url, well_formed, ActionView, ErrorView,
    EventView, StateView,
};
use crate::structs::{entities_view, opt_entities_view, opt_string_view, EntityView, MessageEntity, Update};
use crate::text::push_decimal;
use crate::utils::{entity_fits_text, entity_in_text, entity_text, read_entity_from_text, CustomError};

verus! {

/// Why the handling of an update stopped with an error.
pub enum UpdateError {
    NoMessage,
    NoText,
    NoCommand,
    NotAuthorized(CustomError),
}

/// What the bot asks its caller to do next.
pub enum Action {
    /// Look up whether the chat may use the bot; answer with [`Event::Authorization`].
    CheckAuthorization { chat_id: i64 },
    /// Read the chat's stored status; answer with [`Event::ChatStatus`].
    LoadStatus { chat_id: i64 },
    /// Store the chat's status; answer with [`Event::Completed`].
    StoreStatus { chat_id: i64, status: String, params: Option<String> },
    /// Send a message to the chat; answer with [`Event::Completed`].
    SendMessage { chat_id: i64, text: String },
    /// Download `url` into the file `filename`; answer with [`Event::DownloadFinished`].
    DownloadFile { url: String, filename: String },
    /// The handling of the update is over, with this outcome.
    Finish(Result<(), UpdateError>),
}

/// The answer to the last action.
pub enum Event {
    Authorization(bool),
    ChatStatus { status: String, params: String },
    /// The outcome of a download; an error carries its description.
    DownloadFinished(Result<(), String>),
    Completed,
}

/// Where the handling of an update stands.
#[allow(inconsistent_fields)]
pub enum UpdateState {
    AwaitingAuthorization { chat_id: i64, text: Option<String>, entities: Option<Vec<MessageEntity>> },
    AwaitingStatus { chat_id: i64, text: String, entities: Option<Vec<MessageEntity>> },
    Replying { chat_id: i64, pending: Vec<Action> },
    AwaitingDownload { chat_id: i64, filename: String },
    Finished,
}

impl View for UpdateError {
    type V = ErrorView;

    open spec fn view(&self) -> ErrorView {
        match self {
            UpdateError::NoMessage => ErrorView::NoMessage,
            UpdateError::NoText => ErrorView::NoText,
            UpdateError::NoCommand => ErrorView::NoCommand,
            UpdateError::NotAuthorized(e) => ErrorView::NotAuthorized(e@),
        }
    }
}

/// An outcome, taken by its view.
pub open spec fn outcome_view(r: Result<(), UpdateError>) -> Result<(), ErrorView> {
    match r {
        Ok(_) => Ok(()),
        Err(e) => Err(e@),
    }
}

impl View for Action {
    type V = ActionView;

    open spec fn view(&self) -> ActionView {
        match self {
            Action::CheckAuthorization { chat_id } => ActionView::CheckAuthorization { chat_id: *chat_id },
            Action::LoadStatus { chat_id } => ActionView::LoadStatus { chat_id: *chat_id },
            Action::StoreStatus { chat_id, status, params } =>
                ActionView::StoreStatus { chat_id: *chat_id, status: status@, params: opt_string_view(*params) },
            Action::SendMessage { chat_id, text } => ActionView::SendMessage { chat_id: *chat_id, text: text@ },
            Action::DownloadFile { url, filename } => ActionView::DownloadFile { url: url@, filename: filename@ },
            Action::Finish(r) => ActionView::Finish(outcome_view(*r)),
        }
    }
}

/// A queue of actions, each taken by its view.
pub open spec fn actions_view(v: Seq<Action>) -> Seq<ActionView> {
    v.map_values(|a: Action| a@)
}

impl View for Event {
    type V = EventView;

    open spec fn view(&self) -> EventView {
        match self {
            Event::Authorization(b) => EventView::Authorization(*b),
            Event::ChatStatus { status, params } => EventView::ChatStatus { status: status@, params: params@ },
            Event::DownloadFinished(r) => EventView::DownloadFinished(
                match r {
                    Ok(_) => Ok(()),
                    Err(e) => Err(e@),
                },
            ),
            Event::Completed => EventView::Completed,
        }
    }
}

impl View for UpdateState {
    type V = StateView;

    open spec fn view(&self) -> StateView {
        match self {
            UpdateState::AwaitingAuthorization { chat_id, text, entities } => StateView::AwaitingAuthorization {
                chat_id: *chat_id,
                text: opt_string_view(*text),
                entities: opt_entities_view(*entities),
            },
            UpdateState::AwaitingStatus { chat_id, text, entities } => StateView::AwaitingStatus {
                chat_id: *chat_id,
                text: text@,
                entities: opt_entities_view(*entities),
            },
            UpdateState::Replying { chat_id, pending } => StateView::Replying {
                chat_id: *chat_id,
                pending: actions_view(pending@),
            },
            UpdateState::AwaitingDownload { chat_id, filename } => StateView::AwaitingDownload {
                chat_id: *chat_id,
                filename: filename@,
            },
            UpdateState::Finished => StateView::Finished,
        }
    }
}

/// The update's message, as [`start_view`] takes it.
pub open spec fn message_view(u: Update) -> Option<(i64, Option<Seq<char>>, Option<Seq<EntityView>>)> {
    match u.message {
        Some(m) => Some((m.chat.id, opt_string_view(m.text), opt_entities_view(m.entities))),
        None => None,
    }
}

impl UpdateError {
    /// The text with which the error displays.
    pub fn describe(&self) -> (s: String)
        ensures
            s@ == error_text(self@),
            match self {
                UpdateError::NoMessage => s@ == "No message found"@,
                UpdateError::NoText => s@ == "no text found"@,
                UpdateError::NoCommand => s@ == "Waiting for a command"@,
                UpdateError::NotAuthorized(e) => s@ == e@,
            },
    {
        match self {
            UpdateError::NoMessage => "No message found".to_owned(),
            UpdateError::NoText => "no text found".to_owned(),
            UpdateError::NoCommand => "Waiting for a command".to_owned(),
            UpdateError::NotAuthorized(e) => e.reason(),
        }
    }
}

fn same_text(a: &String, b: &str) -> (r: bool)
    ensures
        r == (a@ == b@),
{
    let owned = b.to_owned();
    *a == owned
}

/// The index of the first entity of the given kind, if any.
fn find_kind(es: &Vec<MessageEntity>, kind: &str) -> (r: Option<usize>)
    ensures
        match r {
            Some(i) => is_first_of_kind(entities_view(es@), kind@, i as int),
            None => !has_kind(entities_view(es@), kind@),
        },
{
    let ghost ev = entities_view(es@);
    let mut i: usize = 0;
    while i < es.len()
        invariant
            i <= es.len(),
            ev == entities_view(es@),
            forall|j: int| 0 <= j < i ==> #[trigger] ev[j].kind != kind@,
        decreases es.len() - i,
    {
        if same_text(&es[i].t, kind) {
            assert(ev[i as int].kind == kind@);
            return Some(i);
        }
        assert(ev[i as int].kind != kind@);
        i = i + 1;
    }
    None
}

/// The text of the first entity of the given kind, if any.
fn read_first_of_kind(es: &Vec<MessageEntity>, kind: &str, text: &String) -> (r: Option<String>)
    requires
        first_of_kind_in_text(entities_view(es@), kind@, text@),
    ensures
        match r {
            Some(s) => has_kind(entities_view(es@), kind@)
                && s@ == first_text_of_kind(entities_view(es@), kind@, text@),
            None => !has_kind(entities_view(es@), kind@),
        },
{
    match find_kind(es, kind) {
        Some(i) => {
            proof { lemma_first_of_kind_unique(entities_view(es@), kind@, i as int); }
            Some(read_entity_from_text(&es[i], text.clone()))
        },
        None => None,
    }
}

/// Whether some bot command of the message reads `/cancel`.
fn find_cancel(es: &Vec<MessageEntity>, text: &String) -> (r: bool)
    requires
        cancel_scan_in_text(entities_view(es@), text@),
    ensures
        r == mentions_cancel(entities_view(es@), text@),
{
    let ghost ev = entities_view(es@);
    let mut i: usize = 0;
    while i < es.len()
        invariant
            i <= es.len(),
            ev == entities_view(es@),
            cancel_scan_in_text(ev, text@),
            forall|j: int| 0 <= j < i ==> !#[trigger] is_cancel_at(ev, text@, j),
        decreases es.len() - i,
    {
        if same_text(&es[i].t, "bot_command") {
            assert(ev[i as int].kind == bot_command_kind());
            let command = read_entity_from_text(&es[i], text.clone());
            if same_text(&command, "/cancel") {
                assert(is_cancel_at(ev, text@, i as int));
                return true;
            }
        }
        assert(!is_cancel_at(ev, text@, i as int));
        i = i + 1;
    }
    false
}

fn owned(s: &str) -> (r: String)
    ensures
        r@ == s@,
{
    s.to_owned()
}

fn reply_and_finish(chat_id: i64, text: String) -> (res: (UpdateState, Action))
    ensures
        (res.0@, res.1@) == reply_then_finish(chat_id, text@),
{
    let mut pending: Vec<Action> = Vec::new();
    pending.push(Action::Finish(Ok(())));
    let res = (UpdateState::Replying { chat_id, pending }, Action::SendMessage { chat_id, text });
    assert(actions_view(pending@) =~= seq![ActionView::Finish(Ok(()))]);
    res
}

fn store_and_reply(chat_id: i64, status: String, params: Option<String>, text: String) -> (res: (UpdateState, Action))
    ensures
        (res.0@, res.1@) == store_then_reply(chat_id, status@, opt_string_view(params), text@),
{
    let mut pending: Vec<Action> = Vec::new();
    pending.push(Action::SendMessage { chat_id, text });
    pending.push(Action::Finish(Ok(())));
    assert(actions_view(pending@) =~= seq![ActionView::SendMessage { chat_id, text: text@ }, ActionView::Finish(Ok(()))]);
    (UpdateState::Replying { chat_id, pending }, Action::StoreStatus { chat_id, status, params })
}

/// The `/cancel` command: sets the chat back to waiting for a command, then says so.
pub fn cancel(chat_id: i64) -> (res: (UpdateState, Action))
    ensures
        (res.0@, res.1@) == store_then_reply(chat_id, wait_for_command(), None, task_cancelled()),
{
    store_and_reply(chat_id, owned("wait_for_command"), None, owned("Task cancelled"))
}

/// The `/authorize` command, which changes nothing and ends without error.
pub fn authorize(chat_id: i64, text: String) -> (res: (UpdateState, Action))
    ensures
        res.0@ == StateView::Finished,
        res.1@ == ActionView::Finish(Ok(())),
{
    (UpdateState::Finished, Action::Finish(Ok(())))
}

/// Begins the handling of an update: asks whether the chat of its message may
/// use the bot, or stops when the update holds no message.
pub fn start(update: Update) -> (res: (UpdateState, Action))
    ensures
        (res.0@, res.1@) == start_view(message_view(update)),
        well_formed(res.0@),
{
    match update.message {
        None => (UpdateState::Finished, Action::Finish(Err(UpdateError::NoMessage))),
        Some(message) => {
            let chat_id = message.chat.id;
            (
                UpdateState::AwaitingAuthorization { chat_id, text: message.text, entities: message.entities },
                Action::CheckAuthorization { chat_id },
            )
        },
    }
}

fn not_authorized(chat_id: i64) -> (res: (UpdateState, Action))
    ensures
        res.0@ == (StateView::Replying {
            chat_id,
            pending: seq![ActionView::Finish(Err(ErrorView::NotAuthorized(not_authorized_reason(chat_id))))],
        }),
        res.1@ == (ActionView::SendMessage { chat_id, text: not_authorized_notice(chat_id) }),
{
    let mut notice = owned("Your chat is not authorized (#");
    push_decimal(&mut notice, chat_id);
    notice.append(")");
    let mut reason = owned("Chat ");
    push_decimal(&mut reason, chat_id);
    reason.append(" not authorized");
    let mut pending: Vec<Action> = Vec::new();
    pending.push(Action::Finish(Err(UpdateError::NotAuthorized(CustomError::new(reason)))));
    assert(actions_view(pending@) =~= seq![ActionView::Finish(Err(ErrorView::NotAuthorized(not_authorized_reason(chat_id))))]);
    (UpdateState::Replying { chat_id, pending }, Action::SendMessage { chat_id, text: notice })
}

/// The `/download` command: waits for a file name when the message holds a URL,
/// keeping the URL, and for a URL otherwise.
pub fn download(chat_id: i64, es: &Vec<MessageEntity>, text: &String) -> (res: (UpdateState, Action))
    requires
        first_of_kind_in_text(entities_view(es@), url_kind(), text@),
    ensures
        (res.0@, res.1@) == download_view(chat_id, entities_view(es@), text@),
{
    match read_first_of_kind(es, "url", text) {
        Some(url) => store_and_reply(chat_id, owned("download_wait_for_filename"), Some(url), owned("What's the filename ?")),
        None => store_and_reply(chat_id, owned("download_wait_for_url"), None, owned("Give me the URL")),
    }
}

/// A message in a chat that waits for a command.
pub fn process_wait_for_command(chat_id: i64, text: String, entities: Option<Vec<MessageEntity>>) -> (res: (UpdateState, Action))
    requires
        entities is Some ==> {
            let es = entities_view(entities->0@);
            &&& first_of_kind_in_text(es, bot_command_kind(), text@)
            &&& has_kind(es, bot_command_kind())
                && first_text_of_kind(es, bot_command_kind(), text@) == download_command()
                ==> first_of_kind_in_text(es, url_kind(), text@)
        },
    ensures
        (res.0@, res.1@) == command_view(chat_id, text@, opt_entities_view(entities)),
{
    match entities {
        None => reply_and_finish(chat_id, owned("I don't get what you mean")),
        Some(es) => match read_first_of_kind(&es, "bot_command", &text) {
            None => (UpdateState::Finished, Action::Finish(Err(UpdateError::NoCommand))),
            Some(command) => {
                if same_text(&command, "/authorize") {
                    authorize(chat_id, text)
                } else if same_text(&command, "/download") {
                    download(chat_id, &es, &text)
                } else {
                    let mut notice = owned("Command ");
                    notice.append(command.as_str());
                    notice.append(" doesn't exist");
                    reply_and_finish(chat_id, notice)
                }
            },
        },
    }
}

/// A message in a chat that waits for a URL: keeps the first URL of the message
/// and asks for a file name, or says that no URL was found.
pub fn url(chat_id: i64, text: String, entities: Option<Vec<MessageEntity>>) -> (res: (UpdateState, Action))
    requires
        entities is Some ==> first_of_kind_in_text(entities_view(entities->0@), url_kind(), text@),
    ensures
        (res.0@, res.1@) == url_view(chat_id, text@, opt_entities_view(entities)),
{
    match entities {
        Some(es) => match read_first_of_kind(&es, "url", &text) {
            Some(url) => store_and_reply(chat_id, owned("download_wait_for_filename"), Some(url), owned("What's the filename ?")),
            None => reply_and_finish(chat_id, owned("I can't recognize any URL, please try again or /cancel")),
        },
        None => reply_and_finish(chat_id, owned("I can't recognize any URL, please try again or /cancel")),
    }
}

/// A message in a chat that waits for a file name: announces the download of
/// `link` into the file `name`, stops waiting, then downloads.
pub fn filename(chat_id: i64, name: String, link: String) -> (res: (UpdateState, Action))
    ensures
        (res.0@, res.1@) == filename_view(chat_id, name@, link@),
{
    let mut notice = owned("Downloading ");
    notice.append(name.as_str());
    let mut pending: Vec<Action> = Vec::new();
    pending.push(Action::StoreStatus { chat_id, status: owned("download_wait_for_command"), params: None });
    pending.push(Action::DownloadFile { url: link, filename: name });
    assert(actions_view(pending@) =~= seq![
        ActionView::StoreStatus { chat_id, status: download_wait_for_command(), params: None },
        ActionView::DownloadFile { url: link@, filename: name@ },
    ]);
    (UpdateState::Replying { chat_id, pending }, Action::SendMessage { chat_id, text: notice })
}

fn handle_download_result(chat_id: i64, filename: String, result: Result<(), String>) -> (res: (UpdateState, Action))
    ensures
        (res.0@, res.1@) == reply_then_finish(chat_id, download_result_notice(filename@, match result {
            Ok(_) => Ok(()),
            Err(e) => Err(e@),
        })),
{
    match result {
        Ok(_) => {
            let mut notice = filename;
            notice.append(" downloaded");
            reply_and_finish(chat_id, notice)
        },
        Err(e) => {
            let mut notice = owned("cannot download ");
            notice.append(e.as_str());
            reply_and_finish(chat_id, notice)
        },
    }
}

/// Takes the answer to the last action and gives the next state and the next action.
pub fn step(state: UpdateState, event: Event) -> (res: (UpdateState, Action))
    requires
        well_formed(state@),
        accepts(state@, event@),
        reads_in_text(state@, event@),
    ensures
        (res.0@, res.1@) == step_view(state@, event@),
        well_formed(res.0@),
{
    match state {
        UpdateState::AwaitingAuthorization { chat_id, text, entities } => {
            let authorized = match event {
                Event::Authorization(b) => b,
                _ => false,
            };
            if !authorized {
                return not_authorized(chat_id);
            }
            match text {
                None => (UpdateState::Finished, Action::Finish(Err(UpdateError::NoText))),
                Some(text) => {
                    let cancel = match &entities {
                        Some(es) => find_cancel(es, &text),
                        None => false,
                    };
                    if cancel {
                        self::cancel(chat_id)
                    } else {
                        (UpdateState::AwaitingStatus { chat_id, text, entities }, Action::LoadStatus { chat_id })
                    }
                },
            }
        },
        UpdateState::AwaitingStatus { chat_id, text, entities } => {
            match event {
                Event::ChatStatus { status, params } => {
                    if same_text(&status, "wait_for_command") {
                        process_wait_for_command(chat_id, text, entities)
                    } else if same_text(&status, "wait_for_url") {
                        url(chat_id, text, entities)
                    } else if same_text(&status, "wait_for_filename") {
                        filename(chat_id, text, params)
                    } else {
                        reply_and_finish(chat_id, owned("I don't get what you mean"))
                    }
                },
                _ => (UpdateState::Finished, Action::Finish(Ok(()))),
            }
        },
        UpdateState::Replying { chat_id, pending } => {
            let mut pending = pending;
            let ghost before = actions_view(pending@);
            let next = pending.remove(0);
            assert(actions_view(pending@) =~= before.drop_first());
            match next {
                Action::Finish(r) => (UpdateState::Finished, Action::Finish(r)),
                Action::DownloadFile { url, filename } => {
                    let name = filename.clone();
                    (UpdateState::AwaitingDownload { chat_id, filename: name }, Action::DownloadFile { url, filename })
                },
                other => (UpdateState::Replying { chat_id, pending }, other),
            }
        },
        UpdateState::AwaitingDownload { chat_id, filename } => {
            match event {
                Event::DownloadFinished(result) => handle_download_result(chat_id, filename, result),
                _ => (UpdateState::Finished, Action::Finish(Ok(()))),
            }
        },
        UpdateState::Finished => (UpdateState::Finished, Action::Finish(Ok(()))),
    }
}


/// Whether the first entity of the given kind, if any, lies in the text.
fn first_of_kind_fits(es: &Vec<MessageEntity>, kind: &str, text: &String) -> (b: bool)
    ensures
        b == first_of_kind_in_text(entities_view(es@), kind@, text@),
{
    match find_kind(es, kind) {
        Some(i) => {
            proof { lemma_first_of_kind_unique(entities_view(es@), kind@, i as int); }
            entity_fits_text(&es[i], text)
        },
        None => true,
    }
}

/// Whether the search for `/cancel` reads only spans that lie in the text.
fn cancel_scan_fits(es: &Vec<MessageEntity>, text: &String) -> (b: bool)
    ensures
        b == cancel_scan_in_text(entities_view(es@), text@),
{
    let ghost ev = entities_view(es@);
    let mut i: usize = 0;
    while i < es.len()
        invariant
            i <= es.len(),
            ev == entities_view(es@),
            forall|j: int| 0 <= j < i ==> !#[trigger] is_cancel_at(ev, text@, j),
            forall|j: int| 0 <= j < i && #[trigger] ev[j].kind == bot_command_kind() ==> entity_in_text(ev[j], text@),
        decreases es.len() - i,
    {
        if same_text(&es[i].t, "bot_command") {
            assert(ev[i as int].kind == bot_command_kind());
            if !entity_fits_text(&es[i], text) {
                return false;
            }
            let command = read_entity_from_text(&es[i], text.clone());
            if same_text(&command, "/cancel") {
                assert(is_cancel_at(ev, text@, i as int));
                assert forall|k: int|
                    0 <= k < ev.len() && #[trigger] ev[k].kind == bot_command_kind()
                        && (forall|j: int| 0 <= j < k ==> !#[trigger] is_cancel_at(ev, text@, j))
                    implies entity_in_text(ev[k], text@) by {
                    if k > i {
                        assert(is_cancel_at(ev, text@, i as int));
                    }
                }
                return true;
            }
        }
        assert(!is_cancel_at(ev, text@, i as int));
        i = i + 1;
    }
    true
}

/// Whether the search for `/cancel` that follows a positive authorization reads
/// only spans that lie in the text.
fn authorization_reads_fit(text: &Option<String>, entities: &Option<Vec<MessageEntity>>) -> (b: bool)
    ensures
        b == (text is Some && entities is Some ==> cancel_scan_in_text(
            entities_view(entities->0@),
            text->0@,
        )),
{
    match text {
        Some(t) => match entities {
            Some(es) => cancel_scan_fits(es, t),
            None => true,
        },
        None => true,
    }
}

/// Whether the handling of the chat's status reads only spans that lie in the text.
fn status_reads_fit(status: &String, text: &String, es: &Vec<MessageEntity>) -> (b: bool)
    ensures
        b == ({
            let ev = entities_view(es@);
            &&& status@ == wait_for_command() ==> {
                &&& first_of_kind_in_text(ev, bot_command_kind(), text@)
                &&& has_kind(ev, bot_command_kind())
                    && first_text_of_kind(ev, bot_command_kind(), text@) == download_command()
                    ==> first_of_kind_in_text(ev, url_kind(), text@)
            }
            &&& status@ == wait_for_url() ==> first_of_kind_in_text(ev, url_kind(), text@)
        }),
{
    let ghost ev = entities_view(es@);
    proof {
        reveal_strlit("wait_for_command");
        reveal_strlit("wait_for_url");
        assert(wait_for_command().len() == 16);
        assert(wait_for_url().len() == 12);
    }
    if same_text(status, "wait_for_command") {
        match find_kind(es, "bot_command") {
            None => true,
            Some(i) => {
                proof { lemma_first_of_kind_unique(ev, bot_command_kind(), i as int); }
                assert(ev[i as int] == es@[i as int]@);
                if !entity_fits_text(&es[i], text) {
                    false
                } else {
                    let command = read_entity_from_text(&es[i], text.clone());
                    assert(command@ == first_text_of_kind(ev, bot_command_kind(), text@));
                    if same_text(&command, "/download") {
                        first_of_kind_fits(es, "url", text)
                    } else {
                        true
                    }
                }
            },
        }
    } else if same_text(status, "wait_for_url") {
        first_of_kind_fits(es, "url", text)
    } else {
        true
    }
}

/// Whether every span of the message that [`step`] would read for this event lies
/// in the message's text; [`step`] may be called only where it does.
pub fn step_reads_in_text(state: &UpdateState, event: &Event) -> (b: bool)
    ensures
        b == reads_in_text(state@, event@),
{
    match state {
        UpdateState::AwaitingAuthorization { text, entities, .. } => match event {
            Event::Authorization(authorized) => !*authorized || authorization_reads_fit(text, entities),
            _ => true,
        },
        UpdateState::AwaitingStatus { text, entities, .. } => match event {
            Event::ChatStatus { status, .. } => match entities {
                Some(es) => status_reads_fit(status, text, es),
                None => true,
            },
            _ => true,
        },
        _ => true,
    }
}

} // verus!
