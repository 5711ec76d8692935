//! What holds of the bot's handling of updates as a whole.
use vstd::prelude::*;

use crate::model::{
    accepts, first_of_kind, has_kind, is_cancel_at, is_reply, lemma_first_of_kind_exists,
    lemma_first_of_kind_unique, mentions_cancel, reads_in_text,
    not_authorized_notice, not_authorized_reason, start_view, step_view, well_formed, ActionView,
    ErrorView, EventView, StateView,
};
use crate::structs::EntityView;
use crate::text::{decimal, decimal_reads_back, is_decimal_of};
use crate::utils::{entity_in_text, entity_text, entity_text_bytes};
use vstd::utf8::{encode_utf8, is_char_boundary, encode_utf8_decode_utf8};

verus! {

/// The event is the kind of answer that the action asks for.
pub open spec fn answers(a: ActionView, e: EventView) -> bool {
    match a {
        ActionView::CheckAuthorization { .. } => e is Authorization,
        ActionView::LoadStatus { .. } => e is ChatStatus,
        ActionView::StoreStatus { .. } => e is Completed,
        ActionView::SendMessage { .. } => e is Completed,
        ActionView::DownloadFile { .. } => e is DownloadFinished,
        ActionView::Finish(_) => false,
    }
}

/// How many more actions the state can ask for, at most.
pub open spec fn action_rank(a: ActionView) -> nat {
    if a is DownloadFile { 3 } else { 1 }
}

pub open spec fn pending_rank(pending: Seq<ActionView>) -> nat
    decreases pending.len(),
{
    if pending.len() == 0 {
        0
    } else {
        action_rank(pending[0]) + pending_rank(pending.drop_first())
    }
}

pub open spec fn rank(s: StateView) -> nat {
    match s {
        StateView::AwaitingAuthorization { .. } => 6,
        StateView::AwaitingStatus { .. } => 5,
        StateView::Replying { pending, .. } => pending_rank(pending),
        StateView::AwaitingDownload { .. } => 2,
        StateView::Finished => 0,
    }
}

/// The chat that an action concerns, if it concerns one.
pub open spec fn action_chat(a: ActionView) -> Option<i64> {
    match a {
        ActionView::CheckAuthorization { chat_id } => Some(chat_id),
        ActionView::LoadStatus { chat_id } => Some(chat_id),
        ActionView::StoreStatus { chat_id, .. } => Some(chat_id),
        ActionView::SendMessage { chat_id, .. } => Some(chat_id),
        _ => None,
    }
}

/// The chat whose message the state handles, until it is finished.
pub open spec fn state_chat(s: StateView) -> Option<i64> {
    match s {
        StateView::AwaitingAuthorization { chat_id, .. } => Some(chat_id),
        StateView::AwaitingStatus { chat_id, .. } => Some(chat_id),
        StateView::Replying { chat_id, .. } => Some(chat_id),
        StateView::AwaitingDownload { chat_id, .. } => Some(chat_id),
        StateView::Finished => None,
    }
}

/// Every queued action concerns no chat or the state's own chat.
pub open spec fn stays_in_chat(s: StateView) -> bool {
    match s {
        StateView::Replying { chat_id, pending } => forall|i: int|
            0 <= i < pending.len() ==> (#[trigger] action_chat(pending[i]) matches Some(c) ==> c == chat_id),
        _ => true,
    }
}

/// Each action says which answer comes next: whatever state follows the start
/// accepts exactly the events that answer the first action, and a finished
/// handling accepts none.
pub proof fn start_asks_for_its_answer(message: Option<(i64, Option<Seq<char>>, Option<Seq<EntityView>>)>, e: EventView)
    ensures
        accepts(start_view(message).0, e) == answers(start_view(message).1, e),
        well_formed(start_view(message).0),
{
}

/// Each action says which answer comes next: after a step, the new state accepts
/// exactly the events that answer the action that the step asked for; after a
/// `Finish`, no event is accepted.
pub proof fn step_asks_for_its_answer(s: StateView, e: EventView, next: EventView)
    requires
        well_formed(s),
        accepts(s, e),
    ensures
        well_formed(step_view(s, e).0),
        accepts(step_view(s, e).0, next) == answers(step_view(s, e).1, next),
{
    if let StateView::Replying { pending, .. } = s {
        if pending.len() > 1 {
            assert(is_reply(pending[0]));
        } else {
            assert(pending[0] == pending.last());
        }
    }
}

/// The handling of an update ends: every step lowers the rank of the state, and
/// the first state has rank at most six, so that an update asks for at most
/// seven actions, the last of them a `Finish`.
pub proof fn handling_ends(s: StateView, e: EventView, message: Option<(i64, Option<Seq<char>>, Option<Seq<EntityView>>)>)
    requires
        well_formed(s),
        accepts(s, e),
    ensures
        rank(step_view(s, e).0) < rank(s),
        rank(start_view(message).0) <= 6,
{
    reveal_with_fuel(pending_rank, 3);
    if let StateView::Replying { chat_id, pending } = s {
        assert(pending_rank(pending) == action_rank(pending[0]) + pending_rank(pending.drop_first()));
        if !(pending[0] is Finish) && !(pending[0] is DownloadFile) {
            assert(pending.drop_first().len() > 0);
        }
    }
}

/// Only a finished state has rank zero.
pub proof fn rank_zero_only_when_finished(s: StateView)
    requires
        well_formed(s),
    ensures
        rank(s) == 0 <==> s is Finished,
{
    if let StateView::Replying { pending, .. } = s {
        reveal_with_fuel(pending_rank, 2);
    }
}

/// Everything the bot does for an update concerns the chat that the message came
/// from: each action names that chat or none, and the state keeps it.
pub proof fn replies_stay_in_chat(s: StateView, e: EventView)
    requires
        well_formed(s),
        stays_in_chat(s),
        accepts(s, e),
    ensures
        stays_in_chat(step_view(s, e).0),
        action_chat(step_view(s, e).1) matches Some(c) ==> state_chat(s) == Some(c),
        !(step_view(s, e).0 is Finished) ==> state_chat(step_view(s, e).0) == state_chat(s),
{
    if let StateView::Replying { chat_id, pending } = s {
        let next = step_view(s, e).0;
        assert(action_chat(pending[0]) matches Some(c) ==> c == chat_id);
        if let StateView::Replying { pending: rest, .. } = next {
            assert forall|i: int| 0 <= i < rest.len() implies (#[trigger] action_chat(rest[i]) matches Some(c) ==> c == chat_id) by {
                assert(rest[i] == pending[i + 1]);
                assert(action_chat(pending[i + 1]) matches Some(c) ==> c == chat_id);
            }
        }
    }
}

/// The first action of every update concerns the chat of its message.
pub proof fn start_stays_in_chat(message: Option<(i64, Option<Seq<char>>, Option<Seq<EntityView>>)>)
    ensures
        stays_in_chat(start_view(message).0),
        message matches Some((chat_id, _, _)) ==> action_chat(start_view(message).1) == Some(chat_id)
            && state_chat(start_view(message).0) == Some(chat_id),
{
}

/* What the bot answers, stated over the message's bytes and literal texts. */

/// The byte span that an entity marks in the UTF-8 encoding of the text.
pub open spec fn span(text: Seq<char>, e: EntityView) -> Seq<u8> {
    encode_utf8(text).subrange(e.offset as int, (e.offset + e.length) as int)
}

/// The entity's span lies in the text and starts and ends on character boundaries.
pub open spec fn fits(e: EntityView, text: Seq<char>) -> bool {
    &&& e.offset + e.length <= encode_utf8(text).len()
    &&& is_char_boundary(encode_utf8(text), e.offset as int)
    &&& is_char_boundary(encode_utf8(text), (e.offset + e.length) as int)
}

/// Entity `k` is the first of the given kind.
pub open spec fn first_at(es: Seq<EntityView>, kind: Seq<char>, k: int) -> bool {
    &&& 0 <= k < es.len()
    &&& es[k].kind == kind
    &&& forall|j: int| 0 <= j < k ==> #[trigger] es[j].kind != kind
}

/// No entity of the message has the given kind.
pub open spec fn none_of(es: Seq<EntityView>, kind: Seq<char>) -> bool {
    forall|j: int| 0 <= j < es.len() ==> #[trigger] es[j].kind != kind
}

/// No bot command of the message spells `/cancel`.
pub open spec fn no_cancel(es: Seq<EntityView>, text: Seq<char>) -> bool {
    forall|j: int|
        0 <= j < es.len() && #[trigger] es[j].kind == "bot_command"@ && fits(es[j], text)
            ==> span(text, es[j]) != encode_utf8("/cancel"@)
}

/// The text that an entity marks is `w` exactly when `w` encodes to its byte span.
proof fn lemma_entity_text_is(e: EntityView, text: Seq<char>, w: Seq<char>)
    requires
        fits(e, text),
    ensures
        entity_in_text(e, text),
        (entity_text(e, text) == w) <==> (span(text, e) == encode_utf8(w)),
{
    entity_text_bytes(e, text);
    encode_utf8_decode_utf8(w);
    encode_utf8_decode_utf8(entity_text(e, text));
}

/// Checking whether an entity lies in the text means what [`fits`] says.
pub proof fn entity_in_text_means_fits(e: EntityView, text: Seq<char>)
    ensures
        entity_in_text(e, text) == fits(e, text),
{
}

/// Every entity of the message lies in its text.
pub open spec fn all_fit(es: Seq<EntityView>, text: Seq<char>) -> bool {
    forall|i: int| 0 <= i < es.len() ==> #[trigger] fits(es[i], text)
}

/// A step may always be taken on a message all of whose entities lie in its text.
pub proof fn steps_allowed_when_entities_fit(s: StateView, e: EventView)
    requires
        s matches StateView::AwaitingAuthorization { text: Some(t), entities: Some(es), .. } ==> all_fit(es, t),
        s matches StateView::AwaitingStatus { text, entities: Some(es), .. } ==> all_fit(es, text),
    ensures
        reads_in_text(s, e),
{
    if let StateView::AwaitingStatus { text, entities: Some(es), .. } = s {
        if has_kind(es, "bot_command"@) {
            lemma_first_of_kind_exists(es, "bot_command"@);
            assert(fits(es[first_of_kind(es, "bot_command"@)], text));
        }
        if has_kind(es, "url"@) {
            lemma_first_of_kind_exists(es, "url"@);
            assert(fits(es[first_of_kind(es, "url"@)], text));
        }
    }
    if let StateView::AwaitingAuthorization { text: Some(t), entities: Some(es), .. } = s {
        assert forall|i: int|
            0 <= i < es.len() && #[trigger] es[i].kind == "bot_command"@
                && (forall|j: int| 0 <= j < i ==> !#[trigger] is_cancel_at(es, t, j))
            implies entity_in_text(es[i], t) by {
            assert(fits(es[i], t));
        }
    }
}

/// A chat that is not authorized gets only the notice, which names the chat by
/// its full id, and then the not-authorized error, whose reason names it too; the
/// chat's status is neither read nor written.
pub proof fn unauthorized_chat_only_gets_notice(
    chat_id: i64,
    text: Option<Seq<char>>,
    entities: Option<Seq<EntityView>>,
)
    ensures
        ({
            let s0 = StateView::AwaitingAuthorization { chat_id, text, entities };
            let (s1, a1) = step_view(s0, EventView::Authorization(false));
            let (s2, a2) = step_view(s1, EventView::Completed);
            &&& a1 matches ActionView::SendMessage { chat_id: c, text: notice } && c == chat_id && {
                &&& notice.len() > 31
                &&& notice.take(30) == "Your chat is not authorized (#"@
                &&& notice.last() == ')'
                &&& is_decimal_of(notice.subrange(30, notice.len() - 1), chat_id as int)
            }
            &&& a2 matches ActionView::Finish(Err(ErrorView::NotAuthorized(reason))) && {
                &&& reason.len() > 20
                &&& reason.take(5) == "Chat "@
                &&& reason.skip(reason.len() - 15) == " not authorized"@
                &&& is_decimal_of(reason.subrange(5, reason.len() - 15), chat_id as int)
            }
            &&& s2 is Finished
        }),
{
    reveal_strlit("Your chat is not authorized (#");
    reveal_strlit(")");
    reveal_strlit("Chat ");
    reveal_strlit(" not authorized");
    let d = decimal(chat_id as int);
    decimal_reads_back(chat_id as int);
    let notice = not_authorized_notice(chat_id);
    assert(notice.take(30) =~= "Your chat is not authorized (#"@);
    assert(notice.subrange(30, notice.len() - 1) =~= d);
    let reason = not_authorized_reason(chat_id);
    assert(reason.take(5) =~= "Chat "@);
    assert(reason.skip(reason.len() - 15) =~= " not authorized"@);
    assert(reason.subrange(5, reason.len() - 15) =~= d);
}

/// A message that holds no text, in an authorized chat, ends the handling with
/// the missing-text error.
pub proof fn message_without_text_fails(chat_id: i64, entities: Option<Seq<EntityView>>)
    ensures
        step_view(StateView::AwaitingAuthorization { chat_id, text: None, entities }, EventView::Authorization(true))
            == (StateView::Finished, ActionView::Finish(Err(ErrorView::NoText))),
{
}

/// `/cancel` works whatever the chat waits for: when some bot command of an
/// authorized message spells `/cancel`, the chat is set back to waiting for a
/// command, without its status being read, then told so, and the handling ends.
pub proof fn cancel_resets_status(chat_id: i64, text: Seq<char>, entities: Seq<EntityView>, i: int)
    requires
        0 <= i < entities.len(),
        entities[i].kind == "bot_command"@,
        fits(entities[i], text),
        span(text, entities[i]) == encode_utf8("/cancel"@),
    ensures
        ({
            let s0 = StateView::AwaitingAuthorization { chat_id, text: Some(text), entities: Some(entities) };
            let (s1, a1) = step_view(s0, EventView::Authorization(true));
            let (s2, a2) = step_view(s1, EventView::Completed);
            let (s3, a3) = step_view(s2, EventView::Completed);
            &&& a1 == ActionView::StoreStatus { chat_id, status: "wait_for_command"@, params: None }
            &&& a2 == ActionView::SendMessage { chat_id, text: "Task cancelled"@ }
            &&& a3 == ActionView::Finish(Ok(()))
            &&& s3 is Finished
        }),
{
    lemma_entity_text_is(entities[i], text, "/cancel"@);
    assert(is_cancel_at(entities, text, i));
}

/// Without `/cancel`, an authorized message is handled by the chat's stored
/// status, which is read next.
pub proof fn status_decides_otherwise(chat_id: i64, text: Seq<char>, entities: Option<Seq<EntityView>>)
    requires
        entities matches Some(es) ==> no_cancel(es, text),
    ensures
        step_view(StateView::AwaitingAuthorization { chat_id, text: Some(text), entities }, EventView::Authorization(true))
            == (StateView::AwaitingStatus { chat_id, text, entities }, ActionView::LoadStatus { chat_id }),
{
    if let Some(es) = entities {
        if mentions_cancel(es, text) {
            let i = choose|i: int| 0 <= i < es.len() && #[trigger] is_cancel_at(es, text, i);
            lemma_entity_text_is(es[i], text, "/cancel"@);
        }
    }
}

/// The handling of an update starts from the message exactly as it came: its
/// chat, its text and its entities, unchanged, and first asks whether the chat
/// may use the bot; an update without a message fails at once.
pub proof fn start_keeps_the_message(message: Option<(i64, Option<Seq<char>>, Option<Seq<EntityView>>)>)
    ensures
        message is None ==> start_view(message) == (StateView::Finished, ActionView::Finish(Err(ErrorView::NoMessage))),
        message matches Some((chat_id, text, entities)) ==> start_view(message) == (
            StateView::AwaitingAuthorization { chat_id, text, entities },
            ActionView::CheckAuthorization { chat_id },
        ),
{
}

/// A chat that waits for a command and sends `/download` along with a URL: the
/// URL that is kept is the one that the first URL entity marks, byte for byte,
/// the chat then waits for a file name, and is asked for one.
pub proof fn download_keeps_first_url(chat_id: i64, text: Seq<char>, es: Seq<EntityView>, params: Seq<char>, c: int, k: int)
    requires
        first_at(es, "bot_command"@, c),
        fits(es[c], text),
        span(text, es[c]) == encode_utf8("/download"@),
        first_at(es, "url"@, k),
        fits(es[k], text),
    ensures
        ({
            let s0 = StateView::AwaitingStatus { chat_id, text, entities: Some(es) };
            let (s1, a1) = step_view(s0, EventView::ChatStatus { status: "wait_for_command"@, params });
            let (s2, a2) = step_view(s1, EventView::Completed);
            let (s3, a3) = step_view(s2, EventView::Completed);
            &&& a1 matches ActionView::StoreStatus { chat_id: ch, status, params: Some(url) } && {
                &&& ch == chat_id
                &&& status == "download_wait_for_filename"@
                &&& encode_utf8(url) == span(text, es[k])
            }
            &&& a2 == ActionView::SendMessage { chat_id, text: "What's the filename ?"@ }
            &&& a3 == ActionView::Finish(Ok(()))
        }),
{
    lemma_first_of_kind_unique(es, "bot_command"@, c);
    lemma_first_of_kind_unique(es, "url"@, k);
    lemma_entity_text_is(es[c], text, "/download"@);
    lemma_entity_text_is(es[k], text, entity_text(es[k], text));
    reveal_strlit("/authorize");
    reveal_strlit("/download");
    assert("/authorize"@.len() != "/download"@.len());
}

/// A chat that waits for a command and sends `/download` without any URL waits
/// for a URL next, with no parameter kept, and is asked for one.
pub proof fn download_without_url_asks_for_it(chat_id: i64, text: Seq<char>, es: Seq<EntityView>, params: Seq<char>, c: int)
    requires
        first_at(es, "bot_command"@, c),
        fits(es[c], text),
        span(text, es[c]) == encode_utf8("/download"@),
        none_of(es, "url"@),
    ensures
        ({
            let s0 = StateView::AwaitingStatus { chat_id, text, entities: Some(es) };
            let (s1, a1) = step_view(s0, EventView::ChatStatus { status: "wait_for_command"@, params });
            let (s2, a2) = step_view(s1, EventView::Completed);
            &&& a1 == ActionView::StoreStatus { chat_id, status: "download_wait_for_url"@, params: None }
            &&& a2 == ActionView::SendMessage { chat_id, text: "Give me the URL"@ }
        }),
{
    lemma_first_of_kind_unique(es, "bot_command"@, c);
    lemma_entity_text_is(es[c], text, "/download"@);
    reveal_strlit("/authorize");
    reveal_strlit("/download");
    assert("/authorize"@.len() != "/download"@.len());
}

/// A command other than `/authorize` and `/download` is answered with a notice
/// that quotes it, and nothing is stored; `/authorize` changes nothing.
pub proof fn other_commands(chat_id: i64, text: Seq<char>, es: Seq<EntityView>, params: Seq<char>, c: int, w: Seq<char>)
    requires
        first_at(es, "bot_command"@, c),
        fits(es[c], text),
        span(text, es[c]) == encode_utf8(w),
        w != "/download"@,
    ensures
        ({
            let s0 = StateView::AwaitingStatus { chat_id, text, entities: Some(es) };
            let (s1, a1) = step_view(s0, EventView::ChatStatus { status: "wait_for_command"@, params });
            let (s2, a2) = step_view(s1, EventView::Completed);
            &&& w == "/authorize"@ ==> a1 == ActionView::Finish(Ok(())) && s1 is Finished
            &&& w != "/authorize"@ ==> {
                &&& a1 == ActionView::SendMessage { chat_id, text: "Command "@ + w + " doesn't exist"@ }
                &&& a2 == ActionView::Finish(Ok(()))
            }
        }),
{
    lemma_first_of_kind_unique(es, "bot_command"@, c);
    lemma_entity_text_is(es[c], text, w);
}

/// A chat that waits for a command but whose message marks no bot command ends
/// the handling with the missing-command error; a message with no entities at
/// all is answered that it is not understood.
pub proof fn message_without_command(chat_id: i64, text: Seq<char>, entities: Option<Seq<EntityView>>, params: Seq<char>)
    requires
        entities matches Some(es) ==> none_of(es, "bot_command"@),
    ensures
        ({
            let s0 = StateView::AwaitingStatus { chat_id, text, entities };
            let (s1, a1) = step_view(s0, EventView::ChatStatus { status: "wait_for_command"@, params });
            let (s2, a2) = step_view(s1, EventView::Completed);
            &&& entities is Some ==> a1 == ActionView::Finish(Err(ErrorView::NoCommand))
            &&& entities is None ==> a1 == ActionView::SendMessage { chat_id, text: "I don't get what you mean"@ }
                && a2 == ActionView::Finish(Ok(()))
        }),
{
}

/// In a chat that waits for a URL, the URL that is kept is the one that the
/// message's first URL entity marks, byte for byte, and a file name is asked for;
/// without a URL entity, the chat is told that no URL was recognized.
pub proof fn url_is_kept_for_the_file_name(chat_id: i64, text: Seq<char>, entities: Option<Seq<EntityView>>, params: Seq<char>, k: int)
    requires
        entities matches Some(es) ==> (first_at(es, "url"@, k) ==> fits(es[k], text)),
    ensures
        ({
            let s0 = StateView::AwaitingStatus { chat_id, text, entities };
            let (s1, a1) = step_view(s0, EventView::ChatStatus { status: "wait_for_url"@, params });
            let (s2, a2) = step_view(s1, EventView::Completed);
            &&& entities matches Some(es) ==> first_at(es, "url"@, k) ==> {
                &&& a1 matches ActionView::StoreStatus { chat_id: ch, status, params: Some(url) } && ch == chat_id
                    && status == "download_wait_for_filename"@ && encode_utf8(url) == span(text, es[k])
                &&& a2 == ActionView::SendMessage { chat_id, text: "What's the filename ?"@ }
            }
            &&& (entities matches Some(es) ==> none_of(es, "url"@)) ==> {
                &&& a1 == ActionView::SendMessage { chat_id, text: "I can't recognize any URL, please try again or /cancel"@ }
                &&& a2 == ActionView::Finish(Ok(()))
            }
        }),
{
    reveal_strlit("wait_for_url");
    reveal_strlit("wait_for_command");
    assert("wait_for_url"@.len() != "wait_for_command"@.len());
    if let Some(es) = entities {
        if first_at(es, "url"@, k) {
            lemma_first_of_kind_unique(es, "url"@, k);
            lemma_entity_text_is(es[k], text, entity_text(es[k], text));
        }
    }
}

/// A status that the bot does not dispatch on is answered that the message is
/// not understood, and nothing is stored.
pub proof fn other_statuses(chat_id: i64, text: Seq<char>, entities: Option<Seq<EntityView>>, status: Seq<char>, params: Seq<char>)
    requires
        status != "wait_for_command"@,
        status != "wait_for_url"@,
        status != "wait_for_filename"@,
    ensures
        ({
            let s0 = StateView::AwaitingStatus { chat_id, text, entities };
            let (s1, a1) = step_view(s0, EventView::ChatStatus { status, params });
            let (s2, a2) = step_view(s1, EventView::Completed);
            &&& a1 == ActionView::SendMessage { chat_id, text: "I don't get what you mean"@ }
            &&& a2 == ActionView::Finish(Ok(()))
            &&& s2 is Finished
        }),
{
}

/// From the update to the end: in an authorized chat that waits for a file name,
/// a message without `/cancel` names the file by its text exactly as sent, the URL
/// is the chat's stored parameter, the chat stops waiting before the download, and
/// the outcome of the download is reported to it.
pub proof fn file_named_by_the_message(
    chat_id: i64,
    text: Seq<char>,
    entities: Option<Seq<EntityView>>,
    url: Seq<char>,
    outcome: Result<(), Seq<char>>,
)
    requires
        entities matches Some(es) ==> no_cancel(es, text),
    ensures
        ({
            let (s0, a0) = start_view(Some((chat_id, Some(text), entities)));
            let (s1, a1) = step_view(s0, EventView::Authorization(true));
            let (s2, a2) = step_view(s1, EventView::ChatStatus { status: "wait_for_filename"@, params: url });
            let (s3, a3) = step_view(s2, EventView::Completed);
            let (s4, a4) = step_view(s3, EventView::Completed);
            let (s5, a5) = step_view(s4, EventView::DownloadFinished(outcome));
            let (s6, a6) = step_view(s5, EventView::Completed);
            &&& a0 == ActionView::CheckAuthorization { chat_id }
            &&& a1 == ActionView::LoadStatus { chat_id }
            &&& a2 == ActionView::SendMessage { chat_id, text: "Downloading "@ + text }
            &&& a3 == ActionView::StoreStatus { chat_id, status: "download_wait_for_command"@, params: None }
            &&& a4 == ActionView::DownloadFile { url, filename: text }
            &&& a5 == ActionView::SendMessage {
                chat_id,
                text: match outcome {
                    Ok(_) => text + " downloaded"@,
                    Err(e) => "cannot download "@ + e,
                },
            }
            &&& a6 == ActionView::Finish(Ok(()))
            &&& s6 is Finished
        }),
{
    status_decides_otherwise(chat_id, text, entities);
    reveal_strlit("wait_for_filename");
    reveal_strlit("wait_for_url");
    reveal_strlit("wait_for_command");
    assert("wait_for_filename"@.len() != "wait_for_command"@.len());
    assert("wait_for_filename"@.len() != "wait_for_url"@.len());
}

} // verus!
