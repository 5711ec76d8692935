use vstd::prelude::*;

verus! {

/// What the Bot API's `getMe` method reports about the bot itself.
#[derive(Debug)]
pub struct GetMe {
    pub id: i64,
    pub is_bot: bool,
    pub first_name: String,
    pub last_name: Option<String>,
    pub username: String,
    pub language_code: Option<String>,
    pub can_join_groups: bool,
    pub can_read_all_group_messages: bool,
    pub supports_inline_queries: bool,
}

/// The chat that a message was posted in.
#[derive(Debug)]
pub struct Chat {
    pub id: i64,
    pub first_name: Option<String>,
    pub last_name: Option<String>,
}

/// A marked span of a message's text (a bot command, a URL, ...).
///
/// `offset` and `length` count bytes of the text's UTF-8 encoding.
#[derive(Debug)]
pub struct MessageEntity {
    /// The entity's type, such as `bot_command` or `url`.
    pub t: String,
    pub offset: usize,
    pub length: usize,
}

/// A message that the bot received.
#[derive(Debug)]
pub struct Message {
    pub text: Option<String>,
    pub chat: Chat,
    pub entities: Option<Vec<MessageEntity>>,
}

/// One item of the Bot API's `getUpdates` answer.
#[derive(Debug)]
pub struct Update {
    pub update_id: i64,
    pub message: Option<Message>,
}

/// The envelope of every Bot API answer.
#[derive(Debug)]
pub struct Res<T> {
    pub ok: bool,
    pub result: T,
}

/// The mathematical content of a [`MessageEntity`].
pub struct EntityView {
    pub kind: Seq<char>,
    pub offset: nat,
    pub length: nat,
}

impl View for MessageEntity {
    type V = EntityView;

    open spec fn view(&self) -> EntityView {
        EntityView { kind: self.t@, offset: self.offset as nat, length: self.length as nat }
    }
}

/// The entities of a message, each taken by its view.
pub open spec fn entities_view(es: Seq<MessageEntity>) -> Seq<EntityView> {
    es.map_values(|e: MessageEntity| e@)
}

/// An optional list of entities, taken by its view.
pub open spec fn opt_entities_view(es: Option<Vec<MessageEntity>>) -> Option<Seq<EntityView>> {
    match es {
        Some(v) => Some(entities_view(v@)),
        None => None,
    }
}

/// An optional string, taken by its view.
pub open spec fn opt_string_view(s: Option<String>) -> Option<Seq<char>> {
    match s {
        Some(v) => Some(v@),
        None => None,
    }
}

} // verus!
