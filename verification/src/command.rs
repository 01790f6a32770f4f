//! Commands, as they come in from the inbox.

use vstd::prelude::*;

use crate::json::{json_document, parse_value, value_contents, value_member, Json};
use crate::push::{text_seen, PushModel, PushRequest};
use crate::text::same_text;

verus! {

/// The members of a command that are read, each where it is there and of the right kind.
pub struct CommandFields {
    pub cmd: Option<String>,
    pub slot: Option<u64>,
    pub mode: Option<String>,
    pub path: Option<String>,
    pub content: Option<String>,
    pub title: Option<String>,
    pub color: Option<String>,
}

/// What `CommandFields` stands for.
#[verifier::ext_equal]
pub struct FieldsModel {
    pub cmd: Option<Seq<char>>,
    pub slot: Option<u64>,
    pub mode: Option<Seq<char>>,
    pub path: Option<Seq<char>>,
    pub content: Option<Seq<char>>,
    pub title: Option<Seq<char>>,
    pub color: Option<Seq<char>>,
}

impl View for CommandFields {
    type V = FieldsModel;

    open spec fn view(&self) -> FieldsModel {
        FieldsModel {
            cmd: text_seen(self.cmd),
            slot: self.slot,
            mode: text_seen(self.mode),
            path: text_seen(self.path),
            content: text_seen(self.content),
            title: text_seen(self.title),
            color: text_seen(self.color),
        }
    }
}

/// The members of a document that are read.
pub open spec fn fields_of(document: Json) -> FieldsModel {
    FieldsModel {
        cmd: document.member("cmd"@).text(),
        slot: document.member("slot"@).count(),
        mode: document.member("mode"@).text(),
        path: document.member("path"@).text(),
        content: document.member("content"@).text(),
        title: document.member("title"@).text(),
        color: document.member("color"@).text(),
    }
}

/// A command.
#[derive(Debug, PartialEq, Eq)]
pub enum Command {
    /// Show a note.
    Push(PushRequest),
    /// Close a slot.
    Close(u8),
    /// Give the border of a slot a colour.
    SetColor { slot: u8, color: String },
    /// Do nothing.
    Unknown,
}

/// What a `Command` stands for.
pub enum CommandModel {
    Push(PushModel),
    Close(u8),
    SetColor { slot: u8, color: Seq<char> },
    Unknown,
}

impl View for Command {
    type V = CommandModel;

    open spec fn view(&self) -> CommandModel {
        match *self {
            Command::Push(request) => CommandModel::Push(request@),
            Command::Close(slot) => CommandModel::Close(slot),
            Command::SetColor { slot, color } => CommandModel::SetColor { slot, color: color@ },
            Command::Unknown => CommandModel::Unknown,
        }
    }
}

/// A text where it is given, and `default` otherwise.
pub open spec fn text_or(text: Option<Seq<char>>, default: Seq<char>) -> Seq<char> {
    match text {
        Some(t) => t,
        None => default,
    }
}

/// The number of a slot by its last eight bits, where it is given, and `default` otherwise.
pub open spec fn slot_or(slot: Option<u64>, default: u8) -> u8 {
    match slot {
        Some(n) => (n % 256) as u8,
        None => default,
    }
}

/// The command that its members stand for.
pub open spec fn routed(fields: FieldsModel) -> CommandModel {
    let cmd = text_or(fields.cmd, Seq::empty());
    if cmd == "push"@ {
        CommandModel::Push(
            PushModel {
                slot: slot_or(fields.slot, 1),
                mode: text_or(fields.mode, "content"@),
                path: text_or(fields.path, Seq::empty()),
                content: text_or(fields.content, Seq::empty()),
                title: text_or(fields.title, Seq::empty()),
            },
        )
    } else if cmd == "close"@ {
        CommandModel::Close(slot_or(fields.slot, 0))
    } else if cmd == "set_color"@ {
        CommandModel::SetColor {
            slot: slot_or(fields.slot, 0),
            color: text_or(fields.color, Seq::empty()),
        }
    } else {
        CommandModel::Unknown
    }
}

fn take_text(text: Option<String>, default: &str) -> (r: String)
    ensures
        r@ == text_or(text_seen(text), default@),
{
    match text {
        Some(t) => t,
        None => default.to_owned(),
    }
}

fn take_slot(slot: Option<u64>, default: u8) -> (r: u8)
    ensures
        r == slot_or(slot, default),
{
    match slot {
        Some(n) => (n % 256) as u8,
        None => default,
    }
}

/// The command that its members stand for.
pub fn route(fields: CommandFields) -> (r: Command)
    ensures
        r@ == routed(fields@),
{
    let cmd = take_text(fields.cmd, "");
    proof {
        reveal_strlit("");
        assert(""@ =~= Seq::<char>::empty());
        reveal_strlit("push");
        reveal_strlit("close");
        reveal_strlit("set_color");
    }
    if same_text(cmd.as_str(), "push") {
        Command::Push(
            PushRequest {
                slot: take_slot(fields.slot, 1),
                mode: take_text(fields.mode, "content"),
                path: take_text(fields.path, ""),
                content: take_text(fields.content, ""),
                title: take_text(fields.title, ""),
            },
        )
    } else if same_text(cmd.as_str(), "close") {
        Command::Close(take_slot(fields.slot, 0))
    } else if same_text(cmd.as_str(), "set_color") {
        Command::SetColor {
            slot: take_slot(fields.slot, 0),
            color: take_text(fields.color, ""),
        }
    } else {
        Command::Unknown
    }
}

/// The text of a member, where it is one.
fn text_member(document: &serde_json::Value, key: &str) -> (r: Option<String>)
    ensures
        text_seen(r) == value_contents(*document).member(key@).text(),
{
    match value_member(document, key).as_str() {
        Some(text) => Some(text.to_owned()),
        None => None,
    }
}

/// The members of a document that are read.
pub fn read_fields(document: &serde_json::Value) -> (r: CommandFields)
    ensures
        r@ == fields_of(value_contents(*document)),
{
    CommandFields {
        cmd: text_member(document, "cmd"),
        slot: value_member(document, "slot").as_u64(),
        mode: text_member(document, "mode"),
        path: text_member(document, "path"),
        content: text_member(document, "content"),
        title: text_member(document, "title"),
        color: text_member(document, "color"),
    }
}

/// Reads a command; nothing where the text is no JSON document.
pub fn read_command(text: &str) -> (r: Option<Command>)
    ensures
        match json_document(text@) {
            Some(document) => r matches Some(command) && command@ == routed(fields_of(document)),
            None => r is None,
        },
{
    match parse_value(text) {
        Some(document) => Some(route(read_fields(&document))),
        None => None,
    }
}

/// A command without a slot pushes into slot 1, and closes or colours none.
pub proof fn law_slot_is_optional_for_pushes_only(fields: FieldsModel)
    requires
        fields.slot is None,
    ensures
        routed(fields) matches CommandModel::Push(request) ==> request.slot == 1,
        routed(fields) matches CommandModel::Close(slot) ==> slot == 0,
        routed(fields) matches CommandModel::SetColor { slot, .. } ==> slot == 0,
{
}

/// A push asks for each thing on its own: every member counts as it is where it is there, and
/// by its default otherwise, whichever other members are there. The slot counts by its last
/// byte, and is the first where none is given; the mode is content where none is given.
pub proof fn law_members_of_a_push_count_on_their_own(fields: FieldsModel, request: PushModel)
    requires
        fields.cmd == Some("push"@),
        routed(fields) == CommandModel::Push(request),
    ensures
        fields.content is Some ==> request.content == fields.content->0,
        fields.content is None ==> request.content.len() == 0,
        fields.title is Some ==> request.title == fields.title->0,
        fields.title is None ==> request.title.len() == 0,
        fields.path is Some ==> request.path == fields.path->0,
        fields.path is None ==> request.path.len() == 0,
        fields.mode is Some ==> request.mode == fields.mode->0,
        fields.mode is None ==> request.mode == "content"@,
        fields.slot matches Some(n) ==> request.slot == n % 256,
        fields.slot is None ==> request.slot == 1,
{
}

/// What a command does goes by its name alone: `push`, `close` and `set_color` are obeyed,
/// whatever else they say, and everything else does nothing.
pub proof fn law_commands_go_by_their_names(fields: FieldsModel)
    ensures
        routed(fields) is Push <==> fields.cmd == Some("push"@),
        routed(fields) is Close <==> fields.cmd == Some("close"@),
        routed(fields) is SetColor <==> fields.cmd == Some("set_color"@),
        fields.cmd is None ==> routed(fields) is Unknown,
{
    reveal_strlit("push");
    reveal_strlit("close");
    reveal_strlit("set_color");
    assert("push"@.len() == 4 && "close"@.len() == 5 && "set_color"@.len() == 9);
}

/// A command to close or to colour names its slot by the last byte of a number, and no slot
/// where there is none; the colour is the text that is given, or an empty one.
pub proof fn law_members_of_other_commands_count(fields: FieldsModel, n: u64, color: Seq<char>)
    ensures
        fields.cmd == Some("close"@) && fields.slot == Some(n) ==> routed(fields)
            == CommandModel::Close((n % 256) as u8),
        fields.cmd == Some("close"@) && fields.slot is None ==> routed(fields)
            == CommandModel::Close(0),
        fields.cmd == Some("set_color"@) && fields.slot == Some(n) ==> (routed(
            fields,
        ) matches CommandModel::SetColor { slot, .. } && slot == n % 256),
        fields.cmd == Some("set_color"@) && fields.slot is None ==> (routed(
            fields,
        ) matches CommandModel::SetColor { slot, .. } && slot == 0),
        fields.cmd == Some("set_color"@) && fields.color == Some(color) ==> (routed(
            fields,
        ) matches CommandModel::SetColor { color: c, .. } && c == color),
        fields.cmd == Some("set_color"@) && fields.color is None ==> (routed(
            fields,
        ) matches CommandModel::SetColor { color: c, .. } && c.len() == 0),
{
    reveal_strlit("push");
    reveal_strlit("close");
    reveal_strlit("set_color");
    assert("push"@.len() == 4 && "close"@.len() == 5 && "set_color"@.len() == 9);
}

/// The members of a document are read by their names: texts as texts, and the slot as a number.
pub proof fn law_documents_are_read_by_name(document: Json)
    ensures
        fields_of(document).cmd == document.member("cmd"@).text(),
        fields_of(document).slot == document.member("slot"@).count(),
        fields_of(document).mode == document.member("mode"@).text(),
        fields_of(document).path == document.member("path"@).text(),
        fields_of(document).content == document.member("content"@).text(),
        fields_of(document).title == document.member("title"@).text(),
        fields_of(document).color == document.member("color"@).text(),
{
}

/// Commands and their members are seen as they are.
pub proof fn law_commands_are_seen_as_they_are(fields: CommandFields, command: Command)
    ensures
        fields@.cmd == text_seen(fields.cmd),
        fields@.slot == fields.slot,
        fields@.mode == text_seen(fields.mode),
        fields@.path == text_seen(fields.path),
        fields@.content == text_seen(fields.content),
        fields@.title == text_seen(fields.title),
        fields@.color == text_seen(fields.color),
        match command {
            Command::Push(request) => command@ == CommandModel::Push(request@),
            Command::Close(slot) => command@ == CommandModel::Close(slot),
            Command::SetColor { slot, color } => command@ == (CommandModel::SetColor {
                slot,
                color: color@,
            }),
            Command::Unknown => command@ is Unknown,
        },
{
}

} // verus!
