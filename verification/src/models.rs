//! The records that the application keeps — chats, messages, presets,
//! settings — and the rules about them that need no storage to state.

use vstd::prelude::*;
use crate::calendar::{format_timestamp, timestamp_text};
use crate::protocol::{messages_view, ChatMessage, MessageView};
use crate::text::{chars_of, push_range, str_eq, string_of};

verus! {

/// The number of characters of a message that a chat's preview shows.
pub const PREVIEW_CHARS: usize = 100;

/// The mark that ends a preview which does not show the whole message.
pub const ELLIPSIS: char = '…';

/// The preset that comes with the application and cannot be deleted.
pub const DEFAULT_PRESET_ID: i64 = 1;

/// A conversation.
#[derive(Clone, Debug, PartialEq, Eq)]
pub struct Chat {
    pub id: i64,
    pub title: String,
    pub created_at: String,
    pub updated_at: String,
}

/// A conversation with the start of its latest message.
#[derive(Clone, Debug, PartialEq, Eq)]
pub struct ChatWithPreview {
    pub id: i64,
    pub title: String,
    pub created_at: String,
    pub updated_at: String,
    pub last_message: Option<String>,
    pub last_message_role: Option<String>,
}

/// One message of a conversation, as stored.
#[derive(Clone, Debug, PartialEq, Eq)]
pub struct Message {
    pub id: i64,
    pub chat_id: i64,
    pub role: String,
    pub content: String,
    pub created_at: String,
}

/// A named set of anchors.
#[derive(Clone, Debug, PartialEq, Eq)]
pub struct AnchorPreset {
    pub id: i64,
    pub name: String,
    pub created_at: String,
    pub updated_at: String,
}

/// One setting of the application.
#[derive(Clone, Debug, PartialEq, Eq)]
pub struct AppSetting {
    pub key: String,
    pub value: String,
}

/// What it takes to create a conversation.
#[derive(Clone, Debug, PartialEq, Eq)]
pub struct NewChat {
    pub title: String,
}

/// What it takes to add a message to a conversation.
#[derive(Clone, Debug, PartialEq, Eq)]
pub struct NewMessage {
    pub chat_id: i64,
    pub role: String,
    pub content: String,
}

#[verifier::external_type_specification]
#[verifier::external_body]
pub struct ExSystemTime(std::time::SystemTime);

#[verifier::external_type_specification]
#[verifier::external_body]
pub struct ExSystemTimeError(std::time::SystemTimeError);

/// `SystemTime::now` reads the system clock. Nothing is claimed of what it
/// reads.
#[verifier::external_body]
fn read_clock() -> (out: std::time::SystemTime) {
    std::time::SystemTime::now()
}

/// `SystemTime::duration_since`, taken from the start of 1970: how long
/// after that the given moment lies, or an error if it lies before. Nothing
/// is claimed of the result.
#[verifier::external_body]
fn since_epoch(moment: &std::time::SystemTime) -> (out: Result<
    std::time::Duration,
    std::time::SystemTimeError,
>) {
    moment.duration_since(std::time::SystemTime::UNIX_EPOCH)
}

/// `Duration::as_secs` gives the whole seconds of a duration. Nothing is
/// claimed of the result.
#[verifier::external_body]
fn whole_seconds(duration: &std::time::Duration) -> (out: u64) {
    duration.as_secs()
}

/// The timestamp of the present moment, to the second, in the form
/// `YYYY-MM-DDTHH:MM:SSZ`. A clock that stands before 1970 reads as the
/// start of 1970.
pub fn now() -> (out: String)
    ensures
        exists|seconds: nat| seconds <= u64::MAX && out@ == #[trigger] timestamp_text(seconds),
{
    let moment = read_clock();
    let seconds: u64 = match since_epoch(&moment) {
        Ok(elapsed) => whole_seconds(&elapsed),
        Err(_) => 0,
    };
    let out = format_timestamp(seconds);
    assert(out@ == timestamp_text(seconds as nat));
    out
}

/// What a chat's preview shows of a message: the message itself if it has at
/// most a hundred characters, else its first hundred and an ellipsis.
pub open spec fn preview_text(content: Seq<char>) -> Seq<char> {
    if content.len() > PREVIEW_CHARS {
        content.take(PREVIEW_CHARS as int).push(ELLIPSIS)
    } else {
        content
    }
}

/// What a chat's preview shows of a message.
pub fn preview_of(content: &str) -> (out: String)
    ensures
        out@ == preview_text(content@),
{
    let chars = chars_of(content);
    if chars.len() > PREVIEW_CHARS {
        let mut shown: Vec<char> = Vec::new();
        push_range(&mut shown, &chars, 0, PREVIEW_CHARS);
        shown.push(ELLIPSIS);
        assert(chars@.subrange(0, PREVIEW_CHARS as int) =~= chars@.take(PREVIEW_CHARS as int));
        assert(shown@ =~= preview_text(content@));
        string_of(&shown)
    } else {
        string_of(&chars)
    }
}

/// Whether the preset may be deleted: every preset but the default one.
pub fn can_delete_preset(preset_id: i64) -> (out: bool)
    ensures
        out == (preset_id != DEFAULT_PRESET_ID),
{
    preset_id != DEFAULT_PRESET_ID
}

/// The stored messages as the model is to see them: role and content of
/// each, in order.
pub open spec fn history_view(messages: Seq<Message>) -> Seq<MessageView> {
    messages.map_values(|m: Message| MessageView { role: m.role@, content: m.content@ })
}

/// The stored messages as the model is to see them.
pub fn history_messages(messages: &Vec<Message>) -> (out: Vec<ChatMessage>)
    ensures
        messages_view(out@) == history_view(messages@),
{
    let mut out: Vec<ChatMessage> = Vec::new();
    let mut i: usize = 0;
    while i < messages.len()
        invariant
            i <= messages.len(),
            out.len() == i,
            forall|k: int|
                0 <= k < i ==> (#[trigger] out@[k])@ == (MessageView {
                    role: messages@[k].role@,
                    content: messages@[k].content@,
                }),
        decreases messages.len() - i,
    {
        let message = &messages[i];
        out.push(ChatMessage { role: message.role.clone(), content: message.content.clone() });
        i += 1;
    }
    assert(messages_view(out@) =~= history_view(messages@));
    out
}

/// What has to happen to the table of preset anchors when the application
/// starts.
#[derive(Clone, Copy, Debug, PartialEq, Eq, Structural)]
pub enum IconMigration {
    /// The table has no single-icon column; it stays as it is.
    NotNeeded,
    /// The table has the single-icon column only; the icon becomes both the
    /// small and the large icon.
    FromSingleIcon,
    /// The table has the single-icon column and the small-icon column; the
    /// small and the large icon are carried over.
    FromSplitIcons,
}

/// Whether `name` is among `columns`.
pub open spec fn has_column(columns: Seq<String>, name: Seq<char>) -> bool {
    exists|i: int| 0 <= i < columns.len() && (#[trigger] columns[i])@ == name
}

/// The migration that a table with the given columns needs.
pub open spec fn icon_migration(columns: Seq<String>) -> IconMigration {
    if !has_column(columns, "icon"@) {
        IconMigration::NotNeeded
    } else if has_column(columns, "icon_small"@) {
        IconMigration::FromSplitIcons
    } else {
        IconMigration::FromSingleIcon
    }
}

/// Whether `name` is among `columns`.
pub fn contains_column(columns: &Vec<String>, name: &str) -> (out: bool)
    ensures
        out == has_column(columns@, name@),
{
    let mut i: usize = 0;
    while i < columns.len()
        invariant
            i <= columns.len(),
            forall|k: int| 0 <= k < i ==> (#[trigger] columns@[k])@ != name@,
        decreases columns.len() - i,
    {
        if str_eq(columns[i].as_str(), name) {
            return true;
        }
        i += 1;
    }
    false
}

/// Decides from the names of its columns what has to happen to the table of
/// preset anchors.
pub fn plan_icon_migration(columns: &Vec<String>) -> (out: IconMigration)
    ensures
        out == icon_migration(columns@),
{
    if !contains_column(columns, "icon") {
        IconMigration::NotNeeded
    } else if contains_column(columns, "icon_small") {
        IconMigration::FromSplitIcons
    } else {
        IconMigration::FromSingleIcon
    }
}

} // verus!
