//! The records of the conversation store, and the texts that are computed
//! from them. Reaching the store itself is left to the program around this
//! library.

use vstd::prelude::*;
use vstd::string::StringExecFns;
use crate::text::{decimal, decimal_text};

verus! {

/// A user of the conversation store.
#[derive(Clone, Debug, PartialEq, Eq)]
pub struct User {
    pub id: i32,
    pub username: String,
    pub email: String,
    pub password: String,
    pub chat_role: String,
    pub is_active: bool,
    pub created_at: String,
}

/// A conversation.
#[derive(Clone, Debug, PartialEq, Eq)]
pub struct Conversation {
    pub id: i32,
    pub title: String,
    pub is_group: bool,
    pub created_at: String,
}

/// A message of a conversation.
#[derive(Clone, Debug, PartialEq, Eq)]
pub struct Message {
    pub id: i32,
    pub conversation_id: i32,
    pub user_id: i32,
    pub content: String,
    pub reaction: Option<String>,
    pub reply_to_id: Option<i32>,
    pub created_at: String,
}

/// The membership of a user in a conversation.
#[derive(Clone, Copy, Debug, PartialEq, Eq, Structural)]
pub struct ConversationUser {
    pub conversation_id: i32,
    pub user_id: i32,
    pub is_admin: bool,
}

/// A message together with its author, where the store knows one.
#[derive(Clone, Debug, PartialEq, Eq)]
pub struct AttributedMessage {
    pub message: Message,
    pub author: Option<User>,
}

/// What a summary says of one message.
pub struct SummaryEntry {
    pub created_at: Seq<char>,
    pub author: Option<Seq<char>>,
    pub content: Seq<char>,
}

impl View for AttributedMessage {
    type V = SummaryEntry;

    open spec fn view(&self) -> SummaryEntry {
        SummaryEntry {
            created_at: self.message.created_at@,
            author: match self.author {
                Some(user) => Some(user.username@),
                None => None,
            },
            content: self.message.content@,
        }
    }
}

/// The address of the store for the given account, host and database.
pub open spec fn store_address(
    user: Seq<char>,
    password: Seq<char>,
    host: Seq<char>,
    database: Seq<char>,
) -> Seq<char> {
    "mysql://"@ + user + ":"@ + password + "@"@ + host + "/"@ + database
}

/// Writes the address under which the store is reached.
pub fn connection_url(user: &str, password: &str, host: &str, database: &str) -> (url: String)
    ensures
        url@ == store_address(user@, password@, host@, database@),
{
    let mut url = String::from_str("mysql://");
    url.append(user);
    url.append(":");
    url.append(password);
    url.append("@");
    url.append(host);
    url.append("/");
    url.append(database);
    url
}

/// Writes the pattern that finds `term` anywhere inside a text.
pub fn like_pattern(term: &str) -> (pattern: String)
    ensures
        pattern@ == "%"@ + term@ + "%"@,
{
    let mut pattern = String::from_str("%");
    pattern.append(term);
    pattern.append("%");
    pattern
}

/// The name under which a summary lists an author.
pub open spec fn author_name(author: Option<Seq<char>>) -> Seq<char> {
    match author {
        Some(name) => name,
        None => "Unknown"@,
    }
}

/// The line of a summary for one message.
pub open spec fn summary_line(entry: SummaryEntry) -> Seq<char> {
    "["@ + entry.created_at + "] "@ + author_name(entry.author) + ": "@ + entry.content + "\n"@
}

/// The lines of a summary for `entries`, in order.
pub open spec fn summary_lines(entries: Seq<SummaryEntry>) -> Seq<char>
    decreases entries.len(),
{
    if entries.len() == 0 {
        Seq::empty()
    } else {
        summary_lines(entries.drop_last()) + summary_line(entries.last())
    }
}

/// The summary of a conversation with the messages `entries`.
pub open spec fn summary(entries: Seq<SummaryEntry>) -> Seq<char> {
    if entries.len() == 0 {
        "No messages in this conversation."@
    } else {
        "Conversation summary (last "@ + decimal(entries.len()) + " messages):\n\n"@
            + summary_lines(entries)
    }
}

/// The views of a list of attributed messages, in order.
pub open spec fn summary_entries(messages: Seq<AttributedMessage>) -> Seq<SummaryEntry> {
    messages.map_values(|m: AttributedMessage| m@)
}

/// Writes the summary of a conversation: a heading with the number of
/// messages, then one line per message with its time, author and text.
pub fn summary_text(messages: &Vec<AttributedMessage>) -> (text: String)
    ensures
        text@ == summary(summary_entries(messages@)),
{
    let ghost all = summary_entries(messages@);
    if messages.len() == 0 {
        return String::from_str("No messages in this conversation.");
    }
    let mut text = String::from_str("Conversation summary (last ");
    let count = decimal_text(messages.len());
    text.append(count.as_str());
    text.append(" messages):\n\n");
    let ghost heading = text@;
    let mut i: usize = 0;
    assert(heading + summary_lines(all.take(0)) =~= heading);
    while i < messages.len()
        invariant
            i <= messages.len(),
            all == summary_entries(messages@),
            text@ == heading + summary_lines(all.take(i as int)),
        decreases messages.len() - i,
    {
        let entry = &messages[i];
        proof {
            assert(all.take(i + 1).drop_last() =~= all.take(i as int));
            assert(all.take(i + 1).last() == entry@);
        }
        let ghost before = text@;
        text.append("[");
        text.append(entry.message.created_at.as_str());
        text.append("] ");
        match &entry.author {
            Some(user) => text.append(user.username.as_str()),
            None => text.append("Unknown"),
        }
        text.append(": ");
        text.append(entry.message.content.as_str());
        text.append("\n");
        assert(text@ =~= before + summary_line(entry@));
        assert(text@ =~= heading + summary_lines(all.take(i + 1)));
        i += 1;
    }
    assert(all.take(i as int) =~= all);
    text
}

} // verus!
