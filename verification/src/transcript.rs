//! The ordered conversation history that is sent to the model on every round.

use vstd::prelude::*;
use crate::text::same_text;

verus! {

/// Who authored a transcript entry.
#[derive(Clone, Copy, Debug, PartialEq, Eq, Structural)]
pub enum Role {
    System,
    User,
    Assistant,
    Tool,
}

impl Role {
    /// The wire name of the role, as the model backend expects it.
    pub open spec fn name(self) -> Seq<char> {
        match self {
            Role::System => "system"@,
            Role::User => "user"@,
            Role::Assistant => "assistant"@,
            Role::Tool => "tool"@,
        }
    }

    /// Returns the wire name of the role.
    pub fn as_str(&self) -> (s: &'static str)
        ensures
            s@ == self.name(),
    {
        match self {
            Role::System => "system",
            Role::User => "user",
            Role::Assistant => "assistant",
            Role::Tool => "tool",
        }
    }
}

/// The role that goes by the wire name `name`, if there is one.
pub open spec fn role_named(name: Seq<char>) -> Option<Role> {
    if name == "system"@ {
        Some(Role::System)
    } else if name == "user"@ {
        Some(Role::User)
    } else if name == "assistant"@ {
        Some(Role::Assistant)
    } else if name == "tool"@ {
        Some(Role::Tool)
    } else {
        None
    }
}

impl Role {
    /// Finds the role that goes by a wire name.
    pub fn from_name(name: &str) -> (role: Option<Role>)
        ensures
            role == role_named(name@),
    {
        if same_text(name, "system") {
            Some(Role::System)
        } else if same_text(name, "user") {
            Some(Role::User)
        } else if same_text(name, "assistant") {
            Some(Role::Assistant)
        } else if same_text(name, "tool") {
            Some(Role::Tool)
        } else {
            None
        }
    }
}

/// Every role is found again by its wire name.
pub proof fn lemma_role_names_are_distinct(role: Role)
    ensures
        role_named(role.name()) == Some(role),
{
    reveal_strlit("system");
    reveal_strlit("user");
    reveal_strlit("assistant");
    reveal_strlit("tool");
    assert("user"@[0] != "system"@[0]);
    assert("assistant"@[0] != "system"@[0]);
    assert("assistant"@[0] != "user"@[0]);
    assert("tool"@[0] != "system"@[0]);
    assert("tool"@[0] != "user"@[0]);
    assert("tool"@[0] != "assistant"@[0]);
}

/// One entry of the conversation: a role and its text.
#[derive(Clone, Debug, PartialEq, Eq)]
pub struct TranscriptEntry {
    pub role: Role,
    pub content: String,
}

impl View for TranscriptEntry {
    type V = (Role, Seq<char>);

    open spec fn view(&self) -> (Role, Seq<char>) {
        (self.role, self.content@)
    }
}

/// The conversation history. Entries are only ever appended, so every earlier
/// state of the transcript is a prefix of every later one.
#[derive(Debug)]
pub struct Transcript {
    entries: Vec<TranscriptEntry>,
}

impl View for Transcript {
    type V = Seq<(Role, Seq<char>)>;

    closed spec fn view(&self) -> Seq<(Role, Seq<char>)> {
        self.entries@.map_values(|e: TranscriptEntry| e@)
    }
}

impl Transcript {
    /// A transcript that holds the system instructions and nothing else.
    pub fn new(system_prompt: String) -> (t: Transcript)
        ensures
            t@ == seq![(Role::System, system_prompt@)],
    {
        let mut entries: Vec<TranscriptEntry> = Vec::new();
        entries.push(TranscriptEntry { role: Role::System, content: system_prompt });
        let t = Transcript { entries };
        assert(t@ =~= seq![(Role::System, system_prompt@)]);
        t
    }

    /// Appends one entry; everything that was there stays, in place.
    pub fn append(&mut self, role: Role, content: String)
        ensures
            final(self)@ == old(self)@.push((role, content@)),
    {
        self.entries.push(TranscriptEntry { role, content });
        assert(self@ =~= old(self)@.push((role, content@)));
    }

    /// The number of entries.
    pub fn len(&self) -> (n: usize)
        ensures
            n == self@.len(),
    {
        self.entries.len()
    }

    /// The entry at position `i`.
    pub fn get(&self, i: usize) -> (e: &TranscriptEntry)
        requires
            i < self@.len(),
        ensures
            e@ == self@[i as int],
    {
        &self.entries[i]
    }

    /// The entries in order, as the prompt context of the next model call.
    pub fn snapshot(&self) -> (v: Vec<TranscriptEntry>)
        ensures
            v@.map_values(|e: TranscriptEntry| e@) == self@,
    {
        let mut v: Vec<TranscriptEntry> = Vec::new();
        let mut i: usize = 0;
        while i < self.entries.len()
            invariant
                i <= self.entries.len(),
                v@.map_values(|e: TranscriptEntry| e@) == self@.subrange(0, i as int),
            decreases self.entries.len() - i,
        {
            let e = &self.entries[i];
            let copy = TranscriptEntry { role: e.role, content: e.content.clone() };
            assert(copy@ == self@[i as int]);
            let ghost before = v@;
            v.push(copy);
            assert(v@.map_values(|e: TranscriptEntry| e@) =~= before.map_values(
                |e: TranscriptEntry| e@,
            ).push(copy@));
            assert(self@.subrange(0, i + 1) =~= self@.subrange(0, i as int).push(self@[i as int]));
            i += 1;
        }
        assert(self@.subrange(0, i as int) =~= self@);
        v
    }
}

} // verus!
