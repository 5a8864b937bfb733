//! Memory records and chat message types.
use vstd::prelude::*;

verus! {

/// What kind of event a memory records.
#[derive(Clone, Copy, Debug, PartialEq, Eq, Structural)]
pub enum MemoryKind {
    Observation,
    Interaction,
    Decision,
    Conversation,
    Reflection,
}

/// The lowercase name of a kind, as it is displayed and stored.
pub open spec fn kind_name(k: MemoryKind) -> Seq<char> {
    match k {
        MemoryKind::Observation => "observation"@,
        MemoryKind::Interaction => "interaction"@,
        MemoryKind::Decision => "decision"@,
        MemoryKind::Conversation => "conversation"@,
        MemoryKind::Reflection => "reflection"@,
    }
}

impl MemoryKind {
    /// The display name of the kind.
    pub fn as_str(&self) -> (s: &'static str)
        ensures
            s@ == kind_name(*self),
    {
        match self {
            MemoryKind::Observation => "observation",
            MemoryKind::Interaction => "interaction",
            MemoryKind::Decision => "decision",
            MemoryKind::Conversation => "conversation",
            MemoryKind::Reflection => "reflection",
        }
    }
}

/// Extra data attached to a memory.
#[derive(Debug)]
pub enum Metadata {
    /// No metadata (JSON `null`).
    Null,
    /// The key facts that a digestion pass extracted.
    KeyFacts(Vec<String>),
    /// Any other JSON value, held as its JSON text.
    Json(String),
}

/// Metadata as mathematical values.
pub enum MetadataView {
    Null,
    KeyFacts(Seq<Seq<char>>),
    Json(Seq<char>),
}

impl View for Metadata {
    type V = MetadataView;

    open spec fn view(&self) -> MetadataView {
        match self {
            Metadata::Null => MetadataView::Null,
            Metadata::KeyFacts(v) => MetadataView::KeyFacts(crate::text::views(v@)),
            Metadata::Json(s) => MetadataView::Json(s@),
        }
    }
}

impl Metadata {
    /// An exact copy.
    pub fn duplicate(&self) -> (r: Self)
        ensures
            r@ == self@,
    {
        match self {
            Metadata::Null => Metadata::Null,
            Metadata::KeyFacts(v) => {
                let mut out: Vec<String> = Vec::new();
                let mut i: usize = 0;
                while i < v.len()
                    invariant
                        i <= v.len(),
                        out@ == v@.take(i as int),
                    decreases v.len() - i,
                {
                    out.push(v[i].clone());
                    assert(v@.take(i + 1) == v@.take(i as int).push(v@[i as int]));
                    i = i + 1;
                }
                assert(v@.take(v.len() as int) == v@);
                assert(out@ == v@);
                assert(crate::text::views(out@) == crate::text::views(v@));
                Metadata::KeyFacts(out)
            },
            Metadata::Json(s) => Metadata::Json(s.clone()),
        }
    }
}

/// One remembered event. Importance is kept in thousandths (0.3 is 300).
#[derive(Debug)]
pub struct MemoryEntry {
    pub id: String,
    pub timestamp: i64,
    pub kind: MemoryKind,
    pub content: String,
    pub importance_milli: i64,
    pub metadata: Metadata,
}

/// A memory as mathematical values.
pub struct MemoryEntryView {
    pub id: Seq<char>,
    pub timestamp: i64,
    pub kind: MemoryKind,
    pub content: Seq<char>,
    pub importance_milli: i64,
    pub metadata: MetadataView,
}

impl View for MemoryEntry {
    type V = MemoryEntryView;

    open spec fn view(&self) -> MemoryEntryView {
        MemoryEntryView {
            id: self.id@,
            timestamp: self.timestamp,
            kind: self.kind,
            content: self.content@,
            importance_milli: self.importance_milli,
            metadata: self.metadata@,
        }
    }
}

/// The views of a sequence of memories.
pub open spec fn entry_views(s: Seq<MemoryEntry>) -> Seq<MemoryEntryView> {
    s.map_values(|e: MemoryEntry| e@)
}

impl MemoryEntry {
    /// An exact copy.
    pub fn duplicate(&self) -> (r: Self)
        ensures
            r@ == self@,
    {
        MemoryEntry {
            id: self.id.clone(),
            timestamp: self.timestamp,
            kind: self.kind,
            content: self.content.clone(),
            importance_milli: self.importance_milli,
            metadata: self.metadata.duplicate(),
        }
    }
}

/// A chat line shown to the user.
#[derive(Debug)]
pub struct ChatMessage {
    pub role: String,
    pub content: String,
    pub timestamp: i64,
    pub animation_triggered: Option<String>,
}

/// The pet's answer in a chat.
#[derive(Debug)]
pub struct ChatResponse {
    pub message: String,
    pub animation: Option<String>,
}

} // verus!
