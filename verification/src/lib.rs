//! Session orchestration core for a conversational front-end that talks to
//! interchangeable language-model backends.
//!
//! The crate models the canonical message data, a persisted conversation
//! envelope with merge-on-write semantics, the prompt formatter and its
//! inverse, the turn-taking state machine, the streaming aggregator, and the
//! model catalog. I/O (files, network backends, the UI) lives outside the
//! library and hands it plain values.

use vstd::prelude::*;

verus! {

/// Phase of the turn-taking state machine: the single arbiter of whether an
/// incoming queued item is a new user message, a streaming update to the
/// message currently being built, or a completed message.
#[derive(Clone, Copy, Debug, PartialEq, Eq, Structural)]
pub enum ModelMessageState {
    /// The only state in which a new user submission is accepted.
    UserTurn,
    /// A partial assistant emission has been seen; later emissions update the
    /// displayed assistant turn in place.
    RunningAssistant,
    /// A queued user turn has been dequeued for backend dispatch.
    StartAssistant,
    /// A loaded transcript is being replayed, without re-invoking any backend.
    LoadingFromFile,
    /// The backend's stream has ended; the cumulative content is final.
    FinishedAssistant,
}

/// Coarse application mode, carried around by the shell.
#[derive(Clone, Debug)]
pub enum AppState {
    Onboarding,
    ModelManaging,
    ModelDownloading,
    SettingsEditing,
    ConversationStarting(String),
    ConversationRunning(String),
    ConversationSaving(String),
}

/// How the prompt formatter augments a user turn: not at all, or with the
/// captured output of an external search script (identified by its path).
#[derive(Clone, Debug)]
pub enum RagSource {
    NoRag,
    BashScript(String),
}

/// An image attachment, already encoded as base64 text.
#[derive(Debug)]
pub struct Image {
    base64: String,
}

impl View for Image {
    type V = Seq<char>;

    closed spec fn view(&self) -> Seq<char> {
        self.base64@
    }
}

impl DeepView for Image {
    type V = Seq<char>;

    open spec fn deep_view(&self) -> Seq<char> {
        self@
    }
}

impl Image {
    pub fn new(base64: String) -> (r: Self)
        ensures
            r@ == base64@,
    {
        Image { base64 }
    }

    pub fn base64(&self) -> (r: &String)
        ensures
            r@ == self@,
    {
        &self.base64
    }
}

impl Clone for Image {
    fn clone(&self) -> (r: Self)
        ensures
            r == *self,
    {
        Image { base64: self.base64.clone() }
    }
}

/// Author of a message.
#[derive(Clone, Copy, Debug, PartialEq, Eq, Structural)]
pub enum Role {
    User,
    Assistant,
    System,
}

/// The canonical role a shell-facing role stands for.
pub open spec fn role_to_canonical(r: Role) -> crate::models::Role {
    match r {
        Role::User => crate::models::Role::User,
        Role::Assistant => crate::models::Role::Assistant,
        Role::System => crate::models::Role::System,
    }
}

/// The shell-facing role a canonical role is shown as.
pub open spec fn role_from_canonical(r: crate::models::Role) -> Role {
    match r {
        crate::models::Role::User => Role::User,
        crate::models::Role::Assistant => Role::Assistant,
        crate::models::Role::System => Role::System,
    }
}

/// A conversation unit as the shell-facing surface presents it.
#[derive(Debug)]
pub struct Message {
    pub role: Role,
    pub content: String,
    pub images: Option<Vec<Image>>,
}

impl View for Message {
    type V = crate::models::MessageView;

    open spec fn view(&self) -> crate::models::MessageView {
        crate::models::MessageView {
            role: role_to_canonical(self.role),
            content: self.content@,
            images: self.images.deep_view(),
        }
    }
}

impl Clone for Message {
    fn clone(&self) -> (r: Self)
        ensures
            r@ == self@,
    {
        let images = match &self.images {
            Some(v) => {
                let c = v.clone();
                proof {
                    assert(c.deep_view() =~= v.deep_view());
                }
                Some(c)
            },
            None => None,
        };
        Message { role: self.role, content: self.content.clone(), images }
    }
}

impl crate::models::FromMessage for Message {
    open spec fn reflects(&self, m: crate::models::MessageView) -> bool {
        self@ == m
    }

    fn from_message(message: crate::models::Message) -> (r: Self) {
        let role = match message.role {
            crate::models::Role::User => Role::User,
            crate::models::Role::Assistant => Role::Assistant,
            crate::models::Role::System => Role::System,
        };
        let images = match message.images {
            Some(v) => {
                let mut out: Vec<Image> = Vec::new();
                let mut i: usize = 0;
                while i < v.len()
                    invariant
                        0 <= i <= v.len(),
                        out.deep_view().len() == i,
                        forall|k: int| 0 <= k < i ==> out.deep_view()[k] == v.deep_view()[k],
                    decreases v.len() - i,
                {
                    out.push(Image::new(v[i].b64_string().clone()));
                    i = i + 1;
                }
                proof {
                    assert(out.deep_view() =~= v.deep_view());
                }
                Some(out)
            },
            None => None,
        };
        Message { role, content: message.content, images }
    }
}

impl crate::models::ToMessage for Message {
    open spec fn as_message_view(&self) -> crate::models::MessageView {
        self@
    }

    fn to_message(&self) -> (m: crate::models::Message) {
        let role = match self.role {
            Role::User => crate::models::Role::User,
            Role::Assistant => crate::models::Role::Assistant,
            Role::System => crate::models::Role::System,
        };
        let images = match &self.images {
            Some(v) => {
                let mut out: Vec<crate::models::B64Image> = Vec::new();
                let mut i: usize = 0;
                while i < v.len()
                    invariant
                        0 <= i <= v.len(),
                        out.deep_view().len() == i,
                        forall|k: int| 0 <= k < i ==> out.deep_view()[k] == v.deep_view()[k],
                    decreases v.len() - i,
                {
                    out.push(crate::models::B64Image::new(v[i].base64().clone()));
                    i = i + 1;
                }
                proof {
                    assert(out.deep_view() =~= v.deep_view());
                }
                Some(out)
            },
            None => None,
        };
        crate::models::Message { role, content: self.content.clone(), images }
    }
}

impl RagSource {
    /// Human-readable label: a fixed name for no augmentation, the script
    /// file's stem otherwise.
    pub fn name(&self) -> (r: String)
        requires
            self matches RagSource::BashScript(p) ==> p@.len() > 0,
        ensures
            match self {
                RagSource::NoRag => r@ == "No Rag"@,
                RagSource::BashScript(p) => r@ == crate::strutil::stem_of(p@),
            },
    {
        match self {
            RagSource::NoRag => String::from_str("No Rag"),
            RagSource::BashScript(file_path) => crate::strutil::file_stem(file_path.as_str()),
        }
    }
}

} // verus!

pub mod formatter;
pub mod models;
pub mod session;
pub mod sidebar;
pub mod store;
pub mod strutil;
pub mod utils;
