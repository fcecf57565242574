//! The canonical conversation data: message and envelope types, their
//! mathematical views, the error taxonomy, the backend-agnostic conversation
//! contract, and the model catalog.

use vstd::prelude::*;

pub mod api_model;
pub mod candle_model;
pub mod ollama_model;

verus! {

/// Author of a canonical message.
#[derive(Clone, Copy, Debug, PartialEq, Eq, Structural)]
pub enum Role {
    User,
    Assistant,
    System,
}

/// A base64-encoded image payload carried by a message.
#[derive(Debug)]
pub struct B64Image {
    b64_string: String,
}

impl View for B64Image {
    type V = Seq<char>;

    closed spec fn view(&self) -> Seq<char> {
        self.b64_string@
    }
}

impl DeepView for B64Image {
    type V = Seq<char>;

    open spec fn deep_view(&self) -> Seq<char> {
        self@
    }
}

impl B64Image {
    pub fn new(b64_string: String) -> (r: Self)
        ensures
            r@ == b64_string@,
    {
        B64Image { b64_string }
    }

    pub fn b64_string(&self) -> (r: &String)
        ensures
            r@ == self@,
    {
        &self.b64_string
    }
}

impl Clone for B64Image {
    fn clone(&self) -> (r: Self)
        ensures
            r == *self,
    {
        B64Image { b64_string: self.b64_string.clone() }
    }
}

/// Mathematical image of a message: its role, its text, and the base64 text
/// of each attached image.
pub struct MessageView {
    pub role: Role,
    pub content: Seq<char>,
    pub images: Option<Seq<Seq<char>>>,
}

/// The canonical conversation unit.
#[derive(Debug)]
pub struct Message {
    pub role: Role,
    pub content: String,
    pub images: Option<Vec<B64Image>>,
}

impl View for Message {
    type V = MessageView;

    open spec fn view(&self) -> MessageView {
        MessageView { role: self.role, content: self.content@, images: self.images.deep_view() }
    }
}

impl DeepView for Message {
    type V = MessageView;

    open spec fn deep_view(&self) -> MessageView {
        self@
    }
}

impl Clone for Message {
    fn clone(&self) -> (r: Self)
        ensures
            r@ == self@,
    {
        let images = match &self.images {
            Some(v) => {
                let c = v.clone();
                proof {
                    assert(c.deep_view() =~= v.deep_view());
                }
                Some(c)
            },
            None => None,
        };
        Message { role: self.role, content: self.content.clone(), images }
    }
}

/// An assistant-authored message with the given text and no images, as the
/// streaming path produces it.
pub open spec fn assistant_view(content: Seq<char>) -> MessageView {
    MessageView { role: Role::Assistant, content, images: None }
}

/// A type that faithfully carries a canonical message in some other shape.
pub trait FromMessage: Sized {
    /// Whether `self` carries exactly the canonical message `m`.
    spec fn reflects(&self, m: MessageView) -> bool;

    fn from_message(message: Message) -> (r: Self)
        ensures
            r.reflects(message@),
    ;
}

/// A type that can be read back as a canonical message.
pub trait ToMessage {
    /// The canonical message that `self` stands for.
    spec fn as_message_view(&self) -> MessageView;

    fn to_message(&self) -> (m: Message)
        ensures
            m@ == self.as_message_view(),
    ;
}

/// The failure taxonomy of the core: a missing conversation, a file that does
/// not parse, an unreachable backend, and a failed retrieval script.
#[derive(Clone, Copy, Debug, PartialEq, Eq, Structural)]
pub enum CoreError {
    NotFound,
    CorruptData,
    BackendUnavailable,
    ExternalScriptFailure,
}

/// The text of each failure's human-readable account.
pub open spec fn describe_spec(e: CoreError) -> Seq<char> {
    match e {
        CoreError::NotFound => "conversation not found"@,
        CoreError::CorruptData => "stored conversation is corrupt"@,
        CoreError::BackendUnavailable => "backend unavailable"@,
        CoreError::ExternalScriptFailure => "retrieval script failed"@,
    }
}

impl CoreError {
    /// A short human-readable account of the failure.
    pub fn describe(&self) -> (r: String)
        ensures
            r@ == describe_spec(*self),
    {
        match self {
            CoreError::NotFound => String::from_str("conversation not found"),
            CoreError::CorruptData => String::from_str("stored conversation is corrupt"),
            CoreError::BackendUnavailable => String::from_str("backend unavailable"),
            CoreError::ExternalScriptFailure => String::from_str("retrieval script failed"),
        }
    }
}

/// The backend-agnostic conversation contract, implemented identically by
/// every backend adapter. An adapter owns the canonical in-memory transcript;
/// persistence goes through the conversation store, whose on-disk mirror the
/// shell maintains. The streamed part of a turn is driven from outside
/// through `push_user_turn` and `push_assistant_turn`: the backend call
/// itself is I/O and lives with the shell.
pub trait CoreLLM {
    /// The adapter's canonical conversation history.
    spec fn history(&self) -> Seq<MessageView>;

    /// Persists the current history under `conversation_file_path` (a no-op
    /// when the history is empty), then clears the in-memory history.
    fn reset_conversation(
        &mut self,
        store: &mut crate::store::ConversationStore,
        conversation_file_path: &str,
    )
        requires
            old(store).wf(),
        ensures
            final(store).wf(),
            final(self).history() == Seq::<MessageView>::empty(),
            final(store)@ == crate::store::export_effect(
                old(store)@,
                conversation_file_path@,
                old(self).history(),
            ),
    ;

    /// Persists the current (pre-load) history under `file_path` first —
    /// unsaved state is never silently discarded — then replaces the
    /// in-memory history with the stored transcript. Fails, changing
    /// nothing, exactly when no conversation is stored under `file_path`.
    fn load_conversation_file(
        &mut self,
        store: &mut crate::store::ConversationStore,
        file_path: &str,
    ) -> (r: Result<(), CoreError>)
        requires
            old(store).wf(),
        ensures
            final(store).wf(),
            old(store)@.contains_key(file_path@) ==> {
                &&& r is Ok
                &&& final(self).history() == old(store)@[file_path@].conversation
                &&& final(store)@ == crate::store::export_effect(
                    old(store)@,
                    file_path@,
                    old(self).history(),
                )
            },
            !old(store)@.contains_key(file_path@) ==> {
                &&& r == Err::<(), CoreError>(CoreError::NotFound)
                &&& final(self).history() == old(self).history()
                &&& final(store)@ == old(store)@
            },
    ;

    /// A snapshot of the canonical history.
    fn get_conversation(&self) -> (r: Vec<Message>)
        ensures
            r.deep_view() == self.history(),
    ;

    /// Persists the current history under `file_path` without clearing it; a
    /// no-op when the history is empty.
    fn export_conversation(&self, store: &mut crate::store::ConversationStore, file_path: &str)
        requires
            old(store).wf(),
        ensures
            final(store).wf(),
            final(store)@ == crate::store::export_effect(old(store)@, file_path@, self.history()),
    ;

    /// Appends the (already formatted) user turn to the history, as dispatch
    /// of a turn begins.
    fn push_user_turn(&mut self, user_message: Message)
        ensures
            final(self).history() == old(self).history().push(user_message@),
    ;

    /// Appends the completed assistant turn, whose content is the backend
    /// stream's full cumulative text, to the history.
    fn push_assistant_turn(&mut self, content: String)
        ensures
            final(self).history() == old(self).history().push(assistant_view(content@)),
    ;
}

/// The on-disk conversation envelope: a transcript plus archival metadata and
/// a display name.
#[derive(Debug)]
pub struct SavedConversation {
    pub conversation: Vec<Message>,
    pub archived: bool,
    pub starred: bool,
    pub name: String,
}

/// Mathematical image of an envelope.
pub struct EnvelopeView {
    pub conversation: Seq<MessageView>,
    pub archived: bool,
    pub starred: bool,
    pub name: Seq<char>,
}

impl View for SavedConversation {
    type V = EnvelopeView;

    open spec fn view(&self) -> EnvelopeView {
        EnvelopeView {
            conversation: self.conversation.deep_view(),
            archived: self.archived,
            starred: self.starred,
            name: self.name@,
        }
    }
}

impl Clone for SavedConversation {
    fn clone(&self) -> (r: Self)
        ensures
            r@ == self@,
    {
        let conversation = self.conversation.clone();
        proof {
            assert(conversation.deep_view() =~= self.conversation.deep_view());
        }
        SavedConversation {
            conversation,
            archived: self.archived,
            starred: self.starred,
            name: self.name.clone(),
        }
    }
}

/// Which backend a catalog entry belongs to, with any credentials a hosted
/// backend needs.
#[derive(Debug)]
pub enum ModelType {
    Ollama,
    Candle,
    Api(String, ApiTypeForSaving),
}

/// The flavour of hosted API behind an `Api` catalog entry.
#[derive(Clone, Copy, Debug, PartialEq, Eq, Structural)]
pub enum ApiTypeForSaving {
    OpenAI,
    Generic,
}

impl Clone for ModelType {
    fn clone(&self) -> (r: Self)
        ensures
            r == *self,
    {
        match self {
            ModelType::Ollama => ModelType::Ollama,
            ModelType::Candle => ModelType::Candle,
            ModelType::Api(key, t) => ModelType::Api(key.clone(), *t),
        }
    }
}

impl ModelType {
    /// The backend family's display label.
    pub fn name(&self) -> (r: &'static str)
        ensures
            match self {
                ModelType::Ollama => r@ == "Ollama"@,
                ModelType::Candle => r@ == "Candle"@,
                ModelType::Api(_, _) => r@ == "Api"@,
            },
    {
        match self {
            ModelType::Ollama => "Ollama",
            ModelType::Candle => "Candle",
            ModelType::Api(..) => "Api",
        }
    }
}

/// One catalog entry: a model name and the backend it runs on.
#[derive(Debug)]
pub struct SavedModel {
    pub name: String,
    pub model_type: ModelType,
}

impl Clone for SavedModel {
    fn clone(&self) -> (r: Self)
        ensures
            r == *self,
    {
        SavedModel { name: self.name.clone(), model_type: self.model_type.clone() }
    }
}

/// What one backend contributes to the catalog: its entries on success,
/// nothing on failure.
pub open spec fn catalog_contribution(r: Result<Vec<SavedModel>, CoreError>) -> Seq<SavedModel> {
    match r {
        Ok(v) => v@,
        Err(_) => Seq::<SavedModel>::empty(),
    }
}

impl SavedModel {
    /// Concatenates the per-backend query results into one catalog. A failed
    /// backend contributes zero entries; the others are kept unchanged, in
    /// backend order.
    pub fn get_all(
        ollama: Result<Vec<SavedModel>, CoreError>,
        api: Result<Vec<SavedModel>, CoreError>,
        candle: Result<Vec<SavedModel>, CoreError>,
    ) -> (r: Vec<SavedModel>)
        ensures
            r@ == catalog_contribution(ollama) + catalog_contribution(api)
                + catalog_contribution(candle),
    {
        let mut out: Vec<SavedModel> = match ollama {
            Ok(v) => v,
            Err(_) => Vec::new(),
        };
        let mut from_api: Vec<SavedModel> = match api {
            Ok(v) => v,
            Err(_) => Vec::new(),
        };
        let mut from_candle: Vec<SavedModel> = match candle {
            Ok(v) => v,
            Err(_) => Vec::new(),
        };
        out.append(&mut from_api);
        out.append(&mut from_candle);
        proof {
            assert(Seq::<SavedModel>::empty() + catalog_contribution(api)
                =~= catalog_contribution(api));
        }
        out
    }
}

} // verus!
