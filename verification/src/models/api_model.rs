//! The hosted-API backend adapter: canonical transcript plus the credentials
//! and model selection the hosted client is built from. The network client
//! itself lives with the shell.

use vstd::prelude::*;

use crate::models::ApiTypeForSaving;
use crate::models::CoreLLM;
use crate::models::Message;
use crate::models::MessageView;

verus! {

/// Adapter for a hosted chat-completion API.
#[derive(Debug)]
pub struct ApiModel {
    api_key: String,
    message_history: Vec<Message>,
    api_type: ApiType,
}

/// The concrete hosted client variant an `ApiModel` dispatches through.
#[derive(Debug)]
enum ApiType {
    OpenAI(OpenAIModel),
    Generic(GenericApi),
}

/// The data an OpenAI-style streaming client is built from.
#[derive(Debug)]
struct OpenAIModel {
    model_name: String,
    api_key: String,
}

impl Clone for OpenAIModel {
    fn clone(&self) -> (r: Self)
        ensures
            r == *self,
    {
        OpenAIModel { model_name: self.model_name.clone(), api_key: self.api_key.clone() }
    }
}

impl OpenAIModel {
    fn new(model_name: String, api_key: String) -> (r: Self)
        ensures
            r.model_name@ == model_name@,
            r.api_key@ == api_key@,
    {
        OpenAIModel { model_name, api_key }
    }
}

/// Placeholder for a yet-unsupported generic hosted API.
#[derive(Debug)]
struct GenericApi {}

impl Clone for GenericApi {
    fn clone(&self) -> (r: Self)
        ensures
            r == *self,
    {
        GenericApi {  }
    }
}

impl Clone for ApiType {
    fn clone(&self) -> (r: Self)
        ensures
            r == *self,
    {
        match self {
            ApiType::OpenAI(m) => ApiType::OpenAI(m.clone()),
            ApiType::Generic(g) => ApiType::Generic(g.clone()),
        }
    }
}

impl Clone for ApiModel {
    fn clone(&self) -> (r: Self)
        ensures
            r.history() == self.history(),
            r.spec_api_key() == self.spec_api_key(),
            r.spec_model_name() == self.spec_model_name(),
    {
        let message_history = self.message_history.clone();
        proof {
            assert(message_history.deep_view() =~= self.message_history.deep_view());
        }
        ApiModel {
            api_key: self.api_key.clone(),
            message_history,
            api_type: self.api_type.clone(),
        }
    }
}

impl ApiModel {
    /// The credential handed to the hosted client.
    pub closed spec fn spec_api_key(&self) -> Seq<char> {
        self.api_key@
    }

    /// The hosted model this adapter dispatches to.
    pub closed spec fn spec_model_name(&self) -> Seq<char> {
        match self.api_type {
            ApiType::OpenAI(m) => m.model_name@,
            ApiType::Generic(_) => Seq::<char>::empty(),
        }
    }

    /// A hosted adapter with an empty history. Only the OpenAI variant can be
    /// built today.
    pub fn new(model_name: String, api_key: String, api_type_from_saved: ApiTypeForSaving) -> (r:
        Self)
        requires
            api_type_from_saved == ApiTypeForSaving::OpenAI,
        ensures
            r.history() == Seq::<MessageView>::empty(),
            r.spec_api_key() == api_key@,
            r.spec_model_name() == model_name@,
    {
        let api_type = ApiType::OpenAI(OpenAIModel::new(model_name, api_key.clone()));
        let r = ApiModel { api_key, message_history: Vec::new(), api_type };
        proof {
            assert(r.message_history.deep_view() =~= Seq::<MessageView>::empty());
        }
        r
    }

    /// A hosted adapter seeded with an existing transcript, as backend
    /// switching requires.
    pub fn new_from_conversation_and_model_name(
        message_history: Vec<Message>,
        model_name: String,
        api_key: String,
        api_type_from_saved: ApiTypeForSaving,
    ) -> (r: Self)
        requires
            api_type_from_saved == ApiTypeForSaving::OpenAI,
        ensures
            r.history() == message_history.deep_view(),
            r.spec_api_key() == api_key@,
            r.spec_model_name() == model_name@,
    {
        let api_type = ApiType::OpenAI(OpenAIModel::new(model_name, api_key.clone()));
        ApiModel { api_key, message_history, api_type }
    }

    pub fn api_key(&self) -> (r: &String)
        ensures
            r@ == self.spec_api_key(),
    {
        &self.api_key
    }

    pub fn model_name(&self) -> (r: String)
        ensures
            r@ == self.spec_model_name(),
    {
        match &self.api_type {
            ApiType::OpenAI(m) => m.model_name.clone(),
            ApiType::Generic(_) => String::new(),
        }
    }
}

impl CoreLLM for ApiModel {
    closed spec fn history(&self) -> Seq<MessageView> {
        self.message_history.deep_view()
    }

    fn reset_conversation(
        &mut self,
        store: &mut crate::store::ConversationStore,
        conversation_file_path: &str,
    ) {
        self.export_conversation(store, conversation_file_path);
        self.message_history = Vec::new();
        proof {
            assert(self.message_history.deep_view() =~= Seq::<MessageView>::empty());
        }
    }

    fn load_conversation_file(
        &mut self,
        store: &mut crate::store::ConversationStore,
        file_path: &str,
    ) -> (r: Result<(), crate::models::CoreError>) {
        match store.load(file_path) {
            Some(envelope) => {
                self.export_conversation(store, file_path);
                self.message_history = envelope.conversation;
                Ok(())
            },
            None => Err(crate::models::CoreError::NotFound),
        }
    }

    fn get_conversation(&self) -> (r: Vec<Message>) {
        let r = self.message_history.clone();
        proof {
            assert(r.deep_view() =~= self.message_history.deep_view());
        }
        r
    }

    fn export_conversation(
        &self,
        store: &mut crate::store::ConversationStore,
        file_path: &str,
    ) {
        if self.message_history.len() > 0 {
            store.save(&self.message_history, file_path);
        }
    }

    fn push_user_turn(&mut self, user_message: Message) {
        let ghost mv = user_message@;
        self.message_history.push(user_message);
        proof {
            assert(self.message_history.deep_view() =~= old(self).message_history.deep_view().push(
                mv,
            ));
        }
    }

    fn push_assistant_turn(&mut self, content: String) {
        let ghost cv = content@;
        let message = Message { role: crate::models::Role::Assistant, content, images: None };
        proof {
            assert(message@ == crate::models::assistant_view(cv));
        }
        self.message_history.push(message);
        proof {
            assert(self.message_history.deep_view() =~= old(self).message_history.deep_view().push(
                crate::models::assistant_view(cv),
            ));
        }
    }
}

} // verus!
