//! The in-process backend adapter. The original design reserves this slot for
//! a local inference library; the adapter keeps the canonical transcript and
//! the chosen model name like its siblings.

use vstd::prelude::*;

use crate::models::CoreLLM;
use crate::models::Message;
use crate::models::MessageView;

verus! {

/// Adapter for the in-process inference backend.
#[derive(Debug)]
pub struct CandleModel {
    model_name: String,
    message_history: Vec<Message>,
}

impl Clone for CandleModel {
    fn clone(&self) -> (r: Self)
        ensures
            r.history() == self.history(),
            r.spec_model_name() == self.spec_model_name(),
    {
        let message_history = self.message_history.clone();
        proof {
            assert(message_history.deep_view() =~= self.message_history.deep_view());
        }
        CandleModel { model_name: self.model_name.clone(), message_history }
    }
}

impl CandleModel {
    /// The model this adapter would run.
    pub closed spec fn spec_model_name(&self) -> Seq<char> {
        self.model_name@
    }

    pub fn new() -> (r: Self)
        ensures
            r.history() == Seq::<MessageView>::empty(),
            r.spec_model_name() == Seq::<char>::empty(),
    {
        let r = CandleModel { model_name: String::new(), message_history: Vec::new() };
        proof {
            assert(r.message_history.deep_view() =~= Seq::<MessageView>::empty());
        }
        r
    }

    pub fn new_from_conversation_and_model_name(
        raw_message_history: Vec<Message>,
        model_name: String,
    ) -> (r: Self)
        ensures
            r.history() == raw_message_history.deep_view(),
            r.spec_model_name() == model_name@,
    {
        CandleModel { model_name, message_history: raw_message_history }
    }

    pub fn model_name(&self) -> (r: &String)
        ensures
            r@ == self.spec_model_name(),
    {
        &self.model_name
    }
}

impl CoreLLM for CandleModel {
    closed spec fn history(&self) -> Seq<MessageView> {
        self.message_history.deep_view()
    }

    fn reset_conversation(
        &mut self,
        store: &mut crate::store::ConversationStore,
        conversation_file_path: &str,
    ) {
        self.export_conversation(store, conversation_file_path);
        self.message_history = Vec::new();
        proof {
            assert(self.message_history.deep_view() =~= Seq::<MessageView>::empty());
        }
    }

    fn load_conversation_file(
        &mut self,
        store: &mut crate::store::ConversationStore,
        file_path: &str,
    ) -> (r: Result<(), crate::models::CoreError>) {
        match store.load(file_path) {
            Some(envelope) => {
                self.export_conversation(store, file_path);
                self.message_history = envelope.conversation;
                Ok(())
            },
            None => Err(crate::models::CoreError::NotFound),
        }
    }

    fn get_conversation(&self) -> (r: Vec<Message>) {
        let r = self.message_history.clone();
        proof {
            assert(r.deep_view() =~= self.message_history.deep_view());
        }
        r
    }

    fn export_conversation(
        &self,
        store: &mut crate::store::ConversationStore,
        file_path: &str,
    ) {
        if self.message_history.len() > 0 {
            store.save(&self.message_history, file_path);
        }
    }

    fn push_user_turn(&mut self, user_message: Message) {
        let ghost mv = user_message@;
        self.message_history.push(user_message);
        proof {
            assert(self.message_history.deep_view() =~= old(self).message_history.deep_view().push(
                mv,
            ));
        }
    }

    fn push_assistant_turn(&mut self, content: String) {
        let ghost cv = content@;
        let message = Message { role: crate::models::Role::Assistant, content, images: None };
        proof {
            assert(message@ == crate::models::assistant_view(cv));
        }
        self.message_history.push(message);
        proof {
            assert(self.message_history.deep_view() =~= old(self).message_history.deep_view().push(
                crate::models::assistant_view(cv),
            ));
        }
    }
}

} // verus!
