//! The local-runner backend adapter: it keeps the canonical transcript and
//! the selected model's name; the runner itself is reached by the shell,
//! which feeds results back in as plain values.

use vstd::prelude::*;

use crate::models::CoreLLM;
use crate::models::Message;
use crate::models::MessageView;

verus! {

/// Adapter for the locally-managed model runner.
#[derive(Debug)]
pub struct OllamaModel {
    model_name: String,
    message_history: Vec<Message>,
}

impl Clone for OllamaModel {
    fn clone(&self) -> (r: Self)
        ensures
            r.history() == self.history(),
            r.spec_model_name() == self.spec_model_name(),
    {
        let message_history = self.message_history.clone();
        proof {
            assert(message_history.deep_view() =~= self.message_history.deep_view());
        }
        OllamaModel { model_name: self.model_name.clone(), message_history }
    }
}

impl OllamaModel {
    /// The name of the runner model this adapter dispatches to.
    pub closed spec fn spec_model_name(&self) -> Seq<char> {
        self.model_name@
    }

    pub fn new() -> (r: Self)
        ensures
            r.history() == Seq::<MessageView>::empty(),
            r.spec_model_name() == Self::spec_default_model_string(),
    {
        let r = OllamaModel { model_name: Self::default_model_string(), message_history: Vec::new() };
        proof {
            assert(r.message_history.deep_view() =~= Seq::<MessageView>::empty());
        }
        r
    }

    pub fn new_from_conversation_and_model_name(
        raw_message_history: Vec<Message>,
        model_name: String,
    ) -> (r: Self)
        ensures
            r.history() == raw_message_history.deep_view(),
            r.spec_model_name() == model_name@,
    {
        OllamaModel { model_name, message_history: raw_message_history }
    }

    pub fn change_model(&mut self, new_model: String)
        ensures
            final(self).history() == old(self).history(),
            final(self).spec_model_name() == new_model@,
    {
        self.model_name = new_model;
    }

    pub fn model_name(&self) -> (r: &String)
        ensures
            r@ == self.spec_model_name(),
    {
        &self.model_name
    }

    /// The model a fresh session starts with.
    pub open spec fn spec_default_model_string() -> Seq<char> {
        "phi3:latest"@
    }

    /// Folds an attached file into a pending user message, by the file
    /// name's extension: a PDF prepends its extracted text (empty today), an
    /// image joins the message's attachments base64-encoded, a name without
    /// an extension leaves the message untouched, and any other file prepends
    /// its text content. The shell reads the file and passes both its raw
    /// bytes and its text decoding.
    pub fn process_file_for_prompt(
        chat_message: Message,
        file_name: &str,
        file_bytes: &Vec<u8>,
        file_text: String,
    ) -> (r: Message)
        requires
            4 * ((file_bytes@.len() + 2) / 3) <= usize::MAX,
        ensures
            ({
                let ext = crate::strutil::extension_of(file_name@);
                match ext {
                    None => r@ == chat_message@,
                    Some(e) => {
                        if e == "pdf"@ {
                            r@ == chat_message@
                        } else if e == "jpg"@ || e == "jpeg"@ || e == "png"@ {
                            &&& r@.role == chat_message@.role
                            &&& r@.content == chat_message@.content
                            &&& r@.images == match chat_message@.images {
                                Some(v) => Some(v.push(crate::utils::base64_of(file_bytes@))),
                                None => Some(
                                    Seq::<Seq<char>>::empty().push(
                                        crate::utils::base64_of(file_bytes@),
                                    ),
                                ),
                            }
                        } else {
                            &&& r@.role == chat_message@.role
                            &&& r@.content == file_text@ + chat_message@.content
                            &&& r@.images == chat_message@.images
                        }
                    },
                }
            }),
    {
        let mut chat_message = chat_message;
        match crate::strutil::file_extension(file_name) {
            None => chat_message,
            Some(e) => {
                if crate::strutil::str_eq(e.as_str(), "pdf") {
                    let mut content = crate::utils::pdf_to_string(file_bytes);
                    content.append(chat_message.content.as_str());
                    proof {
                        assert(content@ =~= chat_message.content@);
                    }
                    chat_message.content = content;
                    chat_message
                } else if crate::strutil::str_eq(e.as_str(), "jpg") || crate::strutil::str_eq(
                    e.as_str(),
                    "jpeg",
                ) || crate::strutil::str_eq(e.as_str(), "png") {
                    let encoded = crate::models::B64Image::new(crate::utils::image_to_b64(file_bytes));
                    let images = match chat_message.images {
                        Some(mut v) => {
                            let ghost pre = v.deep_view();
                            v.push(encoded);
                            proof {
                                assert(v.deep_view() =~= pre.push(
                                    crate::utils::base64_of(file_bytes@),
                                ));
                            }
                            Some(v)
                        },
                        None => {
                            let mut v: Vec<crate::models::B64Image> = Vec::new();
                            v.push(encoded);
                            proof {
                                assert(v.deep_view() =~= Seq::<Seq<char>>::empty().push(
                                    crate::utils::base64_of(file_bytes@),
                                ));
                            }
                            Some(v)
                        },
                    };
                    chat_message.images = images;
                    chat_message
                } else {
                    let mut content = file_text;
                    content.append(chat_message.content.as_str());
                    chat_message.content = content;
                    chat_message
                }
            },
        }
    }

    pub fn default_model_string() -> (r: String)
        ensures
            r@ == Self::spec_default_model_string(),
    {
        String::from_str("phi3:latest")
    }
}

impl Default for OllamaModel {
    fn default() -> (r: Self)
        ensures
            r.history() == Seq::<MessageView>::empty(),
            r.spec_model_name() == Self::spec_default_model_string(),
    {
        Self::new()
    }
}

/// Curated metadata about one runner model, cross-referenced against the set
/// of locally installed models.
#[derive(Debug)]
pub struct ModelInfo {
    pub display_name: String,
    pub download_name: String,
    /// Parameter count, in millions.
    pub size_in_millions: u64,
    pub description: String,
    pub is_downloaded: bool,
}

impl Clone for ModelInfo {
    fn clone(&self) -> (r: Self)
        ensures
            r == *self,
    {
        ModelInfo {
            display_name: self.display_name.clone(),
            download_name: self.download_name.clone(),
            size_in_millions: self.size_in_millions,
            description: self.description.clone(),
            is_downloaded: self.is_downloaded,
        }
    }
}

/// Whether `names` contains the string `x`.
pub open spec fn contains_name(names: Seq<Seq<char>>, x: Seq<char>) -> bool {
    exists|i: int| 0 <= i < names.len() && names[i] == x
}

/// Whether `installed` lists `name`.
pub fn installed_contains(installed: &Vec<String>, name: &str) -> (r: bool)
    ensures
        r == contains_name(installed.deep_view(), name@),
{
    let mut i: usize = 0;
    while i < installed.len()
        invariant
            0 <= i <= installed.len(),
            forall|k: int| 0 <= k < i ==> installed.deep_view()[k] != name@,
        decreases installed.len() - i,
    {
        if crate::strutil::str_eq(installed[i].as_str(), name) {
            assert(installed.deep_view()[i as int] == name@);
            return true;
        }
        i = i + 1;
    }
    false
}

/// Recomputes each catalog entry's `is_downloaded` flag by membership of its
/// download name in the runner's locally-installed model set; everything else
/// is kept unchanged.
pub fn mark_downloaded(mut catalog: Vec<ModelInfo>, installed: &Vec<String>) -> (r: Vec<ModelInfo>)
    ensures
        r@.len() == catalog@.len(),
        forall|i: int|
            0 <= i < r@.len() ==> {
                let entry = #[trigger] r@[i];
                &&& entry.display_name@ == catalog@[i].display_name@
                &&& entry.download_name@ == catalog@[i].download_name@
                &&& entry.size_in_millions == catalog@[i].size_in_millions
                &&& entry.description@ == catalog@[i].description@
                &&& entry.is_downloaded == contains_name(
                    installed.deep_view(),
                    catalog@[i].download_name@,
                )
            },
{
    let ghost orig = catalog@;
    let mut i: usize = 0;
    while i < catalog.len()
        invariant
            0 <= i <= catalog@.len(),
            catalog@.len() == orig.len(),
            forall|k: int| i <= k < orig.len() ==> catalog@[k] == orig[k],
            forall|k: int|
                0 <= k < i ==> {
                    let entry = #[trigger] catalog@[k];
                    &&& entry.display_name@ == orig[k].display_name@
                    &&& entry.download_name@ == orig[k].download_name@
                    &&& entry.size_in_millions == orig[k].size_in_millions
                    &&& entry.description@ == orig[k].description@
                    &&& entry.is_downloaded == contains_name(
                        installed.deep_view(),
                        orig[k].download_name@,
                    )
                },
        decreases catalog@.len() - i,
    {
        let mut entry = catalog[i].clone();
        entry.is_downloaded = installed_contains(installed, entry.download_name.as_str());
        catalog.set(i, entry);
        i = i + 1;
    }
    catalog
}

impl CoreLLM for OllamaModel {
    closed spec fn history(&self) -> Seq<MessageView> {
        self.message_history.deep_view()
    }

    fn reset_conversation(
        &mut self,
        store: &mut crate::store::ConversationStore,
        conversation_file_path: &str,
    ) {
        self.export_conversation(store, conversation_file_path);
        self.message_history = Vec::new();
        proof {
            assert(self.message_history.deep_view() =~= Seq::<MessageView>::empty());
        }
    }

    fn load_conversation_file(
        &mut self,
        store: &mut crate::store::ConversationStore,
        file_path: &str,
    ) -> (r: Result<(), crate::models::CoreError>) {
        match store.load(file_path) {
            Some(envelope) => {
                self.export_conversation(store, file_path);
                self.message_history = envelope.conversation;
                Ok(())
            },
            None => Err(crate::models::CoreError::NotFound),
        }
    }

    fn get_conversation(&self) -> (r: Vec<Message>) {
        let r = self.message_history.clone();
        proof {
            assert(r.deep_view() =~= self.message_history.deep_view());
        }
        r
    }

    fn export_conversation(
        &self,
        store: &mut crate::store::ConversationStore,
        file_path: &str,
    ) {
        if self.message_history.len() > 0 {
            store.save(&self.message_history, file_path);
        }
    }

    fn push_user_turn(&mut self, user_message: Message) {
        let ghost mv = user_message@;
        self.message_history.push(user_message);
        proof {
            assert(self.message_history.deep_view() =~= old(self).message_history.deep_view().push(
                mv,
            ));
        }
    }

    fn push_assistant_turn(&mut self, content: String) {
        let ghost cv = content@;
        let message = Message { role: crate::models::Role::Assistant, content, images: None };
        proof {
            assert(message@ == crate::models::assistant_view(cv));
        }
        self.message_history.push(message);
        proof {
            assert(self.message_history.deep_view() =~= old(self).message_history.deep_view().push(
                crate::models::assistant_view(cv),
            ));
        }
    }
}

} // verus!
