//! The session orchestrator: the turn-taking state machine, the dispatch and
//! UI-emission queues, the streaming aggregator, replay of stored
//! transcripts, and backend switching. The shell performs the actual backend
//! calls and feeds every received chunk back in as a plain value; the
//! orchestrator is the single arbiter of what each queued item means.

use vstd::prelude::*;

use crate::formatter::format_spec;
use crate::formatter::unformat_spec;
use crate::models::api_model::ApiModel;
use crate::models::assistant_view;
use crate::models::candle_model::CandleModel;
use crate::models::describe_spec;
use crate::models::ollama_model::OllamaModel;
use crate::models::ApiTypeForSaving;
use crate::models::CoreError;
use crate::models::CoreLLM;
use crate::models::Message;
use crate::models::MessageView;
use crate::models::ModelType;
use crate::models::Role;
use crate::models::SavedModel;
use crate::store::ConversationStore;
use crate::ModelMessageState;

verus! {

/// One item delivered to the UI sink: a message tagged with the phase the
/// state machine was in when it was emitted.
#[derive(Debug)]
pub struct Emission {
    pub phase: ModelMessageState,
    pub message: Message,
}

/// Mathematical image of an emission.
pub struct EmissionView {
    pub phase: ModelMessageState,
    pub message: MessageView,
}

impl View for Emission {
    type V = EmissionView;

    open spec fn view(&self) -> EmissionView {
        EmissionView { phase: self.phase, message: self.message@ }
    }
}

impl DeepView for Emission {
    type V = EmissionView;

    open spec fn deep_view(&self) -> EmissionView {
        self@
    }
}

impl Clone for Emission {
    fn clone(&self) -> (r: Self)
        ensures
            r@ == self@,
    {
        Emission { phase: self.phase, message: self.message.clone() }
    }
}

/// The closed set of backend adapters a session can dispatch through.
#[derive(Debug)]
pub enum ChatAdapter {
    Ollama(OllamaModel),
    Api(ApiModel),
    Candle(CandleModel),
}

impl ChatAdapter {
    /// The canonical history of whichever adapter is active.
    pub open spec fn history(&self) -> Seq<MessageView> {
        match self {
            ChatAdapter::Ollama(m) => m.history(),
            ChatAdapter::Api(m) => m.history(),
            ChatAdapter::Candle(m) => m.history(),
        }
    }

    /// See [`CoreLLM::reset_conversation`].
    pub fn reset_conversation(&mut self, store: &mut ConversationStore, path: &str)
        requires
            old(store).wf(),
        ensures
            final(store).wf(),
            final(self).history() == Seq::<MessageView>::empty(),
            final(store)@ == crate::store::export_effect(old(store)@, path@, old(self).history()),
    {
        match self {
            ChatAdapter::Ollama(m) => m.reset_conversation(store, path),
            ChatAdapter::Api(m) => m.reset_conversation(store, path),
            ChatAdapter::Candle(m) => m.reset_conversation(store, path),
        }
    }

    /// See [`CoreLLM::load_conversation_file`].
    pub fn load_conversation_file(&mut self, store: &mut ConversationStore, path: &str) -> (r:
        Result<(), CoreError>)
        requires
            old(store).wf(),
        ensures
            final(store).wf(),
            old(store)@.contains_key(path@) ==> {
                &&& r is Ok
                &&& final(self).history() == old(store)@[path@].conversation
                &&& final(store)@ == crate::store::export_effect(
                    old(store)@,
                    path@,
                    old(self).history(),
                )
            },
            !old(store)@.contains_key(path@) ==> {
                &&& r == Err::<(), CoreError>(CoreError::NotFound)
                &&& final(self).history() == old(self).history()
                &&& final(store)@ == old(store)@
            },
    {
        match self {
            ChatAdapter::Ollama(m) => m.load_conversation_file(store, path),
            ChatAdapter::Api(m) => m.load_conversation_file(store, path),
            ChatAdapter::Candle(m) => m.load_conversation_file(store, path),
        }
    }

    /// See [`CoreLLM::get_conversation`].
    pub fn get_conversation(&self) -> (r: Vec<Message>)
        ensures
            r.deep_view() == self.history(),
    {
        match self {
            ChatAdapter::Ollama(m) => m.get_conversation(),
            ChatAdapter::Api(m) => m.get_conversation(),
            ChatAdapter::Candle(m) => m.get_conversation(),
        }
    }

    /// See [`CoreLLM::export_conversation`].
    pub fn export_conversation(&self, store: &mut ConversationStore, path: &str)
        requires
            old(store).wf(),
        ensures
            final(store).wf(),
            final(store)@ == crate::store::export_effect(old(store)@, path@, self.history()),
    {
        match self {
            ChatAdapter::Ollama(m) => m.export_conversation(store, path),
            ChatAdapter::Api(m) => m.export_conversation(store, path),
            ChatAdapter::Candle(m) => m.export_conversation(store, path),
        }
    }

    /// See [`CoreLLM::push_user_turn`].
    pub fn push_user_turn(&mut self, user_message: Message)
        ensures
            final(self).history() == old(self).history().push(user_message@),
    {
        match self {
            ChatAdapter::Ollama(m) => m.push_user_turn(user_message),
            ChatAdapter::Api(m) => m.push_user_turn(user_message),
            ChatAdapter::Candle(m) => m.push_user_turn(user_message),
        }
    }

    /// See [`CoreLLM::push_assistant_turn`].
    pub fn push_assistant_turn(&mut self, content: String)
        ensures
            final(self).history() == old(self).history().push(assistant_view(content@)),
    {
        match self {
            ChatAdapter::Ollama(m) => m.push_assistant_turn(content),
            ChatAdapter::Api(m) => m.push_assistant_turn(content),
            ChatAdapter::Candle(m) => m.push_assistant_turn(content),
        }
    }
}

/// Replaces the active backend adapter with one for `target`, seeding it with
/// the exact ordered transcript the outgoing adapter reports: the canonical
/// conversation survives backend switching unchanged.
pub fn switch_backend(adapter: &mut ChatAdapter, target: &SavedModel)
    requires
        !(target.model_type matches ModelType::Api(_, t) && t == ApiTypeForSaving::Generic),
    ensures
        final(adapter).history() == old(adapter).history(),
        match target.model_type {
            ModelType::Ollama => *final(adapter) is Ollama,
            ModelType::Candle => *final(adapter) is Candle,
            ModelType::Api(_, _) => *final(adapter) is Api,
        },
{
    let conversation = adapter.get_conversation();
    *adapter = match &target.model_type {
        ModelType::Ollama => ChatAdapter::Ollama(
            OllamaModel::new_from_conversation_and_model_name(conversation, target.name.clone()),
        ),
        ModelType::Candle => ChatAdapter::Candle(
            CandleModel::new_from_conversation_and_model_name(conversation, target.name.clone()),
        ),
        ModelType::Api(api_key, api_type) => ChatAdapter::Api(
            ApiModel::new_from_conversation_and_model_name(
                conversation,
                target.name.clone(),
                api_key.clone(),
                *api_type,
            ),
        ),
    };
}

/// A message as it is dispatched: the content has passed through the prompt
/// formatter; role and images are untouched.
pub open spec fn dispatched_view(m: MessageView, rag: Option<Seq<char>>) -> MessageView {
    MessageView { role: m.role, content: format_spec(m.content, rag), images: m.images }
}

/// A replayed message: a user-authored turn has the formatter's reverse
/// transform applied to its content; other turns pass through unchanged.
pub open spec fn replay_view(m: MessageView) -> MessageView {
    if m.role == Role::User {
        MessageView { role: m.role, content: unformat_spec(m.content), images: m.images }
    } else {
        m
    }
}

/// The emissions that replaying a stored transcript produces: each message in
/// order, tagged with the replay phase.
pub open spec fn replay_emissions(conversation: Seq<MessageView>) -> Seq<EmissionView> {
    conversation.map_values(
        |m: MessageView|
            EmissionView { phase: ModelMessageState::LoadingFromFile, message: replay_view(m) },
    )
}

/// The cumulative text after the first `k` chunks of a backend stream.
pub open spec fn concat_prefix(chunks: Seq<Seq<char>>, k: int) -> Seq<char>
    decreases k,
{
    if k <= 0 {
        Seq::<char>::empty()
    } else {
        concat_prefix(chunks, k - 1) + chunks[k - 1]
    }
}

/// The emissions one streamed turn produces: the k-th emission carries the
/// whole text so far — never a bare delta — tagged with the dispatch phase
/// for the first chunk and the streaming phase after that.
pub open spec fn stream_emissions(chunks: Seq<Seq<char>>) -> Seq<EmissionView> {
    Seq::new(
        chunks.len(),
        |k: int|
            EmissionView {
                phase: if k == 0 {
                    ModelMessageState::StartAssistant
                } else {
                    ModelMessageState::RunningAssistant
                },
                message: assistant_view(concat_prefix(chunks, k + 1)),
            },
    )
}

/// Whether `a` is a prefix of `b`.
pub open spec fn is_prefix_of(a: Seq<char>, b: Seq<char>) -> bool {
    a.len() <= b.len() && a == b.subrange(0, a.len() as int)
}

/// Cumulative stream texts extend one another.
proof fn lemma_concat_prefix_monotonic(chunks: Seq<Seq<char>>, i: int, j: int)
    requires
        0 <= i <= j,
    ensures
        is_prefix_of(concat_prefix(chunks, i), concat_prefix(chunks, j)),
    decreases j - i,
{
    if i == j {
        assert(concat_prefix(chunks, i) =~= concat_prefix(chunks, j).subrange(
            0,
            concat_prefix(chunks, i).len() as int,
        ));
    } else {
        lemma_concat_prefix_monotonic(chunks, i, j - 1);
        assert(concat_prefix(chunks, i) =~= concat_prefix(chunks, j).subrange(
            0,
            concat_prefix(chunks, i).len() as int,
        ));
    }
}

/// Streaming emissions for one turn grow monotonically: every earlier
/// emission's content is a prefix of every later one's, and the last
/// emission's content is the backend's complete output.
pub proof fn lemma_stream_monotonic(chunks: Seq<Seq<char>>, i: int, j: int)
    requires
        0 <= i <= j < chunks.len(),
    ensures
        is_prefix_of(
            stream_emissions(chunks)[i].message.content,
            stream_emissions(chunks)[j].message.content,
        ),
        stream_emissions(chunks)[chunks.len() - 1].message.content == concat_prefix(
            chunks,
            chunks.len() as int,
        ),
{
    lemma_concat_prefix_monotonic(chunks, i + 1, j + 1);
}

/// One chat session: the state machine value, the backend-dispatch queue,
/// and the UI-emission queue, in one place so that every consumer keys off
/// the same arbiter.
#[derive(Debug)]
pub struct Session {
    state: ModelMessageState,
    model_queue: Vec<Message>,
    ui_queue: Vec<Emission>,
}

impl Session {
    /// The state machine's current phase.
    pub closed spec fn phase(&self) -> ModelMessageState {
        self.state
    }

    /// The queued user turns awaiting backend dispatch, in submission order.
    pub closed spec fn dispatch_queue(&self) -> Seq<MessageView> {
        self.model_queue.deep_view()
    }

    /// The emissions awaiting the UI sink, in emission order.
    pub closed spec fn emissions(&self) -> Seq<EmissionView> {
        self.ui_queue.deep_view()
    }

    /// A fresh session: awaiting user input, with empty queues.
    pub fn new() -> (r: Self)
        ensures
            r.phase() == ModelMessageState::UserTurn,
            r.dispatch_queue() == Seq::<MessageView>::empty(),
            r.emissions() == Seq::<EmissionView>::empty(),
    {
        let r = Session {
            state: ModelMessageState::UserTurn,
            model_queue: Vec::new(),
            ui_queue: Vec::new(),
        };
        proof {
            assert(r.model_queue.deep_view() =~= Seq::<MessageView>::empty());
            assert(r.ui_queue.deep_view() =~= Seq::<EmissionView>::empty());
        }
        r
    }

    /// The state machine's current phase, for consumers outside the library.
    pub fn current_state(&self) -> (r: ModelMessageState)
        ensures
            r == self.phase(),
    {
        self.state
    }

    /// Offers a user submission to the session. A completed assistant turn
    /// first auto-advances the state back to awaiting input; the submission
    /// is then accepted exactly when the session awaits input and the text is
    /// non-empty. An accepted turn is echoed to the UI queue and appended to
    /// the dispatch queue; a rejected one alters neither queue.
    pub fn submit_user_turn(&mut self, message: Message) -> (accepted: bool)
        ensures
            accepted == ((old(self).phase() == ModelMessageState::UserTurn || old(self).phase()
                == ModelMessageState::FinishedAssistant) && message@.content.len() > 0),
            final(self).phase() == if old(self).phase() == ModelMessageState::FinishedAssistant {
                ModelMessageState::UserTurn
            } else {
                old(self).phase()
            },
            accepted ==> final(self).dispatch_queue() == old(self).dispatch_queue().push(message@)
                && final(self).emissions() == old(self).emissions().push(
                EmissionView { phase: ModelMessageState::UserTurn, message: message@ },
            ),
            !accepted ==> final(self).dispatch_queue() == old(self).dispatch_queue()
                && final(self).emissions() == old(self).emissions(),
    {
        match self.state {
            ModelMessageState::FinishedAssistant => {
                self.state = ModelMessageState::UserTurn;
            },
            _ => {},
        }
        let awaiting = match self.state {
            ModelMessageState::UserTurn => true,
            _ => false,
        };
        if awaiting && !message.content.as_str().is_empty() {
            let ghost mv = message@;
            let echo = Emission {
                phase: ModelMessageState::UserTurn,
                message: message.clone(),
            };
            self.ui_queue.push(echo);
            self.model_queue.push(message);
            proof {
                assert(self.ui_queue.deep_view() =~= old(self).ui_queue.deep_view().push(
                    EmissionView { phase: ModelMessageState::UserTurn, message: mv },
                ));
                assert(self.model_queue.deep_view() =~= old(self).model_queue.deep_view().push(mv));
            }
            true
        } else {
            false
        }
    }

    /// The oldest submitted turn, still queued: what the next dispatch will
    /// take, and what a retrieval script is run against.
    pub fn peek_dispatch(&self) -> (r: Option<&Message>)
        ensures
            match r {
                Some(m) => self.dispatch_queue().len() > 0 && m@ == self.dispatch_queue()[0],
                None => self.dispatch_queue().len() == 0,
            },
    {
        if self.model_queue.len() == 0 {
            None
        } else {
            Some(&self.model_queue[0])
        }
    }

    /// Dequeues the oldest submitted turn for backend dispatch, applying the
    /// prompt formatter to its content; moves the state machine to the
    /// dispatch phase. Returns nothing when no turn is queued.
    pub fn dispatch_next(&mut self, rag_content: Option<&str>) -> (r: Option<Message>)
        ensures
            old(self).dispatch_queue().len() == 0 ==> {
                &&& r is None
                &&& final(self).phase() == old(self).phase()
                &&& final(self).dispatch_queue() == old(self).dispatch_queue()
                &&& final(self).emissions() == old(self).emissions()
            },
            old(self).dispatch_queue().len() > 0 ==> {
                &&& match r {
                    Some(m) => m@ == dispatched_view(
                        old(self).dispatch_queue()[0],
                        match rag_content {
                            Some(c) => Some(c@),
                            None => None,
                        },
                    ),
                    None => false,
                }
                &&& final(self).phase() == ModelMessageState::StartAssistant
                &&& final(self).dispatch_queue() == old(self).dispatch_queue().subrange(
                    1,
                    old(self).dispatch_queue().len() as int,
                )
                &&& final(self).emissions() == old(self).emissions()
            },
    {
        if self.model_queue.len() == 0 {
            return None;
        }
        let msg = self.model_queue.remove(0);
        self.state = ModelMessageState::StartAssistant;
        let content = crate::formatter::format_prompt(msg.content.as_str(), rag_content);
        let out = Message { role: msg.role, content, images: msg.images };
        proof {
            assert(self.model_queue.deep_view() =~= old(self).model_queue.deep_view().subrange(
                1,
                old(self).model_queue.deep_view().len() as int,
            ));
        }
        Some(out)
    }

    /// Records one cumulative streaming snapshot for the UI sink, tagged with
    /// the current phase; the first snapshot of a turn moves the state
    /// machine from dispatch to streaming.
    pub fn record_stream_emission(&mut self, message: Message)
        requires
            old(self).phase() == ModelMessageState::StartAssistant || old(self).phase()
                == ModelMessageState::RunningAssistant,
        ensures
            final(self).emissions() == old(self).emissions().push(
                EmissionView { phase: old(self).phase(), message: message@ },
            ),
            final(self).phase() == ModelMessageState::RunningAssistant,
            final(self).dispatch_queue() == old(self).dispatch_queue(),
    {
        let ghost mv = message@;
        let phase = self.state;
        self.ui_queue.push(Emission { phase, message });
        self.state = ModelMessageState::RunningAssistant;
        proof {
            assert(self.ui_queue.deep_view() =~= old(self).ui_queue.deep_view().push(
                EmissionView { phase: old(self).phase(), message: mv },
            ));
        }
    }

    /// Marks the in-flight turn complete: the last streamed snapshot is the
    /// authoritative turn content, and new submissions may follow.
    pub fn complete_turn(&mut self)
        requires
            old(self).phase() == ModelMessageState::StartAssistant || old(self).phase()
                == ModelMessageState::RunningAssistant,
        ensures
            final(self).phase() == ModelMessageState::FinishedAssistant,
            final(self).dispatch_queue() == old(self).dispatch_queue(),
            final(self).emissions() == old(self).emissions(),
    {
        self.state = ModelMessageState::FinishedAssistant;
    }

    /// Degrades a failed backend turn into one terminal assistant message
    /// carrying an explicit error notice, leaving the session usable: the
    /// turn ends as if the backend had answered.
    pub fn fail_turn(&mut self, err: &CoreError)
        requires
            old(self).phase() == ModelMessageState::StartAssistant || old(self).phase()
                == ModelMessageState::RunningAssistant,
        ensures
            final(self).emissions() == old(self).emissions().push(
                EmissionView { phase: old(self).phase(), message: assistant_view(describe_spec(*err)) },
            ),
            final(self).phase() == ModelMessageState::FinishedAssistant,
            final(self).dispatch_queue() == old(self).dispatch_queue(),
    {
        let phase = self.state;
        let notice = Message { role: Role::Assistant, content: err.describe(), images: None };
        self.ui_queue.push(Emission { phase, message: notice });
        self.state = ModelMessageState::FinishedAssistant;
        proof {
            assert(self.ui_queue.deep_view() =~= old(self).ui_queue.deep_view().push(
                EmissionView { phase: old(self).phase(), message: assistant_view(describe_spec(*err)) },
            ));
        }
    }

    /// Hands the UI sink its next emission, in emission order.
    pub fn take_emission(&mut self) -> (r: Option<Emission>)
        ensures
            old(self).emissions().len() == 0 ==> {
                &&& r is None
                &&& final(self).phase() == old(self).phase()
                &&& final(self).dispatch_queue() == old(self).dispatch_queue()
                &&& final(self).emissions() == old(self).emissions()
            },
            old(self).emissions().len() > 0 ==> {
                &&& match r {
                    Some(e) => e@ == old(self).emissions()[0],
                    None => false,
                }
                &&& final(self).emissions() == old(self).emissions().subrange(
                    1,
                    old(self).emissions().len() as int,
                )
                &&& final(self).phase() == old(self).phase()
                &&& final(self).dispatch_queue() == old(self).dispatch_queue()
            },
    {
        if self.ui_queue.len() == 0 {
            return None;
        }
        let e = self.ui_queue.remove(0);
        proof {
            assert(self.ui_queue.deep_view() =~= old(self).ui_queue.deep_view().subrange(
                1,
                old(self).ui_queue.deep_view().len() as int,
            ));
        }
        Some(e)
    }

    /// Hydrates a loaded transcript: each stored message is emitted to the UI
    /// queue in original order, tagged with the replay phase, with
    /// user-authored turns passed through the formatter's reverse transform;
    /// no backend is invoked. A non-empty replay returns the state machine to
    /// awaiting input; an empty transcript changes nothing.
    pub fn replay_conversation(&mut self, conversation: Vec<Message>)
        ensures
            final(self).emissions() == old(self).emissions() + replay_emissions(
                conversation.deep_view(),
            ),
            final(self).phase() == if conversation.deep_view().len() == 0 {
                old(self).phase()
            } else {
                ModelMessageState::UserTurn
            },
            final(self).dispatch_queue() == old(self).dispatch_queue(),
    {
        let ghost conv = conversation.deep_view();
        if conversation.len() == 0 {
            proof {
                assert(self.ui_queue.deep_view() =~= old(self).ui_queue.deep_view()
                    + replay_emissions(conv));
            }
            return ;
        }
        self.state = ModelMessageState::LoadingFromFile;
        let mut i: usize = 0;
        while i < conversation.len()
            invariant
                0 <= i <= conversation.len(),
                conv == conversation.deep_view(),
                conv.len() == conversation.len(),
                self.state == ModelMessageState::LoadingFromFile,
                self.model_queue.deep_view() == old(self).model_queue.deep_view(),
                self.ui_queue.deep_view() == old(self).ui_queue.deep_view() + replay_emissions(
                    conv.subrange(0, i as int),
                ),
            decreases conversation.len() - i,
        {
            let message = conversation[i].clone();
            let to_send = match message.role {
                Role::User => {
                    let content = crate::formatter::unformat_prompt(message.content.as_str());
                    Message { role: message.role, content, images: message.images }
                },
                _ => message,
            };
            proof {
                assert(to_send@ == replay_view(conv[i as int]));
            }
            let ghost pre = self.ui_queue.deep_view();
            self.ui_queue.push(
                Emission { phase: ModelMessageState::LoadingFromFile, message: to_send },
            );
            proof {
                let ev = EmissionView {
                    phase: ModelMessageState::LoadingFromFile,
                    message: replay_view(conv[i as int]),
                };
                assert(self.ui_queue.deep_view() =~= pre.push(ev));
                assert(replay_emissions(conv.subrange(0, i + 1 as int)) =~= replay_emissions(
                    conv.subrange(0, i as int),
                ).push(ev));
                assert(self.ui_queue.deep_view() =~= old(self).ui_queue.deep_view()
                    + replay_emissions(conv.subrange(0, i + 1 as int)));
            }
            i = i + 1;
        }
        self.state = ModelMessageState::UserTurn;
        proof {
            assert(conv.subrange(0, conv.len() as int) =~= conv);
        }
    }

    /// Runs one whole turn against the active adapter, the backend's streamed
    /// chunks supplied as plain values: dequeues and formats the oldest
    /// submission, appends it to the adapter's history, emits one cumulative
    /// snapshot per chunk, and completes the turn with the full concatenated
    /// text as the authoritative assistant message. Does nothing and reports
    /// failure when no turn is queued.
    pub fn run_turn(
        &mut self,
        adapter: &mut ChatAdapter,
        rag_content: Option<&str>,
        chunks: &Vec<String>,
    ) -> (ok: bool)
        ensures
            old(self).dispatch_queue().len() == 0 ==> {
                &&& !ok
                &&& final(self).phase() == old(self).phase()
                &&& final(self).dispatch_queue() == old(self).dispatch_queue()
                &&& final(self).emissions() == old(self).emissions()
                &&& final(adapter).history() == old(adapter).history()
            },
            old(self).dispatch_queue().len() > 0 ==> {
                let sent = dispatched_view(
                    old(self).dispatch_queue()[0],
                    match rag_content {
                        Some(c) => Some(c@),
                        None => None,
                    },
                );
                let full = concat_prefix(chunks.deep_view(), chunks.deep_view().len() as int);
                &&& ok
                &&& final(adapter).history() == old(adapter).history().push(sent).push(
                    assistant_view(full),
                )
                &&& final(self).emissions() == old(self).emissions() + stream_emissions(
                    chunks.deep_view(),
                )
                &&& final(self).dispatch_queue() == old(self).dispatch_queue().subrange(
                    1,
                    old(self).dispatch_queue().len() as int,
                )
                &&& final(self).phase() == ModelMessageState::FinishedAssistant
            },
    {
        let dispatched = self.dispatch_next(rag_content);
        let msg = match dispatched {
            Some(m) => m,
            None => {
                return false;
            },
        };
        adapter.push_user_turn(msg);
        let ghost cs = chunks.deep_view();
        let mut acc = String::new();
        let mut k: usize = 0;
        proof {
            assert(acc@ =~= concat_prefix(cs, 0));
            assert(self.emissions() =~= old(self).emissions() + stream_emissions(cs).subrange(
                0,
                0,
            ));
        }
        while k < chunks.len()
            invariant
                0 <= k <= chunks.len(),
                cs == chunks.deep_view(),
                cs.len() == chunks.len(),
                acc@ == concat_prefix(cs, k as int),
                self.phase() == if k == 0 {
                    ModelMessageState::StartAssistant
                } else {
                    ModelMessageState::RunningAssistant
                },
                self.emissions() == old(self).emissions() + stream_emissions(cs).subrange(
                    0,
                    k as int,
                ),
                self.dispatch_queue() == old(self).dispatch_queue().subrange(
                    1,
                    old(self).dispatch_queue().len() as int,
                ),
            decreases chunks.len() - k,
        {
            acc.append(chunks[k].as_str());
            let snapshot = Message { role: Role::Assistant, content: acc.clone(), images: None };
            proof {
                assert(snapshot@ == assistant_view(concat_prefix(cs, k + 1 as int)));
            }
            self.record_stream_emission(snapshot);
            proof {
                assert(stream_emissions(cs).subrange(0, k + 1 as int) =~= stream_emissions(
                    cs,
                ).subrange(0, k as int).push(stream_emissions(cs)[k as int]));
            }
            k = k + 1;
        }
        adapter.push_assistant_turn(acc);
        self.complete_turn();
        proof {
            assert(stream_emissions(cs).subrange(0, cs.len() as int) =~= stream_emissions(cs));
        }
        true
    }
}

/// Opens a chat context. With a requested path, brings the stored
/// conversation into the adapter — persisting any unsaved history first, per
/// the adapter contract — and replays it to the UI queue; a missing path
/// changes nothing and reports the failure. Without a requested path,
/// persists and clears the current conversation and starts a fresh file.
/// Returns the file now current.
pub fn open_conversation(
    session: &mut Session,
    adapter: &mut ChatAdapter,
    store: &mut ConversationStore,
    requested: Option<&str>,
    current_path: &str,
) -> (r: (String, Result<(), CoreError>))
    requires
        old(store).wf(),
    ensures
        final(store).wf(),
        match requested {
            Some(path) => {
                if old(store)@.contains_key(path@) {
                    &&& r.1 is Ok
                    &&& r.0@ == path@
                    &&& final(adapter).history() == old(store)@[path@].conversation
                    &&& final(store)@ == crate::store::export_effect(
                        old(store)@,
                        path@,
                        old(adapter).history(),
                    )
                    &&& final(session).emissions() == old(session).emissions() + replay_emissions(
                        old(store)@[path@].conversation,
                    )
                    &&& final(session).phase() == if old(store)@[path@].conversation.len() == 0 {
                        old(session).phase()
                    } else {
                        ModelMessageState::UserTurn
                    }
                    &&& final(session).dispatch_queue() == old(session).dispatch_queue()
                } else {
                    &&& r.1 == Err::<(), CoreError>(CoreError::NotFound)
                    &&& r.0@ == current_path@
                    &&& final(adapter).history() == old(adapter).history()
                    &&& final(store)@ == old(store)@
                    &&& final(session).emissions() == old(session).emissions()
                    &&& final(session).phase() == old(session).phase()
                    &&& final(session).dispatch_queue() == old(session).dispatch_queue()
                }
            },
            None => {
                &&& r.1 is Ok
                &&& r.0@.len() == 41
                &&& final(adapter).history().len() == 0
                &&& final(store)@ == crate::store::export_effect(
                    old(store)@,
                    current_path@,
                    old(adapter).history(),
                )
                &&& final(session).emissions() == old(session).emissions()
                &&& final(session).phase() == old(session).phase()
                &&& final(session).dispatch_queue() == old(session).dispatch_queue()
            },
        },
{
    match requested {
        Some(path) => match adapter.load_conversation_file(store, path) {
            Ok(()) => {
                let conversation = adapter.get_conversation();
                session.replay_conversation(conversation);
                (String::from_str(path), Ok(()))
            },
            Err(e) => (String::from_str(current_path), Err(e)),
        },
        None => {
            adapter.reset_conversation(store, current_path);
            let fresh = crate::utils::generate_unique_filename("json");
            proof {
                reveal_strlit("json");
            }
            (fresh, Ok(()))
        },
    }
}

/// Applies one emission to a displayed transcript, the way the UI-emission
/// consumer interprets phases: a user echo, the first streamed snapshot, and
/// a replayed message each append a new displayed turn; later streamed
/// snapshots and the terminal snapshot update the displayed turn currently
/// being built, in place. An update with nothing on display is dropped.
pub fn apply_emission(display: &mut Vec<Message>, emission: Emission)
    ensures
        ({
            let e = emission@;
            match e.phase {
                ModelMessageState::UserTurn | ModelMessageState::StartAssistant
                    | ModelMessageState::LoadingFromFile => final(display).deep_view() == old(
                    display,
                ).deep_view().push(e.message),
                ModelMessageState::RunningAssistant | ModelMessageState::FinishedAssistant => {
                    if old(display).len() > 0 {
                        final(display).deep_view() == old(display).deep_view().update(
                            old(display).len() - 1,
                            e.message,
                        )
                    } else {
                        final(display).deep_view() == old(display).deep_view()
                    }
                },
            }
        }),
{
    let ghost mv = emission.message@;
    match emission.phase {
        ModelMessageState::UserTurn | ModelMessageState::StartAssistant
            | ModelMessageState::LoadingFromFile => {
            display.push(emission.message);
            proof {
                assert(display.deep_view() =~= old(display).deep_view().push(mv));
            }
        },
        ModelMessageState::RunningAssistant | ModelMessageState::FinishedAssistant => {
            let n = display.len();
            if n > 0 {
                display.set(n - 1, emission.message);
                proof {
                    assert(display.deep_view() =~= old(display).deep_view().update(
                        n - 1 as int,
                        mv,
                    ));
                }
            }
        },
    }
}

} // verus!
