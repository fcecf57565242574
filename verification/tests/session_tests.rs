use comhra::models::candle_model::CandleModel;
use comhra::models::ollama_model::OllamaModel;
use comhra::models::ApiTypeForSaving;
use comhra::models::CoreError;
use comhra::models::Message;
use comhra::models::ModelType;
use comhra::models::Role;
use comhra::models::SavedModel;
use comhra::session::apply_emission;
use comhra::session::open_conversation;
use comhra::session::switch_backend;
use comhra::session::ChatAdapter;
use comhra::session::Emission;
use comhra::session::Session;
use comhra::store::ConversationStore;
use comhra::ModelMessageState;

fn user_message(text: &str) -> Message {
    Message { role: Role::User, content: String::from(text), images: None }
}

fn drain(session: &mut Session) -> Vec<Emission> {
    let mut out = Vec::new();
    while let Some(e) = session.take_emission() {
        out.push(e);
    }
    out
}

#[test]
fn fresh_session_awaits_input() {
    let mut session = Session::new();
    assert!(matches!(session.current_state(), ModelMessageState::UserTurn));
    assert!(session.peek_dispatch().is_none());
    assert!(session.take_emission().is_none());
}

#[test]
fn submit_echoes_and_queues() {
    let mut session = Session::new();
    assert!(session.submit_user_turn(user_message("Hello")));
    let queued = session.peek_dispatch().expect("turn should be queued");
    assert!(matches!(queued.role, Role::User));
    assert_eq!(queued.content, "Hello");
    let emissions = drain(&mut session);
    assert_eq!(emissions.len(), 1);
    assert!(matches!(emissions[0].phase, ModelMessageState::UserTurn));
    assert_eq!(emissions[0].message.content, "Hello");
}

#[test]
fn empty_submission_is_rejected() {
    let mut session = Session::new();
    assert!(!session.submit_user_turn(user_message("")));
    assert!(session.peek_dispatch().is_none());
    assert!(session.take_emission().is_none());
}

#[test]
fn submission_while_streaming_is_rejected_and_queue_unchanged() {
    let mut session = Session::new();
    assert!(session.submit_user_turn(user_message("first")));
    let dispatched = session.dispatch_next(None).expect("a turn was queued");
    assert_eq!(dispatched.content, "first");
    session.record_stream_emission(Message {
        role: Role::Assistant,
        content: String::from("par"),
        images: None,
    });
    assert!(matches!(session.current_state(), ModelMessageState::RunningAssistant));
    // The dispatch queue is empty now; a rejected submission must not enqueue.
    assert!(!session.submit_user_turn(user_message("second")));
    assert!(session.peek_dispatch().is_none());
    assert!(matches!(session.current_state(), ModelMessageState::RunningAssistant));
    // Only the echo of the first submission and the one snapshot were emitted.
    assert_eq!(drain(&mut session).len(), 2);
}

#[test]
fn completed_turn_auto_advances_for_next_submission() {
    let mut session = Session::new();
    assert!(session.submit_user_turn(user_message("first")));
    session.dispatch_next(None).expect("a turn was queued");
    session.complete_turn();
    assert!(matches!(session.current_state(), ModelMessageState::FinishedAssistant));
    assert!(session.submit_user_turn(user_message("second")));
    assert!(matches!(session.current_state(), ModelMessageState::UserTurn));
    assert_eq!(session.peek_dispatch().expect("queued").content, "second");
}

#[test]
fn streaming_snapshots_grow_monotonically() {
    let mut session = Session::new();
    let mut adapter = ChatAdapter::Ollama(OllamaModel::new());
    assert!(session.submit_user_turn(user_message("Tell me a story")));
    drain(&mut session);
    let chunks = vec![String::from("Once"), String::from(" upon"), String::from(" a time")];
    assert!(session.run_turn(&mut adapter, None, &chunks));
    let emissions = drain(&mut session);
    assert_eq!(emissions.len(), 3);
    assert!(matches!(emissions[0].phase, ModelMessageState::StartAssistant));
    assert!(matches!(emissions[1].phase, ModelMessageState::RunningAssistant));
    assert!(matches!(emissions[2].phase, ModelMessageState::RunningAssistant));
    assert_eq!(emissions[0].message.content, "Once");
    assert_eq!(emissions[1].message.content, "Once upon");
    assert_eq!(emissions[2].message.content, "Once upon a time");
    for pair in emissions.windows(2) {
        assert!(pair[1].message.content.starts_with(pair[0].message.content.as_str()));
    }
    // The final emission equals the backend's complete output, which is also
    // the assistant turn recorded in the adapter's history.
    let transcript = adapter.get_conversation();
    assert_eq!(transcript.len(), 2);
    assert_eq!(transcript[1].content, "Once upon a time");
}

#[test]
fn run_turn_without_queued_turn_reports_failure() {
    let mut session = Session::new();
    let mut adapter = ChatAdapter::Ollama(OllamaModel::new());
    assert!(!session.run_turn(&mut adapter, None, &vec![String::from("x")]));
    assert!(adapter.get_conversation().is_empty());
    assert!(session.take_emission().is_none());
}

#[test]
fn single_turn_scenario_hello() {
    // Empty transcript; submit "Hello" without retrieval augmentation.
    let mut session = Session::new();
    let mut adapter = ChatAdapter::Ollama(OllamaModel::new());
    assert!(adapter.get_conversation().is_empty());
    assert!(matches!(session.current_state(), ModelMessageState::UserTurn));
    assert!(session.submit_user_turn(user_message("Hello")));

    // The dispatch queue receives {role: User, content: "Hello"} unchanged.
    let queued = session.peek_dispatch().expect("queued turn");
    assert!(matches!(queued.role, Role::User));
    assert_eq!(queued.content, "Hello");
    assert!(queued.images.is_none());

    // UserTurn -> StartAssistant -> RunningAssistant -> FinishedAssistant.
    let dispatched = session.dispatch_next(None).expect("queued turn");
    assert_eq!(dispatched.content, "Hello");
    assert!(matches!(session.current_state(), ModelMessageState::StartAssistant));
    adapter.push_user_turn(dispatched);
    session.record_stream_emission(Message {
        role: Role::Assistant,
        content: String::from("Hi there!"),
        images: None,
    });
    assert!(matches!(session.current_state(), ModelMessageState::RunningAssistant));
    adapter.push_assistant_turn(String::from("Hi there!"));
    session.complete_turn();
    assert!(matches!(session.current_state(), ModelMessageState::FinishedAssistant));

    // Final transcript: [{User, "Hello"}, {Assistant, <final text>}].
    let transcript = adapter.get_conversation();
    assert_eq!(transcript.len(), 2);
    assert!(matches!(transcript[0].role, Role::User));
    assert_eq!(transcript[0].content, "Hello");
    assert!(matches!(transcript[1].role, Role::Assistant));
    assert_eq!(transcript[1].content, "Hi there!");
}

#[test]
fn replay_scenario_trip_planning() {
    // A stored conversation named "trip-planning": archived, unstarred, two turns.
    let mut store = ConversationStore::new();
    let turns = vec![user_message("Where should we go?"), Message {
        role: Role::Assistant,
        content: String::from("Somewhere sunny."),
        images: None,
    }];
    store.save(&turns, "trip-planning.json");
    assert!(store.set_flags("trip-planning.json", true, false));
    let envelope = store.load("trip-planning.json").expect("stored");
    assert!(envelope.archived);
    assert!(!envelope.starred);
    assert_eq!(envelope.name, "trip-planning");

    // Load it into a fresh adapter and replay.
    let mut adapter = ChatAdapter::Ollama(OllamaModel::new());
    adapter.load_conversation_file(&mut store, "trip-planning.json").expect("exists");
    let mut session = Session::new();
    session.replay_conversation(adapter.get_conversation());

    // Exactly two emissions tagged with the replay phase, in original order,
    // and the state machine back at awaiting input.
    let emissions = drain(&mut session);
    assert_eq!(emissions.len(), 2);
    assert!(emissions.iter().all(|e| matches!(e.phase, ModelMessageState::LoadingFromFile)));
    assert_eq!(emissions[0].message.content, "Where should we go?");
    assert_eq!(emissions[1].message.content, "Somewhere sunny.");
    assert!(matches!(session.current_state(), ModelMessageState::UserTurn));
}

#[test]
fn replay_strips_formatting_from_user_turns() {
    let formatted = comhra::formatter::format_prompt("what is rust", Some("some context"));
    let mut session = Session::new();
    session.replay_conversation(vec![
        Message { role: Role::User, content: formatted, images: None },
        Message { role: Role::Assistant, content: String::from("a language"), images: None },
    ]);
    let emissions = drain(&mut session);
    assert_eq!(emissions.len(), 2);
    assert_eq!(emissions[0].message.content, "what is rust");
    assert_eq!(emissions[1].message.content, "a language");
}

#[test]
fn replay_of_empty_transcript_changes_nothing() {
    let mut session = Session::new();
    session.replay_conversation(Vec::new());
    assert!(matches!(session.current_state(), ModelMessageState::UserTurn));
    assert!(session.take_emission().is_none());
}

#[test]
fn switching_backend_preserves_transcript() {
    let mut adapter = ChatAdapter::Ollama(OllamaModel::new());
    adapter.push_user_turn(user_message("hi"));
    adapter.push_assistant_turn(String::from("hello"));
    let before = adapter.get_conversation();

    let target = SavedModel {
        name: String::from("gpt-4o"),
        model_type: ModelType::Api(String::from("SECRET-REDACTED"), ApiTypeForSaving::OpenAI),
    };
    switch_backend(&mut adapter, &target);
    assert!(matches!(adapter, ChatAdapter::Api(_)));
    let after = adapter.get_conversation();
    assert_eq!(before.len(), after.len());
    for (a, b) in before.iter().zip(after.iter()) {
        assert_eq!(a.content, b.content);
        assert_eq!(
            std::mem::discriminant(&a.role),
            std::mem::discriminant(&b.role)
        );
    }

    let target = SavedModel { name: String::from("tiny"), model_type: ModelType::Candle };
    switch_backend(&mut adapter, &target);
    assert!(matches!(adapter, ChatAdapter::Candle(_)));
    let third = adapter.get_conversation();
    assert_eq!(third.len(), 2);
    assert_eq!(third[0].content, "hi");
    assert_eq!(third[1].content, "hello");
}

#[test]
fn failed_turn_degrades_to_error_notice() {
    let mut session = Session::new();
    assert!(session.submit_user_turn(user_message("hi")));
    session.dispatch_next(None).expect("queued");
    session.fail_turn(&CoreError::BackendUnavailable);
    assert!(matches!(session.current_state(), ModelMessageState::FinishedAssistant));
    let emissions = drain(&mut session);
    let last = emissions.last().expect("an error notice was emitted");
    assert!(matches!(last.message.role, Role::Assistant));
    assert_eq!(last.message.content, "backend unavailable");
    // The session stays usable after the failed turn.
    assert!(session.submit_user_turn(user_message("again")));
}

#[test]
fn error_descriptions_cover_taxonomy() {
    assert_eq!(CoreError::NotFound.describe(), "conversation not found");
    assert_eq!(CoreError::CorruptData.describe(), "stored conversation is corrupt");
    assert_eq!(CoreError::BackendUnavailable.describe(), "backend unavailable");
    assert_eq!(CoreError::ExternalScriptFailure.describe(), "retrieval script failed");
}

#[test]
fn apply_emission_builds_display() {
    let mut display: Vec<Message> = Vec::new();
    apply_emission(&mut display, Emission {
        phase: ModelMessageState::UserTurn,
        message: user_message("q"),
    });
    apply_emission(&mut display, Emission {
        phase: ModelMessageState::StartAssistant,
        message: Message { role: Role::Assistant, content: String::from("a"), images: None },
    });
    apply_emission(&mut display, Emission {
        phase: ModelMessageState::RunningAssistant,
        message: Message { role: Role::Assistant, content: String::from("ab"), images: None },
    });
    apply_emission(&mut display, Emission {
        phase: ModelMessageState::FinishedAssistant,
        message: Message { role: Role::Assistant, content: String::from("abc"), images: None },
    });
    assert_eq!(display.len(), 2);
    assert_eq!(display[0].content, "q");
    assert_eq!(display[1].content, "abc");
}

#[test]
fn apply_emission_update_without_display_is_dropped() {
    let mut display: Vec<Message> = Vec::new();
    apply_emission(&mut display, Emission {
        phase: ModelMessageState::RunningAssistant,
        message: Message { role: Role::Assistant, content: String::from("x"), images: None },
    });
    assert!(display.is_empty());
}

#[test]
fn load_missing_conversation_fails_with_not_found() {
    let mut store = ConversationStore::new();
    let mut adapter = ChatAdapter::Candle(CandleModel::new());
    let r = adapter.load_conversation_file(&mut store, "nowhere.json");
    assert!(matches!(r, Err(CoreError::NotFound)));
    assert!(adapter.get_conversation().is_empty());
}

#[test]
fn load_persists_unsaved_state_before_replacing() {
    let mut store = ConversationStore::new();
    let stored = vec![user_message("old question")];
    store.save(&stored, "prior.json");

    let mut adapter = ChatAdapter::Ollama(OllamaModel::new());
    adapter.push_user_turn(user_message("unsaved work"));
    adapter.load_conversation_file(&mut store, "prior.json").expect("exists");

    // Memory now holds the transcript that was stored before the load…
    let transcript = adapter.get_conversation();
    assert_eq!(transcript.len(), 1);
    assert_eq!(transcript[0].content, "old question");
    // …and the pre-load history was written out under the same path first.
    let envelope = store.load("prior.json").expect("stored");
    assert_eq!(envelope.conversation.len(), 1);
    assert_eq!(envelope.conversation[0].content, "unsaved work");
}

#[test]
fn reset_exports_then_clears() {
    let mut store = ConversationStore::new();
    let mut adapter = ChatAdapter::Ollama(OllamaModel::new());
    adapter.push_user_turn(user_message("keep me"));
    adapter.reset_conversation(&mut store, "kept.json");
    assert!(adapter.get_conversation().is_empty());
    let envelope = store.load("kept.json").expect("exported on reset");
    assert_eq!(envelope.conversation[0].content, "keep me");
}

#[test]
fn opening_a_context_loads_or_starts_fresh() {
    let mut store = ConversationStore::new();
    store.save(&vec![user_message("stored turn")], "old.json");

    // A requested path that exists: the adapter takes its transcript and the
    // session replays it.
    let mut session = Session::new();
    let mut adapter = ChatAdapter::Ollama(OllamaModel::new());
    let (current, outcome) =
        open_conversation(&mut session, &mut adapter, &mut store, Some("old.json"), "start.json");
    assert!(outcome.is_ok());
    assert_eq!(current, "old.json");
    assert_eq!(adapter.get_conversation()[0].content, "stored turn");
    let emissions = drain(&mut session);
    assert_eq!(emissions.len(), 1);
    assert!(matches!(emissions[0].phase, ModelMessageState::LoadingFromFile));

    // A missing path: nothing changes and the failure is reported.
    let (kept, outcome) =
        open_conversation(&mut session, &mut adapter, &mut store, Some("nope.json"), "old.json");
    assert!(matches!(outcome, Err(CoreError::NotFound)));
    assert_eq!(kept, "old.json");

    // No requested path: the history is persisted, cleared, and a fresh
    // uniquely named file becomes current.
    let (fresh, outcome) =
        open_conversation(&mut session, &mut adapter, &mut store, None, "old.json");
    assert!(outcome.is_ok());
    assert_eq!(fresh.len(), 41);
    assert!(fresh.ends_with(".json"));
    assert!(adapter.get_conversation().is_empty());
    assert_eq!(store.load("old.json").unwrap().conversation[0].content, "stored turn");
}

#[test]
fn export_of_empty_history_is_a_noop() {
    let mut store = ConversationStore::new();
    let adapter = ChatAdapter::Ollama(OllamaModel::new());
    adapter.export_conversation(&mut store, "nothing.json");
    assert!(store.load("nothing.json").is_none());
}
