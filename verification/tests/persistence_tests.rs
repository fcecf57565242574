use comhra::formatter::format_prompt;
use comhra::formatter::unformat_prompt;
use comhra::models::ollama_model::mark_downloaded;
use comhra::models::ollama_model::installed_contains;
use comhra::models::ollama_model::ModelInfo;
use comhra::models::ollama_model::OllamaModel;
use comhra::models::CoreError;
use comhra::models::FromMessage;
use comhra::models::ToMessage;
use comhra::models::Message;
use comhra::models::ModelType;
use comhra::models::Role;
use comhra::models::SavedModel;
use comhra::sidebar::initialise_state_and_name;
use comhra::sidebar::toggle_archive_flags;
use comhra::sidebar::toggle_favourite_flags;
use comhra::sidebar::visible_under_filter;
use comhra::sidebar::SideBarFilterState;
use comhra::sidebar::SideBarListItemPermanentState;
use comhra::store::ConversationStore;
use comhra::strutil::file_basename;
use comhra::strutil::file_extension;
use comhra::strutil::file_stem;
use comhra::strutil::str_eq;
use comhra::utils::generate_unique_filename;
use comhra::utils::image_to_b64;
use comhra::utils::pdf_to_string;
use comhra::RagSource;

fn user_message(text: &str) -> Message {
    Message { role: Role::User, content: String::from(text), images: None }
}

#[test]
fn save_then_load_round_trips_transcript() {
    let mut store = ConversationStore::new();
    let transcript = vec![user_message("hi"), Message {
        role: Role::Assistant,
        content: String::from("hello"),
        images: None,
    }];
    store.save(&transcript, "alpha.json");
    let envelope = store.load("alpha.json").expect("just saved");
    assert_eq!(envelope.conversation.len(), 2);
    assert_eq!(envelope.conversation[0].content, "hi");
    assert_eq!(envelope.conversation[1].content, "hello");
    // A fresh path gets the defaults: unarchived, unstarred, named by stem.
    assert!(!envelope.archived);
    assert!(!envelope.starred);
    assert_eq!(envelope.name, "alpha");
}

#[test]
fn save_preserves_prior_flags_and_name() {
    let mut store = ConversationStore::new();
    store.save(&vec![user_message("v1")], "beta.json");
    assert!(store.set_flags("beta.json", false, true));
    assert!(store.set_name("beta.json", String::from("renamed")));
    // A later save of a new transcript keeps the stored metadata: the caller
    // supplies only the transcript.
    store.save(&vec![user_message("v2"), user_message("v3")], "beta.json");
    let envelope = store.load("beta.json").expect("stored");
    assert_eq!(envelope.conversation.len(), 2);
    assert_eq!(envelope.conversation[0].content, "v2");
    assert!(!envelope.archived);
    assert!(envelope.starred);
    assert_eq!(envelope.name, "renamed");
}

#[test]
fn load_of_absent_path_is_none_not_error() {
    let store = ConversationStore::new();
    assert!(store.load("missing.json").is_none());
}

#[test]
fn saves_to_different_paths_stay_apart() {
    let mut store = ConversationStore::new();
    store.save(&vec![user_message("one")], "a.json");
    store.save(&vec![user_message("two")], "b.json");
    assert_eq!(store.load("a.json").unwrap().conversation[0].content, "one");
    assert_eq!(store.load("b.json").unwrap().conversation[0].content, "two");
}

#[test]
fn removed_conversation_is_gone() {
    let mut store = ConversationStore::new();
    store.save(&vec![user_message("bye")], "gone.json");
    assert!(store.remove_conversation("gone.json"));
    assert!(store.load("gone.json").is_none());
    assert!(!store.remove_conversation("gone.json"));
}

#[test]
fn flags_on_missing_path_change_nothing() {
    let mut store = ConversationStore::new();
    assert!(!store.set_flags("none.json", true, false));
    assert!(!store.set_name("none.json", String::from("x")));
}

#[test]
fn format_without_rag_is_identity() {
    assert_eq!(format_prompt("what is the weather", None), "what is the weather");
    assert_eq!(format_prompt("", None), "");
}

#[test]
fn format_with_rag_uses_the_template() {
    assert_eq!(
        format_prompt("hi", Some("CTX")),
        "<|context|> CTX <|user|> hi <|end|><|assistant|>"
    );
}

#[test]
fn unformat_inverts_format_without_rag() {
    for prompt in ["hello", "", "a <|user|> inside", "tail <|end|><|assistant|>"] {
        assert_eq!(unformat_prompt(format_prompt(prompt, None).as_str()), prompt);
    }
}

#[test]
fn unformat_recovers_prompt_from_augmented_text() {
    let formatted = format_prompt("plan a trip", Some("wiki says mountains"));
    assert_eq!(unformat_prompt(formatted.as_str()), "plan a trip");
    let empty_prompt = format_prompt("", Some("context only"));
    assert_eq!(unformat_prompt(empty_prompt.as_str()), "");
}

#[test]
fn unformat_leaves_plain_text_unchanged() {
    assert_eq!(unformat_prompt("no markers here"), "no markers here");
    assert_eq!(unformat_prompt(""), "");
    // A context marker without the rest of the template also passes through.
    assert_eq!(unformat_prompt("<|context|> only a prefix"), "<|context|> only a prefix");
}

#[test]
fn catalog_keeps_working_backends_when_one_fails() {
    let hosted = vec![
        SavedModel {
            name: String::from("gpt-4o"),
            model_type: ModelType::Api(String::from("SECRET-REDACTED"), comhra::models::ApiTypeForSaving::OpenAI),
        },
        SavedModel { name: String::from("gpt-4o-mini"), model_type: ModelType::Api(String::from("SECRET-REDACTED"), comhra::models::ApiTypeForSaving::OpenAI) },
    ];
    let all = SavedModel::get_all(Err(CoreError::BackendUnavailable), Ok(hosted), Ok(Vec::new()));
    assert_eq!(all.len(), 2);
    assert_eq!(all[0].name, "gpt-4o");
    assert_eq!(all[1].name, "gpt-4o-mini");
}

#[test]
fn catalog_concatenates_in_backend_order() {
    let local = vec![SavedModel { name: String::from("phi3:latest"), model_type: ModelType::Ollama }];
    let candle = vec![SavedModel { name: String::from("tiny"), model_type: ModelType::Candle }];
    let all = SavedModel::get_all(Ok(local), Err(CoreError::BackendUnavailable), Ok(candle));
    assert_eq!(all.len(), 2);
    assert_eq!(all[0].name, "phi3:latest");
    assert_eq!(all[1].name, "tiny");
}

#[test]
fn model_type_names() {
    assert_eq!(ModelType::Ollama.name(), "Ollama");
    assert_eq!(ModelType::Candle.name(), "Candle");
    assert_eq!(
        ModelType::Api(String::from("SECRET-REDACTED"), comhra::models::ApiTypeForSaving::OpenAI).name(),
        "Api"
    );
}

#[test]
fn downloaded_flags_follow_installed_set() {
    let catalog = vec![
        ModelInfo {
            display_name: String::from("Phi 3"),
            download_name: String::from("phi3:latest"),
            size_in_millions: 3800,
            description: String::from("small"),
            is_downloaded: false,
        },
        ModelInfo {
            display_name: String::from("Llama"),
            download_name: String::from("llama3:8b"),
            size_in_millions: 8000,
            description: String::from("medium"),
            is_downloaded: true,
        },
    ];
    let installed = vec![String::from("phi3:latest")];
    let marked = mark_downloaded(catalog, &installed);
    assert!(marked[0].is_downloaded);
    assert!(!marked[1].is_downloaded);
    assert_eq!(marked[1].display_name, "Llama");
    assert_eq!(marked[1].size_in_millions, 8000);
    assert!(installed_contains(&installed, "phi3:latest"));
    assert!(!installed_contains(&installed, "llama3:8b"));
}

#[test]
fn string_helpers_split_paths() {
    assert_eq!(file_basename("conversations/chat.json"), "chat.json");
    assert_eq!(file_basename("chat.json"), "chat.json");
    assert_eq!(file_stem("conversations/chat.json"), "chat");
    assert_eq!(file_stem(".bashrc"), ".bashrc");
    assert_eq!(file_stem("archive.tar.gz"), "archive.tar");
    assert_eq!(file_extension("a/b.tar.gz"), Some(String::from("gz")));
    assert_eq!(file_extension("noext"), None);
    assert_eq!(file_extension(".bashrc"), None);
    assert!(str_eq("same", "same"));
    assert!(!str_eq("same", "sama"));
    assert!(!str_eq("same", "sam"));
}

#[test]
fn rag_source_names() {
    assert_eq!(RagSource::NoRag.name(), "No Rag");
    assert_eq!(RagSource::BashScript(String::from("rag_sources/wiki.sh")).name(), "wiki");
}

#[test]
fn base64_encoding_of_known_bytes() {
    assert_eq!(image_to_b64(&b"hello".to_vec()), "aGVsbG8=");
    assert_eq!(image_to_b64(&Vec::new()), "");
    assert_eq!(image_to_b64(&b"ab".to_vec()), "YWI=");
}

#[test]
fn unique_filenames_have_the_extension_and_differ() {
    let a = generate_unique_filename("json");
    let b = generate_unique_filename("json");
    assert_eq!(a.len(), 41);
    assert!(a.ends_with(".json"));
    assert!(!a[..36].contains('.'));
    assert!(!a[..36].contains('/'));
    assert_ne!(a, b);
}

#[test]
fn pdf_text_extraction_is_empty() {
    assert_eq!(pdf_to_string(&b"%PDF-1.4".to_vec()), "");
}

#[test]
fn attachments_fold_into_the_prompt_by_extension() {
    let msg = user_message("describe this");
    let bytes = b"hello".to_vec();

    let with_image = OllamaModel::process_file_for_prompt(
        msg.clone(),
        "photo.png",
        &bytes,
        String::from("ignored"),
    );
    assert_eq!(with_image.content, "describe this");
    let images = with_image.images.expect("image attached");
    assert_eq!(images.len(), 1);
    assert_eq!(images[0].b64_string().as_str(), "aGVsbG8=");

    let with_text = OllamaModel::process_file_for_prompt(
        msg.clone(),
        "notes.txt",
        &bytes,
        String::from("file body "),
    );
    assert_eq!(with_text.content, "file body describe this");
    assert!(with_text.images.is_none());

    let with_pdf = OllamaModel::process_file_for_prompt(
        msg.clone(),
        "paper.pdf",
        &bytes,
        String::from("ignored"),
    );
    assert_eq!(with_pdf.content, "describe this");
    assert!(with_pdf.images.is_none());

    let no_extension = OllamaModel::process_file_for_prompt(
        msg,
        "README",
        &bytes,
        String::from("ignored"),
    );
    assert_eq!(no_extension.content, "describe this");
    assert!(no_extension.images.is_none());
}

#[test]
fn second_image_joins_existing_attachments() {
    let first = OllamaModel::process_file_for_prompt(
        user_message("two pictures"),
        "a.jpg",
        &b"ab".to_vec(),
        String::from(""),
    );
    let second = OllamaModel::process_file_for_prompt(
        first,
        "b.jpeg",
        &b"hello".to_vec(),
        String::from(""),
    );
    let images = second.images.expect("both attached");
    assert_eq!(images.len(), 2);
    assert_eq!(images[0].b64_string().as_str(), "YWI=");
    assert_eq!(images[1].b64_string().as_str(), "aGVsbG8=");
}

#[test]
fn sidebar_state_comes_from_the_envelope() {
    let mut store = ConversationStore::new();
    store.save(&vec![user_message("x")], "work.json");
    store.set_flags("work.json", true, false);
    let envelope = store.load("work.json").unwrap();
    let (state, name) = initialise_state_and_name(Some(&envelope), "work.json");
    assert!(matches!(state, SideBarListItemPermanentState::Archived));
    assert_eq!(name, "work");

    let (state, name) = initialise_state_and_name(None, "fresh.json");
    assert!(matches!(state, SideBarListItemPermanentState::Normal));
    assert_eq!(name, "fresh");
}

#[test]
fn sidebar_toggles_flip_and_clear_each_other() {
    let (s, archived, starred) = toggle_favourite_flags(SideBarListItemPermanentState::Normal);
    assert!(matches!(s, SideBarListItemPermanentState::Starred));
    assert!(!archived && starred);
    let (s, archived, starred) = toggle_favourite_flags(SideBarListItemPermanentState::Starred);
    assert!(matches!(s, SideBarListItemPermanentState::Normal));
    assert!(!archived && !starred);
    // Archiving a starred entry clears the star: the two flags never persist
    // as true together through the toggles.
    let (s, archived, starred) = toggle_archive_flags(SideBarListItemPermanentState::Starred);
    assert!(matches!(s, SideBarListItemPermanentState::Archived));
    assert!(archived && !starred);
    let (s, archived, starred) = toggle_archive_flags(SideBarListItemPermanentState::Archived);
    assert!(matches!(s, SideBarListItemPermanentState::Normal));
    assert!(!archived && !starred);
}

#[test]
fn sidebar_filters_show_the_right_entries() {
    let normal = SideBarListItemPermanentState::Normal;
    let starred = SideBarListItemPermanentState::Starred;
    let archived = SideBarListItemPermanentState::Archived;
    let deleted = SideBarListItemPermanentState::Deleted;
    assert!(visible_under_filter(SideBarFilterState::NoFilter, normal));
    assert!(visible_under_filter(SideBarFilterState::NoFilter, starred));
    assert!(!visible_under_filter(SideBarFilterState::NoFilter, archived));
    assert!(!visible_under_filter(SideBarFilterState::NoFilter, deleted));
    assert!(visible_under_filter(SideBarFilterState::ShowArchive, archived));
    assert!(!visible_under_filter(SideBarFilterState::ShowArchive, deleted));
    assert!(visible_under_filter(SideBarFilterState::JustFavourite, starred));
    assert!(!visible_under_filter(SideBarFilterState::JustFavourite, normal));
}

#[test]
fn shell_messages_convert_both_ways() {
    let canonical = Message {
        role: Role::System,
        content: String::from("be brief"),
        images: Some(vec![comhra::models::B64Image::new(String::from("aGVsbG8="))]),
    };
    let shell = comhra::Message::from_message(canonical);
    assert!(matches!(shell.role, comhra::Role::System));
    assert_eq!(shell.content, "be brief");
    let back = shell.to_message();
    assert!(matches!(back.role, Role::System));
    assert_eq!(back.content, "be brief");
    assert_eq!(back.images.unwrap()[0].b64_string().as_str(), "aGVsbG8=");
}
