use tajagi::secret::SecretError;
use tajagi::settings::{PostProcessProvider, SlotTable, StringMap, TransformSettings};
use tajagi::transform::{
    build_messages, error_event, flatten_batch, flatten_deltas, list_transform_modes,
    mode_system_prompt, prepare_transform, transform_preflight, ChatStreamError, StreamStep,
    TransformError, TransformErrorKind, TransformMode, TransformRun, TransformState,
};

#[test]
fn polish_keeps_source_language_and_refines() {
    let (system, user) = build_messages(TransformMode::Polish, "안녕 하세요", None);
    let system = system.expect("polish supplies a system prompt");
    assert!(system.to_lowercase().contains("original language"));
    assert!(system.to_lowercase().contains("polish"));
    assert_eq!(user, "안녕 하세요");
}

#[test]
fn translate_english_targets_english() {
    let (system, user) = build_messages(TransformMode::TranslateEnglish, "text", None);
    let system = system.unwrap();
    assert!(system.to_lowercase().contains("translate"));
    assert!(system.to_lowercase().contains("english"));
    assert_eq!(user, "text");
}

#[test]
fn prompt_english_builds_a_prompt() {
    let (system, user) = build_messages(TransformMode::PromptEnglish, "notes", None);
    let system = system.unwrap();
    assert!(system.to_lowercase().contains("prompt"));
    assert_eq!(user, "notes");
}

#[test]
fn custom_uses_instruction_and_none_when_empty() {
    let (system, _) = build_messages(TransformMode::Custom, "t", Some("summarize"));
    assert_eq!(system.unwrap(), "summarize");

    let (system, _) = build_messages(TransformMode::Custom, "t", Some("   "));
    assert!(system.is_none());

    let (system, _) = build_messages(TransformMode::Custom, "t", None);
    assert!(system.is_none());

    let (system, _) = build_messages(TransformMode::Polish, "t", Some("ignored"));
    // Polish ignores a stray instruction.
    assert!(system.is_some());
}

#[test]
fn custom_instruction_is_trimmed() {
    assert_eq!(
        mode_system_prompt(TransformMode::Custom, Some("\u{3000} make it short \n")),
        Some("make it short".to_string())
    );
    assert_eq!(mode_system_prompt(TransformMode::Custom, Some("\u{00A0}\u{2003}")), None);
}

#[test]
fn list_transform_modes_contains_all_four() {
    let modes = list_transform_modes();
    assert_eq!(modes.len(), 4);
    let ids: Vec<&str> = modes.iter().map(|m| m.id.as_str()).collect();
    assert_eq!(ids, vec!["polish", "translate_english", "prompt_english", "custom"]);
    assert!(modes.iter().find(|m| m.id == "custom").unwrap().takes_instruction);
    assert!(!modes.iter().find(|m| m.id == "polish").unwrap().takes_instruction);
}

#[test]
fn errors_classify_by_http_status() {
    let auth = TransformError::from(ChatStreamError::HttpStatus { status: 401 });
    assert_eq!(auth.kind, TransformErrorKind::Auth);

    let rate = TransformError::from(ChatStreamError::HttpStatus { status: 429 });
    assert_eq!(rate.kind, TransformErrorKind::RateLimit);

    let server = TransformError::from(ChatStreamError::HttpStatus { status: 503 });
    assert_eq!(server.kind, TransformErrorKind::Server);

    let network = TransformError::from(ChatStreamError::Transport(String::new()));
    assert_eq!(network.kind, TransformErrorKind::Network);

    let parse = TransformError::from(ChatStreamError::Decode(String::new()));
    assert_eq!(parse.kind, TransformErrorKind::Parse);
}

#[test]
fn other_statuses_and_boundaries_classify() {
    let k = |status: u16| TransformError::from(ChatStreamError::HttpStatus { status }).kind;
    assert_eq!(k(403), TransformErrorKind::Auth);
    assert_eq!(k(500), TransformErrorKind::Server);
    assert_eq!(k(599), TransformErrorKind::Server);
    assert_eq!(k(600), TransformErrorKind::Other);
    assert_eq!(k(499), TransformErrorKind::Other);
    assert_eq!(k(404), TransformErrorKind::Other);
    let e = TransformError::from(ChatStreamError::HttpStatus { status: 401 });
    assert_eq!(e.message, "The API key is invalid or missing. Check your API key in Settings.");
    assert_eq!(e.to_string(), e.message);
    assert_eq!(e.kind.as_str(), "auth");
    assert_eq!(TransformErrorKind::RateLimit.as_str(), "rate_limit");
}

#[test]
fn error_messages_never_echo_secrets() {
    let err = TransformError::from(ChatStreamError::Transport(
        "<invalid url with token sk-secret>".to_string(),
    ));
    assert!(!err.message.contains("sk-secret"));
    assert!(!err.message.contains("<invalid"));
}

#[test]
fn error_message_is_the_same_whatever_the_payload() {
    let a = TransformError::from(ChatStreamError::Decode("body one".to_string()));
    let b = TransformError::from(ChatStreamError::Decode("another body".to_string()));
    assert_eq!(a.kind, b.kind);
    assert_eq!(a.message, b.message);
}

#[test]
fn mode_as_str_and_display_agree() {
    for mode in [
        TransformMode::Polish,
        TransformMode::TranslateEnglish,
        TransformMode::PromptEnglish,
        TransformMode::Custom,
    ] {
        assert_eq!(mode.to_string(), mode.as_str());
    }
}

#[test]
fn flatten_deltas_preserves_order_and_propagates_error() {
    let batches: Vec<Result<Vec<String>, ChatStreamError>> = vec![
        Ok(vec!["a".to_string(), "b".to_string()]),
        Err(ChatStreamError::HttpStatus { status: 429 }),
    ];
    let items: Vec<Result<String, TransformError>> = flatten_deltas(&batches);
    assert_eq!(items.len(), 3);
    assert_eq!(items[0].as_ref().unwrap(), "a");
    assert_eq!(items[1].as_ref().unwrap(), "b");
    assert_eq!(items[2].as_ref().unwrap_err().kind, TransformErrorKind::RateLimit);
}

#[test]
fn flatten_batch_of_nothing_is_empty() {
    assert!(flatten_batch(&Ok(Vec::new())).is_empty());
    let items = flatten_batch(&Err(ChatStreamError::Transport("x".to_string())));
    assert_eq!(items.len(), 1);
    assert_eq!(items[0].as_ref().unwrap_err().kind, TransformErrorKind::Network);
}

#[test]
fn transform_state_tracks_begin_cancel_finish() {
    let mut state = TransformState::new();
    let gen = state.begin();
    assert!(state.is_active());
    assert!(!state.is_cancelled_since(gen));
    state.cancel();
    assert!(state.is_cancelled_since(gen));
    assert!(!state.is_active());
}

#[test]
fn finish_clears_active_without_cancelling() {
    let mut state = TransformState::default();
    let gen = state.begin();
    state.finish();
    assert!(!state.is_active());
    assert!(!state.is_cancelled_since(gen));
    let next = state.begin();
    state.cancel();
    state.cancel();
    assert!(state.is_cancelled_since(next));
    assert!(state.is_cancelled_since(gen));
}

#[test]
fn run_emits_deltas_then_done_with_full_text() {
    let mut run = TransformRun::new(TransformMode::Polish);
    match run.step(Some(Ok("Hel".to_string())), false) {
        StreamStep::Delta(d) => {
            assert_eq!(d.delta, "Hel");
            assert_eq!(d.mode, "polish");
        }
        other => panic!("unexpected {:?}", other),
    }
    match run.step(Some(Ok("lo".to_string())), false) {
        StreamStep::Delta(d) => assert_eq!(d.delta, "lo"),
        other => panic!("unexpected {:?}", other),
    }
    match run.step(None, false) {
        StreamStep::Done(done) => {
            assert_eq!(done.text, "Hello");
            assert_eq!(done.mode, "polish");
        }
        other => panic!("unexpected {:?}", other),
    }
}

#[test]
fn run_stops_silently_when_cancelled() {
    let mut run = TransformRun::new(TransformMode::Custom);
    assert!(matches!(run.step(Some(Ok("a".to_string())), true), StreamStep::Cancelled));
    match run.step(None, false) {
        StreamStep::Done(done) => assert_eq!(done.text, ""),
        other => panic!("unexpected {:?}", other),
    }
}

#[test]
fn run_reports_a_stream_failure() {
    let mut run = TransformRun::new(TransformMode::TranslateEnglish);
    let err = TransformError::from(ChatStreamError::HttpStatus { status: 503 });
    match run.step(Some(Err(err)), false) {
        StreamStep::Failed(ev, e) => {
            assert_eq!(ev.category, "server");
            assert_eq!(ev.mode, "translate_english");
            assert_eq!(ev.error, e.message);
            assert_eq!(e.kind, TransformErrorKind::Server);
        }
        other => panic!("unexpected {:?}", other),
    }
}

#[test]
fn error_event_carries_category_and_mode() {
    let e = TransformError::from(ChatStreamError::Decode("x".to_string()));
    let ev = error_event(&e, TransformMode::PromptEnglish);
    assert_eq!(ev.category, "parse");
    assert_eq!(ev.mode, "prompt_english");
    assert_eq!(
        ev.error,
        "The provider returned an unexpected response. Try again or switch models."
    );
}

fn provider(id: &str, url: &str) -> PostProcessProvider {
    PostProcessProvider { id: id.to_string(), label: id.to_uppercase(), base_url: url.to_string() }
}

fn settings() -> TransformSettings {
    let mut models = StringMap::new();
    models.insert("openai".to_string(), "gpt-4o".to_string());
    models.insert("custom".to_string(), "  ".to_string());
    TransformSettings {
        post_process_providers: vec![
            provider("openai", "https://api.openai.com/v1"),
            provider("custom", "http://localhost:8080"),
            provider("apple_intelligence", "apple-intelligence://local"),
        ],
        post_process_provider_id: "openai".to_string(),
        post_process_models: models,
        post_process_api_keys: StringMap::new(),
        post_process_reasoning_effort: StringMap::new(),
        quick_action_slots: SlotTable::new(),
    }
}

#[test]
fn preflight_refuses_each_missing_piece() {
    let s = settings();
    let e = transform_preflight(&s, " \n").unwrap_err();
    assert_eq!(e.kind, TransformErrorKind::Other);
    assert_eq!(e.message, "Nothing to transform.");

    let (p, model) = transform_preflight(&s, "hi").unwrap();
    assert_eq!(p.id, "openai");
    assert_eq!(model, "gpt-4o");

    let mut none = settings();
    none.post_process_provider_id = "missing".to_string();
    assert_eq!(
        transform_preflight(&none, "hi").unwrap_err().message,
        "No transform provider is selected. Choose one in Settings."
    );

    let mut apple = settings();
    apple.post_process_provider_id = "apple_intelligence".to_string();
    assert_eq!(
        transform_preflight(&apple, "hi").unwrap_err().message,
        "Apple Intelligence does not support streaming transform yet."
    );

    let mut custom = settings();
    custom.post_process_provider_id = "custom".to_string();
    assert_eq!(
        transform_preflight(&custom, "hi").unwrap_err().message,
        "No model is selected for the transform provider. Choose one in Settings."
    );
}

#[test]
fn prepare_binds_key_prompt_and_reasoning_switch() {
    let (tp, user) = prepare_transform(
        provider("openrouter", "https://openrouter.ai"),
        "m".to_string(),
        TransformMode::Custom,
        "text",
        Some(" shorter "),
        Ok(None),
    )
    .unwrap();
    assert_eq!(user, "text");
    assert_eq!(tp.api_key(), "");
    assert_eq!(tp.model(), "m");
    assert_eq!(tp.system_prompt(), &Some("shorter".to_string()));
    assert!(tp.disable_reasoning());
    assert_eq!(tp.provider().id, "openrouter");

    let (tp, _) = prepare_transform(
        provider("openai", "u"),
        "m".to_string(),
        TransformMode::Polish,
        "text",
        None,
        Ok(Some("sk".to_string())),
    )
    .unwrap();
    assert_eq!(tp.api_key(), "sk");
    assert!(!tp.disable_reasoning());

    let e = prepare_transform(
        provider("openai", "u"),
        "m".to_string(),
        TransformMode::Polish,
        "text",
        None,
        Err(SecretError::Store("locked".to_string())),
    )
    .unwrap_err();
    assert_eq!(e.kind, TransformErrorKind::Other);
    assert_eq!(e.message, "Could not read the API key: Secret store error: locked");
}
