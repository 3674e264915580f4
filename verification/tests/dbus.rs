use rewrite_it::config::Config;
use rewrite_it::dbus::{
    rewrite_reply, validate_text, RequestError, RewriteOutcome, RewriterService, OBJECT_PATH,
    SERVICE_NAME,
};
use rewrite_it::llm::engine::EngineManager;
use rewrite_it::prompt::Style;
use rewrite_it::relay::{Completion, RelayAction, RelayEvent, StreamRelay};

fn service() -> RewriterService {
    RewriterService::new(EngineManager::new(Config::default_in(None)))
}

fn invalid<T>(r: Result<T, RequestError>) -> String {
    match r {
        Err(RequestError::InvalidArgs(reason)) => reason,
        _ => panic!("accepted"),
    }
}

fn failed<T>(r: Result<T, RequestError>) -> String {
    match r {
        Err(RequestError::Failed(reason)) => reason,
        _ => panic!("not failed"),
    }
}

#[test]
fn names_on_the_bus() {
    assert_eq!(SERVICE_NAME, "org.rewriteit.Rewriter1");
    assert_eq!(OBJECT_PATH, "/org/rewriteit/Rewriter");
}

#[test]
fn blank_texts_are_refused() {
    for text in ["", " ", "\t\r\n", "\u{a0}\u{2003}\u{3000}\u{85}"] {
        assert_eq!(invalid(validate_text(text)), "text must not be empty");
    }
    // A zero-width space is no white space.
    assert!(validate_text("\u{200b}").is_ok());
    assert!(validate_text(" x ").is_ok());
}

#[test]
fn white_space_is_that_of_the_standard_library() {
    for n in 0..=0x10ffffu32 {
        if let Some(c) = char::from_u32(n) {
            if c.is_whitespace() {
                assert!(validate_text(&c.to_string()).is_err());
            } else if n < 0x3100 {
                assert!(validate_text(&c.to_string()).is_ok());
            }
        }
    }
}

#[test]
fn long_texts_are_refused_by_their_bytes() {
    assert!(validate_text(&"a".repeat(32_000)).is_ok());
    assert_eq!(
        invalid(validate_text(&"a".repeat(32_001))),
        "text exceeds maximum length (32 000 bytes)"
    );
    assert!(validate_text(&"é".repeat(16_000)).is_ok());
    assert!(validate_text(&"é".repeat(16_001)).is_err());
    assert_eq!(invalid(validate_text(&" ".repeat(40_000))), "text must not be empty");
}

#[test]
fn accepted_rewrites_are_parsed_and_recorded() {
    let mut s = service();
    let r = s.rewrite_at(" hi ".to_string(), "FORMAL", 1000).ok().unwrap();
    assert_eq!(r.text, " hi ");
    assert_eq!(r.style, Style::Formal);
    assert_eq!(s.engine.seconds_idle_at(1005), 5);
    let r = s.rewrite("hi".to_string(), "whatever").ok().unwrap();
    assert_eq!(r.style, Style::Grammar);
    assert!(s.engine.seconds_idle() < 60);
}

#[test]
fn completed_requests_count_from_their_completion() {
    let mut s = service();
    assert!(s.rewrite_at("hi".to_string(), "formal", 1000).is_ok());
    s.completed_at(1600);
    assert_eq!(s.engine.seconds_idle_at(1600), 0);
    assert_eq!(s.engine.seconds_idle_at(1900), 300);
    s.completed();
    assert!(s.engine.seconds_idle() < 60);
}

#[test]
fn refused_rewrites_leave_no_trace() {
    let mut s = service();
    assert_eq!(invalid(s.rewrite("  ".to_string(), "formal")), "text must not be empty");
    assert_eq!(invalid(s.start_rewrite(String::new(), "formal")), "text must not be empty");
    assert_eq!(s.engine.seconds_idle_at(u64::MAX), 0);
}

#[test]
fn streaming_rewrites_get_a_job_id_of_their_own() {
    let mut s = service();
    let a = s.start_rewrite("hi".to_string(), "casual").ok().unwrap();
    let b = s.start_rewrite("hi".to_string(), "casual").ok().unwrap();
    assert_eq!(a.text, "hi");
    assert_eq!(a.style, Style::Casual);
    assert_ne!(a.job_id, b.job_id);
    for id in [&a.job_id, &b.job_id] {
        let u = uuid::Uuid::parse_str(id).unwrap();
        assert_eq!(u.get_version_num(), 4);
        assert_eq!(u.get_variant(), uuid::Variant::RFC4122);
        assert_eq!(&u.to_string(), id);
        assert_eq!(id.len(), 36);
    }
}

#[test]
fn selections_come_before_the_clipboard() {
    let mut s = service();
    let some = |t: &str| Some(t.to_string());
    let r = s.rewrite_selection(some("sel"), some("clip"), "concise").ok().unwrap();
    assert_eq!(r.text, "sel");
    assert_eq!(r.style, Style::Concise);
    assert_eq!(s.rewrite_selection(some(" "), some("clip"), "").ok().unwrap().text, "clip");
    assert_eq!(s.rewrite_selection(None, some("clip"), "").ok().unwrap().text, "clip");
    assert_eq!(invalid(s.rewrite_selection(some(" "), None, "")), "text must not be empty");
}

#[test]
fn replies_to_rewrites() {
    assert_eq!(failed(rewrite_reply(RewriteOutcome::NotReady("no model".to_string()))), "no model");
    assert_eq!(
        failed(rewrite_reply(RewriteOutcome::JoinFailed("cancelled".to_string()))),
        "task join error: cancelled"
    );
    assert_eq!(
        failed(rewrite_reply(RewriteOutcome::Answered(Err("prefill decode failed".to_string())))),
        "prefill decode failed"
    );
    let ok = rewrite_reply(RewriteOutcome::Answered(Ok("The cat eats.".to_string())));
    assert_eq!(ok.ok().unwrap(), "The cat eats.");
}

#[test]
fn properties() {
    let s = service();
    assert_eq!(
        s.list_styles(),
        vec!["grammar", "formal", "casual", "concise", "elaborate", "creative"]
    );
    assert!(!s.is_ready());
    assert_eq!(s.status(), "idle");
    assert_eq!(s.model_name(), "Phi-4-mini-instruct-Q4_K_M.gguf");
}

/// The signals of a job whose pieces are `pieces`, of which all but the first
/// `taken` cannot be emitted.
fn relay(pieces: Vec<&str>, taken: usize, completion: Completion) -> Vec<String> {
    let mut relay = StreamRelay::begin("job".to_string());
    let mut pieces = pieces.into_iter();
    let mut completion = Some(completion);
    let mut signals = Vec::new();
    loop {
        let event = match relay.action() {
            RelayAction::Receive => RelayEvent::Received(pieces.next().map(|p| p.to_string())),
            RelayAction::EmitChunk { job_id, text } => {
                signals.push(format!("chunk {job_id} {text}"));
                RelayEvent::Emitted(signals.len() <= taken)
            }
            RelayAction::AwaitInference => RelayEvent::Completed(completion.take().unwrap()),
            RelayAction::EmitDone { job_id } => {
                signals.push(format!("done {job_id}"));
                RelayEvent::Emitted(true)
            }
            RelayAction::EmitError { job_id, message } => {
                signals.push(format!("error {job_id} {message}"));
                RelayEvent::Emitted(false)
            }
            RelayAction::Stop => return signals,
        };
        assert!(relay.awaits(&event));
        relay = relay.resume(event);
    }
}

#[test]
fn streams_are_chunks_and_then_one_ending() {
    assert_eq!(
        relay(vec!["a", "b"], 9, Completion::Succeeded),
        vec!["chunk job a", "chunk job b", "done job"]
    );
    assert_eq!(
        relay(vec![], 9, Completion::Failed("no model".to_string())),
        vec!["error job no model"]
    );
    assert_eq!(
        relay(vec!["a"], 9, Completion::WaitFailed("died".to_string())),
        vec!["chunk job a", "error job task join error: died"]
    );
    assert_eq!(
        relay(vec!["a"], 9, Completion::TaskFailed("died".to_string())),
        vec!["chunk job a", "error job died"]
    );
    assert_eq!(
        relay(vec!["a", "b", "c"], 1, Completion::Succeeded),
        vec!["chunk job a", "chunk job b", "done job"]
    );
}
