use rewrite_it::llm::inference::{
    Action, BatchEntry, Event, InferenceJob, InferenceRun, JobError,
};
use rewrite_it::prompt::{Style, TemplateOutcome};

/// A model that answers by a script. Its tokens are the characters of a text,
/// with a begin-of-text token of -1.
struct Script {
    n_ctx: u32,
    replies: Vec<&'static str>,
    client_takes: usize,
    log: Vec<String>,
    cache: Vec<i32>,
    sent: Vec<String>,
    decoded: Vec<BatchEntry>,
}

impl Script {
    fn new(n_ctx: u32, replies: Vec<&'static str>) -> Script {
        Script {
            n_ctx,
            replies,
            client_takes: usize::MAX,
            log: Vec::new(),
            cache: Vec::new(),
            sent: Vec::new(),
            decoded: Vec::new(),
        }
    }

    fn tokens(text: &str, bos: bool) -> Vec<i32> {
        let mut r = Vec::new();
        if bos {
            r.push(-1);
        }
        for c in text.chars() {
            r.push(c as i32);
        }
        r
    }

    fn run(&mut self, mut run: InferenceRun) -> (Result<String, JobError>, Option<(Style, usize)>) {
        let mut next = 0;
        loop {
            let event = match run.action() {
                Action::ApplyTemplate { messages } => {
                    let prompt = format!("{}|{}|", messages[0].role, messages[1].content);
                    Event::Template(TemplateOutcome::Applied(prompt))
                }
                Action::CountTokens { text } => {
                    assert!(text.ends_with("\n---\n"));
                    Event::Counted(Some(Script::tokens(&text, true).len()))
                }
                Action::EvictFrom { position } => {
                    self.log.push("evict".to_string());
                    self.cache.truncate(position);
                    Event::CacheReady
                }
                Action::ClearCache => {
                    self.log.push("clear".to_string());
                    self.cache.clear();
                    Event::CacheReady
                }
                Action::Tokenize { text, bos } => Event::Tokens {
                    tokens: Script::tokens(&text, bos),
                    n_ctx: self.n_ctx,
                },
                Action::Decode { capacity, entries } => {
                    assert!(entries.len() <= capacity);
                    for (i, entry) in entries.iter().enumerate() {
                        assert_eq!(entry.pos as usize, self.cache.len());
                        assert_eq!(entry.logits, i + 1 == entries.len());
                        self.cache.push(entry.token);
                        self.decoded.push(*entry);
                    }
                    Event::Decoded
                }
                Action::Sample { slot } => {
                    self.log.push(format!("sample {slot}"));
                    let end = next >= self.replies.len();
                    Event::Sampled { token: next as i32, end }
                }
                Action::Detokenize { token } => {
                    assert_eq!(token, next as i32);
                    next += 1;
                    Event::Piece(self.replies[token as usize].to_string())
                }
                Action::Send { piece } => {
                    self.sent.push(piece);
                    Event::Sent(self.sent.len() <= self.client_takes)
                }
                Action::Finish(result) => return (result, run.cached_prefix()),
            };
            assert!(run.awaits(&event));
            run = run.resume(event);
        }
    }
}

fn full(text: &str, style: Style) -> InferenceJob {
    InferenceJob::Full { text: text.to_string(), style }
}

fn streaming(text: &str, style: Style) -> InferenceJob {
    InferenceJob::Streaming { text: text.to_string(), style }
}

/// The number of tokens in front of the text.
fn prefix_len(style: Style) -> usize {
    1 + format!("system|{}\n\n---\n", style.instruction()).chars().count()
}

#[test]
fn engine_module_exists() {
    // compile-time check that the module compiles
}

#[test]
fn a_full_job_returns_the_trimmed_text() {
    let mut model = Script::new(2048, vec![" The", " cat", " eats.", "\n"]);
    let run = InferenceRun::begin(full("the cat eat", Style::Grammar), 16, None);
    let (result, cached) = model.run(run);
    assert_eq!(result, Ok("The cat eats.".to_string()));
    assert_eq!(cached, Some((Style::Grammar, prefix_len(Style::Grammar))));
    assert!(model.sent.is_empty());
}

#[test]
fn a_streaming_job_sends_its_pieces_as_they_are() {
    let mut model = Script::new(2048, vec![" The", " cat", " eats.", "\n"]);
    let run = InferenceRun::begin(streaming("the cat eat", Style::Formal), 16, None);
    let (result, _) = model.run(run);
    assert_eq!(result, Ok(String::new()));
    assert_eq!(model.sent, vec![" The", " cat", " eats.", "\n"]);
}

#[test]
fn generation_stops_at_max_tokens() {
    for max_tokens in [0u32, 1, 3] {
        let mut model = Script::new(2048, vec!["a", "b", "c", "d", "e"]);
        let run = InferenceRun::begin(full("x", Style::Casual), max_tokens, None);
        let (result, _) = model.run(run);
        assert_eq!(result, Ok("abcde"[..max_tokens as usize].to_string()));
    }
}

#[test]
fn a_lost_client_ends_the_job() {
    let mut model = Script::new(2048, vec!["a", "b", "c"]);
    model.client_takes = 1;
    let run = InferenceRun::begin(streaming("x", Style::Casual), 16, None);
    let (result, _) = model.run(run);
    assert_eq!(result, Ok(String::new()));
    assert_eq!(model.sent, vec!["a", "b"]);
}

#[test]
fn the_same_style_reuses_the_prefix() {
    let mut model = Script::new(2048, vec!["ok"]);
    let n = prefix_len(Style::Formal);
    let (_, cached) = model.run(InferenceRun::begin(full("one", Style::Formal), 8, None));
    let warm: Vec<i32> = model.cache[..n].to_vec();
    model.decoded.clear();
    let (result, cached) = model.run(InferenceRun::begin(full("second", Style::Formal), 8, cached));
    assert_eq!(result, Ok("ok".to_string()));
    assert_eq!(cached, Some((Style::Formal, n)));
    assert_eq!(model.cache[..n].to_vec(), warm);
    // Only the text, the closing bar and the generated token were decoded.
    assert_eq!(model.decoded.len(), "second|".len() + 1);
    assert_eq!(model.decoded[0].pos as usize, n);
    let slot = "second|".len() - 1;
    assert_eq!(
        model.log[model.log.len() - 3..].to_vec(),
        vec!["evict".to_string(), format!("sample {slot}"), "sample 0".to_string()]
    );
}

#[test]
fn another_style_clears_the_cache() {
    let mut model = Script::new(2048, vec!["ok"]);
    let (_, cached) = model.run(InferenceRun::begin(full("one", Style::Formal), 8, None));
    let (_, cached) = model.run(InferenceRun::begin(full("one", Style::Casual), 8, cached));
    assert_eq!(cached, Some((Style::Casual, prefix_len(Style::Casual))));
    let kept: Vec<&String> = model.log.iter().filter(|l| !l.starts_with("sample")).collect();
    assert_eq!(kept, vec!["clear", "clear"]);
}

#[test]
fn a_failed_job_of_another_style_leaves_no_prefix_cached() {
    let mut model = Script::new(2048, vec!["ok"]);
    let (_, cached) = model.run(InferenceRun::begin(full("one", Style::Formal), 8, None));
    model.n_ctx = 10;
    let (result, cached) = model.run(InferenceRun::begin(full("one", Style::Casual), 8, cached));
    assert!(result.is_err());
    assert_eq!(cached, None);
}

#[test]
fn too_long_prompts_are_refused() {
    let n = prefix_len(Style::Formal) + "one|".len();
    let mut model = Script::new(n as u32 + 7, vec!["ok"]);
    let (result, _) = model.run(InferenceRun::begin(full("one", Style::Formal), 8, None));
    let error = result.unwrap_err();
    assert_eq!(
        error,
        JobError::PromptTooLong { n_total: n as u128, max_new: 8, n_ctx: n as u32 + 7 }
    );
    assert_eq!(
        error.message(),
        format!(
            "prompt ({n} tokens) + max_tokens (8) exceeds context size ({}); \
             increase context_size in config or shorten the input",
            n + 7
        )
    );
    let mut model = Script::new(n as u32 + 8, vec!["ok"]);
    let (result, _) = model.run(InferenceRun::begin(full("one", Style::Formal), 8, None));
    assert_eq!(result, Ok("ok".to_string()));
}

#[test]
fn large_counts_are_taken_as_they_are() {
    let mut model = Script::new(2048, vec!["ok"]);
    let (result, _) = model.run(InferenceRun::begin(full("one", Style::Formal), u32::MAX, None));
    let message = result.unwrap_err().message();
    assert!(message.contains("+ max_tokens (4294967295) exceeds context size (2048);"), "{message}");
    let mut model = Script::new(u32::MAX, vec!["ok"]);
    let (result, _) = model.run(InferenceRun::begin(full("one", Style::Formal), 8, None));
    assert_eq!(result, Ok("ok".to_string()));
    // Positions are counted in 31 bits.
    let mut model = Script::new(u32::MAX, vec!["ok"]);
    let run = InferenceRun::begin(full("one", Style::Formal), i32::MAX as u32, None);
    let message = model.run(run).0.unwrap_err().message();
    assert!(message.contains("exceeds context size (2147483647);"), "{message}");
}

#[test]
fn full_and_streaming_jobs_generate_alike() {
    let replies = vec![" a", "b ", "", "c\n", "d"];
    for max_tokens in [0u32, 2, 5, 9] {
        let mut one = Script::new(2048, replies.clone());
        let (result, _) = one.run(InferenceRun::begin(full("x", Style::Casual), max_tokens, None));
        let mut other = Script::new(2048, replies.clone());
        let run = InferenceRun::begin(streaming("x", Style::Casual), max_tokens, None);
        assert_eq!(other.run(run).0, Ok(String::new()));
        assert_eq!(result, Ok(other.sent.concat().trim().to_string()));
        assert_eq!(one.cache, other.cache);
    }
}

#[test]
fn reuse_changes_nothing_but_the_cost() {
    let mut warm = Script::new(2048, vec!["x", "y"]);
    let (_, cached) = warm.run(InferenceRun::begin(full("earlier", Style::Formal), 8, None));
    let before = warm.decoded.len();
    let (result, left) = warm.run(InferenceRun::begin(full("later", Style::Formal), 8, cached));
    let mut cold = Script::new(2048, vec!["x", "y"]);
    let (expected, other) = cold.run(InferenceRun::begin(full("later", Style::Formal), 8, None));
    assert_eq!(result, expected);
    assert_eq!(left, other);
    assert_eq!(warm.cache, cold.cache);
    assert!(warm.decoded.len() - before < cold.decoded.len());
    // The prefix is the style's, whatever was rewritten.
    let n = prefix_len(Style::Formal);
    let prefix = format!("system|{}\n\n---\n", Style::Formal.instruction());
    assert_eq!(warm.cache[..n].to_vec(), Script::tokens(&prefix, true));
    // What does not fit is refused alike.
    let large = "z".repeat(3000);
    let (result, _) = warm.run(InferenceRun::begin(full(&large, Style::Formal), 8, left));
    let (expected, _) = cold.run(InferenceRun::begin(full(&large, Style::Formal), 8, None));
    assert_eq!(result, expected);
    assert!(matches!(result, Err(JobError::PromptTooLong { .. })));
}

fn begun() -> InferenceRun {
    InferenceRun::begin(full("t", Style::Concise), 8, None)
}

fn feed(mut run: InferenceRun, events: Vec<Event>) -> InferenceRun {
    for event in events {
        assert!(run.awaits(&event));
        run = run.resume(event);
    }
    run
}

fn error_of(run: &InferenceRun) -> JobError {
    match run.action() {
        Action::Finish(Err(e)) => e,
        _ => panic!("the job goes on"),
    }
}

fn to_prefill() -> Vec<Event> {
    vec![
        Event::Template(TemplateOutcome::Missing),
        Event::Counted(Some(1)),
        Event::CacheReady,
        Event::Tokens { tokens: vec![5, 6], n_ctx: 100 },
    ]
}

#[test]
fn failures_carry_their_context() {
    let run = feed(begun(), vec![Event::Template(TemplateOutcome::Failed)]);
    assert_eq!(error_of(&run).message(), "applying model chat template");

    let mut events = to_prefill();
    events.pop();
    events.push(Event::TokensFailed);
    assert_eq!(error_of(&feed(begun(), events)).message(), "tokenising prompt");

    for (event, message) in [
        (Event::BatchFull, "adding prompt token to batch"),
        (Event::DecodeFailed, "prefill decode failed"),
    ] {
        let mut events = to_prefill();
        events.push(event);
        assert_eq!(error_of(&feed(begun(), events)).message(), message);
    }

    for (event, message) in [
        (Event::PieceFailed, "decoding token to string"),
    ] {
        let mut events = to_prefill();
        events.push(Event::Decoded);
        events.push(Event::Sampled { token: 9, end: false });
        events.push(event);
        assert_eq!(error_of(&feed(begun(), events)).message(), message);
    }

    for (event, message) in [
        (Event::BatchFull, "adding generated token to batch"),
        (Event::DecodeFailed, "generation decode failed"),
    ] {
        let mut events = to_prefill();
        events.push(Event::Decoded);
        events.push(Event::Sampled { token: 9, end: false });
        events.push(Event::Piece("p".to_string()));
        events.push(event);
        assert_eq!(error_of(&feed(begun(), events)).message(), message);
    }
}

#[test]
fn suffix_failures_carry_their_context() {
    let warm = || InferenceRun::begin(full("t", Style::Concise), 8, Some((Style::Concise, 1)));
    let mut events = to_prefill();
    events.pop();
    events.push(Event::TokensFailed);
    let run = feed(warm(), events);
    assert_eq!(error_of(&run).message(), "tokenising prompt suffix");
    // The prefix is still in the cache.
    assert_eq!(run.cached_prefix(), Some((Style::Concise, 1)));
    for (event, message) in [
        (Event::BatchFull, "adding suffix token to batch"),
        (Event::DecodeFailed, "suffix prefill decode failed"),
    ] {
        let mut events = to_prefill();
        events.push(event);
        assert_eq!(error_of(&feed(warm(), events)).message(), message);
    }
}

#[test]
fn prompts_without_a_separator_are_never_cached() {
    let run = feed(
        InferenceRun::begin(full("t", Style::Concise), 8, Some((Style::Concise, 3))),
        vec![Event::Template(TemplateOutcome::Applied("plain".to_string()))],
    );
    assert!(matches!(run.action(), Action::ClearCache));
    let run = feed(run, vec![Event::CacheReady]);
    match run.action() {
        Action::Tokenize { text, bos } => {
            assert_eq!(text, "plain");
            assert!(bos);
        }
        _ => panic!("no tokens wanted"),
    }
    let run = feed(
        run,
        vec![Event::Tokens { tokens: vec![1], n_ctx: 100 }, Event::Decoded],
    );
    assert_eq!(run.cached_prefix(), None);
}

#[test]
fn a_prefix_that_cannot_be_counted_is_not_reused() {
    let run = feed(
        InferenceRun::begin(full("t", Style::Concise), 8, Some((Style::Concise, 1))),
        vec![Event::Template(TemplateOutcome::Missing), Event::Counted(None)],
    );
    assert!(matches!(run.action(), Action::ClearCache));
}

#[test]
fn events_out_of_turn_are_not_awaited() {
    let run = begun();
    assert!(!run.awaits(&Event::Decoded));
    assert!(!run.awaits(&Event::Sent(true)));
    let run = feed(run, vec![Event::Template(TemplateOutcome::UserRejected)]);
    assert!(!run.awaits(&Event::Template(TemplateOutcome::Missing)));
}
