use std::time::{SystemTime, UNIX_EPOCH};

use rewrite_it::clock::{current_unix_secs, unix_secs};
use rewrite_it::config::Config;
use rewrite_it::llm::engine::{
    worker_result, Engine, EngineManager, LoadError, LoadOutcome, ReadyAction, ReadyEvent, Reply,
};
use rewrite_it::llm::inference::InferenceJob;
use rewrite_it::llm::sampling::{make_ctx_params, sampler_for, SamplerPlan};
use rewrite_it::llm::status::RuntimeStatus;
use rewrite_it::prompt::Style;

fn config() -> Config {
    Config::default_in(Some(b"/data".to_vec()))
}

fn ready_manager() -> EngineManager {
    let mut m = EngineManager::new(config());
    m.ensure_ready(ReadyEvent::Requested);
    m.ensure_ready(ReadyEvent::ModelReady(b"/models/m.gguf".to_vec()));
    let mut effective = config();
    effective.model_path = b"/models/m.gguf".to_vec();
    m.ensure_ready(ReadyEvent::Loaded { config: effective, outcome: LoadOutcome::Loaded });
    m
}

#[test]
fn status_codes_round_trip() {
    for (status, code, name) in [
        (RuntimeStatus::Idle, 0u8, "idle"),
        (RuntimeStatus::Downloading, 1, "downloading"),
        (RuntimeStatus::Loading, 2, "loading"),
        (RuntimeStatus::Ready, 3, "ready"),
        (RuntimeStatus::Failed, 4, "failed"),
    ] {
        assert_eq!(status.as_u8(), code);
        assert_eq!(RuntimeStatus::from_u8(code), status);
        assert_eq!(status.as_str(), name);
    }
    assert_eq!(RuntimeStatus::from_u8(5), RuntimeStatus::Idle);
    assert_eq!(RuntimeStatus::from_u8(255), RuntimeStatus::Idle);
}

#[test]
fn a_fresh_manager_is_idle() {
    let m = EngineManager::new(config());
    assert!(!m.is_ready());
    assert!(m.engine().is_none());
    assert_eq!(m.status(), "idle");
    assert_eq!(m.model_name(), "Phi-4-mini-instruct-Q4_K_M.gguf");
    assert_eq!(m.config().max_tokens, 512);
    assert_eq!(m.seconds_idle(), 0);
    assert_eq!(m.seconds_idle_at(1_000_000), 0);
    assert!(!m.inference_hung());
}

#[test]
fn the_way_to_a_ready_engine() {
    let mut m = EngineManager::new(config());
    assert!(matches!(m.ensure_ready(ReadyEvent::Requested), ReadyAction::FetchModel));
    assert_eq!(m.status(), "downloading");
    let effective = match m.ensure_ready(ReadyEvent::ModelReady(b"/models/m.gguf".to_vec())) {
        ReadyAction::LoadModel(c) => c,
        _ => panic!("the model is to be loaded"),
    };
    assert_eq!(effective.model_path, b"/models/m.gguf".to_vec());
    assert_eq!(effective.hf_repo, config().hf_repo);
    assert_eq!(m.status(), "loading");
    assert!(!m.is_ready());
    let loaded = ReadyEvent::Loaded { config: effective, outcome: LoadOutcome::Loaded };
    assert!(matches!(m.ensure_ready(loaded), ReadyAction::Ready));
    assert_eq!(m.status(), "ready");
    assert!(m.is_ready());
    assert_eq!(m.model_name(), "m.gguf");
    assert!(matches!(m.ensure_ready(ReadyEvent::Requested), ReadyAction::Ready));
    assert_eq!(m.status(), "ready");
}

#[test]
fn engines_run_under_the_settings_of_the_manager() {
    let mut m = EngineManager::new(config());
    let mut other = Config::default_in(None);
    other.model_path = b"/models/m.gguf".to_vec();
    other.max_tokens = 7;
    other.inference_timeout_secs = 1;
    m.ensure_ready(ReadyEvent::Loaded { config: other, outcome: LoadOutcome::Loaded });
    let engine = m.engine().unwrap();
    assert_eq!(engine.config.model_path, b"/models/m.gguf".to_vec());
    assert_eq!(engine.config.max_tokens, 512);
    assert_eq!(engine.rewrite("x", Style::Formal).timeout_secs, 120);
    assert_eq!(engine.model_name(), "m.gguf");
}

#[test]
fn failures_are_shown_and_can_be_retried() {
    for (event, reason) in [
        (ReadyEvent::ModelFailed("no network".to_string()), "no network"),
        (
            ReadyEvent::Loaded { config: config(), outcome: LoadOutcome::BackendFailed },
            "initialising llama backend",
        ),
        (
            ReadyEvent::Loaded { config: config(), outcome: LoadOutcome::ModelFailed },
            "loading model from file",
        ),
        (ReadyEvent::LoadPanicked, "model-loading thread panicked"),
    ] {
        let mut m = EngineManager::new(config());
        m.ensure_ready(ReadyEvent::Requested);
        match m.ensure_ready(event) {
            ReadyAction::Fail(r) => assert_eq!(r, reason),
            _ => panic!("not a failure"),
        }
        assert_eq!(m.status(), format!("failed: {reason}"));
        assert!(!m.is_ready());
        assert!(matches!(m.ensure_ready(ReadyEvent::Requested), ReadyAction::FetchModel));
        assert_eq!(m.status(), "downloading");
    }
}

#[test]
fn a_model_without_a_file_name_is_unknown() {
    let mut c = config();
    c.model_path = b"/".to_vec();
    assert_eq!(EngineManager::new(c.clone()).model_name(), "unknown");
    let engine = Engine::load(c, LoadOutcome::Loaded).ok().unwrap();
    assert_eq!(engine.model_name(), "unknown");
    assert_eq!(engine.inference_started_at, 0);
}

#[test]
fn load_errors_have_messages() {
    let e = Engine::load(config(), LoadOutcome::BackendFailed).err().unwrap();
    assert_eq!(e, LoadError::Backend);
    let e = Engine::load(config(), LoadOutcome::ModelFailed).err().unwrap();
    assert_eq!(e.message(), "loading model from file");
}

#[test]
fn engines_submit_jobs_with_the_configured_timeout() {
    let m = ready_manager();
    let engine = m.engine().unwrap();
    let s = engine.rewrite("text", Style::Formal);
    assert_eq!(s.timeout_secs, 120);
    match s.job {
        InferenceJob::Full { text, style } => {
            assert_eq!(text, "text");
            assert_eq!(style, Style::Formal);
        }
        _ => panic!("not a full job"),
    }
    let s = engine.rewrite_streaming("text", Style::Casual);
    assert_eq!(s.timeout_secs, 120);
    assert!(matches!(s.job, InferenceJob::Streaming { .. }));
}

#[test]
fn worker_replies() {
    let stopped: Reply<String> = Reply::Stopped;
    assert_eq!(worker_result(stopped), Err("inference worker has stopped".to_string()));
    let silent: Reply<String> = Reply::Silent("timed out waiting on channel".to_string());
    assert_eq!(
        worker_result(silent),
        Err("inference timed out or worker stopped: timed out waiting on channel".to_string())
    );
    let answered: Reply<u8> = Reply::Answered(Ok(7));
    assert_eq!(worker_result(answered), Ok(7));
    let failed: Reply<u8> = Reply::Answered(Err("x".to_string()));
    assert_eq!(worker_result(failed), Err("x".to_string()));
}

#[test]
fn the_clock_tells_unix_seconds() {
    let before = SystemTime::now().duration_since(UNIX_EPOCH).unwrap().as_secs();
    let now = current_unix_secs();
    assert!(before <= now && now <= before + 60);
    assert_eq!(unix_secs(Some(1_700_000_000)), 1_700_000_000);
    assert_eq!(unix_secs(None), 0);
}

#[test]
fn idle_time_counts_from_the_last_request() {
    let mut m = EngineManager::new(config());
    m.touch_at(1000);
    assert_eq!(m.seconds_idle_at(1000), 0);
    assert_eq!(m.seconds_idle_at(1234), 234);
    assert_eq!(m.seconds_idle_at(999), 0);
    m.touch();
    assert!(m.seconds_idle() < 60);
    assert_eq!(m.status(), "idle");
    let mut m = ready_manager();
    m.touch_at(7);
    m.inference_begins_at(7);
    assert_eq!(m.status(), "ready");
    assert!(m.is_ready());
}

#[test]
fn the_engine_is_made_once() {
    let mut m = ready_manager();
    for event in [
        ReadyEvent::Requested,
        ReadyEvent::ModelReady(b"/other".to_vec()),
        ReadyEvent::ModelFailed("x".to_string()),
        ReadyEvent::Loaded { config: config(), outcome: LoadOutcome::Loaded },
        ReadyEvent::LoadPanicked,
    ] {
        assert!(matches!(m.ensure_ready(event), ReadyAction::Ready));
        assert_eq!(m.status(), "ready");
        assert_eq!(m.model_name(), "m.gguf");
    }
    m.inference_begins_at(9);
    assert_eq!(m.engine().unwrap().inference_started_at, 9);
    m.inference_ends();
    assert_eq!(m.engine().unwrap().inference_started_at, 0);
}

#[test]
fn long_inferences_are_hung() {
    let mut m = ready_manager();
    assert!(!m.inference_hung_at(u64::MAX));
    m.inference_begins_at(1000);
    assert!(!m.inference_hung_at(1120));
    assert!(m.inference_hung_at(1121));
    assert!(!m.inference_hung_at(5));
    m.inference_ends();
    assert!(!m.inference_hung_at(1121));
    m.inference_begins();
    assert!(!m.inference_hung());
    let mut idle = EngineManager::new(config());
    idle.inference_begins_at(1000);
    assert!(!idle.inference_hung_at(u64::MAX));
}

#[test]
fn grammar_is_greedy_and_other_styles_are_sampled() {
    let mut c = config();
    assert_eq!(sampler_for(&c, Style::Grammar), SamplerPlan::Greedy);
    for t in [
        0.3f32, 0.01, 0.0099, 0.0, -0.0, -1.0, 2.0, 1e30, f32::INFINITY, f32::NEG_INFINITY,
        f32::NAN, f32::MIN_POSITIVE,
    ] {
        c.temperature_bits = t.to_bits();
        match sampler_for(&c, Style::Creative) {
            SamplerPlan::Chain { temperature_bits, top_k, seed } => {
                assert_eq!(temperature_bits, t.max(0.01).to_bits());
                assert_eq!(top_k, 40);
                assert_eq!(seed, 42);
            }
            SamplerPlan::Greedy => panic!("not sampled"),
        }
    }
}

#[test]
fn context_parameters() {
    let mut c = config();
    let p = make_ctx_params(&c);
    assert_eq!((p.n_ctx, p.n_threads, p.n_threads_batch), (2048, None, None));
    c.n_threads = Some(8);
    let p = make_ctx_params(&c);
    assert_eq!((p.n_ctx, p.n_threads, p.n_threads_batch), (2048, Some(8), Some(8)));
}
