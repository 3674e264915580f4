use rewrite_it::config::Config;
use rewrite_it::model::{ensure_model, FetchAction, FetchEvent, ModelFetch};

fn begin() -> ModelFetch {
    ensure_model(&Config::default_in(Some(b"/d".to_vec())))
}

fn path() -> Vec<u8> {
    b"/d/rewrite-it/models/Phi-4-mini-instruct-Q4_K_M.gguf".to_vec()
}

fn feed(mut fetch: ModelFetch, events: Vec<FetchEvent>) -> ModelFetch {
    for event in events {
        assert!(fetch.awaits(&event));
        fetch = fetch.resume(event);
    }
    fetch
}

fn result_of(fetch: &ModelFetch) -> Result<Vec<u8>, String> {
    match fetch.action() {
        FetchAction::Finish(r) => r,
        _ => panic!("not finished"),
    }
}

#[test]
fn a_present_model_is_used() {
    let fetch = begin();
    match fetch.action() {
        FetchAction::Look { path: p } => assert_eq!(p, path()),
        _ => panic!("no look"),
    }
    let fetch = feed(fetch, vec![FetchEvent::Looked { found: true }]);
    assert_eq!(result_of(&fetch), Ok(path()));
    assert!(!fetch.awaits(&FetchEvent::Copied));
}

#[test]
fn an_absent_model_is_downloaded_and_copied() {
    let fetch = feed(begin(), vec![FetchEvent::Looked { found: false }]);
    match fetch.action() {
        FetchAction::CreateParent { path: p } => assert_eq!(p, path()),
        _ => panic!("no directory"),
    }
    let fetch = feed(fetch, vec![FetchEvent::ParentReady]);
    match fetch.action() {
        FetchAction::Connect { announcement } => assert_eq!(
            announcement,
            "Downloading Phi-4-mini-instruct-Q4_K_M.gguf from unsloth/Phi-4-mini-instruct-GGUF …\n(this is a one-time download, ~2–4 GB depending on the model)"
        ),
        _ => panic!("no connection"),
    }
    let fetch = feed(fetch, vec![FetchEvent::Connected]);
    match fetch.action() {
        FetchAction::Download { repo, filename } => {
            assert_eq!(repo, "unsloth/Phi-4-mini-instruct-GGUF");
            assert_eq!(filename, "Phi-4-mini-instruct-Q4_K_M.gguf");
        }
        _ => panic!("no download"),
    }
    let fetch = feed(fetch, vec![FetchEvent::Downloaded { path: b"/cache/x".to_vec() }]);
    match fetch.action() {
        FetchAction::Copy { from, to } => {
            assert_eq!(from, b"/cache/x".to_vec());
            assert_eq!(to, path());
        }
        _ => panic!("no copy"),
    }
    let fetch = feed(fetch, vec![FetchEvent::Copied]);
    assert_eq!(result_of(&fetch), Ok(path()));
}

#[test]
fn each_failure_has_its_message() {
    let looked = || FetchEvent::Looked { found: false };
    let fetch = feed(
        begin(),
        vec![looked(), FetchEvent::ParentFailed { dir: "\"/d\"".to_string() }],
    );
    assert_eq!(result_of(&fetch), Err("creating model directory \"/d\"".to_string()));
    let fetch = feed(begin(), vec![looked(), FetchEvent::ParentReady, FetchEvent::ConnectFailed]);
    assert_eq!(result_of(&fetch), Err("building HuggingFace API client".to_string()));
    let fetch = feed(
        begin(),
        vec![
            looked(),
            FetchEvent::ParentReady,
            FetchEvent::Connected,
            FetchEvent::DownloadFailed,
        ],
    );
    assert_eq!(
        result_of(&fetch),
        Err("downloading unsloth/Phi-4-mini-instruct-GGUF/Phi-4-mini-instruct-Q4_K_M.gguf from HuggingFace".to_string())
    );
    let fetch = feed(
        begin(),
        vec![
            looked(),
            FetchEvent::ParentReady,
            FetchEvent::Connected,
            FetchEvent::Downloaded { path: b"/c".to_vec() },
            FetchEvent::CopyFailed { from: "\"/c\"".to_string(), to: "\"/m\"".to_string() },
        ],
    );
    assert_eq!(result_of(&fetch), Err("copying model from \"/c\" to \"/m\"".to_string()));
}
