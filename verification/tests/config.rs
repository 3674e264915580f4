use rewrite_it::config::{
    Config, ConfigError, ConfigOverrides, ConfigSource, DEFAULT_TEMPERATURE_BITS,
};

fn nothing() -> ConfigOverrides {
    ConfigOverrides {
        model_path: None,
        hf_repo: None,
        hf_filename: None,
        context_size: None,
        max_tokens: None,
        temperature_bits: None,
        n_gpu_layers: None,
        n_threads: None,
        seed: None,
        idle_timeout_secs: None,
        inference_timeout_secs: None,
    }
}

fn assert_same(a: &Config, b: &Config) {
    assert_eq!(a.model_path, b.model_path);
    assert_eq!(a.hf_repo, b.hf_repo);
    assert_eq!(a.hf_filename, b.hf_filename);
    assert_eq!(a.context_size, b.context_size);
    assert_eq!(a.max_tokens, b.max_tokens);
    assert_eq!(a.temperature_bits, b.temperature_bits);
    assert_eq!(a.n_gpu_layers, b.n_gpu_layers);
    assert_eq!(a.n_threads, b.n_threads);
    assert_eq!(a.seed, b.seed);
    assert_eq!(a.idle_timeout_secs, b.idle_timeout_secs);
    assert_eq!(a.inference_timeout_secs, b.inference_timeout_secs);
}

#[test]
fn defaults() {
    let c = Config::default_in(Some(b"/home/u/.local/share".to_vec()));
    assert_eq!(
        c.model_path,
        b"/home/u/.local/share/rewrite-it/models/Phi-4-mini-instruct-Q4_K_M.gguf".to_vec()
    );
    assert_eq!(c.hf_repo, "unsloth/Phi-4-mini-instruct-GGUF");
    assert_eq!(c.hf_filename, "Phi-4-mini-instruct-Q4_K_M.gguf");
    assert_eq!(c.context_size, 2048);
    assert_eq!(c.max_tokens, 512);
    assert_eq!(f32::from_bits(c.temperature_bits), 0.3);
    assert_eq!(DEFAULT_TEMPERATURE_BITS, 0.3f32.to_bits());
    assert_eq!(c.n_gpu_layers, 0);
    assert_eq!(c.n_threads, None);
    assert_eq!(c.seed, 42);
    assert_eq!(c.idle_timeout_secs, Some(300));
    assert_eq!(c.inference_timeout_secs, 120);
}

#[test]
fn defaults_without_a_data_directory() {
    let c = Config::default_in(None);
    assert_eq!(
        c.model_path,
        b".local/share/rewrite-it/models/Phi-4-mini-instruct-Q4_K_M.gguf".to_vec()
    );
}

#[test]
fn default_model_stands_below_the_users_data() {
    let dir = dirs::data_local_dir().map(|d| d.into_os_string().into_encoded_bytes());
    assert_same(&Config::default(), &Config::default_in(dir));
}

#[test]
fn settings_stand_below_the_users_settings() {
    let dir = dirs::config_dir().map(|d| d.into_os_string().into_encoded_bytes());
    assert_eq!(Config::default_path(), Config::default_path_in(dir));
    assert_eq!(
        Config::default_path_in(Some(b"/home/u/.config".to_vec())),
        b"/home/u/.config/rewrite-it/config.toml".to_vec()
    );
    assert_eq!(Config::default_path_in(None), b".config/rewrite-it/config.toml".to_vec());
}

#[test]
fn a_file_overrides_only_what_it_sets() {
    let base = Config::default_in(None);
    let mut given = nothing();
    given.n_gpu_layers = Some(33);
    let source = ConfigSource::Parsed(given);
    let loaded = Config::load_over(base.clone(), source).ok().unwrap();
    let mut expected = base;
    expected.n_gpu_layers = 33;
    assert_same(&loaded.config, &expected);
    assert!(!loaded.create_file);
}

#[test]
fn an_absent_file_is_created_with_the_defaults() {
    let loaded = Config::load(ConfigSource::Absent).ok().unwrap();
    assert!(loaded.create_file);
    assert_same(&loaded.config, &Config::default());
}

#[test]
fn unreadable_and_malformed_files_are_errors() {
    for (source, error, message) in [
        (ConfigSource::Unreadable, ConfigError::Reading, "reading config \"/c.toml\""),
        (ConfigSource::Malformed, ConfigError::Parsing, "parsing config \"/c.toml\""),
    ] {
        let e = Config::load(source).err().unwrap();
        assert_eq!(e, error);
        assert_eq!(e.message("\"/c.toml\""), message);
    }
}

#[test]
fn saved_settings_are_restored() {
    let mut c = Config::default_in(Some(b"/d".to_vec()));
    c.model_path = b"/models/\xff.gguf".to_vec();
    c.hf_repo = "me/mine".to_string();
    c.context_size = 4096;
    c.temperature_bits = 1.5f32.to_bits();
    c.n_threads = Some(8);
    for timeout in [Some(0), Some(300), Some(7), None] {
        c.idle_timeout_secs = timeout;
        let restored = Config::default_in(None).with_overrides(c.save());
        assert_same(&restored, &c);
        let source = ConfigSource::Parsed(c.save());
        assert_same(&Config::load(source).ok().unwrap().config, &c);
    }
}

#[test]
fn never_exiting_can_be_set() {
    let mut given = nothing();
    given.idle_timeout_secs = Some(None);
    let c = Config::default_in(None).with_overrides(given);
    assert_eq!(c.idle_timeout_secs, None);
    let saved = c.save();
    assert_eq!(saved.idle_timeout_secs, Some(None));
    assert_eq!(saved.n_threads, None);
    assert_eq!(saved.seed, Some(42));
}
