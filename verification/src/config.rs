//! Settings: their defaults, where they are kept, and how a settings file
//! overrides the defaults.

use vstd::prelude::*;
use vstd::utf8::encode_utf8;

use crate::path::{file_name, file_name_of_joined, join, joined, SLASH};

verus! {

pub const DEFAULT_HF_REPO: &'static str = "unsloth/Phi-4-mini-instruct-GGUF";

pub const DEFAULT_HF_FILENAME: &'static str = "Phi-4-mini-instruct-Q4_K_M.gguf";

/// The bits of 0.3 in single precision.
pub const DEFAULT_TEMPERATURE_BITS: u32 = 0x3e99_999a;

/// Settings read from `~/.config/rewrite-it/config.toml` (created with defaults on first run).
pub struct Config {
    /// Absolute path to the GGUF model file. Auto-downloaded when absent.
    pub model_path: Vec<u8>,
    /// HuggingFace repository for the automatic download fallback.
    pub hf_repo: String,
    /// Filename within the HF repository to download.
    pub hf_filename: String,
    /// KV-cache context window in tokens.
    pub context_size: u32,
    /// Maximum *new* tokens the model may generate per request.
    pub max_tokens: u32,
    /// Sampling temperature (0 < t ≤ 2), as the bits of a single-precision
    /// number. Lower = more deterministic.
    pub temperature_bits: u32,
    /// Number of transformer layers to offload to the GPU (0 = CPU-only).
    pub n_gpu_layers: u32,
    /// CPU thread count for inference (None → auto-detect).
    pub n_threads: Option<i32>,
    /// Random seed for reproducible sampling.
    pub seed: u32,
    /// Seconds of inactivity before the daemon exits automatically (None = never).
    pub idle_timeout_secs: Option<u64>,
    /// Maximum seconds a single inference request may run before it is
    /// considered hung and returns an error (watchdog also uses this).
    pub inference_timeout_secs: u64,
}

/// What a [`Config`] says.
#[verifier::ext_equal]
pub struct Settings {
    pub model_path: Seq<u8>,
    pub hf_repo: Seq<char>,
    pub hf_filename: Seq<char>,
    pub context_size: u32,
    pub max_tokens: u32,
    pub temperature_bits: u32,
    pub n_gpu_layers: u32,
    pub n_threads: Option<i32>,
    pub seed: u32,
    pub idle_timeout_secs: Option<u64>,
    pub inference_timeout_secs: u64,
}

impl View for Config {
    type V = Settings;

    open spec fn view(&self) -> Settings {
        Settings {
            model_path: self.model_path@,
            hf_repo: self.hf_repo@,
            hf_filename: self.hf_filename@,
            context_size: self.context_size,
            max_tokens: self.max_tokens,
            temperature_bits: self.temperature_bits,
            n_gpu_layers: self.n_gpu_layers,
            n_threads: self.n_threads,
            seed: self.seed,
            idle_timeout_secs: self.idle_timeout_secs,
            inference_timeout_secs: self.inference_timeout_secs,
        }
    }
}

/// The settings that a file gives; the others keep their defaults.
pub struct ConfigOverrides {
    pub model_path: Option<Vec<u8>>,
    pub hf_repo: Option<String>,
    pub hf_filename: Option<String>,
    pub context_size: Option<u32>,
    pub max_tokens: Option<u32>,
    pub temperature_bits: Option<u32>,
    pub n_gpu_layers: Option<u32>,
    pub n_threads: Option<i32>,
    pub seed: Option<u32>,
    /// `Some(None)` where the daemon is never to exit by itself.
    pub idle_timeout_secs: Option<Option<u64>>,
    pub inference_timeout_secs: Option<u64>,
}

/// What a [`ConfigOverrides`] says.
#[verifier::ext_equal]
pub struct SettingsOverrides {
    pub model_path: Option<Seq<u8>>,
    pub hf_repo: Option<Seq<char>>,
    pub hf_filename: Option<Seq<char>>,
    pub context_size: Option<u32>,
    pub max_tokens: Option<u32>,
    pub temperature_bits: Option<u32>,
    pub n_gpu_layers: Option<u32>,
    pub n_threads: Option<i32>,
    pub seed: Option<u32>,
    /// `Some(None)` where the daemon is never to exit by itself.
    pub idle_timeout_secs: Option<Option<u64>>,
    pub inference_timeout_secs: Option<u64>,
}

pub open spec fn bytes_view(v: Option<Vec<u8>>) -> Option<Seq<u8>> {
    match v {
        Some(v) => Some(v@),
        None => None,
    }
}

pub open spec fn text_view(v: Option<String>) -> Option<Seq<char>> {
    match v {
        Some(v) => Some(v@),
        None => None,
    }
}

impl View for ConfigOverrides {
    type V = SettingsOverrides;

    open spec fn view(&self) -> SettingsOverrides {
        SettingsOverrides {
            model_path: bytes_view(self.model_path),
            hf_repo: text_view(self.hf_repo),
            hf_filename: text_view(self.hf_filename),
            context_size: self.context_size,
            max_tokens: self.max_tokens,
            temperature_bits: self.temperature_bits,
            n_gpu_layers: self.n_gpu_layers,
            n_threads: self.n_threads,
            seed: self.seed,
            idle_timeout_secs: self.idle_timeout_secs,
            inference_timeout_secs: self.inference_timeout_secs,
        }
    }
}

/// `given` where there is one, else `default`.
pub open spec fn given_or<T>(given: Option<T>, default: T) -> T {
    match given {
        Some(v) => v,
        None => default,
    }
}

/// `base`, with each setting that `given` holds in place of its own.
pub open spec fn overridden(base: Settings, given: SettingsOverrides) -> Settings {
    Settings {
        model_path: given_or(given.model_path, base.model_path),
        hf_repo: given_or(given.hf_repo, base.hf_repo),
        hf_filename: given_or(given.hf_filename, base.hf_filename),
        context_size: given_or(given.context_size, base.context_size),
        max_tokens: given_or(given.max_tokens, base.max_tokens),
        temperature_bits: given_or(given.temperature_bits, base.temperature_bits),
        n_gpu_layers: given_or(given.n_gpu_layers, base.n_gpu_layers),
        n_threads: if given.n_threads is Some {
            given.n_threads
        } else {
            base.n_threads
        },
        seed: given_or(given.seed, base.seed),
        idle_timeout_secs: given_or(given.idle_timeout_secs, base.idle_timeout_secs),
        inference_timeout_secs: given_or(
            given.inference_timeout_secs,
            base.inference_timeout_secs,
        ),
    }
}

/// What a file holds that `settings` were saved to.
pub open spec fn saved(settings: Settings) -> SettingsOverrides {
    SettingsOverrides {
        model_path: Some(settings.model_path),
        hf_repo: Some(settings.hf_repo),
        hf_filename: Some(settings.hf_filename),
        context_size: Some(settings.context_size),
        max_tokens: Some(settings.max_tokens),
        temperature_bits: Some(settings.temperature_bits),
        n_gpu_layers: Some(settings.n_gpu_layers),
        n_threads: settings.n_threads,
        seed: Some(settings.seed),
        idle_timeout_secs: Some(settings.idle_timeout_secs),
        inference_timeout_secs: Some(settings.inference_timeout_secs),
    }
}

/// The directory `dir`, or `fallback` where there is none.
pub open spec fn dir_or(dir: Option<Seq<u8>>, fallback: Seq<char>) -> Seq<u8> {
    given_or(dir, encode_utf8(fallback))
}

/// Where the default model is kept, given the directory for a user's data.
pub open spec fn default_model_path(data_dir: Option<Seq<u8>>) -> Seq<u8> {
    joined(
        joined(
            joined(dir_or(data_dir, ".local/share"@), encode_utf8("rewrite-it"@)),
            encode_utf8("models"@),
        ),
        encode_utf8(DEFAULT_HF_FILENAME@),
    )
}

/// Where the settings are kept, given the directory for a user's settings.
pub open spec fn settings_path(config_dir: Option<Seq<u8>>) -> Seq<u8> {
    joined(
        joined(dir_or(config_dir, ".config"@), encode_utf8("rewrite-it"@)),
        encode_utf8("config.toml"@),
    )
}

/// The default settings, given the directory for a user's data.
pub open spec fn default_settings(data_dir: Option<Seq<u8>>) -> Settings {
    Settings {
        model_path: default_model_path(data_dir),
        hf_repo: DEFAULT_HF_REPO@,
        hf_filename: DEFAULT_HF_FILENAME@,
        context_size: 2048,
        max_tokens: 512,
        temperature_bits: DEFAULT_TEMPERATURE_BITS,
        n_gpu_layers: 0,
        n_threads: None,
        seed: 42,
        idle_timeout_secs: Some(300),
        inference_timeout_secs: 120,
    }
}

/// `dirs::data_local_dir`: the directory for a user's data, as the environment
/// has it, in the bytes of its path. Nothing is known of it.
#[verifier::external_body]
fn data_local_dir() -> (r: Option<Vec<u8>>) {
    dirs::data_local_dir().map(|dir| dir.into_os_string().into_encoded_bytes())
}

/// `dirs::config_dir`: the directory for a user's settings, as the environment
/// has it, in the bytes of its path. Nothing is known of it.
#[verifier::external_body]
fn config_dir() -> (r: Option<Vec<u8>>) {
    dirs::config_dir().map(|dir| dir.into_os_string().into_encoded_bytes())
}

/// Can `dir` be the directory for a user's data, as `dirs::data_local_dir`
/// returns it?
pub closed spec fn data_dir_can_be(dir: Option<Seq<u8>>) -> bool {
    exists|v: Option<Vec<u8>>| #[trigger]
        call_ensures(data_local_dir, (), v) && dir == bytes_view(v)
}

/// Can `dir` be the directory for a user's settings, as `dirs::config_dir`
/// returns it?
pub closed spec fn config_dir_can_be(dir: Option<Seq<u8>>) -> bool {
    exists|v: Option<Vec<u8>>| #[trigger] call_ensures(config_dir, (), v) && dir == bytes_view(v)
}

/// The same bytes once more.
pub(crate) fn copy_bytes(v: &Vec<u8>) -> (r: Vec<u8>)
    ensures
        r@ == v@,
{
    let mut r: Vec<u8> = Vec::new();
    r.extend_from_slice(v.as_slice());
    assert(r@ =~= v@);
    r
}

/// The state of the settings file.
pub enum ConfigSource {
    /// There is no such file.
    Absent,
    /// The file could not be read.
    Unreadable,
    /// The file holds no settings.
    Malformed,
    /// The settings that the file gives.
    Parsed(ConfigOverrides),
}

/// Why no settings could be loaded.
#[derive(Debug, Clone, Copy, PartialEq, Eq, Structural)]
pub enum ConfigError {
    Reading,
    Parsing,
}

impl ConfigError {
    pub open spec fn text(self, path: Seq<char>) -> Seq<char> {
        match self {
            ConfigError::Reading => "reading config "@ + path,
            ConfigError::Parsing => "parsing config "@ + path,
        }
    }

    /// The message, given the path of the file as it is shown to people.
    pub fn message(&self, path: &str) -> (r: String)
        ensures
            r@ == self.text(path@),
    {
        let mut r = match self {
            ConfigError::Reading => "reading config ".to_owned(),
            ConfigError::Parsing => "parsing config ".to_owned(),
        };
        r.append(path);
        r
    }
}

/// Settings, and whether the file has to be created with them.
pub struct LoadedConfig {
    pub config: Config,
    pub create_file: bool,
}

/// What loading comes to with `base` as the defaults: settings, and whether the
/// file has to be created with them.
pub open spec fn loaded(base: Settings, source: ConfigSource) -> Result<
    (Settings, bool),
    ConfigError,
> {
    match source {
        ConfigSource::Absent => Ok((base, true)),
        ConfigSource::Unreadable => Err(ConfigError::Reading),
        ConfigSource::Malformed => Err(ConfigError::Parsing),
        ConfigSource::Parsed(given) => Ok((overridden(base, given@), false)),
    }
}

impl LoadedConfig {
    /// Does `r` hold what loading comes to?
    pub open spec fn agrees(
        r: Result<LoadedConfig, ConfigError>,
        expected: Result<(Settings, bool), ConfigError>,
    ) -> bool {
        match (r, expected) {
            (Ok(l), Ok((settings, create))) => l.config@ == settings && l.create_file == create,
            (Err(e), Err(x)) => e == x,
            _ => false,
        }
    }
}

impl Clone for Config {
    fn clone(&self) -> (r: Self)
        ensures
            r@ == self@,
    {
        Config {
            model_path: copy_bytes(&self.model_path),
            hf_repo: self.hf_repo.clone(),
            hf_filename: self.hf_filename.clone(),
            context_size: self.context_size,
            max_tokens: self.max_tokens,
            temperature_bits: self.temperature_bits,
            n_gpu_layers: self.n_gpu_layers,
            n_threads: self.n_threads,
            seed: self.seed,
            idle_timeout_secs: self.idle_timeout_secs,
            inference_timeout_secs: self.inference_timeout_secs,
        }
    }
}

impl Default for Config {
    /// The defaults, with the model below the user's data directory.
    fn default() -> (r: Self)
        ensures
            exists|dir: Option<Seq<u8>>| #[trigger]
                data_dir_can_be(dir) && r@ == default_settings(dir),
    {
        let dir = data_local_dir();
        assert(data_dir_can_be(bytes_view(dir)));
        Config::default_in(dir)
    }
}

impl Config {
    /// The defaults, with the model below the data directory `data_dir`, or
    /// below `.local/share` where the user has none.
    pub fn default_in(data_dir: Option<Vec<u8>>) -> (r: Config)
        ensures
            r@ == default_settings(bytes_view(data_dir)),
    {
        let base = match data_dir {
            Some(dir) => dir,
            None => vec_of_text(".local/share"),
        };
        let model_dir = join(join(base, "rewrite-it"), "models");
        Config {
            model_path: join(model_dir, DEFAULT_HF_FILENAME),
            hf_repo: DEFAULT_HF_REPO.to_owned(),
            hf_filename: DEFAULT_HF_FILENAME.to_owned(),
            context_size: 2048,
            max_tokens: 512,
            temperature_bits: DEFAULT_TEMPERATURE_BITS,
            n_gpu_layers: 0,
            n_threads: None,
            seed: 42,
            idle_timeout_secs: Some(300),
            inference_timeout_secs: 120,
        }
    }

    /// These settings, with each one that `given` holds in place of its own.
    pub fn with_overrides(self, given: ConfigOverrides) -> (r: Config)
        ensures
            r@ == overridden(self@, given@),
    {
        Config {
            model_path: given.model_path.unwrap_or(self.model_path),
            hf_repo: given.hf_repo.unwrap_or(self.hf_repo),
            hf_filename: given.hf_filename.unwrap_or(self.hf_filename),
            context_size: given.context_size.unwrap_or(self.context_size),
            max_tokens: given.max_tokens.unwrap_or(self.max_tokens),
            temperature_bits: given.temperature_bits.unwrap_or(self.temperature_bits),
            n_gpu_layers: given.n_gpu_layers.unwrap_or(self.n_gpu_layers),
            n_threads: match given.n_threads {
                Some(n) => Some(n),
                None => self.n_threads,
            },
            seed: given.seed.unwrap_or(self.seed),
            idle_timeout_secs: given.idle_timeout_secs.unwrap_or(self.idle_timeout_secs),
            inference_timeout_secs: given.inference_timeout_secs.unwrap_or(
                self.inference_timeout_secs,
            ),
        }
    }

    /// What to write to the file so that these settings are kept. The number of
    /// threads is left out where it is not set, as it is by default.
    pub fn save(&self) -> (r: ConfigOverrides)
        ensures
            r@ == saved(self@),
    {
        let c = self.clone();
        ConfigOverrides {
            model_path: Some(c.model_path),
            hf_repo: Some(c.hf_repo),
            hf_filename: Some(c.hf_filename),
            context_size: Some(c.context_size),
            max_tokens: Some(c.max_tokens),
            temperature_bits: Some(c.temperature_bits),
            n_gpu_layers: Some(c.n_gpu_layers),
            n_threads: c.n_threads,
            seed: Some(c.seed),
            idle_timeout_secs: Some(c.idle_timeout_secs),
            inference_timeout_secs: Some(c.inference_timeout_secs),
        }
    }

    /// The settings of a file over `base`; `base` itself, to be written to the
    /// file, where there is none.
    pub fn load_over(base: Config, source: ConfigSource) -> (r: Result<LoadedConfig, ConfigError>)
        ensures
            LoadedConfig::agrees(r, loaded(base@, source)),
    {
        match source {
            ConfigSource::Absent => Ok(LoadedConfig { config: base, create_file: true }),
            ConfigSource::Unreadable => Err(ConfigError::Reading),
            ConfigSource::Malformed => Err(ConfigError::Parsing),
            ConfigSource::Parsed(given) => Ok(
                LoadedConfig { config: base.with_overrides(given), create_file: false },
            ),
        }
    }

    /// The settings of the file at the default path, creating defaults when the
    /// file is absent.
    pub fn load(source: ConfigSource) -> (r: Result<LoadedConfig, ConfigError>)
        ensures
            exists|dir: Option<Seq<u8>>|
                #[trigger]
                data_dir_can_be(dir) && LoadedConfig::agrees(
                    r,
                    loaded(default_settings(dir), source),
                ),
    {
        Config::load_over(Config::default(), source)
    }

    /// Where the settings are kept below `config_dir`, or below `.config` where
    /// the user has no directory for them.
    pub fn default_path_in(config_dir: Option<Vec<u8>>) -> (r: Vec<u8>)
        ensures
            r@ == settings_path(bytes_view(config_dir)),
    {
        let base = match config_dir {
            Some(dir) => dir,
            None => vec_of_text(".config"),
        };
        join(join(base, "rewrite-it"), "config.toml")
    }

    /// Where the settings are kept.
    pub fn default_path() -> (r: Vec<u8>)
        ensures
            exists|dir: Option<Seq<u8>>| #[trigger]
                config_dir_can_be(dir) && r@ == settings_path(dir),
    {
        let dir = config_dir();
        assert(config_dir_can_be(bytes_view(dir)));
        Config::default_path_in(dir)
    }
}

fn vec_of_text(s: &str) -> (r: Vec<u8>)
    ensures
        r@ == encode_utf8(s@),
{
    let mut r: Vec<u8> = Vec::new();
    r.extend_from_slice(s.as_bytes());
    assert(r@ =~= encode_utf8(s@));
    r
}

// ── Laws ─────────────────────────────────────────────────────────────────────

/// Loading what was saved gives the saved settings back, whatever they are and
/// wherever the data directory is.
pub proof fn saving_then_loading_restores(data_dir: Option<Seq<u8>>, settings: Settings)
    ensures
        overridden(default_settings(data_dir), saved(settings)) == settings,
{
}

/// Wherever the data directory is, these are the defaults.
pub proof fn defaults_are_as_documented(data_dir: Option<Seq<u8>>)
    ensures
        ({
            let d = default_settings(data_dir);
            &&& d.hf_repo == "unsloth/Phi-4-mini-instruct-GGUF"@
            &&& d.hf_filename == "Phi-4-mini-instruct-Q4_K_M.gguf"@
            &&& d.context_size == 2048
            &&& d.max_tokens == 512
            &&& d.temperature_bits == 0x3e99_999au32
            &&& d.n_gpu_layers == 0
            &&& d.n_threads is None
            &&& d.seed == 42
            &&& d.idle_timeout_secs == Some(300u64)
            &&& d.inference_timeout_secs == 120
        }),
{
}

/// The default model stands in `rewrite-it/models` below the data directory, and
/// the settings in `rewrite-it` below the directory for settings. A user who has
/// no such directory has `.local/share` and `.config` in its place.
pub proof fn files_stand_below_the_users_directories(dir: Seq<u8>)
    ensures
        dir.len() > 0 && dir.last() != 0x2f ==> {
            &&& default_settings(Some(dir)).model_path == dir + encode_utf8(
                "/rewrite-it/models/Phi-4-mini-instruct-Q4_K_M.gguf"@,
            )
            &&& settings_path(Some(dir)) == dir + encode_utf8("/rewrite-it/config.toml"@)
        },
        dir.len() == 0 || dir.last() == 0x2f ==> {
            &&& default_settings(Some(dir)).model_path == dir + encode_utf8(
                "rewrite-it/models/Phi-4-mini-instruct-Q4_K_M.gguf"@,
            )
            &&& settings_path(Some(dir)) == dir + encode_utf8("rewrite-it/config.toml"@)
        },
        default_settings(None).model_path == encode_utf8(
            ".local/share/rewrite-it/models/Phi-4-mini-instruct-Q4_K_M.gguf"@,
        ),
        settings_path(None) == encode_utf8(".config/rewrite-it/config.toml"@),
{
    lemma_literals();
    let app = encode_utf8("rewrite-it"@);
    let models = encode_utf8("models"@);
    let file = encode_utf8("Phi-4-mini-instruct-Q4_K_M.gguf"@);
    let toml = encode_utf8("config.toml"@);
    assert(app.last() != SLASH && app[0] != SLASH);
    assert(models.last() != SLASH && models[0] != SLASH);
    assert(file[0] != SLASH && toml[0] != SLASH);
    let bare = dir.len() == 0 || dir.last() == SLASH;
    let below = if bare {
        dir + app
    } else {
        dir.push(SLASH) + app
    };
    assert(joined(dir, app) == below);
    assert(below.last() == app.last());
    let deeper = below.push(SLASH) + models;
    assert(joined(below, models) == deeper);
    assert(deeper.last() == models.last());
    assert(joined(deeper, file) == deeper.push(SLASH) + file);
    assert(joined(below, toml) == below.push(SLASH) + toml);
    if bare {
        assert(deeper.push(SLASH) + file =~= dir + encode_utf8(
            "rewrite-it/models/Phi-4-mini-instruct-Q4_K_M.gguf"@,
        ));
        assert(below.push(SLASH) + toml =~= dir + encode_utf8("rewrite-it/config.toml"@));
    } else {
        assert(deeper.push(SLASH) + file =~= dir + encode_utf8(
            "/rewrite-it/models/Phi-4-mini-instruct-Q4_K_M.gguf"@,
        ));
        assert(below.push(SLASH) + toml =~= dir + encode_utf8("/rewrite-it/config.toml"@));
    }
    lemma_fallbacks();
}

proof fn lemma_literals()
    ensures
        is_bytes_of("rewrite-it"@),
        is_bytes_of("models"@),
        is_bytes_of("Phi-4-mini-instruct-Q4_K_M.gguf"@),
        is_bytes_of("config.toml"@),
        is_bytes_of("/rewrite-it/models/Phi-4-mini-instruct-Q4_K_M.gguf"@),
        is_bytes_of("rewrite-it/models/Phi-4-mini-instruct-Q4_K_M.gguf"@),
        is_bytes_of("/rewrite-it/config.toml"@),
        is_bytes_of("rewrite-it/config.toml"@),
        "/rewrite-it/models/Phi-4-mini-instruct-Q4_K_M.gguf"@ == seq!['/'] + "rewrite-it"@ + seq!['/']
            + "models"@ + seq!['/'] + "Phi-4-mini-instruct-Q4_K_M.gguf"@,
        "rewrite-it/models/Phi-4-mini-instruct-Q4_K_M.gguf"@ == "rewrite-it"@ + seq!['/'] + "models"@
            + seq!['/'] + "Phi-4-mini-instruct-Q4_K_M.gguf"@,
        "/rewrite-it/config.toml"@ == seq!['/'] + "rewrite-it"@ + seq!['/'] + "config.toml"@,
        "rewrite-it/config.toml"@ == "rewrite-it"@ + seq!['/'] + "config.toml"@,
        "rewrite-it"@.len() > 0 && "rewrite-it"@[0] == 'r' && "rewrite-it"@.last() == 't',
        "models"@.len() > 0 && "models"@[0] == 'm' && "models"@.last() == 's',
        "Phi-4-mini-instruct-Q4_K_M.gguf"@.len() > 0 && "Phi-4-mini-instruct-Q4_K_M.gguf"@[0] == 'P',
        "config.toml"@.len() > 0 && "config.toml"@[0] == 'c',
{
    reveal_strlit("rewrite-it");
    reveal_strlit("models");
    reveal_strlit("Phi-4-mini-instruct-Q4_K_M.gguf");
    reveal_strlit("config.toml");
    reveal_strlit("/rewrite-it/models/Phi-4-mini-instruct-Q4_K_M.gguf");
    reveal_strlit("rewrite-it/models/Phi-4-mini-instruct-Q4_K_M.gguf");
    reveal_strlit("/rewrite-it/config.toml");
    reveal_strlit("rewrite-it/config.toml");
    vstd::utf8::is_ascii_chars_encode_utf8("rewrite-it"@);
    vstd::utf8::is_ascii_chars_encode_utf8("models"@);
    vstd::utf8::is_ascii_chars_encode_utf8("Phi-4-mini-instruct-Q4_K_M.gguf"@);
    vstd::utf8::is_ascii_chars_encode_utf8("config.toml"@);
    vstd::utf8::is_ascii_chars_encode_utf8("/rewrite-it/models/Phi-4-mini-instruct-Q4_K_M.gguf"@);
    vstd::utf8::is_ascii_chars_encode_utf8("rewrite-it/models/Phi-4-mini-instruct-Q4_K_M.gguf"@);
    vstd::utf8::is_ascii_chars_encode_utf8("/rewrite-it/config.toml"@);
    vstd::utf8::is_ascii_chars_encode_utf8("rewrite-it/config.toml"@);
    assert("/rewrite-it/models/Phi-4-mini-instruct-Q4_K_M.gguf"@ =~= seq!['/'] + "rewrite-it"@
        + seq!['/'] + "models"@ + seq!['/'] + "Phi-4-mini-instruct-Q4_K_M.gguf"@);
    assert("rewrite-it/models/Phi-4-mini-instruct-Q4_K_M.gguf"@ =~= "rewrite-it"@ + seq!['/']
        + "models"@ + seq!['/'] + "Phi-4-mini-instruct-Q4_K_M.gguf"@);
    assert("/rewrite-it/config.toml"@ =~= seq!['/'] + "rewrite-it"@ + seq!['/'] + "config.toml"@);
    assert("rewrite-it/config.toml"@ =~= "rewrite-it"@ + seq!['/'] + "config.toml"@);
}

/// In UTF-8 each character of `s` is the one byte of its number.
spec fn is_bytes_of(s: Seq<char>) -> bool {
    &&& encode_utf8(s).len() == s.len()
    &&& forall|i: int| 0 <= i < s.len() ==> #[trigger] encode_utf8(s)[i] == s[i] as u8
}

proof fn lemma_fallbacks()
    ensures
        default_model_path(None) == encode_utf8(
            ".local/share/rewrite-it/models/Phi-4-mini-instruct-Q4_K_M.gguf"@,
        ),
        settings_path(None) == encode_utf8(".config/rewrite-it/config.toml"@),
{
    lemma_literals();
    reveal_strlit(".local/share");
    reveal_strlit(".config");
    reveal_strlit("rewrite-it");
    reveal_strlit("models");
    reveal_strlit("Phi-4-mini-instruct-Q4_K_M.gguf");
    reveal_strlit("config.toml");
    reveal_strlit(".local/share/rewrite-it/models/Phi-4-mini-instruct-Q4_K_M.gguf");
    reveal_strlit(".config/rewrite-it/config.toml");
    vstd::utf8::is_ascii_chars_encode_utf8(".local/share"@);
    vstd::utf8::is_ascii_chars_encode_utf8(".config"@);
    vstd::utf8::is_ascii_chars_encode_utf8(
        ".local/share/rewrite-it/models/Phi-4-mini-instruct-Q4_K_M.gguf"@,
    );
    vstd::utf8::is_ascii_chars_encode_utf8(".config/rewrite-it/config.toml"@);
    assert(default_model_path(None) =~= encode_utf8(
        ".local/share/rewrite-it/models/Phi-4-mini-instruct-Q4_K_M.gguf"@,
    ));
    assert(settings_path(None) =~= encode_utf8(".config/rewrite-it/config.toml"@));
}

/// The user's directories are what `dirs` says they are.
proof fn directories_come_from_the_environment(dir: Option<Seq<u8>>)
    ensures
        data_dir_can_be(dir) ==> exists|v: Option<Vec<u8>>| #[trigger]
            call_ensures(data_local_dir, (), v) && dir == bytes_view(v),
        config_dir_can_be(dir) ==> exists|v: Option<Vec<u8>>| #[trigger]
            call_ensures(config_dir, (), v) && dir == bytes_view(v),
{
}

/// Every setting is written to the file under its own name; only a number of
/// threads that is not set is left out.
pub proof fn every_setting_is_saved(settings: Settings)
    ensures
        ({
            let f = saved(settings);
            &&& f.model_path == Some(settings.model_path)
            &&& f.hf_repo == Some(settings.hf_repo)
            &&& f.hf_filename == Some(settings.hf_filename)
            &&& f.context_size == Some(settings.context_size)
            &&& f.max_tokens == Some(settings.max_tokens)
            &&& f.temperature_bits == Some(settings.temperature_bits)
            &&& f.n_gpu_layers == Some(settings.n_gpu_layers)
            &&& f.n_threads == settings.n_threads
            &&& f.seed == Some(settings.seed)
            &&& f.idle_timeout_secs == Some(settings.idle_timeout_secs)
            &&& f.inference_timeout_secs == Some(settings.inference_timeout_secs)
        }),
{
}

/// What was loaded is held to what loading comes to: the same settings and the
/// same word on the file, or the same error.
pub proof fn loaded_settings_are_held_to_the_file(
    r: Result<LoadedConfig, ConfigError>,
    expected: Result<(Settings, bool), ConfigError>,
)
    requires
        LoadedConfig::agrees(r, expected),
    ensures
        r is Ok <==> expected is Ok,
        r matches Ok(l) ==> expected == Ok::<(Settings, bool), ConfigError>(
            (l.config@, l.create_file),
        ),
        r matches Err(e) ==> expected == Err::<(Settings, bool), ConfigError>(e),
{
}

/// Each setting of a file takes the place of the default of the same name and of
/// no other.
pub proof fn each_setting_overrides_its_own_default(base: Settings, given: SettingsOverrides)
    ensures
        ({
            let r = overridden(base, given);
            &&& given.model_path == Some(r.model_path) || (given.model_path is None && r.model_path
                == base.model_path)
            &&& given.hf_repo == Some(r.hf_repo) || (given.hf_repo is None && r.hf_repo
                == base.hf_repo)
            &&& given.hf_filename == Some(r.hf_filename) || (given.hf_filename is None
                && r.hf_filename == base.hf_filename)
            &&& given.context_size == Some(r.context_size) || (given.context_size is None
                && r.context_size == base.context_size)
            &&& given.max_tokens == Some(r.max_tokens) || (given.max_tokens is None && r.max_tokens
                == base.max_tokens)
            &&& given.temperature_bits == Some(r.temperature_bits) || (given.temperature_bits is None
                && r.temperature_bits == base.temperature_bits)
            &&& given.n_gpu_layers == Some(r.n_gpu_layers) || (given.n_gpu_layers is None
                && r.n_gpu_layers == base.n_gpu_layers)
            &&& r.n_threads == given.n_threads || (given.n_threads is None && r.n_threads
                == base.n_threads)
            &&& given.n_threads is None ==> r.n_threads == base.n_threads
            &&& given.seed == Some(r.seed) || (given.seed is None && r.seed == base.seed)
            &&& given.idle_timeout_secs == Some(r.idle_timeout_secs) || (
            given.idle_timeout_secs is None && r.idle_timeout_secs == base.idle_timeout_secs)
            &&& given.inference_timeout_secs == Some(r.inference_timeout_secs) || (
            given.inference_timeout_secs is None && r.inference_timeout_secs
                == base.inference_timeout_secs)
        }),
{
}

/// A view of settings holds each of them under its own name.
pub proof fn settings_are_viewed_by_name(c: Config, given: ConfigOverrides)
    ensures
        c@.model_path == c.model_path@,
        c@.hf_repo == c.hf_repo@,
        c@.hf_filename == c.hf_filename@,
        c@.context_size == c.context_size,
        c@.max_tokens == c.max_tokens,
        c@.temperature_bits == c.temperature_bits,
        c@.n_gpu_layers == c.n_gpu_layers,
        c@.n_threads == c.n_threads,
        c@.seed == c.seed,
        c@.idle_timeout_secs == c.idle_timeout_secs,
        c@.inference_timeout_secs == c.inference_timeout_secs,
        given@.context_size == given.context_size,
        given@.max_tokens == given.max_tokens,
        given@.temperature_bits == given.temperature_bits,
        given@.n_gpu_layers == given.n_gpu_layers,
        given@.n_threads == given.n_threads,
        given@.seed == given.seed,
        given@.idle_timeout_secs == given.idle_timeout_secs,
        given@.inference_timeout_secs == given.inference_timeout_secs,
        given.model_path matches Some(path) ==> given@.model_path == Some(path@),
        given.model_path is None ==> given@.model_path is None,
        given.hf_repo matches Some(repo) ==> given@.hf_repo == Some(repo@),
        given.hf_repo is None ==> given@.hf_repo is None,
        given.hf_filename matches Some(name) ==> given@.hf_filename == Some(name@),
        given.hf_filename is None ==> given@.hf_filename is None,
{
}

/// The file is written just when there is none; one that cannot be read, or that
/// holds no settings, is an error and is never written over. The messages name
/// the file.
pub proof fn files_are_created_only_where_there_is_none(
    base: Settings,
    source: ConfigSource,
    path: Seq<char>,
)
    ensures
        source is Absent ==> loaded(base, source) == Ok::<(Settings, bool), ConfigError>((base, true)),
        source is Parsed ==> (loaded(base, source) matches Ok((_, create)) && !create),
        source is Unreadable ==> loaded(base, source) == Err::<(Settings, bool), ConfigError>(
            ConfigError::Reading,
        ),
        source is Malformed ==> loaded(base, source) == Err::<(Settings, bool), ConfigError>(
            ConfigError::Parsing,
        ),
        source matches ConfigSource::Parsed(given) ==> (loaded(base, source) matches Ok((settings, _))
            && settings == overridden(base, given@)),
        ConfigError::Reading.text(path) == "reading config "@ + path,
        ConfigError::Parsing.text(path) == "parsing config "@ + path,
{
}

/// A file that sets nothing leaves the defaults as they are.
pub proof fn nothing_set_keeps_the_defaults(base: Settings, given: SettingsOverrides)
    requires
        given.model_path is None,
        given.hf_repo is None,
        given.hf_filename is None,
        given.context_size is None,
        given.max_tokens is None,
        given.temperature_bits is None,
        given.n_gpu_layers is None,
        given.n_threads is None,
        given.seed is None,
        given.idle_timeout_secs is None,
        given.inference_timeout_secs is None,
    ensures
        overridden(base, given) == base,
{
}

/// Wherever the data directory is, the default model file is called as it is in
/// the repository that it is downloaded from.
pub proof fn default_model_is_called_as_downloaded(data_dir: Option<Seq<u8>>)
    ensures
        file_name(default_settings(data_dir).model_path) == Some(
            encode_utf8(default_settings(data_dir).hf_filename),
        ),
{
    reveal_strlit("Phi-4-mini-instruct-Q4_K_M.gguf");
    let name = DEFAULT_HF_FILENAME@;
    vstd::utf8::is_ascii_chars_encode_utf8(name);
    file_name_of_joined(
        joined(
            joined(dir_or(data_dir, ".local/share"@), encode_utf8("rewrite-it"@)),
            encode_utf8("models"@),
        ),
        encode_utf8(name),
    );
}

} // verus!
