//! Application configuration: the sections of the config file and their
//! defaults. Fractional tuning knobs are held in thousandths, so the
//! values stay exact integers.

use vstd::prelude::*;

verus! {

use vstd::string::StringExecFns;

/// The domains outbound requests may address by default: the speech-model
/// hosts and the known API endpoints.
pub open spec fn spec_default_domains() -> Seq<Seq<char>> {
    seq![
        "api.openai.com"@,
        "api.deepgram.com"@,
        "huggingface.co"@,
        "cdn-lfs.huggingface.co"@,
        "cdn-lfs-us-1.huggingface.co"@,
    ]
}

/// Privacy-related configuration.
#[derive(Debug, Clone)]
pub struct PrivacyConfig {
    /// When true, all network requests are blocked (the default).
    pub local_only: bool,
    /// Allowed domains when `local_only` is false.
    pub allowed_domains: Vec<String>,
}

impl PrivacyConfig {
    /// Default allowed domains for API access and model downloads.
    pub fn default_allowed_domains() -> (r: Vec<String>)
        ensures
            Seq::new(r@.len(), |j: int| r@[j]@) == spec_default_domains(),
    {
        let mut out: Vec<String> = Vec::new();
        out.push(String::from_str("api.openai.com"));
        out.push(String::from_str("api.deepgram.com"));
        out.push(String::from_str("huggingface.co"));
        out.push(String::from_str("cdn-lfs.huggingface.co"));
        out.push(String::from_str("cdn-lfs-us-1.huggingface.co"));
        proof {
            assert(Seq::new(out@.len(), |j: int| out@[j]@) =~= spec_default_domains());
        }
        out
    }
}

impl Default for PrivacyConfig {
    /// Local-only mode on, with the default allowlist ready for when it
    /// is turned off.
    fn default() -> (r: PrivacyConfig)
        ensures
            r.local_only == true,
            Seq::new(r.allowed_domains@.len(), |j: int| r.allowed_domains@[j]@)
                == spec_default_domains(),
    {
        PrivacyConfig { local_only: true, allowed_domains: PrivacyConfig::default_allowed_domains() }
    }
}

/// Logging configuration.
#[derive(Debug, Clone)]
pub struct LoggingConfig {
    /// Log level: "trace", "debug", "info", "warn" or "error".
    pub level: String,
    /// Enable file logging with rotation.
    pub file_logging: bool,
    /// Maximum number of log files to keep.
    pub max_files: u32,
}

impl Default for LoggingConfig {
    fn default() -> (r: LoggingConfig)
        ensures
            r.level@ == "info"@,
            r.file_logging == true,
            r.max_files == 7,
    {
        LoggingConfig { level: String::from_str("info"), file_logging: true, max_files: 7 }
    }
}

/// UI configuration.
#[derive(Debug, Clone)]
pub struct UiConfig {
    /// Show the tray icon.
    pub show_tray: bool,
    /// Start minimized.
    pub start_minimized: bool,
    /// Theme: "system", "light" or "dark".
    pub theme: String,
}

impl Default for UiConfig {
    fn default() -> (r: UiConfig)
        ensures
            r.show_tray == true,
            r.start_minimized == false,
            r.theme@ == "system"@,
    {
        UiConfig { show_tray: true, start_minimized: false, theme: String::from_str("system") }
    }
}

/// Transcription configuration.
#[derive(Debug, Clone)]
pub struct TranscriptionConfig {
    /// Selected model name.
    pub model: String,
    /// Language code ("en", "fr", ..., or "auto" for detection).
    pub language: String,
    /// Enable voice activity detection.
    pub vad_enabled: bool,
    /// No-speech probability threshold in thousandths (600 is 0.6):
    /// higher means more aggressive silence detection.
    pub vad_no_speech_threshold_milli: u32,
    /// Entropy threshold for detecting non-speech, in thousandths
    /// (2400 is 2.4).
    pub vad_entropy_threshold_milli: u32,
}

impl Default for TranscriptionConfig {
    fn default() -> (r: TranscriptionConfig)
        ensures
            r.model@ == "whisper-small"@,
            r.language@ == "auto"@,
            r.vad_enabled == true,
            r.vad_no_speech_threshold_milli == 600,
            r.vad_entropy_threshold_milli == 2400,
    {
        TranscriptionConfig {
            model: String::from_str("whisper-small"),
            language: String::from_str("auto"),
            vad_enabled: true,
            vad_no_speech_threshold_milli: 600,
            vad_entropy_threshold_milli: 2400,
        }
    }
}

/// Shortcut configuration. Only the fixed chord "Alt+Space" is wired;
/// other values are kept but ignored by the host shell.
#[derive(Debug, Clone)]
pub struct ShortcutConfig {
    /// Keyboard shortcut to toggle recording.
    pub toggle_shortcut: String,
}

impl Default for ShortcutConfig {
    fn default() -> (r: ShortcutConfig)
        ensures
            r.toggle_shortcut@ == "Alt+Space"@,
    {
        ShortcutConfig { toggle_shortcut: String::from_str("Alt+Space") }
    }
}

/// Output and text-injection configuration.
#[derive(Debug, Clone)]
pub struct OutputConfig {
    /// Delay in milliseconds before the paste chord is synthesized, so
    /// the clipboard can settle.
    pub paste_delay_ms: u64,
}

impl Default for OutputConfig {
    fn default() -> (r: OutputConfig)
        ensures
            r.paste_delay_ms == 100,
    {
        OutputConfig { paste_delay_ms: 100 }
    }
}

/// Main application configuration.
#[derive(Debug, Clone)]
pub struct AppConfig {
    pub privacy: PrivacyConfig,
    pub logging: LoggingConfig,
    pub ui: UiConfig,
    pub transcription: TranscriptionConfig,
    pub shortcut: ShortcutConfig,
    pub output: OutputConfig,
}

/// Whether a configuration holds exactly the default values.
pub open spec fn spec_is_default_config(c: AppConfig) -> bool {
    &&& c.privacy.local_only == true
    &&& Seq::new(c.privacy.allowed_domains@.len(), |j: int| c.privacy.allowed_domains@[j]@)
        == spec_default_domains()
    &&& c.logging.level@ == "info"@
    &&& c.logging.file_logging == true
    &&& c.logging.max_files == 7
    &&& c.ui.show_tray == true
    &&& c.ui.start_minimized == false
    &&& c.ui.theme@ == "system"@
    &&& c.transcription.model@ == "whisper-small"@
    &&& c.transcription.language@ == "auto"@
    &&& c.transcription.vad_enabled == true
    &&& c.transcription.vad_no_speech_threshold_milli == 600
    &&& c.transcription.vad_entropy_threshold_milli == 2400
    &&& c.shortcut.toggle_shortcut@ == "Alt+Space"@
    &&& c.output.paste_delay_ms == 100
}

impl Default for AppConfig {
    fn default() -> (r: AppConfig)
        ensures
            spec_is_default_config(r),
    {
        AppConfig {
            privacy: PrivacyConfig::default(),
            logging: LoggingConfig::default(),
            ui: UiConfig::default(),
            transcription: TranscriptionConfig::default(),
            shortcut: ShortcutConfig::default(),
            output: OutputConfig::default(),
        }
    }
}

impl AppConfig {
    /// A configuration with the default values.
    pub fn new() -> (r: AppConfig)
        ensures
            spec_is_default_config(r),
    {
        AppConfig::default()
    }
}

} // verus!
