//! The transcriber facade's decision logic: per-call configuration, the
//! checks before inference runs (model loaded, 16 kHz input, empty input
//! short-circuits), the thread-count policy and the assembly of segment
//! texts into the final transcript. The inference engine itself runs
//! outside on a blocking worker and hands back segment texts.

use vstd::prelude::*;

use crate::errors::DomainError;

verus! {

use vstd::string::StrSliceExecFns;
use vstd::string::StringExecFns;

/// Configuration for one transcription.
#[derive(Debug, Clone)]
pub struct TranscribeConfig {
    /// Target language (ISO 639-1 code such as "en"), or `None` for
    /// auto-detection.
    pub language: Option<String>,
    /// Enable voice activity detection to skip silence.
    pub vad_enabled: bool,
    /// No-speech probability threshold in thousandths (600 is 0.6).
    pub vad_no_speech_threshold_milli: u32,
    /// Entropy threshold for non-speech detection, in thousandths
    /// (2400 is 2.4).
    pub vad_entropy_threshold_milli: u32,
    /// Number of threads to use; 0 picks the facade's default.
    pub threads: u32,
}

impl Default for TranscribeConfig {
    fn default() -> (r: TranscribeConfig)
        ensures
            r.language is None,
            r.vad_enabled == true,
            r.vad_no_speech_threshold_milli == 600,
            r.vad_entropy_threshold_milli == 2400,
            r.threads == 0,
    {
        TranscribeConfig {
            language: None,
            vad_enabled: true,
            vad_no_speech_threshold_milli: 600,
            vad_entropy_threshold_milli: 2400,
            threads: 0,
        }
    }
}

/// Result of a transcription.
#[derive(Debug, Clone)]
pub struct TranscriptionResult {
    /// Transcribed text.
    pub text: String,
    /// Detected language (ISO 639-1 code), if the engine reported one.
    pub detected_language: Option<String>,
    /// Wall-clock transcription duration in milliseconds.
    pub duration_ms: u64,
}

/// Capabilities of a transcription backend.
#[derive(Debug, Clone)]
pub struct BackendCapabilities {
    /// Supported languages (ISO 639-1 codes).
    pub languages: Vec<String>,
    /// Whether streaming transcription is supported.
    pub streaming: bool,
    /// Whether the backend needs network access.
    pub requires_network: bool,
    /// Backend name for display.
    pub name: String,
}

/// ASCII whitespace, as it occurs around engine segment texts.
pub open spec fn is_space(c: char) -> bool {
    c == ' ' || c == '\t' || c == '\n' || c == '\r'
}

/// The text with leading and trailing whitespace removed.
pub open spec fn spec_trim(s: Seq<char>) -> Seq<char>
    decreases s.len(),
{
    if s.len() == 0 {
        s
    } else if is_space(s.first()) {
        spec_trim(s.drop_first())
    } else if is_space(s.last()) {
        spec_trim(s.drop_last())
    } else {
        s
    }
}

/// Trimming removes exactly the whitespace margin: a window of the text
/// surrounded by whitespace on both sides, and itself not starting or
/// ending in whitespace, is the trimmed text.
proof fn lemma_trim_window(s: Seq<char>, a: int, b: int)
    requires
        0 <= a <= b <= s.len(),
        forall|i: int| 0 <= i < a ==> is_space(s[i]),
        forall|i: int| b <= i < s.len() ==> is_space(s[i]),
        a < b ==> !is_space(s[a]) && !is_space(s[b - 1]),
    ensures
        spec_trim(s) == s.subrange(a, b),
    decreases s.len(),
{
    if s.len() == 0 {
        assert(s.subrange(0, 0) =~= s);
    } else if a > 0 {
        lemma_trim_window(s.drop_first(), a - 1, b - 1);
        assert(s.drop_first().subrange(a - 1, b - 1) =~= s.subrange(a, b));
    } else if a == b {
        lemma_trim_window(s.drop_first(), 0, 0);
        assert(s.drop_first().subrange(0, 0) =~= s.subrange(a, b));
    } else if b < s.len() {
        lemma_trim_window(s.drop_last(), a, b);
        assert(s.drop_last().subrange(a, b) =~= s.subrange(a, b));
    } else {
        assert(s.subrange(0, s.len() as int) =~= s);
    }
}

/// Whether a character is ASCII whitespace.
fn is_space_char(c: char) -> (r: bool)
    ensures
        r == is_space(c),
{
    c == ' ' || c == '\t' || c == '\n' || c == '\r'
}

/// Remove leading and trailing whitespace.
pub fn trim_text(s: &str) -> (r: String)
    ensures
        r@ == spec_trim(s@),
{
    let n = s.unicode_len();
    let mut a: usize = 0;
    while a < n && is_space_char(s.get_char(a))
        invariant
            a <= n,
            n == s@.len(),
            forall|i: int| 0 <= i < a ==> is_space(s@[i]),
        decreases n - a,
    {
        a = a + 1;
    }
    let mut b: usize = n;
    while b > a && is_space_char(s.get_char(b - 1))
        invariant
            a <= b <= n,
            n == s@.len(),
            forall|i: int| b <= i < n ==> is_space(s@[i]),
        decreases b,
    {
        b = b - 1;
    }
    proof {
        lemma_trim_window(s@, a as int, b as int);
    }
    String::from_str(s.substring_char(a, b))
}

/// The concatenation of segment texts, in order.
pub open spec fn spec_concat(segments: Seq<String>) -> Seq<char>
    decreases segments.len(),
{
    if segments.len() == 0 {
        Seq::empty()
    } else {
        spec_concat(segments.drop_last()) + segments.last()@
    }
}

/// Join the engine's segment texts in order and trim the result: the
/// final transcript.
pub fn assemble_transcript(segments: &Vec<String>) -> (r: String)
    ensures
        r@ == spec_trim(spec_concat(segments@)),
{
    let mut joined = String::new();
    let mut i: usize = 0;
    while i < segments.len()
        invariant
            i <= segments@.len(),
            joined@ == spec_concat(segments@.take(i as int)),
        decreases segments@.len() - i,
    {
        proof {
            assert(segments@.take(i + 1).drop_last() == segments@.take(i as int));
            assert(segments@.take(i + 1).last() == segments@[i as int]);
        }
        joined.append(segments[i].as_str());
        i = i + 1;
    }
    proof {
        assert(segments@.take(segments@.len() as int) == segments@);
    }
    trim_text(joined.as_str())
}

/// What a transcription call should do, decided before the engine runs.
#[derive(Debug, Clone, Copy, PartialEq, Eq, Structural)]
pub enum TranscribePlan {
    /// The buffer is empty: return an empty transcript without running
    /// the engine.
    Empty,
    /// Run inference with this many threads.
    Run { threads: u32 },
}

/// The transcriber facade's state: whether a model context is loaded,
/// and the default thread count picked at construction.
pub struct TranscriberCore {
    model_loaded: bool,
    threads: u32,
}

impl TranscriberCore {
    /// Whether a model context is loaded.
    pub closed spec fn spec_model_loaded(&self) -> bool {
        self.model_loaded
    }

    /// The default thread count.
    pub closed spec fn spec_threads(&self) -> u32 {
        self.threads
    }

    /// A facade without a loaded model. A requested thread count of 0
    /// picks the automatic budget: the machine's parallelism less one,
    /// at least one.
    pub fn new(threads: u32, parallelism: u32) -> (r: TranscriberCore)
        ensures
            !r.spec_model_loaded(),
            r.spec_threads() == if threads == 0 {
                if parallelism <= 2 {
                    1int
                } else {
                    parallelism - 1
                }
            } else {
                threads as int
            },
    {
        let actual = if threads == 0 {
            if parallelism <= 2 {
                1
            } else {
                parallelism - 1
            }
        } else {
            threads
        };
        TranscriberCore { model_loaded: false, threads: actual }
    }

    /// Record that the engine loaded a model context.
    pub fn note_model_loaded(&mut self)
        ensures
            final(self).spec_model_loaded(),
            final(self).spec_threads() == old(self).spec_threads(),
    {
        self.model_loaded = true;
    }

    /// Drop the model context.
    pub fn unload_model(&mut self)
        ensures
            !final(self).spec_model_loaded(),
            final(self).spec_threads() == old(self).spec_threads(),
    {
        self.model_loaded = false;
    }

    /// Whether a model is currently loaded.
    pub fn is_model_loaded(&self) -> (r: bool)
        ensures
            r == self.spec_model_loaded(),
    {
        self.model_loaded
    }

    /// Whether the backend can transcribe right now (a model is loaded).
    pub fn is_available(&self) -> (r: bool)
        ensures
            r == self.spec_model_loaded(),
    {
        self.model_loaded
    }

    /// Decide a transcription call. Fails without a loaded model and on
    /// any rate but 16 kHz; an empty buffer yields an empty transcript
    /// without running the engine; otherwise inference runs, with the
    /// per-call thread override when it is nonzero and the default
    /// otherwise.
    pub fn begin_transcribe(&self, sample_rate: u32, sample_count: usize, config_threads: u32) -> (r:
        Result<TranscribePlan, DomainError>)
        ensures
            r is Ok <==> (self.spec_model_loaded() && sample_rate == 16000),
            !self.spec_model_loaded() ==> (r matches Err(e) && e is Whisper),
            self.spec_model_loaded() && sample_rate != 16000 ==> (r matches Err(e) && e
                is Whisper),
            r matches Ok(plan) ==> plan == if sample_count == 0 {
                TranscribePlan::Empty
            } else {
                TranscribePlan::Run {
                    threads: if config_threads > 0 {
                        config_threads
                    } else {
                        self.spec_threads()
                    },
                }
            },
    {
        if !self.model_loaded {
            return Err(DomainError::Whisper(String::from_str("No model loaded")));
        }
        if sample_rate != 16000 {
            return Err(DomainError::Whisper(String::from_str("expected 16kHz audio")));
        }
        if sample_count == 0 {
            return Ok(TranscribePlan::Empty);
        }
        let threads = if config_threads > 0 {
            config_threads
        } else {
            self.threads
        };
        Ok(TranscribePlan::Run { threads })
    }

    /// The result of transcribing an empty buffer: empty text, no
    /// detected language, no elapsed time.
    pub fn empty_result(&self) -> (r: TranscriptionResult)
        ensures
            r.text@ == Seq::<char>::empty(),
            r.detected_language is None,
            r.duration_ms == 0,
    {
        TranscriptionResult { text: String::new(), detected_language: None, duration_ms: 0 }
    }

    /// The backend's capabilities: the twelve languages the engine
    /// handles reliably, no streaming, no network.
    pub fn capabilities(&self) -> (r: BackendCapabilities)
        ensures
            r.languages@.len() == 12,
            r.languages@[0]@ == "en"@,
            r.streaming == false,
            r.requires_network == false,
            r.name@ == "whisper.cpp"@,
    {
        let mut languages: Vec<String> = Vec::new();
        languages.push(String::from_str("en"));
        languages.push(String::from_str("fr"));
        languages.push(String::from_str("de"));
        languages.push(String::from_str("es"));
        languages.push(String::from_str("it"));
        languages.push(String::from_str("pt"));
        languages.push(String::from_str("nl"));
        languages.push(String::from_str("pl"));
        languages.push(String::from_str("ru"));
        languages.push(String::from_str("ja"));
        languages.push(String::from_str("zh"));
        languages.push(String::from_str("ko"));
        BackendCapabilities {
            languages,
            streaming: false,
            requires_network: false,
            name: String::from_str("whisper.cpp"),
        }
    }
}

} // verus!
