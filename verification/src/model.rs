//! Speech-model catalog data: quantization levels, model variants and the
//! catalog that the installer and the recommender work against.

use vstd::prelude::*;
use vstd::string::StrSliceExecFns;
use vstd::string::StringExecFns;

verus! {

/// Quantization level of a speech-model file.
#[derive(Debug, Clone, Copy, PartialEq, Eq, Hash, Structural)]
pub enum Quantization {
    /// 4-bit quantization - smallest size, lowest quality.
    Q4_0,
    /// 5-bit quantization (variant 0) - good balance.
    Q5_0,
    /// 5-bit quantization (variant 1) - slightly better quality than Q5_0.
    Q5_1,
    /// 8-bit quantization - better quality, larger size.
    Q8_0,
    /// 16-bit float - highest quality, largest size.
    F16,
}

/// The canonical lowercase suffix of a quantization level, as it appears
/// in file names and in the catalog.
pub open spec fn spec_suffix(q: Quantization) -> Seq<char> {
    match q {
        Quantization::Q4_0 => "q4_0"@,
        Quantization::Q5_0 => "q5_0"@,
        Quantization::Q5_1 => "q5_1"@,
        Quantization::Q8_0 => "q8_0"@,
        Quantization::F16 => "f16"@,
    }
}

/// Case-insensitive match of one character against a lowercase letter
/// and its uppercase form.
pub open spec fn char_ci(c: char, lower: char, upper: char) -> bool {
    c == lower || c == upper
}

/// Which quantization level a suffix string denotes, ignoring the case of
/// the letters. Strings that match no canonical suffix denote none.
pub open spec fn spec_from_suffix(s: Seq<char>) -> Option<Quantization> {
    if s.len() == 4 && char_ci(s[0], 'q', 'Q') && s[2] == '_' {
        if s[1] == '4' && s[3] == '0' {
            Some(Quantization::Q4_0)
        } else if s[1] == '5' && s[3] == '0' {
            Some(Quantization::Q5_0)
        } else if s[1] == '5' && s[3] == '1' {
            Some(Quantization::Q5_1)
        } else if s[1] == '8' && s[3] == '0' {
            Some(Quantization::Q8_0)
        } else {
            None
        }
    } else if s.len() == 3 && char_ci(s[0], 'f', 'F') && s[1] == '1' && s[2] == '6' {
        Some(Quantization::F16)
    } else {
        None
    }
}

impl Quantization {
    /// The file suffix of this quantization level.
    pub fn suffix(&self) -> (r: &'static str)
        ensures
            r@ == spec_suffix(*self),
    {
        match self {
            Quantization::Q4_0 => "q4_0",
            Quantization::Q5_0 => "q5_0",
            Quantization::Q5_1 => "q5_1",
            Quantization::Q8_0 => "q8_0",
            Quantization::F16 => "f16",
        }
    }

    /// Parse a quantization level from a string suffix, ignoring case.
    pub fn from_suffix(s: &str) -> (r: Option<Quantization>)
        ensures
            r == spec_from_suffix(s@),
    {
        let n = s.unicode_len();
        if n == 4 {
            let c0 = s.get_char(0);
            let c1 = s.get_char(1);
            let c2 = s.get_char(2);
            let c3 = s.get_char(3);
            if (c0 == 'q' || c0 == 'Q') && c2 == '_' {
                if c1 == '4' && c3 == '0' {
                    Some(Quantization::Q4_0)
                } else if c1 == '5' && c3 == '0' {
                    Some(Quantization::Q5_0)
                } else if c1 == '5' && c3 == '1' {
                    Some(Quantization::Q5_1)
                } else if c1 == '8' && c3 == '0' {
                    Some(Quantization::Q8_0)
                } else {
                    None
                }
            } else {
                None
            }
        } else if n == 3 {
            let c0 = s.get_char(0);
            let c1 = s.get_char(1);
            let c2 = s.get_char(2);
            if (c0 == 'f' || c0 == 'F') && c1 == '1' && c2 == '6' {
                Some(Quantization::F16)
            } else {
                None
            }
        } else {
            None
        }
    }
}

/// Parsing the canonical suffix of a quantization level gives that level
/// back: the suffixes are round-trip stable.
pub proof fn lemma_suffix_roundtrip(q: Quantization)
    ensures
        spec_from_suffix(spec_suffix(q)) == Some(q),
{
    reveal_strlit("q4_0");
    reveal_strlit("q5_0");
    reveal_strlit("q5_1");
    reveal_strlit("q8_0");
    reveal_strlit("f16");
}

/// A specific variant of a model with a particular quantization.
#[derive(Debug, Clone)]
pub struct ModelVariant {
    /// Quantization level.
    pub quantization: Quantization,
    /// File size in bytes.
    pub size_bytes: u64,
    /// SHA-256 checksum of the file, in lowercase hex.
    pub sha256: String,
    /// Download URL.
    pub url: String,
}

/// The first variant of a given quantization in a list, if any.
pub open spec fn spec_find_variant(variants: Seq<ModelVariant>, quant: Quantization) -> Option<
    ModelVariant,
>
    decreases variants.len(),
{
    if variants.len() == 0 {
        None
    } else if variants[0].quantization == quant {
        Some(variants[0])
    } else {
        spec_find_variant(variants.drop_first(), quant)
    }
}

/// Information about a model.
#[derive(Debug, Clone)]
pub struct ModelInfo {
    /// Unique identifier (for example "whisper-small").
    pub id: String,
    /// Human-readable name.
    pub name: String,
    /// Description of the model.
    pub description: String,
    /// Minimum RAM required in GB.
    pub min_ram_gb: u32,
    /// Available variants (quantization levels).
    pub variants: Vec<ModelVariant>,
}

impl ModelInfo {
    /// Find the variant with the given quantization.
    pub fn variant(&self, quant: Quantization) -> (r: Option<&ModelVariant>)
        ensures
            match r {
                Some(v) => spec_find_variant(self.variants@, quant) == Some(*v),
                None => spec_find_variant(self.variants@, quant) is None,
            },
    {
        proof {
            assert(self.variants@.skip(0) =~= self.variants@);
        }
        let mut i: usize = 0;
        while i < self.variants.len()
            invariant
                i <= self.variants@.len(),
                spec_find_variant(self.variants@, quant) == spec_find_variant(
                    self.variants@.skip(i as int),
                    quant,
                ),
            decreases self.variants@.len() - i,
        {
            proof {
                assert(self.variants@.skip(i as int).drop_first() =~= self.variants@.skip(i + 1));
                assert(self.variants@.skip(i as int)[0] == self.variants@[i as int]);
            }
            if self.variants[i].quantization == quant {
                return Some(&self.variants[i]);
            }
            i = i + 1;
        }
        None
    }

    /// The default (recommended) variant: the balanced five-bit
    /// quantization when present, else the first variant.
    pub fn default_variant(&self) -> (r: Option<&ModelVariant>)
        ensures
            match r {
                Some(v) => if spec_find_variant(self.variants@, Quantization::Q5_1) is Some {
                    spec_find_variant(self.variants@, Quantization::Q5_1) == Some(*v)
                } else {
                    self.variants@.len() > 0 && *v == self.variants@[0]
                },
                None => self.variants@.len() == 0,
            },
    {
        let preferred = self.variant(Quantization::Q5_1);
        match preferred {
            Some(v) => Some(v),
            None => {
                if self.variants.len() > 0 {
                    Some(&self.variants[0])
                } else {
                    None
                }
            },
        }
    }
}

/// The first model with the given id in a list, if any.
pub open spec fn spec_find_model(models: Seq<ModelInfo>, id: Seq<char>) -> Option<ModelInfo>
    decreases models.len(),
{
    if models.len() == 0 {
        None
    } else if models[0].id@ == id {
        Some(models[0])
    } else {
        spec_find_model(models.drop_first(), id)
    }
}

/// Catalog of available models.
#[derive(Debug, Clone)]
pub struct ModelCatalog {
    /// Catalog version for compatibility checking.
    pub version: u32,
    /// Available models.
    pub models: Vec<ModelInfo>,
}

impl ModelCatalog {
    /// Find a model by id.
    pub fn get(&self, model_id: &str) -> (r: Option<&ModelInfo>)
        ensures
            match r {
                Some(m) => spec_find_model(self.models@, model_id@) == Some(*m),
                None => spec_find_model(self.models@, model_id@) is None,
            },
    {
        proof {
            assert(self.models@.skip(0) =~= self.models@);
        }
        let mut i: usize = 0;
        while i < self.models.len()
            invariant
                i <= self.models@.len(),
                spec_find_model(self.models@, model_id@) == spec_find_model(
                    self.models@.skip(i as int),
                    model_id@,
                ),
            decreases self.models@.len() - i,
        {
            proof {
                assert(self.models@.skip(i as int).drop_first() =~= self.models@.skip(i + 1));
                assert(self.models@.skip(i as int)[0] == self.models@[i as int]);
            }
            if crate::text::str_eq(self.models[i].id.as_str(), model_id) {
                return Some(&self.models[i]);
            }
            i = i + 1;
        }
        None
    }

    /// All model ids, in catalog order.
    pub fn model_ids(&self) -> (r: Vec<&str>)
        ensures
            r@.len() == self.models@.len(),
            forall|i: int| 0 <= i < r@.len() ==> (#[trigger] r@[i])@ == self.models@[i].id@,
    {
        let mut out: Vec<&str> = Vec::new();
        let mut i: usize = 0;
        while i < self.models.len()
            invariant
                i <= self.models@.len(),
                out@.len() == i,
                forall|j: int| 0 <= j < i ==> (#[trigger] out@[j])@ == self.models@[j].id@,
            decreases self.models@.len() - i,
        {
            out.push(self.models[i].id.as_str());
            i = i + 1;
        }
        out
    }
}

/// One variant entry for the built-in catalog.
fn catalog_variant(quant: Quantization, size_bytes: u64, sha256: &str, url: &str) -> (r:
    ModelVariant)
    ensures
        r.quantization == quant,
        r.size_bytes == size_bytes,
        r.sha256@ == sha256@,
        r.url@ == url@,
{
    ModelVariant {
        quantization: quant,
        size_bytes,
        sha256: String::from_str(sha256),
        url: String::from_str(url),
    }
}

/// The catalog embedded in the application: the three speech models the
/// recommender picks between, each with its balanced five-bit variant,
/// its download location and the checksum an installed file must have.
pub fn builtin_catalog() -> (r: ModelCatalog)
    ensures
        r.version == 1,
        r.models@.len() == 3,
        r.models@[0].id@ == "whisper-tiny"@,
        r.models@[1].id@ == "whisper-base"@,
        r.models@[2].id@ == "whisper-small"@,
        forall|i: int|
            0 <= i < 3 ==> (#[trigger] r.models@[i]).variants@.len() == 1
                && r.models@[i].variants@[0].quantization == Quantization::Q5_1,
{
    let mut models: Vec<ModelInfo> = Vec::new();
    let mut tiny_variants: Vec<ModelVariant> = Vec::new();
    tiny_variants.push(
        catalog_variant(
            Quantization::Q5_1,
            32166155,
            "2827a0cbe5c12bd7ad5ee7dbf4f5c7c8a0f8fcf84a257890ddc3c0ec1a3a4d15",
            "https://huggingface.co/ggerganov/whisper.cpp/resolve/main/ggml-tiny-q5_1.bin",
        ),
    );
    models.push(
        ModelInfo {
            id: String::from_str("whisper-tiny"),
            name: String::from_str("Whisper Tiny"),
            description: String::from_str("Smallest model; fastest, lowest accuracy"),
            min_ram_gb: 2,
            variants: tiny_variants,
        },
    );
    let mut base_variants: Vec<ModelVariant> = Vec::new();
    base_variants.push(
        catalog_variant(
            Quantization::Q5_1,
            59707625,
            "4218d40b0c323b1a491c3cd49ba2b41c2fd60e4ff0a01104ba2a21a6a4e0ac23",
            "https://huggingface.co/ggerganov/whisper.cpp/resolve/main/ggml-base-q5_1.bin",
        ),
    );
    models.push(
        ModelInfo {
            id: String::from_str("whisper-base"),
            name: String::from_str("Whisper Base"),
            description: String::from_str("Balanced model for moderate hardware"),
            min_ram_gb: 4,
            variants: base_variants,
        },
    );
    let mut small_variants: Vec<ModelVariant> = Vec::new();
    small_variants.push(
        catalog_variant(
            Quantization::Q5_1,
            190085487,
            "ae85e4a935d7a567bd102fe55afc16bb595bdb618e11b2fc7591bc08120411bb",
            "https://huggingface.co/ggerganov/whisper.cpp/resolve/main/ggml-small-q5_1.bin",
        ),
    );
    models.push(
        ModelInfo {
            id: String::from_str("whisper-small"),
            name: String::from_str("Whisper Small"),
            description: String::from_str("Recommended model for capable hardware"),
            min_ram_gb: 8,
            variants: small_variants,
        },
    );
    ModelCatalog { version: 1, models }
}

/// An installed model on the local filesystem.
#[derive(Debug, Clone)]
pub struct InstalledModel {
    /// Model id.
    pub id: String,
    /// Quantization level of this installation.
    pub quantization: Quantization,
    /// Path of the model file.
    pub path: String,
    /// SHA-256 checksum in lowercase hex, verified at install time.
    pub sha256: String,
    /// File size in bytes.
    pub size_bytes: u64,
}

/// Progress information for a model download.
#[derive(Debug, Clone)]
pub struct DownloadProgress {
    /// Model being downloaded.
    pub model_id: String,
    /// Quantization level.
    pub quantization: Quantization,
    /// Bytes downloaded so far.
    pub bytes_downloaded: u64,
    /// Total bytes to download (0 if unknown).
    pub total_bytes: u64,
    /// Download progress in whole percent (0 ..= 100 when the total is
    /// known and the download stays within it; 0 when the total is
    /// unknown).
    pub percent: u32,
}

impl DownloadProgress {
    /// Fresh progress for a download that has not received data yet.
    pub fn new(model_id: String, quantization: Quantization) -> (r: DownloadProgress)
        ensures
            r.model_id == model_id,
            r.quantization == quantization,
            r.bytes_downloaded == 0,
            r.total_bytes == 0,
            r.percent == 0,
    {
        DownloadProgress { model_id, quantization, bytes_downloaded: 0, total_bytes: 0, percent: 0 }
    }

    /// Update the progress with the bytes downloaded so far and the total
    /// (0 when unknown).
    pub fn update(&mut self, downloaded: u64, total: u64)
        requires
            total > 0 ==> downloaded as int * 100 / total as int <= u32::MAX,
        ensures
            final(self).model_id == old(self).model_id,
            final(self).quantization == old(self).quantization,
            final(self).bytes_downloaded == downloaded,
            final(self).total_bytes == total,
            final(self).percent == if total > 0 {
                downloaded as int * 100 / total as int
            } else {
                0int
            },
    {
        self.bytes_downloaded = downloaded;
        self.total_bytes = total;
        self.percent = if total > 0 {
            let scaled: u128 = downloaded as u128 * 100;
            (scaled / total as u128) as u32
        } else {
            0
        };
    }
}

} // verus!
