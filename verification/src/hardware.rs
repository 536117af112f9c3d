//! Hardware profile and the model recommender. The probes (architecture
//! constant, parallelism query, RAM readout) run outside and hand in
//! plain values; classification, the cached profile and the
//! recommendation rules live here.

use vstd::prelude::*;

use crate::errors::DomainError;
use crate::model::{spec_find_model, ModelCatalog, Quantization};
use crate::text::str_eq;

verus! {

use vstd::string::StringExecFns;

/// CPU architecture.
#[derive(Debug, Clone, Copy, PartialEq, Eq, Structural)]
pub enum CpuArch {
    /// x86-64 (AMD64 / Intel 64).
    X86_64,
    /// ARM64 (AArch64, Apple Silicon).
    Arm64,
    /// Unknown or unsupported architecture.
    Unknown,
}

/// Which architecture a target-architecture name denotes; anything but
/// the two supported names is unknown.
pub open spec fn spec_arch_of_name(name: Seq<char>) -> CpuArch {
    if name == "x86_64"@ {
        CpuArch::X86_64
    } else if name == "aarch64"@ {
        CpuArch::Arm64
    } else {
        CpuArch::Unknown
    }
}

impl CpuArch {
    /// Classify a target-architecture name (as the compiler reports it).
    pub fn from_name(name: &str) -> (r: CpuArch)
        ensures
            r == spec_arch_of_name(name@),
    {
        if str_eq(name, "x86_64") {
            CpuArch::X86_64
        } else if str_eq(name, "aarch64") {
            CpuArch::Arm64
        } else {
            CpuArch::Unknown
        }
    }
}

/// SIMD capabilities of the CPU.
#[derive(Debug, Clone, Copy, PartialEq, Eq, Structural)]
pub struct SimdCapabilities {
    /// x86: AVX support.
    pub avx: bool,
    /// x86: AVX2 support.
    pub avx2: bool,
    /// x86: AVX-512 support.
    pub avx512: bool,
    /// ARM: NEON support (mandatory on AArch64).
    pub neon: bool,
}

impl Default for SimdCapabilities {
    /// No vector extensions detected.
    fn default() -> (r: SimdCapabilities)
        ensures
            r == (SimdCapabilities { avx: false, avx2: false, avx512: false, neon: false }),
    {
        SimdCapabilities { avx: false, avx2: false, avx512: false, neon: false }
    }
}

impl SimdCapabilities {
    /// Good vector support for inference: AVX2 on x86, or NEON on ARM.
    pub fn has_good_simd(&self) -> (r: bool)
        ensures
            r == (self.avx2 || self.neon),
    {
        self.avx2 || self.neon
    }
}

/// Operating system type.
#[derive(Debug, Clone, Copy, PartialEq, Eq, Structural)]
pub enum OsType {
    MacOS,
    Windows,
    Linux,
    Unknown,
}

/// Which OS a target-OS name denotes; anything but the three supported
/// names is unknown.
pub open spec fn spec_os_of_name(name: Seq<char>) -> OsType {
    if name == "macos"@ {
        OsType::MacOS
    } else if name == "windows"@ {
        OsType::Windows
    } else if name == "linux"@ {
        OsType::Linux
    } else {
        OsType::Unknown
    }
}

impl OsType {
    /// Classify a target-OS name (as the compiler reports it).
    pub fn from_name(name: &str) -> (r: OsType)
        ensures
            r == spec_os_of_name(name@),
    {
        if str_eq(name, "macos") {
            OsType::MacOS
        } else if str_eq(name, "windows") {
            OsType::Windows
        } else if str_eq(name, "linux") {
            OsType::Linux
        } else {
            OsType::Unknown
        }
    }
}

/// Hardware profile of the system.
#[derive(Debug, Clone, Copy, PartialEq, Eq, Structural)]
pub struct HardwareProfile {
    /// CPU architecture.
    pub arch: CpuArch,
    /// Number of CPU cores budgeted for work (the logical thread count;
    /// physical-core detection is unreliable across platforms and the
    /// use is thread budgeting).
    pub cores: u32,
    /// Number of logical threads.
    pub threads: u32,
    /// SIMD capabilities.
    pub simd: SimdCapabilities,
    /// Total RAM in bytes.
    pub ram_bytes: u64,
    /// Operating system.
    pub os: OsType,
}

impl HardwareProfile {
    /// RAM in whole gigabytes (truncated to 32 bits, as no real machine
    /// comes near the limit).
    pub fn ram_gb(&self) -> (r: u32)
        ensures
            r == ((self.ram_bytes as int / 0x4000_0000) as u32),
            self.ram_bytes as int / 0x4000_0000 <= u32::MAX ==> r == self.ram_bytes as int
                / 0x4000_0000,
    {
        #[verifier::truncate] ((self.ram_bytes / 0x4000_0000) as u32)
    }

    /// The thread budget for transcription: all cores but one, which is
    /// left to the system and UI; at least one.
    pub fn recommended_threads(&self) -> (r: u32)
        ensures
            r == if self.cores <= 2 {
                1int
            } else {
                self.cores - 1
            },
    {
        if self.cores <= 2 {
            1
        } else {
            self.cores - 1
        }
    }
}

/// Model recommendation based on a hardware profile.
#[derive(Debug, Clone)]
pub struct ModelRecommendation {
    /// Recommended model id.
    pub model_id: String,
    /// Recommended quantization level.
    pub quantization: Quantization,
    /// Reason for the recommendation.
    pub reason: String,
}

/// The model id the recommendation rules pick for a profile: the smallest
/// model under 4 GB of RAM, the base model under 8 GB, and the small
/// model from 8 GB up (with or without good SIMD).
pub open spec fn spec_recommended_id(ram_gb: int, good_simd: bool) -> Seq<char> {
    if ram_gb < 4 {
        "whisper-tiny"@
    } else if ram_gb < 8 {
        "whisper-base"@
    } else {
        "whisper-small"@
    }
}

/// Probed raw values of the current machine, handed in by the host: the
/// architecture and OS names the compiler reports, the logical
/// parallelism, the detected vector extensions and the total RAM.
#[derive(Debug, Clone)]
pub struct HardwareProbe {
    /// Target architecture name ("x86_64", "aarch64", ...).
    pub arch_name: String,
    /// Target OS name ("macos", "windows", "linux", ...).
    pub os_name: String,
    /// Logical parallelism (0 when the query failed).
    pub threads: u32,
    /// Detected vector extensions.
    pub simd: SimdCapabilities,
    /// Total RAM in bytes.
    pub ram_bytes: u64,
}

/// The profile a probe classifies to: names classified, the thread count
/// defaulted to one when the query failed, and cores budgeted as the
/// thread count.
pub open spec fn spec_profile_of_probe(p: HardwareProbe) -> HardwareProfile {
    HardwareProfile {
        arch: spec_arch_of_name(p.arch_name@),
        cores: if p.threads == 0 {
            1u32
        } else {
            p.threads
        },
        threads: if p.threads == 0 {
            1u32
        } else {
            p.threads
        },
        simd: p.simd,
        ram_bytes: p.ram_bytes,
        os: spec_os_of_name(p.os_name@),
    }
}

/// CPU-based hardware detector: classifies a probe once and caches the
/// profile; later probes are ignored (the first call wins).
pub struct CpuHardwareDetector {
    profile: Option<HardwareProfile>,
}

impl CpuHardwareDetector {
    /// The cached profile, if a detection has run.
    pub closed spec fn spec_profile(&self) -> Option<HardwareProfile> {
        self.profile
    }

    /// A detector that has not probed yet.
    pub fn new() -> (r: CpuHardwareDetector)
        ensures
            r.spec_profile() is None,
    {
        CpuHardwareDetector { profile: None }
    }

    /// Classify the probe into a profile and cache it. The first call
    /// wins: a later probe is discarded and the cached profile returned.
    pub fn detect(&mut self, probe: &HardwareProbe) -> (r: HardwareProfile)
        ensures
            old(self).spec_profile() matches Some(p) ==> r == p && final(self).spec_profile()
                == old(self).spec_profile(),
            old(self).spec_profile() is None ==> (r == spec_profile_of_probe(*probe)
                && final(self).spec_profile() == Some(r)),
    {
        match &self.profile {
            Some(p) => *p,
            None => {
                let threads: u32 = if probe.threads == 0 {
                    1
                } else {
                    probe.threads
                };
                let profile = HardwareProfile {
                    arch: CpuArch::from_name(probe.arch_name.as_str()),
                    cores: threads,
                    threads,
                    simd: probe.simd,
                    ram_bytes: probe.ram_bytes,
                    os: OsType::from_name(probe.os_name.as_str()),
                };
                self.profile = Some(profile);
                profile
            },
        }
    }

    /// The cached profile; fails with `Hardware` before any detection.
    pub fn profile(&self) -> (r: Result<&HardwareProfile, DomainError>)
        ensures
            r is Ok <==> self.spec_profile() is Some,
            r matches Ok(p) ==> Some(*p) == self.spec_profile(),
            r matches Err(e) ==> e is Hardware,
    {
        match &self.profile {
            Some(p) => Ok(p),
            None => Err(
                DomainError::Hardware(String::from_str("hardware profile not detected yet")),
            ),
        }
    }

    /// Recommend a model for the cached profile, against a catalog: the
    /// id from the recommendation table, always the balanced five-bit
    /// quantization. Fails with `ModelNotFound` when the catalog lacks
    /// the picked id, and with `Hardware` before any detection.
    pub fn recommend_model(&self, catalog: &ModelCatalog) -> (r: Result<
        ModelRecommendation,
        DomainError,
    >)
        ensures
            self.spec_profile() is None ==> (r matches Err(e) && e is Hardware),
            self.spec_profile() matches Some(p) ==> {
                let id = spec_recommended_id(
                    ((p.ram_bytes as int / 0x4000_0000) as u32) as int,
                    p.simd.avx2 || p.simd.neon,
                );
                &&& (r is Ok <==> spec_find_model(catalog.models@, id) is Some)
                &&& (r matches Ok(rec) ==> rec.model_id@ == id && rec.quantization
                    == Quantization::Q5_1)
                &&& (r matches Err(e) ==> e is ModelNotFound)
            },
    {
        let profile = match self.profile() {
            Ok(p) => p,
            Err(e) => {
                return Err(e);
            },
        };
        let ram_gb = profile.ram_gb();
        let good_simd = profile.simd.has_good_simd();
        let model_id: &'static str;
        let reason: &'static str;
        if ram_gb < 4 {
            model_id = "whisper-tiny";
            reason = "limited RAM - using the smallest model";
        } else if ram_gb < 8 {
            model_id = "whisper-base";
            reason = "moderate RAM - using the base model";
        } else if good_simd {
            model_id = "whisper-small";
            reason = "ample RAM and good vector support - recommended model";
        } else {
            model_id = "whisper-small";
            reason = "ample RAM - recommended model";
        }
        proof {
            reveal_strlit("whisper-tiny");
            reveal_strlit("whisper-base");
            reveal_strlit("whisper-small");
        }
        if self.catalog_has(catalog, model_id) {
            Ok(
                ModelRecommendation {
                    model_id: String::from_str(model_id),
                    quantization: Quantization::Q5_1,
                    reason: String::from_str(reason),
                },
            )
        } else {
            let mut msg = String::from_str("recommended model not in catalog: ");
            msg.append(model_id);
            Err(DomainError::ModelNotFound(msg))
        }
    }

    /// Whether the catalog lists a model id.
    fn catalog_has(&self, catalog: &ModelCatalog, model_id: &str) -> (r: bool)
        ensures
            r == spec_find_model(catalog.models@, model_id@) is Some,
    {
        catalog.get(model_id).is_some()
    }
}

impl Default for CpuHardwareDetector {
    /// A detector that has not probed yet.
    fn default() -> (r: CpuHardwareDetector)
        ensures
            r.spec_profile() is None,
    {
        CpuHardwareDetector::new()
    }
}

} // verus!
