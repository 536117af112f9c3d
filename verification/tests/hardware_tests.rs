use opensay::hardware::{
    CpuArch, CpuHardwareDetector, HardwareProbe, HardwareProfile, OsType, SimdCapabilities,
};

fn probe(threads: u32, ram_bytes: u64, avx2: bool) -> HardwareProbe {
    HardwareProbe {
        arch_name: "x86_64".to_string(),
        os_name: "linux".to_string(),
        threads,
        simd: SimdCapabilities { avx: avx2, avx2, avx512: false, neon: false },
        ram_bytes,
    }
}

#[test]
fn test_hardware_detection() {
    let mut detector = CpuHardwareDetector::new();
    let profile = detector.detect(&probe(8, 16 * 1024 * 1024 * 1024, true));

    assert!(profile.threads >= 1);
    assert!(profile.ram_bytes > 0);
}

#[test]
fn test_profile_caching() {
    let mut detector = CpuHardwareDetector::new();

    let profile1 = detector.detect(&probe(8, 16 * 1024 * 1024 * 1024, true));
    // The first detection wins; a different later probe is discarded.
    let profile2 = detector.detect(&probe(2, 4 * 1024 * 1024 * 1024, false));

    assert_eq!(profile1.threads, profile2.threads);
    assert_eq!(profile1.ram_bytes, profile2.ram_bytes);
}

#[test]
fn test_cpu_arch_detect() {
    let arch = CpuArch::from_name("x86_64");
    assert!(matches!(arch, CpuArch::X86_64 | CpuArch::Arm64 | CpuArch::Unknown));
    assert_eq!(CpuArch::from_name("aarch64"), CpuArch::Arm64);
    assert_eq!(CpuArch::from_name("riscv64"), CpuArch::Unknown);
}

#[test]
fn test_simd_detect() {
    // On a typical x86_64 machine at least AVX is detected.
    let simd = SimdCapabilities { avx: true, avx2: true, avx512: false, neon: false };
    assert!(simd.avx || simd.avx2);

    // On ARM64 NEON is always available.
    let simd = SimdCapabilities { avx: false, avx2: false, avx512: false, neon: true };
    assert!(simd.neon);
}

#[test]
fn test_hardware_profile_threads() {
    let profile = HardwareProfile {
        arch: CpuArch::X86_64,
        cores: 8,
        threads: 8,
        simd: SimdCapabilities { avx: false, avx2: false, avx512: false, neon: false },
        ram_bytes: 16 * 1024 * 1024 * 1024,
        os: OsType::MacOS,
    };
    assert_eq!(profile.recommended_threads(), 7);
    assert_eq!(profile.ram_gb(), 16);
}
