//! The loaded OpenH264 library: its version check and what it supports.
use vstd::prelude::*;
use crate::error::Error;
use crate::text::{decimal, digit_char, push_decimal, lemma_decimal_len, lemma_digit_char_injective};

verus! {

/// The OpenH264 version (tag) the binding was built against.
pub const BUILD_VERSION: &'static str = "v2.6.0";

/// The repository of the OpenH264 sources the binding was built against.
pub const BUILD_REPOSITORY: &'static str = "https://github.com/cisco/openh264.git";

/// The version that `WelsGetCodecVersion` reports (`OpenH264Version`).
#[derive(Debug, Clone, Copy, PartialEq, Eq, Structural)]
pub struct OpenH264Version {
    /// `uMajor`
    pub major: u32,
    /// `uMinor`
    pub minor: u32,
    /// `uRevision`
    pub revision: u32,
    /// `uReserved`
    pub reserved: u32,
}

/// The text of a version: `v{major}.{minor}.{revision}`.
pub open spec fn version_text(v: OpenH264Version) -> Seq<char> {
    seq!['v'] + decimal(v.major as nat) + seq!['.'] + decimal(v.minor as nat) + seq!['.']
        + decimal(v.revision as nat)
}

/// Codec kind.
#[derive(Debug, Clone, Copy, PartialEq, Eq, Structural)]
pub enum VideoCodecType {
    /// H.264
    H264,
}

/// H.264 encoding profile. OpenH264 supports Constrained Baseline only.
#[derive(Debug, Clone, Copy, PartialEq, Eq, Structural)]
pub enum H264EncodingProfile {
    /// Constrained Baseline profile.
    ConstrainedBaseline,
}

/// Codec-specific encoding profiles.
#[derive(Debug, Clone, PartialEq, Eq)]
pub enum EncodingProfiles {
    /// The H.264 profiles.
    H264(Vec<H264EncodingProfile>),
    /// No profile information.
    Unsupported,
}

/// What the library offers for decoding.
#[derive(Debug, Clone, PartialEq, Eq, Structural)]
pub struct DecodingInfo {
    /// Whether decoding is supported.
    pub supported: bool,
    /// Whether decoding is hardware accelerated.
    pub hardware_accelerated: bool,
}

/// What the library offers for encoding.
#[derive(Debug, Clone, PartialEq, Eq)]
pub struct EncodingInfo {
    /// Whether encoding is supported.
    pub supported: bool,
    /// Whether encoding is hardware accelerated.
    pub hardware_accelerated: bool,
    /// The codec-specific profiles.
    pub profiles: EncodingProfiles,
}

/// What the library offers for a codec.
#[derive(Debug, Clone, PartialEq, Eq)]
pub struct CodecInfo {
    /// The codec.
    pub codec: VideoCodecType,
    /// Decoding support.
    pub decoding: DecodingInfo,
    /// Encoding support.
    pub encoding: EncodingInfo,
}

/// The text of a version, as `runtime_version` renders it.
fn render_version(version: OpenH264Version) -> (s: String)
    ensures
        s@ == version_text(version),
{
    let mut s = String::new();
    s.append("v");
    push_decimal(&mut s, version.major as u64);
    s.append(".");
    push_decimal(&mut s, version.minor as u64);
    s.append(".");
    push_decimal(&mut s, version.revision as u64);
    proof {
        reveal_strlit("v");
        reveal_strlit(".");
    }
    s
}

/// `Ok` when `version` is the build version, `VersionMismatch` otherwise.
fn check_runtime_version(version: OpenH264Version) -> (r: Result<(), Error>)
    ensures
        r is Ok <==> version_text(version) == BUILD_VERSION@,
        r matches Err(e) ==> e == (Error::VersionMismatch {
            build_version: BUILD_VERSION,
            runtime_version: e->runtime_version,
        }) && e->runtime_version@ == version_text(version),
{
    let runtime_version = render_version(version);
    let build = String::from_str(BUILD_VERSION);
    if runtime_version != build {
        return Err(Error::VersionMismatch { build_version: BUILD_VERSION, runtime_version });
    }
    Ok(())
}

/// A loaded OpenH264 shared library: where it was loaded from and the version it reports,
/// which is always the build version.
#[derive(Debug)]
pub struct Openh264Library {
    path: String,
    version: OpenH264Version,
}

impl Clone for Openh264Library {
    /// A copy with the same path and version.
    fn clone(&self) -> (c: Openh264Library)
        ensures
            c.spec_path() == self.spec_path(),
            c.spec_version() == self.spec_version(),
    {
        proof { use_type_invariant(self); }
        Openh264Library { path: self.path.clone(), version: self.version }
    }
}

impl Openh264Library {
    #[verifier::type_invariant]
    spec fn reports_build_version(self) -> bool {
        version_text(self.version) == BUILD_VERSION@
    }

    /// The path the library was loaded from.
    pub closed spec fn spec_path(&self) -> Seq<char> {
        self.path@
    }

    /// The version the library reports.
    pub closed spec fn spec_version(&self) -> OpenH264Version {
        self.version
    }

    /// Accepts a library loaded from `path` that reports `version`, when that version is the
    /// one the binding was built against (`VersionMismatch` otherwise).
    pub fn new(path: String, version: OpenH264Version) -> (r: Result<Openh264Library, Error>)
        ensures
            r is Ok <==> version_text(version) == BUILD_VERSION@,
            r matches Ok(lib) ==> lib.spec_path() == path@ && lib.spec_version() == version,
            r matches Err(e) ==> e == (Error::VersionMismatch {
                build_version: BUILD_VERSION,
                runtime_version: e->runtime_version,
            }) && e->runtime_version@ == version_text(version),
    {
        match check_runtime_version(version) {
            Ok(()) => Ok(Openh264Library { path, version }),
            Err(e) => Err(e),
        }
    }

    /// The path the library was loaded from.
    pub fn path(&self) -> (p: &str)
        ensures
            p@ == self.spec_path(),
    {
        self.path.as_str()
    }

    /// The version the library reports, as `v{major}.{minor}.{revision}`: always the build
    /// version, since no other is accepted.
    pub fn runtime_version(&self) -> (s: String)
        ensures
            s@ == version_text(self.spec_version()),
            s@ == BUILD_VERSION@,
    {
        proof { use_type_invariant(self); }
        render_version(self.version)
    }

    /// `Ok` when the run-time version is the build version, `VersionMismatch` otherwise;
    /// a loaded library always passes.
    pub fn check_version(&self) -> (r: Result<(), Error>)
        ensures
            r is Ok,
            r is Ok <==> version_text(self.spec_version()) == BUILD_VERSION@,
    {
        proof { use_type_invariant(self); }
        check_runtime_version(self.version)
    }

    /// The codec support of the library, given what probing it found: whether a decoder can
    /// be created and initialized, whether an encoder can be created, and whether an encoder
    /// accepts the baseline profile. OpenH264 is a software codec: nothing is hardware
    /// accelerated.
    pub fn supported_codecs(
        &self,
        decoder_available: bool,
        encoder_available: bool,
        baseline_supported: bool,
    ) -> (info: CodecInfo)
        ensures
            info.codec == VideoCodecType::H264,
            info.decoding.supported == decoder_available,
            !info.decoding.hardware_accelerated,
            info.encoding.supported == encoder_available,
            !info.encoding.hardware_accelerated,
            encoder_available ==> (info.encoding.profiles matches EncodingProfiles::H264(p)
                && p@ == supported_profiles(baseline_supported)),
            !encoder_available ==> info.encoding.profiles is Unsupported,
    {
        let decoding = DecodingInfo { supported: decoder_available, hardware_accelerated: false };
        let profiles = if encoder_available {
            EncodingProfiles::H264(detect_supported_profiles(baseline_supported))
        } else {
            EncodingProfiles::Unsupported
        };
        let encoding = EncodingInfo {
            supported: encoder_available,
            hardware_accelerated: false,
            profiles,
        };
        CodecInfo { codec: VideoCodecType::H264, decoding, encoding }
    }
}

/// The profiles an encoder supports: Constrained Baseline where the baseline profile was
/// accepted, none otherwise.
pub open spec fn supported_profiles(baseline_supported: bool) -> Seq<H264EncodingProfile> {
    if baseline_supported {
        seq![H264EncodingProfile::ConstrainedBaseline]
    } else {
        seq![]
    }
}

/// The profiles an encoder supports, given whether it accepted the baseline profile
/// (OpenH264 implements Constrained Baseline only).
pub fn detect_supported_profiles(baseline_supported: bool) -> (profiles: Vec<H264EncodingProfile>)
    ensures
        profiles@ == supported_profiles(baseline_supported),
{
    let mut profiles = Vec::new();
    if baseline_supported {
        profiles.push(H264EncodingProfile::ConstrainedBaseline);
    }
    profiles
}

/// A library passes the version check exactly when it reports version 2.6.0, the version
/// the binding was built against.
pub proof fn lemma_version_check_accepts_build_version(v: OpenH264Version)
    ensures
        version_text(v) == BUILD_VERSION@ <==> (v.major == 2 && v.minor == 6 && v.revision == 0),
{
    reveal_strlit("v2.6.0");
    let a = decimal(v.major as nat);
    let b = decimal(v.minor as nat);
    let c = decimal(v.revision as nat);
    let t = version_text(v);
    lemma_decimal_len(v.major as nat);
    lemma_decimal_len(v.minor as nat);
    lemma_decimal_len(v.revision as nat);
    assert(t =~= seq!['v'] + a + seq!['.'] + b + seq!['.'] + c);
    if t == BUILD_VERSION@ {
        assert(t.len() == 6);
        assert(a.len() == 1 && b.len() == 1 && c.len() == 1);
        assert(t[1] == a[0]);
        assert(t[3] == b[0]);
        assert(t[5] == c[0]);
        assert(a[0] == digit_char(v.major as nat));
        assert(b[0] == digit_char(v.minor as nat));
        assert(c[0] == digit_char(v.revision as nat));
        lemma_digit_char_injective(v.major as nat, 2);
        lemma_digit_char_injective(v.minor as nat, 6);
        lemma_digit_char_injective(v.revision as nat, 0);
    }
    if v.major == 2 && v.minor == 6 && v.revision == 0 {
        assert(t =~= BUILD_VERSION@);
    }
}

} // verus!
