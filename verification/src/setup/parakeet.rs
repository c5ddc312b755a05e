//! Parakeet (ONNX) backend management.
//!
//! voxtype switches between Whisper and Parakeet binaries by pointing a
//! symlink at one of the binaries stored in `/usr/lib/voxtype/`. This module
//! names the binaries, reads binary names back, and chooses which binary to
//! switch to; reading and changing the symlink is left to the caller.

use vstd::prelude::*;

use crate::text::{
    chars_of, contains_chars, contains_text, lower_ascii, lower_ascii_text, push_str_chars,
    string_from_chars, trim, trim_chars,
};

verus! {

/// Directory holding the voxtype binaries
pub open spec fn lib_dir() -> Seq<char> {
    "/usr/lib/voxtype/"@
}

/// Parakeet backend variants
#[derive(Debug, Clone, Copy, PartialEq, Eq, Structural)]
pub enum ParakeetBackend {
    Avx2,
    Avx512,
    Cuda,
    Rocm,
    /// Custom binary (source-compiled without specific suffix)
    Custom,
}

/// Every backend, in the order they are listed and probed.
pub open spec fn all_backends() -> Seq<ParakeetBackend> {
    seq![
        ParakeetBackend::Avx2,
        ParakeetBackend::Avx512,
        ParakeetBackend::Cuda,
        ParakeetBackend::Rocm,
        ParakeetBackend::Custom,
    ]
}

pub open spec fn binary_name_text(b: ParakeetBackend) -> Seq<char> {
    match b {
        ParakeetBackend::Avx2 => "voxtype-onnx-avx2"@,
        ParakeetBackend::Avx512 => "voxtype-onnx-avx512"@,
        ParakeetBackend::Cuda => "voxtype-onnx-cuda"@,
        ParakeetBackend::Rocm => "voxtype-onnx-rocm"@,
        ParakeetBackend::Custom => "voxtype-onnx"@,
    }
}

pub open spec fn display_name_text(b: ParakeetBackend) -> Seq<char> {
    match b {
        ParakeetBackend::Avx2 => "ONNX (AVX2)"@,
        ParakeetBackend::Avx512 => "ONNX (AVX-512)"@,
        ParakeetBackend::Cuda => "ONNX (CUDA)"@,
        ParakeetBackend::Rocm => "ONNX (ROCm)"@,
        ParakeetBackend::Custom => "ONNX (Custom)"@,
    }
}

pub open spec fn whisper_equivalent_text(b: ParakeetBackend) -> Seq<char> {
    match b {
        ParakeetBackend::Avx2 => "voxtype-avx2"@,
        ParakeetBackend::Avx512 => "voxtype-avx512"@,
        // GPU users fall back to the Vulkan build
        ParakeetBackend::Cuda => "voxtype-vulkan"@,
        ParakeetBackend::Rocm => "voxtype-vulkan"@,
        // Source builds: natively compiled, no CPU tier
        ParakeetBackend::Custom => "voxtype-native"@,
    }
}

impl ParakeetBackend {
    /// Name of the binary of this backend
    pub fn binary_name(&self) -> (r: &'static str)
        ensures
            r@ == binary_name_text(*self),
    {
        match self {
            ParakeetBackend::Avx2 => "voxtype-onnx-avx2",
            ParakeetBackend::Avx512 => "voxtype-onnx-avx512",
            ParakeetBackend::Cuda => "voxtype-onnx-cuda",
            ParakeetBackend::Rocm => "voxtype-onnx-rocm",
            ParakeetBackend::Custom => "voxtype-onnx",
        }
    }

    /// Human-readable name of this backend
    pub fn display_name(&self) -> (r: &'static str)
        ensures
            r@ == display_name_text(*self),
    {
        match self {
            ParakeetBackend::Avx2 => "ONNX (AVX2)",
            ParakeetBackend::Avx512 => "ONNX (AVX-512)",
            ParakeetBackend::Cuda => "ONNX (CUDA)",
            ParakeetBackend::Rocm => "ONNX (ROCm)",
            ParakeetBackend::Custom => "ONNX (Custom)",
        }
    }

    /// The Whisper binary to switch back to from this backend
    pub fn whisper_equivalent(&self) -> (r: &'static str)
        ensures
            r@ == whisper_equivalent_text(*self),
    {
        match self {
            ParakeetBackend::Avx2 => "voxtype-avx2",
            ParakeetBackend::Avx512 => "voxtype-avx512",
            ParakeetBackend::Cuda => "voxtype-vulkan",
            ParakeetBackend::Rocm => "voxtype-vulkan",
            ParakeetBackend::Custom => "voxtype-native",
        }
    }

    /// Full path of the binary of this backend
    pub fn binary_path(&self) -> (r: String)
        ensures
            r@ == lib_dir() + binary_name_text(*self),
    {
        let mut p = chars_of("/usr/lib/voxtype/");
        push_str_chars(&mut p, self.binary_name());
        string_from_chars(&p)
    }
}

fn backends() -> (r: Vec<ParakeetBackend>)
    ensures
        r@ == all_backends(),
{
    let mut r: Vec<ParakeetBackend> = Vec::new();
    r.push(ParakeetBackend::Avx2);
    r.push(ParakeetBackend::Avx512);
    r.push(ParakeetBackend::Cuda);
    r.push(ParakeetBackend::Rocm);
    r.push(ParakeetBackend::Custom);
    assert(r@ =~= all_backends());
    r
}

// ---------------------------------------------------------------------------
// Reading binary names
// ---------------------------------------------------------------------------

/// A binary name belongs to the ONNX engines when it mentions `onnx` or `parakeet`.
pub open spec fn is_onnx_name(name: Seq<char>) -> bool {
    contains_text(name, "onnx"@) || contains_text(name, "parakeet"@)
}

/// Whether the active binary (given by its file name) is a Parakeet build
pub fn is_parakeet_binary_name(name: &str) -> (r: bool)
    ensures
        r == is_onnx_name(name@),
{
    let n = chars_of(name);
    contains_chars(&n, &chars_of("onnx")) || contains_chars(&n, &chars_of("parakeet"))
}

/// The Parakeet backend of a binary name, current or legacy.
pub open spec fn backend_of_binary(name: Seq<char>) -> Option<ParakeetBackend> {
    if name == "voxtype-onnx-avx2"@ || name == "voxtype-parakeet-avx2"@ {
        Some(ParakeetBackend::Avx2)
    } else if name == "voxtype-onnx-avx512"@ || name == "voxtype-parakeet-avx512"@ {
        Some(ParakeetBackend::Avx512)
    } else if name == "voxtype-onnx-cuda"@ || name == "voxtype-parakeet-cuda"@ {
        Some(ParakeetBackend::Cuda)
    } else if name == "voxtype-onnx-rocm"@ || name == "voxtype-parakeet-rocm"@ {
        Some(ParakeetBackend::Rocm)
    } else if name == "voxtype-onnx"@ || name == "voxtype-parakeet"@ {
        Some(ParakeetBackend::Custom)
    } else {
        None
    }
}

fn is_name(n: &Vec<char>, lit: &str) -> (r: bool)
    ensures
        r == (n@ == lit@),
{
    crate::text::chars_equal(n, &chars_of(lit))
}

/// Which Parakeet backend a binary name denotes (if any)
pub fn parakeet_backend_of_binary(name: &str) -> (r: Option<ParakeetBackend>)
    ensures
        r == backend_of_binary(name@),
{
    let n = chars_of(name);
    if is_name(&n, "voxtype-onnx-avx2") || is_name(&n, "voxtype-parakeet-avx2") {
        Some(ParakeetBackend::Avx2)
    } else if is_name(&n, "voxtype-onnx-avx512") || is_name(&n, "voxtype-parakeet-avx512") {
        Some(ParakeetBackend::Avx512)
    } else if is_name(&n, "voxtype-onnx-cuda") || is_name(&n, "voxtype-parakeet-cuda") {
        Some(ParakeetBackend::Cuda)
    } else if is_name(&n, "voxtype-onnx-rocm") || is_name(&n, "voxtype-parakeet-rocm") {
        Some(ParakeetBackend::Rocm)
    } else if is_name(&n, "voxtype-onnx") || is_name(&n, "voxtype-parakeet") {
        Some(ParakeetBackend::Custom)
    } else {
        None
    }
}

/// The Whisper binaries, in the order a fallback is searched.
pub open spec fn whisper_binaries() -> Seq<Seq<char>> {
    seq!["voxtype-avx512"@, "voxtype-avx2"@, "voxtype-vulkan"@, "voxtype-native"@]
}

/// Which Whisper backend a binary name denotes (if any)
pub fn whisper_backend_of_binary(name: &str) -> (r: Option<&'static str>)
    ensures
        match r {
            Some(b) => whisper_binaries().contains(name@) && b@ == name@,
            None => !whisper_binaries().contains(name@),
        },
{
    let n = chars_of(name);
    proof {
        reveal_strlit("voxtype-avx512");
        reveal_strlit("voxtype-avx2");
        reveal_strlit("voxtype-vulkan");
        reveal_strlit("voxtype-native");
    }
    if is_name(&n, "voxtype-avx2") {
        assert(whisper_binaries()[1] == name@);
        Some("voxtype-avx2")
    } else if is_name(&n, "voxtype-avx512") {
        assert(whisper_binaries()[0] == name@);
        Some("voxtype-avx512")
    } else if is_name(&n, "voxtype-vulkan") {
        assert(whisper_binaries()[2] == name@);
        Some("voxtype-vulkan")
    } else if is_name(&n, "voxtype-native") {
        assert(whisper_binaries()[3] == name@);
        Some("voxtype-native")
    } else {
        None
    }
}

// ---------------------------------------------------------------------------
// Installed backends
// ---------------------------------------------------------------------------

/// The backends whose flag is set, in the order of [`all_backends`].
pub open spec fn installed_backends(installed: Seq<bool>) -> Seq<ParakeetBackend>
    decreases installed.len(),
{
    if installed.len() == 0 {
        seq![]
    } else {
        let prev = installed_backends(installed.drop_last());
        if installed.last() && installed.len() <= 5 {
            prev.push(all_backends()[installed.len() - 1])
        } else {
            prev
        }
    }
}

/// The full path of some backend's own binary.
pub open spec fn is_backend_binary_path(path: Seq<char>) -> bool {
    exists|b: ParakeetBackend| path == lib_dir() + #[trigger] binary_name_text(b)
}

/// Whether a path names an existing file (`Path::exists`).
///
/// What is on disk is outside the library's knowledge: nothing is stated of
/// the result. Only the binaries of the backends are ever probed.
#[verifier::external_body]
fn path_exists(path: &String) -> bool
    requires
        is_backend_binary_path(path@),
{
    std::path::Path::new(path.as_str()).exists()
}

/// The backends listed in `installed` order: `installed[i]` says whether the
/// binary of backend `i` (Avx2, Avx512, Cuda, Rocm, Custom) is present.
pub fn select_installed(installed: &Vec<bool>) -> (r: Vec<ParakeetBackend>)
    requires
        installed@.len() == 5,
    ensures
        r@ == installed_backends(installed@),
{
    let all = backends();
    let mut r: Vec<ParakeetBackend> = Vec::new();
    let mut i: usize = 0;
    while i < 5
        invariant
            installed@.len() == 5,
            all@ == all_backends(),
            i <= 5,
            r@ == installed_backends(installed@.take(i as int)),
        decreases 5 - i,
    {
        assert(installed@.take(i + 1).drop_last() =~= installed@.take(i as int));
        if installed[i] {
            r.push(all[i]);
        }
        i += 1;
    }
    assert(installed@.take(5) =~= installed@);
    r
}

/// Detect available Parakeet backends: those whose binary is present in the
/// library directory, in the order Avx2, Avx512, Cuda, Rocm, Custom.
pub fn detect_available_backends() -> (r: Vec<ParakeetBackend>)
    ensures
        exists|installed: Seq<bool>| installed.len() == 5 && r@ == installed_backends(installed),
{
    let all = backends();
    let mut installed: Vec<bool> = Vec::new();
    let mut i: usize = 0;
    while i < 5
        invariant
            all@ == all_backends(),
            i <= 5,
            installed@.len() == i,
        decreases 5 - i,
    {
        let path = all[i].binary_path();
        assert(path@ == lib_dir() + binary_name_text(all@[i as int]));
        installed.push(path_exists(&path));
        i += 1;
    }
    select_installed(&installed)
}

// ---------------------------------------------------------------------------
// Choosing a backend
// ---------------------------------------------------------------------------

/// The backend to enable: CUDA with an NVIDIA GPU, ROCm with an AMD GPU,
/// AVX-512 on a CPU with `avx512f`, then AVX2, then the custom build, then
/// whatever is available first.
pub open spec fn best_backend(
    available: Seq<ParakeetBackend>,
    has_nvidia_gpu: bool,
    has_amd_gpu: bool,
    has_avx512f: bool,
) -> Option<ParakeetBackend> {
    if available.len() == 0 {
        None
    } else if available.contains(ParakeetBackend::Cuda) && has_nvidia_gpu {
        Some(ParakeetBackend::Cuda)
    } else if available.contains(ParakeetBackend::Rocm) && has_amd_gpu {
        Some(ParakeetBackend::Rocm)
    } else if available.contains(ParakeetBackend::Avx512) && has_avx512f {
        Some(ParakeetBackend::Avx512)
    } else if available.contains(ParakeetBackend::Avx2) {
        Some(ParakeetBackend::Avx2)
    } else if available.contains(ParakeetBackend::Custom) {
        Some(ParakeetBackend::Custom)
    } else {
        Some(available[0])
    }
}

fn contains_backend(v: &Vec<ParakeetBackend>, b: ParakeetBackend) -> (r: bool)
    ensures
        r == v@.contains(b),
{
    let mut i: usize = 0;
    while i < v.len()
        invariant
            i <= v@.len(),
            forall|j: int| 0 <= j < i ==> v@[j] != b,
        decreases v.len() - i,
    {
        if v[i] == b {
            return true;
        }
        i += 1;
    }
    false
}

/// Detect the best Parakeet backend for this system, given what is available
/// and what the hardware offers.
pub fn select_best_backend(
    available: &Vec<ParakeetBackend>,
    has_nvidia_gpu: bool,
    has_amd_gpu: bool,
    has_avx512f: bool,
) -> (r: Option<ParakeetBackend>)
    ensures
        r == best_backend(available@, has_nvidia_gpu, has_amd_gpu, has_avx512f),
        r matches Some(b) ==> available@.contains(b),
{
    if available.len() == 0 {
        return None;
    }
    if contains_backend(available, ParakeetBackend::Cuda) && has_nvidia_gpu {
        return Some(ParakeetBackend::Cuda);
    }
    if contains_backend(available, ParakeetBackend::Rocm) && has_amd_gpu {
        return Some(ParakeetBackend::Rocm);
    }
    if contains_backend(available, ParakeetBackend::Avx512) && has_avx512f {
        return Some(ParakeetBackend::Avx512);
    }
    if contains_backend(available, ParakeetBackend::Avx2) {
        return Some(ParakeetBackend::Avx2);
    }
    if contains_backend(available, ParakeetBackend::Custom) {
        return Some(ParakeetBackend::Custom);
    }
    assert(available@.contains(available@[0]));
    Some(available[0])
}

/// The Whisper binary to return to when leaving Parakeet: the equivalent of the
/// current backend, or the AVX2 build when the backend is unknown.
pub open spec fn preferred_whisper(current: Option<ParakeetBackend>) -> Seq<char> {
    match current {
        Some(b) => whisper_equivalent_text(b),
        None => "voxtype-avx2"@,
    }
}

pub fn preferred_whisper_binary(current: Option<ParakeetBackend>) -> (r: &'static str)
    ensures
        r@ == preferred_whisper(current),
{
    match current {
        Some(b) => b.whisper_equivalent(),
        None => "voxtype-avx2",
    }
}

/// The first Whisper binary present, in the order AVX-512, AVX2, Vulkan,
/// native; `installed[i]` says whether binary `i` of that order is present.
pub fn first_installed_whisper(installed: &Vec<bool>) -> (r: Option<&'static str>)
    requires
        installed@.len() == 4,
    ensures
        match r {
            Some(b) => exists|i: int|
                0 <= i < 4 && installed@[i] && b@ == whisper_binaries()[i] && forall|j: int|
                    0 <= j < i ==> !installed@[j],
            None => forall|j: int| 0 <= j < 4 ==> !installed@[j],
        },
{
    if installed[0] {
        return Some("voxtype-avx512");
    }
    if installed[1] {
        return Some("voxtype-avx2");
    }
    if installed[2] {
        return Some("voxtype-vulkan");
    }
    if installed[3] {
        return Some("voxtype-native");
    }
    None
}

/// Status of a backend in the status listing.
pub open spec fn backend_status_text(installed: bool, active: bool) -> Seq<char> {
    if active {
        "active"@
    } else if installed {
        "installed"@
    } else {
        "not installed"@
    }
}

pub fn backend_status(installed: bool, active: bool) -> (r: &'static str)
    ensures
        r@ == backend_status_text(installed, active),
{
    if active {
        "active"
    } else if installed {
        "installed"
    } else {
        "not installed"
    }
}

/// The hint at the end of the status listing.
#[derive(Debug, Clone, Copy, PartialEq, Eq, Structural)]
pub enum UsageHint {
    /// How to enable the ONNX engines
    EnableOnnx,
    /// How to switch back to Whisper
    SwitchToWhisper,
}

/// The usage hint of the status listing: how to switch back to Whisper while
/// Parakeet is active, how to enable it while it is not and some ONNX backend
/// is installed, and nothing otherwise.
pub fn usage_hint(parakeet_active: bool, any_backend_installed: bool) -> (r: Option<UsageHint>)
    ensures
        r == (if parakeet_active {
            Some(UsageHint::SwitchToWhisper)
        } else if any_backend_installed {
            Some(UsageHint::EnableOnnx)
        } else {
            None
        }),
{
    if !parakeet_active && any_backend_installed {
        Some(UsageHint::EnableOnnx)
    } else if parakeet_active {
        Some(UsageHint::SwitchToWhisper)
    } else {
        None
    }
}

// ---------------------------------------------------------------------------
// GPU detection
// ---------------------------------------------------------------------------

/// The `lspci` listing mentions an AMD GPU (`amd` or `radeon`, any ASCII case).
///
/// Lower-casing only ASCII letters gives the same answer as full Unicode
/// lower-casing here: no other character lower-cases into these letters.
pub open spec fn lspci_mentions_amd(listing: Seq<char>) -> bool {
    contains_text(lower_ascii_text(listing), "amd"@) || contains_text(
        lower_ascii_text(listing),
        "radeon"@,
    )
}

pub fn lspci_reports_amd(listing: &str) -> (r: bool)
    ensures
        r == lspci_mentions_amd(listing@),
{
    let lower = lower_ascii(&chars_of(listing));
    contains_chars(&lower, &chars_of("amd")) || contains_chars(&lower, &chars_of("radeon"))
}

/// The PCI vendor file of a render node names AMD (`0x1002`).
pub fn is_amd_vendor_id(contents: &str) -> (r: bool)
    ensures
        r == (trim(contents@) == "0x1002"@),
{
    let t = trim_chars(&chars_of(contents));
    crate::text::chars_equal(&t, &chars_of("0x1002"))
}

} // verus!
