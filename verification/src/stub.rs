//! The NVML/CUDA stand-in library: the C++ source that reports the
//! presented GPU, and when it has to be rebuilt.
use vstd::prelude::*;
use crate::text::{append_chars, append_str, chars_of, chars_equal, decimal, push_decimal, string_of, trim, trim_chars};

verus! {

/// Stub source up to the NVML device count.
pub const STUB_HEAD: &'static str = r#"
#include <windows.h>
#include <string.h>
extern "C" {
    __declspec(dllexport) int nvmlInit_v2() { return 0; }
    __declspec(dllexport) int nvmlInit() { return 0; }
    __declspec(dllexport) int nvmlShutdown() { return 0; }
    __declspec(dllexport) int nvmlDeviceGetCount_v2(unsigned int *count) { *count = "#;

/// Stub source between the NVML device count and the handle limit.
pub const STUB_AFTER_COUNT: &'static str = r#"; return 0; }
    __declspec(dllexport) int nvmlDeviceGetHandleByIndex_v2(unsigned int index, void **device) { if(index < "#;

/// Stub source between the handle limit and the NVML device name.
pub const STUB_AFTER_LIMIT: &'static str = r#") { *device = (void*)(index + 1); return 0; } return 1; }
    __declspec(dllexport) int nvmlDeviceGetName(void *device, char *name, unsigned int length) { strncpy_s(name, length, ""#;

/// Stub source between the NVML device name and the total memory.
pub const STUB_AFTER_NAME: &'static str = r#"", _TRUNCATE); return 0; }
    __declspec(dllexport) int nvmlDeviceGetMemoryInfo(void *device, unsigned long long *free, unsigned long long *total, unsigned long long *used) { 
        *total = "#;

/// Stub source between the total memory and the free memory.
pub const STUB_AFTER_TOTAL: &'static str = r#"ULL; *free = "#;

/// Stub source between the free memory and the CUDA device count.
pub const STUB_AFTER_FREE: &'static str = r#"ULL; *used = 2147483648ULL; return 0; 
    }
    __declspec(dllexport) int nvmlSystemGetDriverVersion(char *version, unsigned int length) { strncpy_s(version, length, "550.54", _TRUNCATE); return 0; }
    __declspec(dllexport) int nvmlSystemGetNVMLVersion(char *version, unsigned int length) { strncpy_s(version, length, "12.550.54", _TRUNCATE); return 0; }
    __declspec(dllexport) int nvmlDeviceGetTemperature(void *device, int sensorType, unsigned int *temp) { *temp = 45; return 0; }
    __declspec(dllexport) int nvmlDeviceGetPowerUsage(void *device, unsigned int *power) { *power = 150000; return 0; }
    __declspec(dllexport) int nvmlDeviceGetUtilizationRates(void *device, void *utilization) { if(utilization) { ((unsigned int*)utilization)[0] = 50; ((unsigned int*)utilization)[1] = 50; } return 0; }
    __declspec(dllexport) int nvmlDeviceGetUUID(void *device, char *uuid, unsigned int length) { strncpy_s(uuid, length, "GPU-12345678-1234-1234-1234-1234567890ab", _TRUNCATE); return 0; }
    __declspec(dllexport) int nvmlDeviceGetFanSpeed(void *device, unsigned int *speed) { *speed = 30; return 0; }
    __declspec(dllexport) int nvmlDeviceGetPerformanceState(void *device, int *pState) { *pState = 0; return 0; }
    __declspec(dllexport) int nvmlDeviceGetArchitecture(void *device, int *arch) { *arch = 8; return 0; }
    __declspec(dllexport) int nvmlDeviceGetCudaComputeCapability(void *device, int *major, int *minor) { *major = 8; *minor = 9; return 0; }
    
    __declspec(dllexport) int cuInit(unsigned int Flags) { return 0; }
    __declspec(dllexport) int cuDriverGetVersion(int *driverVersion) { *driverVersion = 12040; return 0; }
    __declspec(dllexport) int cuDeviceGetCount(int *count) { *count = "#;

/// Stub source between the CUDA device count and the CUDA device name.
pub const STUB_AFTER_CU_COUNT: &'static str = r#"; return 0; }
    __declspec(dllexport) int cuGetErrorString(int error, const char **pStr) { *pStr = "CUDA_SUCCESS"; return 0; }
    __declspec(dllexport) int cuGetErrorName(int error, const char **pStr) { *pStr = "CUDA_SUCCESS"; return 0; }
    __declspec(dllexport) int cuDeviceGetName(char *name, int len, int dev) { strncpy_s(name, len, ""#;

/// Stub source between the CUDA device name and the CUDA total memory.
pub const STUB_AFTER_CU_NAME: &'static str = r#"", _TRUNCATE); return 0; }
    __declspec(dllexport) int cuDeviceTotalMem_v2(unsigned long long *bytes, int dev) { *bytes = "#;

/// Stub source after the CUDA total memory.
pub const STUB_TAIL: &'static str = r#"ULL; return 0; }
    __declspec(dllexport) int cuDeviceGetUuid(char *uuid, int dev) { strncpy_s(uuid, 16, "1234567890abcdef", _TRUNCATE); return 0; }
    __declspec(dllexport) int cuDeviceComputeCapability(int *major, int *minor, int dev) { *major = 8; *minor = 9; return 0; }
    __declspec(dllexport) int cuDeviceGetAttribute(int *pi, int attrib, int dev) { 
        if (attrib == 75) *pi = 8; else if (attrib == 76) *pi = 9; else if (attrib == 8) *pi = 128; else if (attrib == 1) *pi = 1024; else if (attrib == 2) *pi = 1024; else *pi = 1; return 0; 
    }
}
"#;

/// The source of the stand-in library for `count` devices named `name`
/// with `vram` bytes of memory each.
pub open spec fn stub_source_of(name: Seq<char>, vram: u64, count: usize) -> Seq<char> {
    let c = decimal(count as nat);
    let m = decimal(vram as nat);
    STUB_HEAD@ + c + STUB_AFTER_COUNT@ + c + STUB_AFTER_LIMIT@ + name + STUB_AFTER_NAME@ + m
        + STUB_AFTER_TOTAL@ + m + STUB_AFTER_FREE@ + c + STUB_AFTER_CU_COUNT@ + name
        + STUB_AFTER_CU_NAME@ + m + STUB_TAIL@
}

/// Generates the source of the stand-in library.
pub fn stub_source(name: &str, vram: u64, count: usize) -> (r: String)
    ensures
        r@ == stub_source_of(name@, vram, count),
{
    let n = chars_of(name);
    let mut v = chars_of(STUB_HEAD);
    push_decimal(&mut v, count as u64);
    append_str(&mut v, STUB_AFTER_COUNT);
    push_decimal(&mut v, count as u64);
    append_str(&mut v, STUB_AFTER_LIMIT);
    append_chars(&mut v, &n);
    append_str(&mut v, STUB_AFTER_NAME);
    push_decimal(&mut v, vram);
    append_str(&mut v, STUB_AFTER_TOTAL);
    push_decimal(&mut v, vram);
    append_str(&mut v, STUB_AFTER_FREE);
    push_decimal(&mut v, count as u64);
    append_str(&mut v, STUB_AFTER_CU_COUNT);
    append_chars(&mut v, &n);
    append_str(&mut v, STUB_AFTER_CU_NAME);
    push_decimal(&mut v, vram);
    append_str(&mut v, STUB_TAIL);
    string_of(&v)
}

/// The record of what a built stand-in library reports: `name|vram|count`.
pub open spec fn stub_meta_of(name: Seq<char>, vram: u64, count: usize) -> Seq<char> {
    name + "|"@ + decimal(vram as nat) + "|"@ + decimal(count as nat)
}

/// Builds the record of what a stand-in library reports.
pub fn stub_meta(name: &str, vram: u64, count: usize) -> (r: String)
    ensures
        r@ == stub_meta_of(name@, vram, count),
{
    let mut v = chars_of(name);
    append_str(&mut v, "|");
    push_decimal(&mut v, vram);
    append_str(&mut v, "|");
    push_decimal(&mut v, count as u64);
    string_of(&v)
}

/// The library has to be (re)built unless it exists together with a record
/// that, trimmed, equals the current one.
pub open spec fn stub_outdated(library_exists: bool, saved_meta: Option<Seq<char>>, current: Seq<char>) -> bool {
    !(library_exists && (match saved_meta {
        Some(s) => trim(s) == current,
        None => false,
    }))
}

/// Whether the stand-in library has to be rebuilt; `saved_meta` is the
/// stored record, `None` when there is none or it cannot be read.
pub fn stub_needs_build(library_exists: bool, saved_meta: Option<&str>, current: &str) -> (r: bool)
    ensures
        r == stub_outdated(
            library_exists,
            match saved_meta {
                Some(s) => Some(s@),
                None => None,
            },
            current@,
        ),
{
    if !library_exists {
        return true;
    }
    match saved_meta {
        Some(s) => {
            let raw = chars_of(s);
            let t = trim_chars(&raw);
            let c = chars_of(current);
            !chars_equal(&t, &c)
        },
        None => true,
    }
}

/// What is done about the stand-in library.
#[derive(Clone, Copy, Debug, PartialEq, Eq, Structural)]
pub enum StubAction {
    /// Compile the generated source, link it under both DLL names and store the record.
    Compile,
    /// Put a placeholder DLL under both names.
    UsePlaceholder,
    /// Leave the existing library alone.
    Keep,
}

/// The action for the stand-in library: compile when it is outdated and a
/// compiler is available, otherwise fall back to a placeholder if there is
/// no library at all.
pub open spec fn stub_action_of(outdated: bool, compiler_found: bool, library_exists: bool) -> StubAction {
    if outdated && compiler_found {
        StubAction::Compile
    } else if !library_exists {
        StubAction::UsePlaceholder
    } else {
        StubAction::Keep
    }
}

/// Decides what is done about the stand-in library.
pub fn stub_action(outdated: bool, compiler_found: bool, library_exists: bool) -> (r: StubAction)
    ensures
        r == stub_action_of(outdated, compiler_found, library_exists),
{
    if outdated && compiler_found {
        StubAction::Compile
    } else if !library_exists {
        StubAction::UsePlaceholder
    } else {
        StubAction::Keep
    }
}

/// The decision table for the stand-in library: an outdated library is
/// compiled whenever a compiler is found, whether or not an older library
/// exists; otherwise a missing library gets a placeholder and an existing
/// one is kept.
pub proof fn lemma_stub_decisions(outdated: bool, compiler_found: bool, library_exists: bool)
    ensures
        outdated && compiler_found ==> stub_action_of(outdated, compiler_found, library_exists)
            == StubAction::Compile,
        !(outdated && compiler_found) && !library_exists ==> stub_action_of(
            outdated,
            compiler_found,
            library_exists,
        ) == StubAction::UsePlaceholder,
        !(outdated && compiler_found) && library_exists ==> stub_action_of(
            outdated,
            compiler_found,
            library_exists,
        ) == StubAction::Keep,
{
}

/// A library that does not exist is always outdated, whatever record is
/// stored; so on a machine with a compiler and no library yet, it is
/// compiled.
pub proof fn lemma_missing_library_is_compiled(saved_meta: Option<Seq<char>>, current: Seq<char>)
    ensures
        stub_outdated(false, saved_meta, current),
        stub_action_of(stub_outdated(false, saved_meta, current), true, false) == StubAction::Compile,
{
}

/// A library built with the current record is not rebuilt: storing the
/// record after a build makes the next check find it current.
pub proof fn lemma_stored_meta_is_current(name: Seq<char>, vram: u64, count: usize)
    requires
        trim(stub_meta_of(name, vram, count)) == stub_meta_of(name, vram, count),
    ensures
        !stub_outdated(true, Some(stub_meta_of(name, vram, count)), stub_meta_of(name, vram, count)),
{
}

/// The compiler's arguments: build a DLL, optimised, from `cpp_path`
/// into `library_path`.
pub fn compiler_arguments(cpp_path: &str, library_path: &str) -> (r: Vec<String>)
    ensures
        r@.len() == 4,
        r@[0]@ == "/LD"@,
        r@[1]@ == "/O2"@,
        r@[2]@ == cpp_path@,
        r@[3]@ == "/Fe"@ + library_path@,
{
    let mut out = chars_of("/Fe");
    append_str(&mut out, library_path);
    let mut r: Vec<String> = Vec::new();
    r.push(string_of(&chars_of("/LD")));
    r.push(string_of(&chars_of("/O2")));
    r.push(string_of(&chars_of(cpp_path)));
    r.push(string_of(&out));
    r
}

} // verus!
