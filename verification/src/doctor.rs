//! The environment diagnosis: which tools are checked, when a check passes,
//! and what is advised when it fails.
use vstd::prelude::*;
use crate::text::{chars_of, trim, trim_chars};

verus! {

/// The tools that the diagnosis checks, in the order it reports them.
#[derive(Clone, Copy, Debug, PartialEq, Eq, Structural)]
pub enum DoctorCheck {
    /// The MSVC compiler `cl.exe`.
    MsvcCompiler,
    /// The AMD compiler `hipcc`.
    HipCompiler,
    /// The ROCm system management tool `rocm-smi`.
    RocmSmi,
    /// The AMD graphics driver.
    AmdDriver,
    /// Perl (for the HIPIFY translator).
    Perl,
    /// PyTorch.
    PyTorch,
}

/// The PowerShell query that prints the driver version of the first AMD
/// display adapter (nothing when there is none).
pub const DRIVER_QUERY: &'static str =
    "Get-CimInstance Win32_VideoController -ErrorAction SilentlyContinue | Where-Object { $_.Name -match 'AMD|Radeon|Advanced Micro Devices|Instinct' } | Select-Object -First 1 -ExpandProperty DriverVersion";

/// Whether the driver query reported a version: its output holds more than
/// whitespace.
pub fn driver_reported(query_output: &str) -> (r: bool)
    ensures
        r == (trim(query_output@).len() > 0),
{
    let v = chars_of(query_output);
    let t = trim_chars(&v);
    t.len() > 0
}

/// The checks, in report order.
pub fn doctor_checks() -> (r: Vec<DoctorCheck>)
    ensures
        r@ == seq![
            DoctorCheck::MsvcCompiler,
            DoctorCheck::HipCompiler,
            DoctorCheck::RocmSmi,
            DoctorCheck::AmdDriver,
            DoctorCheck::Perl,
            DoctorCheck::PyTorch,
        ],
{
    let mut r: Vec<DoctorCheck> = Vec::new();
    r.push(DoctorCheck::MsvcCompiler);
    r.push(DoctorCheck::HipCompiler);
    r.push(DoctorCheck::RocmSmi);
    r.push(DoctorCheck::AmdDriver);
    r.push(DoctorCheck::Perl);
    r.push(DoctorCheck::PyTorch);
    r
}

impl DoctorCheck {
    /// The label shown for the check.
    pub fn label(&self) -> (r: &'static str)
        ensures
            r@ == match *self {
                DoctorCheck::MsvcCompiler => "MSVC Compiler (cl.exe)"@,
                DoctorCheck::HipCompiler => "AMD Compiler (hipcc)"@,
                DoctorCheck::RocmSmi => "ROCm SMI (rocm-smi)"@,
                DoctorCheck::AmdDriver => "AMD GPU Driver"@,
                DoctorCheck::Perl => "Strawberry Perl"@,
                DoctorCheck::PyTorch => "PyTorch (import torch)"@,
            },
    {
        match self {
            DoctorCheck::MsvcCompiler => "MSVC Compiler (cl.exe)",
            DoctorCheck::HipCompiler => "AMD Compiler (hipcc)",
            DoctorCheck::RocmSmi => "ROCm SMI (rocm-smi)",
            DoctorCheck::AmdDriver => "AMD GPU Driver",
            DoctorCheck::Perl => "Strawberry Perl",
            DoctorCheck::PyTorch => "PyTorch (import torch)",
        }
    }

    /// The advice shown when the check fails.
    pub fn fix_hint(&self) -> (r: &'static str)
        ensures
            r@ == match *self {
                DoctorCheck::MsvcCompiler => "      -> Fix: Run 'install-deps' to download Visual Studio Build Tools"@,
                DoctorCheck::HipCompiler => "      -> Fix: Install AMD HIP SDK"@,
                DoctorCheck::RocmSmi => "      -> Fix: Install AMD HIP SDK"@,
                DoctorCheck::AmdDriver => "      -> Fix: Install the AMD Software: Adrenalin Edition (or PRO Edition) graphics driver"@,
                DoctorCheck::Perl => "      -> Fix: Run 'install-deps' to download Strawberry Perl"@,
                DoctorCheck::PyTorch => "      -> Fix: Run 'pip install torch torchvision torchaudio --index-url https://download.pytorch.org/whl/rocm6.0'"@,
            },
    {
        match self {
            DoctorCheck::MsvcCompiler => "      -> Fix: Run 'install-deps' to download Visual Studio Build Tools",
            DoctorCheck::HipCompiler => "      -> Fix: Install AMD HIP SDK",
            DoctorCheck::RocmSmi => "      -> Fix: Install AMD HIP SDK",
            DoctorCheck::AmdDriver => "      -> Fix: Install the AMD Software: Adrenalin Edition (or PRO Edition) graphics driver",
            DoctorCheck::Perl => "      -> Fix: Run 'install-deps' to download Strawberry Perl",
            DoctorCheck::PyTorch => "      -> Fix: Run 'pip install torch torchvision torchaudio --index-url https://download.pytorch.org/whl/rocm6.0'",
        }
    }

    /// Whether the check consults a second sign when the tool does not run:
    /// a compiler found in the Visual Studio installation, the ROCm
    /// installation folder, the HIP runtime library of the driver, or a
    /// downloaded Perl. PyTorch has none.
    pub fn has_fallback(&self) -> (r: bool)
        ensures
            r == (*self != DoctorCheck::PyTorch),
    {
        match self {
            DoctorCheck::PyTorch => false,
            _ => true,
        }
    }

    /// Whether the check passes: the tool runs, or (where the check has
    /// one) its second sign is present.
    pub fn passes(&self, tool_runs: bool, fallback_found: bool) -> (r: bool)
        ensures
            r == (tool_runs || (*self != DoctorCheck::PyTorch && fallback_found)),
    {
        tool_runs || (self.has_fallback() && fallback_found)
    }
}

} // verus!
