//! Mapping raw host facts to display values: the known-executable tables
//! for the terminal and the shell, and the small formatted values for the
//! CPU, GPU and monitor records.
//!
//! An executable name outside the known tables is not an error: it maps to
//! the explicit `Unknown` label and the report goes on.

use vstd::prelude::*;

use crate::text::dec_rep;
use crate::text::u64_to_string;

verus! {

/// The human label for a terminal process executable name.
pub open spec fn terminal_label(exe: Seq<char>) -> Seq<char> {
    if exe == "explorer.exe"@ {
        "Win32 console"@
    } else if exe == "WindowsTerminal.exe"@ {
        "Windows Terminal"@
    } else if exe == "Code.exe"@ {
        "Visual Studio Code"@
    } else {
        "Unknown"@
    }
}

/// The human label for a shell process executable name.
pub open spec fn shell_label(exe: Seq<char>) -> Seq<char> {
    if exe == "cmd.exe"@ {
        "CommandPrompt"@
    } else if exe == "powershell.exe"@ {
        "PowerShell"@
    } else if exe == "nu.exe"@ {
        "Nu"@
    } else {
        "Unknown"@
    }
}

/// Whether two strings hold the same characters.
fn str_eq(a: &str, b: &str) -> (r: bool)
    ensures
        r == (a@ == b@),
{
    let sa = a.to_owned();
    let sb = b.to_owned();
    sa == sb
}

/// Maps a terminal executable name to its human label; names outside the
/// table map to `Unknown`.
pub fn terminal_name(exe: &str) -> (r: &'static str)
    ensures
        r@ == terminal_label(exe@),
{
    if str_eq(exe, "explorer.exe") {
        "Win32 console"
    } else if str_eq(exe, "WindowsTerminal.exe") {
        "Windows Terminal"
    } else if str_eq(exe, "Code.exe") {
        "Visual Studio Code"
    } else {
        "Unknown"
    }
}

/// Maps a shell executable name to its human label; names outside the
/// table map to `Unknown`.
pub fn shell_name(exe: &str) -> (r: &'static str)
    ensures
        r@ == shell_label(exe@),
{
    if str_eq(exe, "cmd.exe") {
        "CommandPrompt"
    } else if str_eq(exe, "powershell.exe") {
        "PowerShell"
    } else if str_eq(exe, "nu.exe") {
        "Nu"
    } else {
        "Unknown"
    }
}

/// The CPU record value: the brand string, then the physical core and
/// logical thread counts.
pub open spec fn cpu_text(brand: Seq<char>, cores: nat, threads: nat) -> Seq<char> {
    brand + " ("@ + dec_rep(cores) + "C/"@ + dec_rep(threads) + "T)"@
}

/// Renders the CPU record value.
pub fn cpu_value(brand: &str, cores: u64, threads: u64) -> (r: String)
    ensures
        r@ == cpu_text(brand@, cores as nat, threads as nat),
{
    let mut s = brand.to_owned();
    s.append(" (");
    s.append(u64_to_string(cores).as_str());
    s.append("C/");
    s.append(u64_to_string(threads).as_str());
    s.append("T)");
    proof {
        assert(s@ =~= cpu_text(brand@, cores as nat, threads as nat));
    }
    s
}

/// The label of the GPU record for adapter number `i`, counted from zero.
pub open spec fn gpu_label_text(i: nat) -> Seq<char> {
    "GPU #"@ + dec_rep(i)
}

/// Renders the label of the GPU record for adapter number `i`.
pub fn gpu_label(i: u64) -> (r: String)
    ensures
        r@ == gpu_label_text(i as nat),
{
    let mut s = String::new();
    s.append("GPU #");
    s.append(u64_to_string(i).as_str());
    proof {
        assert(s@ =~= gpu_label_text(i as nat));
    }
    s
}

/// One monitor's resolution, written `WIDTHxHEIGHT`.
pub open spec fn resolution_text(width: nat, height: nat) -> Seq<char> {
    dec_rep(width) + "x"@ + dec_rep(height)
}

/// Renders one monitor's resolution as `WIDTHxHEIGHT`.
pub fn resolution_value(width: u64, height: u64) -> (r: String)
    ensures
        r@ == resolution_text(width as nat, height as nat),
{
    let mut s = u64_to_string(width);
    s.append("x");
    s.append(u64_to_string(height).as_str());
    proof {
        assert(s@ =~= resolution_text(width as nat, height as nat));
    }
    s
}

} // verus!
