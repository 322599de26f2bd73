use lightfetch::facts::{cpu_value, gpu_label, resolution_value, shell_name, terminal_name};
use lightfetch::memory::{format_gib, format_memory};
use lightfetch::text::{dashes, join_with, spaces, u64_to_string};
use lightfetch::uptime::{format_uptime, uptime_parts};

#[test]
fn uptime_one_of_each_unit_drops_the_trailing_second() {
    assert_eq!(format_uptime(694861), "1 week, 1 day, 1 hour, 1 minute");
}

#[test]
fn uptime_zero_pluralizes_every_unit() {
    assert_eq!(format_uptime(0), "0 weeks, 0 days, 0 hours, 0 minutes");
}

#[test]
fn uptime_carries_each_remainder_downward() {
    let secs = 2 * 604800 + 3 * 86400 + 2 * 3600 + 2 * 60 + 59;
    assert_eq!(format_uptime(secs), "2 weeks, 3 days, 2 hours, 2 minutes");
    assert_eq!(uptime_parts(secs), (2, 3, 2, 2));
}

#[test]
fn uptime_parts_stay_under_their_unit_bounds() {
    let (_, d, h, m) = uptime_parts(u64::MAX);
    assert!(d < 7 && h < 24 && m < 60);
}

#[test]
fn gibibytes_are_truncated_to_one_decimal() {
    assert_eq!(format_gib(1073741824), "1.0");
    assert_eq!(format_gib(1610612736), "1.5");
    // 0.199... GiB shows as 0.1, truncated, not rounded to 0.2.
    assert_eq!(format_gib(214748364), "0.1");
}

#[test]
fn memory_line_shows_used_total_and_rate() {
    assert_eq!(
        format_memory(1610612736, 4294967296),
        "1.5GB / 4.0 GB (37.5%)"
    );
    assert_eq!(format_memory(0, 1073741824), "0.0GB / 1.0 GB (0.0%)");
}

#[test]
fn decimal_writing_of_unsigned_numbers() {
    assert_eq!(u64_to_string(0), "0");
    assert_eq!(u64_to_string(10), "10");
    assert_eq!(u64_to_string(90210), "90210");
    assert_eq!(u64_to_string(u64::MAX), "18446744073709551615");
}

#[test]
fn known_terminals_map_to_their_labels() {
    assert_eq!(terminal_name("explorer.exe"), "Win32 console");
    assert_eq!(terminal_name("WindowsTerminal.exe"), "Windows Terminal");
    assert_eq!(terminal_name("Code.exe"), "Visual Studio Code");
    assert_eq!(terminal_name("alacritty"), "Unknown");
}

#[test]
fn known_shells_map_to_their_labels() {
    assert_eq!(shell_name("cmd.exe"), "CommandPrompt");
    assert_eq!(shell_name("powershell.exe"), "PowerShell");
    assert_eq!(shell_name("nu.exe"), "Nu");
    assert_eq!(shell_name("bash"), "Unknown");
}

#[test]
fn cpu_gpu_and_resolution_values() {
    assert_eq!(cpu_value("Ryzen 9", 8, 16), "Ryzen 9 (8C/16T)");
    assert_eq!(gpu_label(0), "GPU #0");
    assert_eq!(gpu_label(11), "GPU #11");
    assert_eq!(resolution_value(1920, 1080), "1920x1080");
}

#[test]
fn runs_and_joins() {
    assert_eq!(spaces(4), "    ");
    assert_eq!(dashes(3), "---");
    assert_eq!(spaces(0), "");
    let parts = vec!["1920x1080".to_string(), "2560x1440".to_string()];
    assert_eq!(join_with(" ", &parts), "1920x1080 2560x1440");
    assert_eq!(join_with(" ", &Vec::new()), "");
}
