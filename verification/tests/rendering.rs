use lightfetch::record::{compute_padding, Record};
use lightfetch::style::ColorPolicy;

fn rec(label: &str, values: &[&str]) -> Record {
    let vs: Vec<String> = values.iter().map(|v| v.to_string()).collect();
    assert!(!label.is_empty() && !vs.is_empty());
    Record::new(label.to_string(), vs)
}

#[test]
fn padding_aligns_all_labels_to_the_longest() {
    let mut batch = vec![
        rec("OS", &["Arch Linux"]),
        rec("Uptime", &["1 week"]),
        rec("CPU", &["Ryzen 9"]),
    ];
    compute_padding(&mut batch);
    for r in &batch {
        assert_eq!(r.label.chars().count() + r.padding, 6);
    }
    assert_eq!(batch[0].padding, 4);
    assert_eq!(batch[1].padding, 0);
    assert_eq!(batch[2].padding, 3);
}

#[test]
fn padding_on_empty_batch_is_a_no_op() {
    let mut batch: Vec<Record> = Vec::new();
    compute_padding(&mut batch);
    assert!(batch.is_empty());
}

#[test]
fn padding_leaves_labels_and_values_alone() {
    let mut batch = vec![rec("Memory", &["1.0GB"]), rec("GPU #0", &["Adapter"])];
    compute_padding(&mut batch);
    assert_eq!(batch[0].label, "Memory");
    assert_eq!(batch[1].label, "GPU #0");
    let lines = batch[1].render();
    assert_eq!(lines, vec!["GPU #0: Adapter".to_string()]);
}

#[test]
fn multi_value_record_renders_two_lines_with_aligned_bullets() {
    let r = rec("CPU", &["Ryzen 9", "8 Cores 16 Threads"]);
    let lines = r.render();
    assert_eq!(lines.len(), 2);
    assert_eq!(lines[0], "CPU: - Ryzen 9");
    assert_eq!(lines[1], "     - 8 Cores 16 Threads");
    let first_bullet = lines[0].find('-').unwrap();
    let second_bullet = lines[1].find('-').unwrap();
    assert_eq!(first_bullet, second_bullet);
    assert!(second_bullet >= "CPU".len());
}

#[test]
fn multi_value_record_with_padding_keeps_bullets_under_each_other() {
    let mut batch = vec![rec("GPU", &["First", "Second", "Third"]), rec("Resolution", &["1x1"])];
    compute_padding(&mut batch);
    let lines = batch[0].render();
    assert_eq!(lines.len(), 3);
    assert_eq!(lines[0], format!("GPU: {}- First", " ".repeat(7)));
    assert_eq!(lines[1], format!("{}  - Second", " ".repeat(10)));
    assert_eq!(lines[2], format!("{}  - Third", " ".repeat(10)));
    assert_eq!(lines[0].find('-'), lines[1].find('-'));
    assert_eq!(lines[1].find('-'), lines[2].find('-'));
}

#[test]
fn single_value_record_renders_one_line() {
    let r = rec("OS", &["Windows 11"]);
    assert_eq!(r.render(), vec!["OS: Windows 11".to_string()]);
}

#[test]
fn styled_rendering_follows_the_color_policy() {
    let r = rec("OS", &["Linux"]);
    let canonical = r.render_styled(ColorPolicy::LabelsAndLogo);
    assert_eq!(canonical, vec!["\u{1b}[94mOS\u{1b}[0m: Linux".to_string()]);
    let plain_labels = r.render_styled(ColorPolicy::LogoAndHeader);
    assert_eq!(plain_labels, vec!["OS: Linux".to_string()]);
    let everything = r.render_styled(ColorPolicy::Everything);
    assert_eq!(
        everything,
        vec!["\u{1b}[94mOS\u{1b}[0m: \u{1b}[94mLinux\u{1b}[0m".to_string()]
    );
}

#[test]
fn styled_continuation_lines_stay_plain_under_the_canonical_policy() {
    let r = rec("GPU", &["First", "Second"]);
    let lines = r.render_styled(ColorPolicy::LabelsAndLogo);
    assert_eq!(lines.len(), 2);
    assert_eq!(lines[0], "\u{1b}[94mGPU\u{1b}[0m: - First");
    assert_eq!(lines[1], "     - Second");
}
