use lightfetch::header::{make_header, underline_for};
use lightfetch::logo::{get_logo, logo_lines, styled_logo_lines};
use lightfetch::pipeline::{render_info, render_report};
use lightfetch::record::Record;
use lightfetch::style::{colorize, create_label, ColorPolicy};

#[test]
fn colorize_wraps_in_the_bright_blue_escape_pair() {
    assert_eq!(colorize("abc"), "\u{1b}[94mabc\u{1b}[0m");
    assert_ne!(colorize("abc"), "abc");
    assert_eq!(colorize(""), "\u{1b}[94m\u{1b}[0m");
}

#[test]
fn colorizing_twice_nests_the_escape_pairs_cleanly() {
    assert_eq!(
        colorize(&colorize("a")),
        "\u{1b}[94m\u{1b}[94ma\u{1b}[0m\u{1b}[0m"
    );
}

#[test]
fn header_colors_user_and_host_but_not_the_separator() {
    assert_eq!(
        make_header("user", "host"),
        "\u{1b}[94muser\u{1b}[0m@\u{1b}[94mhost\u{1b}[0m"
    );
}

#[test]
fn underline_is_as_long_as_the_plain_header() {
    assert_eq!(underline_for("user", "host"), "---------");
    assert_eq!(underline_for("", ""), "-");
}

#[test]
fn underline_counts_characters_not_bytes() {
    // "é" is one character of two bytes: the underline follows characters.
    let u = underline_for("ué", "h");
    assert_eq!(u.chars().count(), "ué@h".chars().count());
    assert_eq!(u, "----");
}

#[test]
fn create_label_pads_to_the_fixed_width_and_colors_the_whole() {
    assert_eq!(create_label("OS"), format!("\u{1b}[94mOS:{}\u{1b}[0m", " ".repeat(9)));
    assert_eq!(create_label("Resolution"), "\u{1b}[94mResolution: \u{1b}[0m");
}

#[test]
fn the_logo_is_fifteen_rows_of_thirty_two_characters() {
    let lines = logo_lines();
    assert_eq!(lines.len(), 15);
    for (i, line) in lines.iter().enumerate() {
        assert_eq!(line.chars().count(), 32);
        if i == 7 {
            assert_eq!(line, &" ".repeat(32));
        } else {
            assert_eq!(line, "###############  ###############");
        }
    }
    assert_eq!(get_logo(), lines.join("\n"));
}

#[test]
fn styled_logo_wraps_every_row() {
    let styled = styled_logo_lines();
    let plain = logo_lines();
    assert_eq!(styled.len(), 15);
    for i in 0..15 {
        assert_eq!(styled[i], format!("\u{1b}[94m{}\u{1b}[0m", plain[i]));
    }
}

#[test]
fn info_column_starts_with_header_and_underline() {
    let records = vec![Record::new("OS".to_string(), vec!["Linux".to_string()])];
    let info = render_info("u", "h", records, ColorPolicy::LabelsAndLogo);
    assert_eq!(info.len(), 3);
    assert_eq!(info[0], "\u{1b}[94mu\u{1b}[0m@\u{1b}[94mh\u{1b}[0m");
    assert_eq!(info[1], "---");
    assert_eq!(info[2], "\u{1b}[94mOS\u{1b}[0m: Linux");
}

#[test]
fn report_pads_a_short_info_column_to_the_logo_height() {
    let records = vec![Record::new("OS".to_string(), vec!["Linux".to_string()])];
    let out = render_report("u", "h", records, ColorPolicy::LabelsAndLogo);
    assert_eq!(out.len(), 15);
    let blue_row = "\u{1b}[94m###############  ###############\u{1b}[0m";
    assert_eq!(
        out[0],
        format!("    {}  \u{1b}[94mu\u{1b}[0m@\u{1b}[94mh\u{1b}[0m", blue_row)
    );
    assert_eq!(out[1], format!("    {}  ---", blue_row));
    // Beyond the three info lines the right column is empty.
    assert_eq!(out[3], format!("    {}  ", blue_row));
    assert_eq!(out[7], format!("    \u{1b}[94m{}\u{1b}[0m  ", " ".repeat(32)));
}

#[test]
fn info_alignment_is_shared_across_the_batch() {
    let records = vec![
        Record::new("OS".to_string(), vec!["Linux".to_string()]),
        Record::new("Uptime".to_string(), vec!["1 week".to_string()]),
    ];
    let info = render_info("u", "h", records, ColorPolicy::LogoAndHeader);
    assert_eq!(info[2], "OS:     Linux");
    assert_eq!(info[3], "Uptime: 1 week");
}
