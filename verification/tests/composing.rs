use lightfetch::compose::compose;

fn column(prefix: &str, n: usize) -> Vec<String> {
    (0..n).map(|i| format!("{prefix}{i}")).collect()
}

#[test]
fn longer_logo_pads_info_with_empty_strings() {
    let logo: Vec<String> = vec!["##".to_string(); 14];
    let info = column("i", 9);
    let out = compose(&logo, 2, &info);
    assert_eq!(out.len(), 14);
    for i in 0..9 {
        assert_eq!(out[i], format!("    ##  i{i}"));
    }
    for i in 9..14 {
        assert_eq!(out[i], "    ##  ");
    }
}

#[test]
fn longer_info_pads_logo_with_spaces_of_the_logo_width() {
    let logo: Vec<String> = vec!["##".to_string(); 7];
    let info = column("i", 10);
    let out = compose(&logo, 2, &info);
    assert_eq!(out.len(), 10);
    for i in 0..7 {
        assert_eq!(out[i], format!("    ##  i{i}"));
    }
    for i in 7..10 {
        assert_eq!(out[i], format!("        i{i}"));
    }
}

#[test]
fn equal_columns_need_no_padding() {
    let logo: Vec<String> = vec!["#".to_string(); 3];
    let info = column("x", 3);
    let out = compose(&logo, 1, &info);
    assert_eq!(out.len(), 3);
    assert_eq!(out[2], "    #  x2");
}

#[test]
fn two_empty_columns_compose_to_nothing() {
    let logo: Vec<String> = Vec::new();
    let info: Vec<String> = Vec::new();
    let out = compose(&logo, 32, &info);
    assert!(out.is_empty());
}

#[test]
fn padding_lines_match_the_declared_logo_width_exactly() {
    let logo: Vec<String> = Vec::new();
    let info = column("v", 2);
    let out = compose(&logo, 5, &info);
    assert_eq!(out[0], format!("    {}  v0", " ".repeat(5)));
    assert_eq!(out[1], format!("    {}  v1", " ".repeat(5)));
}
