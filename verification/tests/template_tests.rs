use limage::template::{apply_bindings, substitute, CommandTemplate};

#[test]
fn substitute_single_occurrence() {
    let r = substitute("-cdrom {image}", "{image}", "target/kernel.iso");
    assert_eq!(r, "-cdrom target/kernel.iso");
}

#[test]
fn substitute_multiple_occurrences() {
    let r = substitute("{x} and {x} and {x}", "{x}", "y");
    assert_eq!(r, "y and y and y");
}

#[test]
fn substitute_no_occurrence_unchanged() {
    let r = substitute("-m 2G", "{image}", "target/kernel.iso");
    assert_eq!(r, "-m 2G");
}

#[test]
fn substitute_empty_input() {
    let r = substitute("", "{image}", "value");
    assert_eq!(r, "");
}

#[test]
fn substitute_empty_pattern_unchanged() {
    let r = substitute("abc", "", "value");
    assert_eq!(r, "abc");
}

#[test]
fn substitute_whole_string() {
    let r = substitute("{image}", "{image}", "out.iso");
    assert_eq!(r, "out.iso");
}

#[test]
fn substitute_adjacent_occurrences() {
    let r = substitute("{x}{x}", "{x}", "ab");
    assert_eq!(r, "abab");
}

#[test]
fn substitute_leftmost_without_overlap() {
    let r = substitute("aaa", "aa", "b");
    assert_eq!(r, "ba");
}

#[test]
fn substitute_empty_value_deletes() {
    let r = substitute("a{x}b{x}c", "{x}", "");
    assert_eq!(r, "abc");
}

#[test]
fn substitute_unicode_characters() {
    let r = substitute("käfer {x} käfer", "{x}", "größe");
    assert_eq!(r, "käfer größe käfer");
}

#[test]
fn apply_bindings_two_distinct_placeholders_in_one_argument() {
    let bindings = vec![
        ("{image}".to_string(), "k.iso".to_string()),
        ("{ovmf}".to_string(), "fw".to_string()),
    ];
    let r = apply_bindings("file={ovmf}/code.fd,cd={image},extra={ovmf}", &bindings);
    assert_eq!(r, "file=fw/code.fd,cd=k.iso,extra=fw");
}

#[test]
fn apply_bindings_in_order() {
    let bindings = vec![
        ("a".to_string(), "b".to_string()),
        ("b".to_string(), "c".to_string()),
    ];
    let r = apply_bindings("a", &bindings);
    assert_eq!(r, "c");
}

#[test]
fn apply_bindings_none() {
    let bindings: Vec<(String, String)> = Vec::new();
    let r = apply_bindings("{image}", &bindings);
    assert_eq!(r, "{image}");
}

#[test]
fn render_preserves_order_and_other_arguments() {
    let template = CommandTemplate::new(vec![
        "-m".to_string(),
        "2G".to_string(),
        "-cdrom".to_string(),
        "{image}".to_string(),
        "file={ovmf}/ovmf-code-x86_64.fd".to_string(),
    ]);
    let bindings = vec![
        ("{image}".to_string(), "target/kernel.iso".to_string()),
        ("{ovmf}".to_string(), "target/ovmf".to_string()),
    ];
    let r = template.render(&bindings);
    assert_eq!(
        r,
        vec![
            "-m".to_string(),
            "2G".to_string(),
            "-cdrom".to_string(),
            "target/kernel.iso".to_string(),
            "file=target/ovmf/ovmf-code-x86_64.fd".to_string(),
        ]
    );
}

#[test]
fn render_empty_list() {
    let template = CommandTemplate::new(Vec::new());
    let bindings = vec![("{image}".to_string(), "x".to_string())];
    let r = template.render(&bindings);
    assert!(r.is_empty());
}
