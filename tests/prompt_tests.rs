use asum::prompt::generate_prompt;

#[test]
fn test_generate_prompt_table_driven() {
    let cases = vec![
        ("Changes: {{diff}}", "fix bug", "Changes: fix bug"),
        ("{{diff}} only", "feat", "feat only"),
        ("no placeholder", "anything", "no placeholder"),
    ];
    for (template, diff, expected) in cases {
        assert_eq!(generate_prompt(template, diff), expected);
    }
}

#[test]
fn placeholder_replaced_everywhere() {
    assert_eq!(generate_prompt("{{diff}} and {{diff}}", "x"), "x and x");
}

#[test]
fn placeholder_inserted_verbatim() {
    assert_eq!(generate_prompt("A{{diff}}B", "{{diff}}\n\u{e9}"), "A{{diff}}\n\u{e9}B");
}

#[test]
fn template_without_placeholder_is_unchanged() {
    assert_eq!(generate_prompt("{{dif}} {diff}", "zzz"), "{{dif}} {diff}");
    assert_eq!(generate_prompt("", "zzz"), "");
}

#[test]
fn overlapping_braces_are_scanned_from_the_left() {
    assert_eq!(generate_prompt("{{{diff}}}", "d"), "{d}");
}
