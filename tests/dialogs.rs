use sandbox_utils::{
    failed_exist_rootfs, get_cmd_box, get_config_diff, json_to_display_str, render_table_lines,
    JsonField, SEPARATOR,
};

#[test]
fn command_box_widens_and_indents() {
    let boxed = get_cmd_box("ab", Some(1), Some(3));
    assert_eq!(boxed, " ╔════╗\n ║ ab ║\n ╚════╝");
    let default = get_cmd_box("x", None, None);
    let lines: Vec<&str> = default.lines().collect();
    assert_eq!(lines[0].chars().count(), 50);
    assert_eq!(lines[1].chars().count(), 50);
}

#[test]
fn missing_rootfs_notice_exact() {
    let msg = failed_exist_rootfs("app setup", "/r").unwrap_err();
    let boxed = get_cmd_box("$ app setup", Some(2), None);
    let expected = format!(
        "{s}\n  Error: rootfs directory not found.\n\n  Expected location:\n    -> /r\n\n  Please run the following command to set it up:\n{boxed}\n{s}",
        s = SEPARATOR
    );
    assert_eq!(msg, expected);
    assert_eq!(SEPARATOR.chars().count(), 60);
}

#[test]
fn field_display() {
    assert_eq!(json_to_display_str(&JsonField::Null), "None");
    assert_eq!(json_to_display_str(&JsonField::Bool(true)), "true");
    assert_eq!(json_to_display_str(&JsonField::Number("4.5".to_string())), "4.5");
    assert_eq!(
        json_to_display_str(&JsonField::Text(String::new())),
        "Current Directory or Home Fallback"
    );
    assert_eq!(json_to_display_str(&JsonField::Other("[1,2]".to_string())), "[1,2]");
}

#[test]
fn diff_of_new_and_null_fields() {
    let old = vec![
        ("a".to_string(), JsonField::Null),
        ("b".to_string(), JsonField::Bool(false)),
    ];
    let new = vec![
        ("a".to_string(), JsonField::Bool(true)),
        ("b".to_string(), JsonField::Bool(true)),
        ("c".to_string(), JsonField::Number("3".to_string())),
    ];
    let diff = get_config_diff(&old, &new);
    assert_eq!(diff.len(), 3);
    assert_eq!(diff[0].1, "true");
    assert_eq!(diff[1].1, "\x1b[1;31mfalse\x1b[0m -> \x1b[1;32mtrue\x1b[0m");
    assert_eq!(diff[2], ("c".to_string(), "3".to_string()));
}

#[test]
fn empty_table() {
    let lines = render_table_lines(&vec![]);
    assert_eq!(lines, vec!["╔════╦════╗".to_string(), "╚════╩════╝".to_string()]);
}
