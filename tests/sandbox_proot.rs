use sandbox_utils::{
    app_arch, app_name, config_dir, get_cmd_box, get_config_diff, plan_tool, render_table_lines,
    safe_home, sandbox_tool, tool_target, finish_setup_message, JsonField, SandboxConfig,
    SandboxTool, SEPARATOR, USE_PROOT,
};

fn paths() -> SandboxConfig {
    SandboxConfig::new(
        "ArchLinux",
        Some("/home/user".to_string()),
        Some("sandbox".to_string()),
        "x86_64".to_string(),
    )
}

#[test]
fn sandbox_proot_test1_sandbox_output() {
    let cfg = paths();
    let plan = plan_tool(USE_PROOT, None, &app_arch(&cfg), &safe_home(&cfg)).expect("Failed");
    let t = SandboxTool::from_plan(USE_PROOT, &plan);
    println!("Current Tool:  {:?}", sandbox_tool(&t));
    println!("Tool Target:   {:?}", tool_target(&t));

    assert!(!app_name(&cfg).is_empty());
    assert!(config_dir(&cfg).contains("ArchLinux"));
}

#[test]
fn test3_messages_dialog() {
    let cfg = paths();
    let done = finish_setup_message(&format!("{} run", app_name(&cfg)));
    assert!(done.ends_with(SEPARATOR));
    println!("{done}");

    let res = "resultado de teste\nteste dois";
    let boxed = get_cmd_box("SEARCH RESULT:", None, Some(18));
    println!("\n{u}\n{}\n{res}\n{u}", boxed, u = SEPARATOR);
    assert_eq!(boxed.lines().count(), 3);

    let old = vec![
        ("os".to_string(), JsonField::Text("Debian".to_string())),
        ("arch".to_string(), JsonField::Text("x86_64".to_string())),
        ("status".to_string(), JsonField::Text("Online".to_string())),
    ];
    let new = vec![
        ("os".to_string(), JsonField::Text("Debian".to_string())),
        ("arch".to_string(), JsonField::Text("x86_64".to_string())),
        ("status".to_string(), JsonField::Text("Active".to_string())),
    ];
    let diff = get_config_diff(&old, &new);
    let lines = render_table_lines(&diff);
    assert_eq!(lines.len(), 5);
    assert_eq!(lines[1], "║ os       ║ Debian             ║");
    assert_eq!(
        lines[3],
        "║ status   ║ \x1b[1;31mOnline\x1b[0m -> \x1b[1;32mActive\x1b[0m   ║"
    );
}
