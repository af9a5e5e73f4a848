use sandbox_utils::{
    app_arch, app_name, config_dir, config_file, default_cache, default_rootfs,
    failed_exist_rootfs, finish_setup_message, get_cmd_box, get_config_diff, plan_tool,
    render_table_lines, safe_home, sandbox_tool, temp_cache, tool_target, HostFacts,
    HostIdentity, JsonField, SandBox, SandBoxConfig, SandboxConfig, SandboxError, SandboxTool,
    SEPARATOR, USE_BWRAP, USE_PROOT,
};

fn paths() -> SandboxConfig {
    SandboxConfig::new(
        "ArchLinux",
        Some("/home/user".to_string()),
        Some("sandbox".to_string()),
        "x86_64".to_string(),
    )
}

fn tool(name: &str, cfg: &SandboxConfig) -> SandboxTool {
    let plan = plan_tool(name, None, &app_arch(cfg), &safe_home(cfg)).expect("Failed");
    SandboxTool::from_plan(name, &plan)
}

fn session(cfg: &SandboxConfig, tool: &SandboxTool) -> SandBoxConfig {
    SandBoxConfig::with_defaults(cfg, tool)
}

#[test]
fn tests_test1_sandbox_output() {
    let cfg = paths();
    let t = tool(USE_PROOT, &cfg);

    println!("App Name:      {}", app_name(&cfg));
    println!("Architecture:  {}", app_arch(&cfg));
    println!("Safe Home:     {:?}", safe_home(&cfg));
    println!("Config Dir:    {:?}", config_dir(&cfg));
    println!("Config File:   {:?}", config_file(&cfg));
    println!("Cache Dir:     {:?}", default_cache(&cfg));
    println!("Rootfs Dir:    {:?}", default_rootfs(&cfg));
    println!("Temp Cache:    {:?}", temp_cache(&cfg));
    println!("Current Tool:  {:?}", sandbox_tool(&t));
    println!("Tool Target:   {:?}", tool_target(&t));

    assert!(!app_name(&cfg).is_empty());
    assert!(config_dir(&cfg).contains("ArchLinux"));
}

#[test]
fn test2_target_not_found() {
    let cfg = paths();
    let t = tool(USE_BWRAP, &cfg);
    let mut config = session(&cfg, &t);
    assert_eq!(config.rootfs, "/home/user/.ArchLinux");
    assert_eq!(config.rootfs_tool, "bwrap");
    assert_eq!(config.tool_target, "/home/user/.local/bin/bwrap");
    assert!(config.run_cmd.is_empty() && !config.use_root && !config.no_group);
    config.rootfs = "/tmp/pasta_inexistente".to_string();
    let host = HostFacts { home: safe_home(&cfg), existing: vec![], icon_dirs: vec![] };
    let id = HostIdentity { uid: 1000, euid: 1000 };

    match SandBox::prepare(&config, false, id, &host) {
        Err(SandboxError::RootfsNotFound(err)) => {
            assert_eq!(err.0, "/tmp/pasta_inexistente");
            let shown = failed_exist_rootfs(&format!("{} setup", app_name(&cfg)), &err.0);
            let msg = shown.unwrap_err();
            assert!(msg.contains("-> /tmp/pasta_inexistente"));
            assert!(msg.contains("$ sandbox setup"));
        }
        other => panic!("unexpected result: {:?}", other),
    }
}

#[test]
fn test7_messages_dialog() {
    let cfg = paths();
    let done = finish_setup_message(&format!("{} run", app_name(&cfg)));
    assert!(done.starts_with(SEPARATOR));
    assert!(done.contains("  Installation completed successfully!"));
    assert!(done.contains("║ $ sandbox run"));

    let boxed = get_cmd_box("SEARCH RESULT:", None, Some(18));
    assert_eq!(
        boxed,
        "╔════════════════╗\n║ SEARCH RESULT: ║\n╚════════════════╝"
    );

    let old = vec![
        ("os".to_string(), JsonField::Text("Debian".to_string())),
        ("arch".to_string(), JsonField::Text("x86_64".to_string())),
        ("status".to_string(), JsonField::Text("Online".to_string())),
    ];
    let new = vec![
        ("os".to_string(), JsonField::Text("Debian".to_string())),
        ("arch".to_string(), JsonField::Text("x86_64".to_string())),
        ("status".to_string(), JsonField::Text("Active".to_string())),
    ];
    let diff = get_config_diff(&old, &new);
    assert_eq!(diff[0], ("os".to_string(), "Debian".to_string()));
    assert_eq!(
        diff[2],
        (
            "status".to_string(),
            "\x1b[1;31mOnline\x1b[0m -> \x1b[1;32mActive\x1b[0m".to_string()
        )
    );
    for line in render_table_lines(&diff) {
        println!("{line}");
    }
}
