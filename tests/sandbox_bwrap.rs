use sandbox_utils::{
    app_name, failed_exist_rootfs, HostFacts, HostIdentity, SandBox, SandBoxConfig,
    SandboxConfig, SandboxError, USE_BWRAP,
};

#[test]
fn test1_target_not_found() {
    let cfg = SandboxConfig::new("ArchLinux", None, None, "x86_64".to_string());
    let config = SandBoxConfig {
        rootfs: "/tmp/pasta_inexistente".to_string(),
        run_cmd: String::new(),
        rootfs_tool: USE_BWRAP.to_string(),
        tool_target: "/usr/bin/bwrap".to_string(),
        args_bind: String::new(),
        use_root: false,
        ignore_extra_bind: false,
        no_group: false,
    };
    let host = HostFacts { home: ".".to_string(), existing: vec![], icon_dirs: vec![] };
    let id = HostIdentity { uid: 1000, euid: 1000 };
    match SandBox::prepare(&config, false, id, &host) {
        Err(SandboxError::RootfsNotFound(err)) => {
            let msg = failed_exist_rootfs(&format!("{} setup", app_name(&cfg)), &err.0)
                .unwrap_err();
            println!("\n{}\n", msg);
            assert!(msg.contains("$ ArchLinux setup"));
            assert!(msg.contains("/tmp/pasta_inexistente"));
        }
        other => panic!("unexpected result: {:?}", other),
    }
}
