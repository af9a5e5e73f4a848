use sandbox_utils::{resolve_tool, select_arch, SandboxConfig};

#[test]
fn test_set_tool_unsupported_arch() {
    let arch = select_arch(Some("armv7l".to_string()), None, "x86_64");
    let cfg = SandboxConfig::new("ArchLinux", Some("/home/user".to_string()), None, arch);

    let result = resolve_tool("noexist", &cfg.app_arch, &cfg.safe_home);

    match result {
        Err(e) => {
            let msg = e.message();
            println!("\n{}\n", msg);
            assert!(msg.contains("not found and no binary available for armv7l"));
        }
        Ok(plan) => panic!("unexpected plan: {:?}", plan),
    }
}
