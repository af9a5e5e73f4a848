use sandbox_utils::{
    archive_format, content_length, cursor_candidates, desktop_candidates, local_bin_dir,
    mtab_action, plan_tool, resolve_tool, search_path_with, select_arch, ArchiveFormat, Backend,
    HostFacts, HostIdentity, MtabAction, MtabState, SandBox, SandBoxConfig, SandboxConfig,
    SandboxError, ToolPlan, MTAB_TARGET,
};

fn s(v: &[&str]) -> Vec<String> {
    v.iter().map(|x| x.to_string()).collect()
}

fn bare_host() -> HostFacts {
    HostFacts { home: "/home/user".to_string(), existing: vec![], icon_dirs: vec![] }
}

fn config(tool: &str, rootfs: &str) -> SandBoxConfig {
    SandBoxConfig {
        rootfs: rootfs.to_string(),
        run_cmd: String::new(),
        rootfs_tool: tool.to_string(),
        tool_target: format!("/usr/bin/{tool}"),
        args_bind: String::new(),
        use_root: false,
        ignore_extra_bind: false,
        no_group: false,
    }
}

fn id() -> HostIdentity {
    HostIdentity { uid: 1000, euid: 1001 }
}

fn has_window(args: &[String], window: &[&str]) -> bool {
    args.windows(window.len()).any(|w| w.iter().zip(window).all(|(a, b)| a == b))
}

#[test]
fn ptrace_arguments_exact() {
    let args = SandBox::build_proot_options("/r", "", true, false, &bare_host());
    assert_eq!(args, s(&["-R", "/r", "--bind=/media", "--bind=/mnt"]));
}

#[test]
fn ptrace_binds_guest_identity_files_with_no_group() {
    let args = SandBox::build_proot_options("/r", "", true, true, &bare_host());
    assert_eq!(
        args,
        s(&[
            "-R",
            "/r",
            "--bind=/media",
            "--bind=/mnt",
            "--bind=/r/etc/group:/etc/group",
            "--bind=/r/etc/passwd:/etc/passwd",
        ])
    );
    let without = SandBox::build_proot_options("/r", "", true, false, &bare_host());
    assert!(!without.iter().any(|a| a.contains("/etc/passwd")));
}

#[test]
fn namespace_shares_host_identity_files_without_no_group() {
    let args = SandBox::build_bwrap_options("/r", "", true, false, &bare_host());
    assert!(has_window(
        &args,
        &["--ro-bind-try", "/etc/passwd", "/etc/passwd", "--ro-bind-try", "/etc/group", "/etc/group"]
    ));
    let without = SandBox::build_bwrap_options("/r", "", true, true, &bare_host());
    assert!(!without.iter().any(|a| a == "/etc/passwd"));
}

#[test]
fn namespace_arguments_exact() {
    let args = SandBox::build_bwrap_options("/r", "--x", true, true, &bare_host());
    let expected = s(&[
        "--unshare-user", "--share-net", "--bind", "/r", "/", "--die-with-parent",
        "--ro-bind-try", "/etc/host.conf", "/etc/host.conf",
        "--ro-bind-try", "/etc/hosts", "/etc/hosts",
        "--ro-bind-try", "/etc/hosts.equiv", "/etc/hosts.equiv",
        "--ro-bind-try", "/etc/netgroup", "/etc/netgroup",
        "--ro-bind-try", "/etc/networks", "/etc/networks",
        "--ro-bind-try", "/etc/nsswitch.conf", "/etc/nsswitch.conf",
        "--ro-bind-try", "/etc/resolv.conf", "/etc/resolv.conf",
        "--ro-bind-try", "/etc/localtime", "/etc/localtime",
        "--dev-bind", "/dev", "/dev",
        "--ro-bind", "/sys", "/sys",
        "--bind-try", "/proc", "/proc",
        "--bind-try", "/tmp", "/tmp",
        "--bind-try", "/run", "/run",
        "--ro-bind", "/var/run/dbus/system_bus_socket", "/var/run/dbus/system_bus_socket",
        "--bind", "/home/user", "/home/user",
        "--bind", "/media", "/media",
        "--bind", "/mnt", "/mnt",
        "--x",
        "--setenv", "PATH", "/bin:/sbin:/usr/bin:/usr/sbin:/usr/libexec",
    ]);
    assert_eq!(args, expected);
}

#[test]
fn extra_binds_split_on_whitespace() {
    let args = SandBox::build_proot_options("/r", "  --bind=/a \t --bind=/b\n", true, false, &bare_host());
    assert_eq!(args, s(&["-R", "/r", "--bind=/media", "--bind=/mnt", "--bind=/a", "--bind=/b"]));
}

#[test]
fn rootfs_with_space_stays_one_argument() {
    let args = SandBox::build_proot_options("/my root", "", true, false, &bare_host());
    assert_eq!(args[1], "/my root");
}

#[test]
fn only_existing_host_paths_are_shared() {
    let host = HostFacts {
        home: "/home/user".to_string(),
        existing: s(&["/etc/fonts", "/usr/share/icons/Adwaita/cursors"]),
        icon_dirs: s(&["/usr/share/icons/Adwaita", "/usr/share/icons/hicolor"]),
    };
    let p = SandBox::build_proot_options("/r", "", false, false, &host);
    assert_eq!(
        p[4..].to_vec(),
        s(&["--bind=/etc/fonts", "--bind=/usr/share/icons/Adwaita/cursors"])
    );
    let n = SandBox::build_bwrap_options("/r", "", false, true, &host);
    let tail = n[n.len() - 6..].to_vec();
    assert_eq!(
        tail,
        s(&[
            "--ro-bind",
            "/etc/fonts",
            "/etc/fonts",
            "--ro-bind",
            "/usr/share/icons/Adwaita/cursors",
            "/usr/share/icons/Adwaita/cursors",
        ])
    );
    assert!(!n.iter().any(|a| a == "/usr/share/themes" || a.contains("hicolor")));
    let ignored = SandBox::build_proot_options("/r", "", true, false, &host);
    assert_eq!(ignored.len(), 4);
}

#[test]
fn host_candidates_listed() {
    let d = desktop_candidates();
    assert_eq!(d.len(), 6);
    assert_eq!(d[0], "/etc/asound.conf");
    assert_eq!(d[5], "/usr/share/themes");
    let c = cursor_candidates(&s(&["/usr/share/icons/a", "/usr/share/icons/b/"]));
    assert_eq!(c, s(&["/usr/share/icons/a/cursors", "/usr/share/icons/b/cursors"]));
}

#[test]
fn missing_rootfs_is_reported_with_its_path() {
    let cfg = config("proot", "/srv/guest");
    let ok = SandBox::prepare(&cfg, true, id(), &bare_host());
    assert!(ok.is_ok());
    match SandBox::prepare(&cfg, false, id(), &bare_host()) {
        Err(SandboxError::RootfsNotFound(e)) => assert_eq!(e.0, "/srv/guest"),
        other => panic!("unexpected result: {:?}", other),
    }
}

#[test]
fn scenario_missing_rootfs_namespace() {
    let cfg = config("bwrap", "/tmp/missing");
    match SandBox::prepare(&cfg, false, id(), &bare_host()) {
        Err(e @ SandboxError::RootfsNotFound(_)) => {
            assert_eq!(e.message(), "Rootfs directory not found at: \"/tmp/missing\"");
        }
        other => panic!("unexpected result: {:?}", other),
    }
}

#[test]
fn scenario_ptrace_command_tail() {
    let mut cfg = config("proot", "/srv/guest");
    cfg.run_cmd = "echo hi".to_string();
    let launch = SandBox::prepare(&cfg, true, id(), &bare_host()).expect("prepared");
    assert_eq!(launch.program, "/usr/bin/proot");
    assert!(launch.mtab.is_none());
    let tail = launch.args[launch.args.len() - 7..].to_vec();
    assert_eq!(
        tail,
        s(&[
            "env",
            "PS1=$ |UID=1000|EUID=1001",
            "SHELL=/bin/sh",
            "PATH=/bin:/sbin:/usr/bin:/usr/sbin:/usr/libexec",
            "/bin/sh",
            "-c",
            "echo hi",
        ])
    );
    assert!(!launch.args.iter().any(|a| a == "-0"));
}

#[test]
fn interactive_session_has_no_command() {
    let cfg = config("proot", "/srv/guest");
    let launch = SandBox::prepare(&cfg, true, HostIdentity { uid: 0, euid: 4294967295 }, &bare_host())
        .expect("prepared");
    let tail = launch.args[launch.args.len() - 5..].to_vec();
    assert_eq!(tail[1], "PS1=$ |UID=0|EUID=4294967295");
    assert_eq!(tail[4], "/bin/sh");
}

#[test]
fn scenario_unknown_backend() {
    let cfg = config("unknown", "/srv/guest");
    match SandBox::prepare(&cfg, true, id(), &bare_host()) {
        Err(e @ SandboxError::UnsupportedBackend(_)) => {
            assert_eq!(e.message(), "Unsupported rootfs command: unknown");
        }
        other => panic!("unexpected result: {:?}", other),
    }
    assert!(Backend::from_name("unknown").is_none());
    assert_eq!(Backend::from_name("proot"), Some(Backend::Ptrace));
    assert_eq!(Backend::from_name("bwrap"), Some(Backend::Namespace));
}

#[test]
fn root_flags_per_backend() {
    let mut p = config("proot", "/srv/guest");
    p.use_root = true;
    let launch = SandBox::prepare(&p, true, id(), &bare_host()).expect("prepared");
    assert!(has_window(&launch.args, &["--bind=/mnt", "-0", "env", "PS1=# |USER=root|LOGNAME=root|UID=0|EUID=0"]));

    let mut n = config("bwrap", "/srv/guest");
    n.use_root = true;
    let launch = SandBox::prepare(&n, true, id(), &bare_host()).expect("prepared");
    assert!(has_window(
        &launch.args,
        &["--uid", "0", "--gid", "0", "--setenv", "USER", "root", "--setenv", "LOGNAME", "root", "env"]
    ));
    assert_eq!(launch.mtab.as_deref(), Some("/srv/guest/etc/mtab"));

    n.use_root = false;
    let launch = SandBox::prepare(&n, true, id(), &bare_host()).expect("prepared");
    assert!(!launch.args.iter().any(|a| a == "--uid" || a == "-0"));
}

#[test]
fn mtab_repair_is_idempotent() {
    assert_eq!(mtab_action(&MtabState::Missing), MtabAction::Replace { remove_dir: false });
    assert_eq!(mtab_action(&MtabState::File), MtabAction::Replace { remove_dir: false });
    assert_eq!(mtab_action(&MtabState::Directory), MtabAction::Replace { remove_dir: true });
    assert_eq!(
        mtab_action(&MtabState::Symlink("/etc/other".to_string())),
        MtabAction::Replace { remove_dir: false }
    );
    let repaired = MtabState::Symlink(MTAB_TARGET.to_string());
    assert_eq!(mtab_action(&repaired), MtabAction::Keep);
    assert_eq!(mtab_action(&repaired), MtabAction::Keep);
}

#[test]
fn session_paths_laid_out() {
    let cfg = SandboxConfig::new("ArchLinux", Some("/home/u".to_string()), None, "aarch64".to_string());
    assert_eq!(cfg.app_name, "ArchLinux");
    assert_eq!(cfg.config_dir, "/home/u/.config/ArchLinux");
    assert_eq!(cfg.config_file, "/home/u/.config/ArchLinux/config.toml");
    assert_eq!(cfg.default_cache, "/home/u/.cache/ArchLinux");
    assert_eq!(cfg.default_rootfs, "/home/u/.ArchLinux");
    assert_eq!(cfg.temp_cache, "/tmp/ArchLinux");
    let fallback = SandboxConfig::new("x", None, Some("prog".to_string()), "x86_64".to_string());
    assert_eq!(fallback.safe_home, ".");
    assert_eq!(fallback.config_dir, "./.config/x");
    assert_eq!(fallback.app_name, "prog");
}

#[test]
fn architecture_precedence() {
    assert_eq!(select_arch(Some("a".to_string()), Some("b".to_string()), "c"), "a");
    assert_eq!(select_arch(None, Some("b".to_string()), "c"), "b");
    assert_eq!(select_arch(None, None, "c"), "c");
}

#[test]
fn tool_plans() {
    match plan_tool("proot", Some("/usr/bin/proot".to_string()), "armv7l", "/h") {
        Ok(ToolPlan::Installed(p)) => assert_eq!(p, "/usr/bin/proot"),
        other => panic!("unexpected plan: {:?}", other),
    }
    match plan_tool("bwrap", None, "x86_64", "/h") {
        Ok(ToolPlan::Download { url, dir, target }) => {
            assert_eq!(url, "https://github.com/LinuxProativo/StaticHub/releases/download/bwrap/bwrap");
            assert_eq!(dir, "/h/.local/bin");
            assert_eq!(target, "/h/.local/bin/bwrap");
        }
        other => panic!("unexpected plan: {:?}", other),
    }
    match plan_tool("noexist", None, "x86_64", "/h") {
        Err(e @ SandboxError::UnsupportedBackend(_)) => {
            assert_eq!(e.message(), "Unsupported rootfs command: noexist")
        }
        other => panic!("unexpected plan: {:?}", other),
    }
    match plan_tool("proot", None, "riscv64", "/h") {
        Err(e @ SandboxError::ToolUnavailable { .. }) => {
            assert_eq!(e.message(), "proot not found and no binary available for riscv64")
        }
        other => panic!("unexpected plan: {:?}", other),
    }
    assert_eq!(local_bin_dir("/h/"), "/h/.local/bin");
    assert_eq!(search_path_with("/usr/bin:/bin", "/h/.local/bin"), "/usr/bin:/bin:/h/.local/bin");
}

#[test]
fn installed_tool_is_found_on_search_path() {
    match resolve_tool("sh", "riscv64", "/h") {
        Ok(ToolPlan::Installed(p)) => assert!(p.ends_with("/sh")),
        other => panic!("unexpected plan: {:?}", other),
    }
}

#[test]
fn archive_formats() {
    assert_eq!(archive_format("/x/rootfs.tar.gz"), Ok(ArchiveFormat::Gzip));
    assert_eq!(archive_format("rootfs.tar.xz"), Ok(ArchiveFormat::Xz));
    assert_eq!(archive_format("a.zst"), Ok(ArchiveFormat::Zstd));
    assert_eq!(archive_format("a.zstd"), Ok(ArchiveFormat::Zstd));
    assert_eq!(archive_format("a.tar.bz2"), Err("Unsupported or disabled format: .bz2".to_string()));
    assert_eq!(archive_format("/x.gz/plain"), Err("Unsupported or disabled format: .".to_string()));
    assert_eq!(archive_format(".gz"), Err("Unsupported or disabled format: .".to_string()));
}

#[test]
fn content_lengths() {
    assert_eq!(content_length("1234"), 1234);
    assert_eq!(content_length("+5"), 5);
    assert_eq!(content_length(""), 0);
    assert_eq!(content_length("12a"), 0);
    assert_eq!(content_length("18446744073709551615"), u64::MAX);
    assert_eq!(content_length("18446744073709551616"), 0);
}
