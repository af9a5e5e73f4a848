//! Preparation of sandboxed sessions for a guest root filesystem.
//!
//! The library turns a declarative session configuration into the exact
//! argument vector of one of two sandboxing backends (a ptrace-based emulator
//! and a namespace-based isolator), decides how a missing backend binary is
//! obtained, and renders the messages shown around a session. Everything that
//! touches the host (the file system, the process environment, the network,
//! spawning the backend) is handed in or out as plain values.

pub mod dialogs;
pub mod init;
pub mod macros;
pub mod mtab;
pub mod progress;
pub mod sandbox;
pub mod text;

pub use dialogs::{
    failed_exist_rootfs, finish_setup_message, get_cmd_box, get_config_diff,
    json_to_display_str, render_table_lines, JsonField, SEPARATOR,
};
pub use init::{
    app_arch, app_name, config_dir, config_file, default_cache, default_rootfs, local_bin_dir,
    plan_tool, resolve_tool, safe_home, sandbox_tool, search_path_with, select_arch,
    temp_cache, tool_download_url, tool_target, SandboxConfig, SandboxTool, ToolPlan, AMD64,
    USE_BWRAP, USE_PROOT,
};
pub use macros::{invalid_arg, missing_arg, parse_value};
pub use mtab::{mtab_action, MtabAction, MtabState};
pub use progress::{archive_format, content_length, ArchiveFormat};
pub use sandbox::{
    cursor_candidates, desktop_candidates, Backend, HostFacts, HostIdentity, Launch,
    RootfsNotFoundError, SandBox, SandBoxConfig, SandboxError, GUEST_PATH, MTAB_TARGET,
};
