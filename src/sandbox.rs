//! Translation of a session configuration into a backend argument vector.

use vstd::prelude::*;

use crate::init::{SandboxConfig, SandboxTool, USE_BWRAP, USE_PROOT};
use crate::text::{
    append_texts, contains_text, decimal, decimal_string, join, join_path, push_text,
    split_words, texts, words,
};

verus! {

/// The two sandboxing backends.
#[derive(Clone, Copy, Debug, PartialEq, Eq, Structural)]
pub enum Backend {
    /// The ptrace-based path emulator.
    Ptrace,
    /// The kernel-namespace isolator.
    Namespace,
}

/// The backend that a tool name selects.
pub open spec fn backend_of(name: Seq<char>) -> Option<Backend> {
    if name == USE_PROOT@ {
        Some(Backend::Ptrace)
    } else if name == USE_BWRAP@ {
        Some(Backend::Namespace)
    } else {
        None
    }
}

impl Backend {
    /// The backend called `name`, if there is one.
    pub fn from_name(name: &str) -> (r: Option<Backend>)
        ensures
            r == backend_of(name@),
    {
        if crate::text::same_text(name, USE_PROOT) {
            Some(Backend::Ptrace)
        } else if crate::text::same_text(name, USE_BWRAP) {
            Some(Backend::Namespace)
        } else {
            None
        }
    }
}

/// What is known of the host when a session is prepared.
pub struct HostFacts {
    /// The host home directory, shared with the guest by the namespace backend.
    pub home: String,
    /// Host paths that are known to exist.
    pub existing: Vec<String>,
    /// The entries of the host icon directory, as full paths.
    pub icon_dirs: Vec<String>,
}

/// Host desktop-integration files and directories shared when present.
pub open spec fn desktop_paths() -> Seq<Seq<char>> {
    seq![
        "/etc/asound.conf"@,
        "/etc/fonts"@,
        "/usr/share/font-config"@,
        "/usr/share/fontconfig"@,
        "/usr/share/fonts"@,
        "/usr/share/themes"@,
    ]
}

/// The cursor directory that each icon theme may hold.
pub open spec fn cursor_paths(icon_dirs: Seq<Seq<char>>) -> Seq<Seq<char>> {
    icon_dirs.map_values(|d: Seq<char>| join_path(d, "cursors"@))
}

/// Every optional host path that a builder considers sharing.
pub open spec fn host_candidates(icon_dirs: Seq<Seq<char>>) -> Seq<Seq<char>> {
    desktop_paths() + cursor_paths(icon_dirs)
}

/// The paths of `ps` that occur in `existing`, in the order of `ps`.
pub open spec fn present_paths(ps: Seq<Seq<char>>, existing: Seq<Seq<char>>) -> Seq<Seq<char>>
    decreases ps.len(),
{
    if ps.len() == 0 {
        seq![]
    } else if existing.contains(ps.last()) {
        present_paths(ps.drop_last(), existing).push(ps.last())
    } else {
        present_paths(ps.drop_last(), existing)
    }
}

impl HostFacts {
    /// The optional host paths that exist.
    pub open spec fn shared_paths(&self) -> Seq<Seq<char>> {
        present_paths(host_candidates(texts(self.icon_dirs@)), texts(self.existing@))
    }
}

/// The ptrace backend's form of a bind of each path.
pub open spec fn ptrace_binds(ps: Seq<Seq<char>>) -> Seq<Seq<char>> {
    ps.map_values(|p: Seq<char>| "--bind="@ + p)
}

/// A bind of each path onto itself, with the namespace backend's `flag`.
pub open spec fn self_binds(flag: Seq<char>, ps: Seq<Seq<char>>) -> Seq<Seq<char>>
    decreases ps.len(),
{
    if ps.len() == 0 {
        seq![]
    } else {
        self_binds(flag, ps.drop_last()) + seq![flag, ps.last(), ps.last()]
    }
}

/// The search path set inside the guest.
pub const GUEST_PATH: &'static str = "/bin:/sbin:/usr/bin:/usr/sbin:/usr/libexec";

/// The host's system message bus socket.
pub const DBUS_SOCKET: &'static str = "/var/run/dbus/system_bus_socket";

/// The fixed part of the namespace backend's arguments, up to the caller's
/// own binds.
pub open spec fn namespace_prefix(rootfs: Seq<char>, home: Seq<char>) -> Seq<Seq<char>> {
    seq![
        "--unshare-user"@,
        "--share-net"@,
        "--bind"@,
        rootfs,
        "/"@,
        "--die-with-parent"@,
        "--ro-bind-try"@,
        "/etc/host.conf"@,
        "/etc/host.conf"@,
        "--ro-bind-try"@,
        "/etc/hosts"@,
        "/etc/hosts"@,
        "--ro-bind-try"@,
        "/etc/hosts.equiv"@,
        "/etc/hosts.equiv"@,
        "--ro-bind-try"@,
        "/etc/netgroup"@,
        "/etc/netgroup"@,
        "--ro-bind-try"@,
        "/etc/networks"@,
        "/etc/networks"@,
        "--ro-bind-try"@,
        "/etc/nsswitch.conf"@,
        "/etc/nsswitch.conf"@,
        "--ro-bind-try"@,
        "/etc/resolv.conf"@,
        "/etc/resolv.conf"@,
        "--ro-bind-try"@,
        "/etc/localtime"@,
        "/etc/localtime"@,
        "--dev-bind"@,
        "/dev"@,
        "/dev"@,
        "--ro-bind"@,
        "/sys"@,
        "/sys"@,
        "--bind-try"@,
        "/proc"@,
        "/proc"@,
        "--bind-try"@,
        "/tmp"@,
        "/tmp"@,
        "--bind-try"@,
        "/run"@,
        "/run"@,
        "--ro-bind"@,
        DBUS_SOCKET@,
        DBUS_SOCKET@,
        "--bind"@,
        home,
        home,
        "--bind"@,
        "/media"@,
        "/media"@,
        "--bind"@,
        "/mnt"@,
        "/mnt"@,
    ]
}

/// The arguments of the namespace backend.
pub open spec fn namespace_args(
    rootfs: Seq<char>,
    extra: Seq<char>,
    ignore_extra_bind: bool,
    no_group: bool,
    home: Seq<char>,
    shared: Seq<Seq<char>>,
) -> Seq<Seq<char>> {
    namespace_prefix(rootfs, home) + words(extra) + seq!["--setenv"@, "PATH"@, GUEST_PATH@] + (
    if no_group {
        seq![]
    } else {
        seq![
            "--ro-bind-try"@,
            "/etc/passwd"@,
            "/etc/passwd"@,
            "--ro-bind-try"@,
            "/etc/group"@,
            "/etc/group"@,
        ]
    }) + (if ignore_extra_bind {
        seq![]
    } else {
        self_binds("--ro-bind"@, shared)
    })
}

/// Appends a bind of `p` onto itself with `flag`.
fn push_self_bind(out: &mut Vec<String>, flag: &str, p: &str)
    ensures
        texts(final(out)@) == texts(old(out)@) + seq![flag@, p@, p@],
{
    push_text(out, flag);
    push_text(out, p);
    push_text(out, p);
    assert(texts(out@) =~= texts(old(out)@) + seq![flag@, p@, p@]);
}

/// The arguments of the ptrace backend.
pub open spec fn ptrace_args(
    rootfs: Seq<char>,
    extra: Seq<char>,
    ignore_extra_bind: bool,
    no_group: bool,
    shared: Seq<Seq<char>>,
) -> Seq<Seq<char>> {
    seq!["-R"@, rootfs, "--bind=/media"@, "--bind=/mnt"@] + words(extra) + (if no_group {
        seq![
            "--bind="@ + rootfs + "/etc/group:/etc/group"@,
            "--bind="@ + rootfs + "/etc/passwd:/etc/passwd"@,
        ]
    } else {
        seq![]
    }) + (if ignore_extra_bind {
        seq![]
    } else {
        ptrace_binds(shared)
    })
}

/// The desktop-integration paths, to be probed on the host.
pub fn desktop_candidates() -> (r: Vec<String>)
    ensures
        texts(r@) == desktop_paths(),
{
    let mut out: Vec<String> = Vec::new();
    push_text(&mut out, "/etc/asound.conf");
    push_text(&mut out, "/etc/fonts");
    push_text(&mut out, "/usr/share/font-config");
    push_text(&mut out, "/usr/share/fontconfig");
    push_text(&mut out, "/usr/share/fonts");
    push_text(&mut out, "/usr/share/themes");
    assert(texts(out@) =~= desktop_paths());
    out
}

/// The cursor directory of each icon theme, to be probed on the host.
pub fn cursor_candidates(icon_dirs: &Vec<String>) -> (r: Vec<String>)
    ensures
        texts(r@) == cursor_paths(texts(icon_dirs@)),
{
    let mut out: Vec<String> = Vec::new();
    let mut i: usize = 0;
    while i < icon_dirs.len()
        invariant
            i <= icon_dirs.len(),
            texts(out@) == cursor_paths(texts(icon_dirs@.take(i as int))),
        decreases icon_dirs.len() - i,
    {
        let c = join(icon_dirs[i].as_str(), "cursors");
        let ghost before = out@;
        out.push(c);
        assert(icon_dirs@.take(i + 1) =~= icon_dirs@.take(i as int).push(icon_dirs@[i as int]));
        let ghost prev = texts(icon_dirs@.take(i as int));
        assert(texts(icon_dirs@.take(i + 1)) =~= prev.push(icon_dirs@[i as int]@));
        assert(cursor_paths(prev.push(icon_dirs@[i as int]@)) =~= cursor_paths(prev).push(
            join_path(icon_dirs@[i as int]@, "cursors"@),
        ));
        assert(texts(out@) =~= texts(before).push(c@));
        i = i + 1;
    }
    assert(icon_dirs@.take(icon_dirs@.len() as int) =~= icon_dirs@);
    out
}

/// The optional host paths that exist, in the order in which they are shared.
pub fn shared_host_paths(host: &HostFacts) -> (r: Vec<String>)
    ensures
        texts(r@) == host.shared_paths(),
{
    let mut candidates = desktop_candidates();
    let cursors = cursor_candidates(&host.icon_dirs);
    append_texts(&mut candidates, &cursors);
    let ghost cs = texts(candidates@);
    let mut out: Vec<String> = Vec::new();
    let mut i: usize = 0;
    while i < candidates.len()
        invariant
            i <= candidates.len(),
            cs == texts(candidates@),
            cs == host_candidates(texts(host.icon_dirs@)),
            texts(out@) == present_paths(cs.take(i as int), texts(host.existing@)),
        decreases candidates.len() - i,
    {
        assert(cs.take(i + 1).drop_last() =~= cs.take(i as int));
        if contains_text(&host.existing, candidates[i].as_str()) {
            let ghost before = out@;
            out.push(candidates[i].clone());
            assert(texts(out@) =~= texts(before).push(cs[i as int]));
        }
        i = i + 1;
    }
    assert(cs.take(cs.len() as int) =~= cs);
    out
}

/// The guest root file system of a session is missing on the host.
#[derive(Clone, Debug)]
pub struct RootfsNotFoundError(pub String);

/// Why a session cannot be prepared.
#[derive(Clone, Debug)]
pub enum SandboxError {
    /// The guest root file system does not exist; it carries the path.
    RootfsNotFound(RootfsNotFoundError),
    /// No backend, or no downloadable binary, goes by this name.
    UnsupportedBackend(String),
    /// The backend is not installed and no binary exists for the architecture.
    ToolUnavailable { backend: String, arch: String },
}

impl SandboxError {
    /// Whether this is the missing guest root at `path`.
    pub open spec fn is_rootfs_not_found(&self, path: Seq<char>) -> bool {
        match self {
            SandboxError::RootfsNotFound(e) => e.0@ == path,
            _ => false,
        }
    }

    /// Whether this is the unknown backend `name`.
    pub open spec fn is_unsupported_backend(&self, name: Seq<char>) -> bool {
        match self {
            SandboxError::UnsupportedBackend(n) => n@ == name,
            _ => false,
        }
    }

    /// Whether this is backend `name` lacking a binary for `arch`.
    pub open spec fn is_tool_unavailable(&self, name: Seq<char>, arch: Seq<char>) -> bool {
        match self {
            SandboxError::ToolUnavailable { backend, arch: a } => backend@ == name && a@ == arch,
            _ => false,
        }
    }

    /// The text shown to the user.
    pub open spec fn spec_message(&self) -> Seq<char> {
        match self {
            SandboxError::RootfsNotFound(e) => "Rootfs directory not found at: \""@ + e.0@
                + "\""@,
            SandboxError::UnsupportedBackend(n) => "Unsupported rootfs command: "@ + n@,
            SandboxError::ToolUnavailable { backend, arch } => backend@
                + " not found and no binary available for "@ + arch@,
        }
    }

    /// The text shown to the user.
    pub fn message(&self) -> (r: String)
        ensures
            r@ == self.spec_message(),
    {
        match self {
            SandboxError::RootfsNotFound(e) => String::from_str(
                "Rootfs directory not found at: \"",
            ).concat(e.0.as_str()).concat("\""),
            SandboxError::UnsupportedBackend(n) => String::from_str(
                "Unsupported rootfs command: ",
            ).concat(n.as_str()),
            SandboxError::ToolUnavailable { backend, arch } => String::from_str(
                backend.as_str(),
            ).concat(" not found and no binary available for ").concat(arch.as_str()),
        }
    }
}

/// How a session is to be run.
#[derive(Clone, Debug)]
pub struct SandBoxConfig {
    /// Path of the guest root file system.
    pub rootfs: String,
    /// Command run in the guest shell; empty for an interactive shell.
    pub run_cmd: String,
    /// Name of the backend.
    pub rootfs_tool: String,
    /// Path of the backend binary.
    pub tool_target: String,
    /// The caller's own backend arguments, separated by whitespace.
    pub args_bind: String,
    /// Whether the guest session presents itself as the superuser.
    pub use_root: bool,
    /// Whether the optional host desktop-integration paths stay unshared.
    pub ignore_extra_bind: bool,
    /// Whether the host's `passwd` and `group` files stay unshared.
    pub no_group: bool,
}

impl SandBoxConfig {
    /// The default session: the application's default guest root, the
    /// chosen backend and its binary, an interactive shell, no binds of the
    /// caller's own, the host's identity files and desktop paths shared, and
    /// the user's own identity.
    pub fn with_defaults(paths: &SandboxConfig, tool: &SandboxTool) -> (r: SandBoxConfig)
        ensures
            r.rootfs@ == paths.default_rootfs@,
            r.run_cmd@.len() == 0,
            r.rootfs_tool@ == tool.name@,
            r.tool_target@ == tool.target@,
            r.args_bind@.len() == 0,
            !r.use_root,
            !r.ignore_extra_bind,
            !r.no_group,
    {
        SandBoxConfig {
            rootfs: paths.default_rootfs.clone(),
            run_cmd: String::new(),
            rootfs_tool: tool.name.clone(),
            tool_target: tool.target.clone(),
            args_bind: String::new(),
            use_root: false,
            ignore_extra_bind: false,
            no_group: false,
        }
    }
}

/// The real and effective user ids of the invoking process.
#[derive(Clone, Copy, Debug, PartialEq, Eq, Structural)]
pub struct HostIdentity {
    pub uid: u32,
    pub euid: u32,
}

/// A prepared session: the program to spawn with its arguments, and the
/// guest mount table link to repair first, if any.
#[derive(Clone, Debug)]
pub struct Launch {
    pub program: String,
    pub args: Vec<String>,
    pub mtab: Option<String>,
}

/// The target of the guest's mount table link.
pub const MTAB_TARGET: &'static str = "/proc/self/mounts";

/// The guest's mount table path.
pub open spec fn mtab_path(rootfs: Seq<char>) -> Seq<char> {
    join_path(join_path(rootfs, "etc"@), "mtab"@)
}

/// The identity variables given to the guest shell.
pub open spec fn identity_block(use_root: bool, id: HostIdentity) -> Seq<char> {
    if use_root {
        "PS1=# |USER=root|LOGNAME=root|UID=0|EUID=0"@
    } else {
        "PS1=$ |UID="@ + decimal(id.uid as nat) + "|EUID="@ + decimal(id.euid as nat)
    }
}

/// The backend flags that make the guest identity the superuser's.
pub open spec fn root_flags(b: Backend, use_root: bool) -> Seq<Seq<char>> {
    if !use_root {
        seq![]
    } else {
        match b {
            Backend::Ptrace => seq!["-0"@],
            Backend::Namespace => seq![
                "--uid"@,
                "0"@,
                "--gid"@,
                "0"@,
                "--setenv"@,
                "USER"@,
                "root"@,
                "--setenv"@,
                "LOGNAME"@,
                "root"@,
            ],
        }
    }
}

/// The guest command: a shell under a fixed environment, running `run_cmd`
/// when it is not empty.
pub open spec fn shell_args(use_root: bool, id: HostIdentity, run_cmd: Seq<char>) -> Seq<
    Seq<char>,
> {
    seq![
        "env"@,
        identity_block(use_root, id),
        "SHELL=/bin/sh"@,
        "PATH="@ + GUEST_PATH@,
        "/bin/sh"@,
    ] + (if run_cmd.len() == 0 {
        seq![]
    } else {
        seq!["-c"@, run_cmd]
    })
}

/// The arguments that backend `b` is given for `cfg`.
pub open spec fn backend_args(b: Backend, cfg: SandBoxConfig, host: HostFacts) -> Seq<Seq<char>> {
    match b {
        Backend::Ptrace => ptrace_args(
            cfg.rootfs@,
            cfg.args_bind@,
            cfg.ignore_extra_bind,
            cfg.no_group,
            host.shared_paths(),
        ),
        Backend::Namespace => namespace_args(
            cfg.rootfs@,
            cfg.args_bind@,
            cfg.ignore_extra_bind,
            cfg.no_group,
            host.home@,
            host.shared_paths(),
        ),
    }
}

/// The whole argument vector of a session run with backend `b`.
pub open spec fn launch_args(
    b: Backend,
    cfg: SandBoxConfig,
    id: HostIdentity,
    host: HostFacts,
) -> Seq<Seq<char>> {
    backend_args(b, cfg, host) + root_flags(b, cfg.use_root) + shell_args(
        cfg.use_root,
        id,
        cfg.run_cmd@,
    )
}

/// The guest's mount table path.
pub fn mtab_location(rootfs: &str) -> (r: String)
    ensures
        r@ == mtab_path(rootfs@),
{
    let etc = join(rootfs, "etc");
    join(etc.as_str(), "mtab")
}

/// The identity variables given to the guest shell.
pub fn identity_env(use_root: bool, id: HostIdentity) -> (r: String)
    ensures
        r@ == identity_block(use_root, id),
{
    if use_root {
        String::from_str("PS1=# |USER=root|LOGNAME=root|UID=0|EUID=0")
    } else {
        let uid = decimal_string(id.uid);
        let euid = decimal_string(id.euid);
        String::from_str("PS1=$ |UID=").concat(uid.as_str()).concat("|EUID=").concat(
            euid.as_str(),
        )
    }
}

/// Appends the flags that make the guest identity the superuser's.
fn push_root_flags(args: &mut Vec<String>, b: Backend, use_root: bool)
    ensures
        texts(final(args)@) == texts(old(args)@) + root_flags(b, use_root),
{
    if use_root {
        match b {
            Backend::Ptrace => {
                push_text(args, "-0");
            },
            Backend::Namespace => {
                push_text(args, "--uid");
                push_text(args, "0");
                push_text(args, "--gid");
                push_text(args, "0");
                push_text(args, "--setenv");
                push_text(args, "USER");
                push_text(args, "root");
                push_text(args, "--setenv");
                push_text(args, "LOGNAME");
                push_text(args, "root");
            },
        }
    }
    assert(texts(args@) =~= texts(old(args)@) + root_flags(b, use_root));
}

/// Appends the guest command.
fn push_shell(args: &mut Vec<String>, use_root: bool, id: HostIdentity, run_cmd: &str)
    ensures
        texts(final(args)@) == texts(old(args)@) + shell_args(use_root, id, run_cmd@),
{
    let user = identity_env(use_root, id);
    let path = String::from_str("PATH=").concat(GUEST_PATH);
    push_text(args, "env");
    push_text(args, user.as_str());
    push_text(args, "SHELL=/bin/sh");
    push_text(args, path.as_str());
    push_text(args, "/bin/sh");
    if !run_cmd.is_empty() {
        push_text(args, "-c");
        push_text(args, run_cmd);
    }
    assert(texts(args@) =~= texts(old(args)@) + shell_args(use_root, id, run_cmd@));
}

/// Builder of the backends' argument vectors.
pub struct SandBox;

impl SandBox {
    /// The arguments of the ptrace backend: the guest root, the host media
    /// directories, the caller's own binds, the guest's own identity files
    /// when `no_group` is set, and the optional host paths that exist unless
    /// `no_extra_binds` is set.
    pub fn build_proot_options(
        rootfs: &str,
        rootfs_args: &str,
        no_extra_binds: bool,
        no_group: bool,
        host: &HostFacts,
    ) -> (r: Vec<String>)
        ensures
            texts(r@) == ptrace_args(
                rootfs@,
                rootfs_args@,
                no_extra_binds,
                no_group,
                host.shared_paths(),
            ),
    {
        let mut out: Vec<String> = Vec::new();
        push_text(&mut out, "-R");
        push_text(&mut out, rootfs);
        push_text(&mut out, "--bind=/media");
        push_text(&mut out, "--bind=/mnt");
        let extra = split_words(rootfs_args);
        append_texts(&mut out, &extra);
        let ghost base = texts(out@);
        if no_group {
            let group = String::from_str("--bind=").concat(rootfs).concat("/etc/group:/etc/group");
            let passwd = String::from_str("--bind=").concat(rootfs).concat(
                "/etc/passwd:/etc/passwd",
            );
            push_text(&mut out, group.as_str());
            push_text(&mut out, passwd.as_str());
        }
        let ghost grouped = texts(out@);
        if !no_extra_binds {
            let shared = shared_host_paths(host);
            let mut i: usize = 0;
            while i < shared.len()
                invariant
                    i <= shared.len(),
                    texts(shared@) == host.shared_paths(),
                    texts(out@) == grouped + ptrace_binds(texts(shared@).take(i as int)),
                decreases shared.len() - i,
            {
                let b = String::from_str("--bind=").concat(shared[i].as_str());
                push_text(&mut out, b.as_str());
                assert(ptrace_binds(texts(shared@).take(i + 1)) =~= ptrace_binds(
                    texts(shared@).take(i as int),
                ).push(b@));
                assert(texts(out@) =~= grouped + ptrace_binds(texts(shared@).take(i + 1)));
                i = i + 1;
            }
            assert(texts(shared@).take(shared@.len() as int) =~= texts(shared@));
        } else {
            assert(texts(out@) =~= grouped + seq![]);
        }
        assert(texts(out@) =~= ptrace_args(
            rootfs@,
            rootfs_args@,
            no_extra_binds,
            no_group,
            host.shared_paths(),
        ));
        out
    }

    /// The arguments of the namespace backend: a fresh user namespace over
    /// the guest root, the host's name-resolution files, devices, kernel and
    /// runtime directories, message bus, home and media directories, the
    /// caller's own binds and the guest search path; the host identity files
    /// unless `no_group` is set, and the optional host paths that exist
    /// unless `ignore_extra_binds` is set.
    #[verifier::rlimit(40)]
    pub fn build_bwrap_options(
        rootfs: &str,
        rootfs_args: &str,
        ignore_extra_binds: bool,
        no_group: bool,
        host: &HostFacts,
    ) -> (r: Vec<String>)
        ensures
            texts(r@) == namespace_args(
                rootfs@,
                rootfs_args@,
                ignore_extra_binds,
                no_group,
                host.home@,
                host.shared_paths(),
            ),
    {
        let mut out: Vec<String> = Vec::new();
        push_text(&mut out, "--unshare-user");
        push_text(&mut out, "--share-net");
        push_text(&mut out, "--bind");
        push_text(&mut out, rootfs);
        push_text(&mut out, "/");
        push_text(&mut out, "--die-with-parent");
        push_self_bind(&mut out, "--ro-bind-try", "/etc/host.conf");
        push_self_bind(&mut out, "--ro-bind-try", "/etc/hosts");
        push_self_bind(&mut out, "--ro-bind-try", "/etc/hosts.equiv");
        push_self_bind(&mut out, "--ro-bind-try", "/etc/netgroup");
        push_self_bind(&mut out, "--ro-bind-try", "/etc/networks");
        push_self_bind(&mut out, "--ro-bind-try", "/etc/nsswitch.conf");
        push_self_bind(&mut out, "--ro-bind-try", "/etc/resolv.conf");
        push_self_bind(&mut out, "--ro-bind-try", "/etc/localtime");
        push_self_bind(&mut out, "--dev-bind", "/dev");
        push_self_bind(&mut out, "--ro-bind", "/sys");
        push_self_bind(&mut out, "--bind-try", "/proc");
        push_self_bind(&mut out, "--bind-try", "/tmp");
        push_self_bind(&mut out, "--bind-try", "/run");
        push_self_bind(&mut out, "--ro-bind", DBUS_SOCKET);
        push_self_bind(&mut out, "--bind", host.home.as_str());
        push_self_bind(&mut out, "--bind", "/media");
        push_self_bind(&mut out, "--bind", "/mnt");
        assert(texts(out@) =~= namespace_prefix(rootfs@, host.home@));
        let extra = split_words(rootfs_args);
        append_texts(&mut out, &extra);
        push_text(&mut out, "--setenv");
        push_text(&mut out, "PATH");
        push_text(&mut out, GUEST_PATH);
        let ghost base = texts(out@);
        assert(base =~= namespace_prefix(rootfs@, host.home@) + words(rootfs_args@) + seq![
            "--setenv"@,
            "PATH"@,
            GUEST_PATH@,
        ]);
        if !no_group {
            push_self_bind(&mut out, "--ro-bind-try", "/etc/passwd");
            push_self_bind(&mut out, "--ro-bind-try", "/etc/group");
        }
        let ghost grouped = texts(out@);
        if !ignore_extra_binds {
            let shared = shared_host_paths(host);
            let mut i: usize = 0;
            while i < shared.len()
                invariant
                    i <= shared.len(),
                    texts(shared@) == host.shared_paths(),
                    texts(out@) == grouped + self_binds("--ro-bind"@, texts(shared@).take(i as int)),
                decreases shared.len() - i,
            {
                push_self_bind(&mut out, "--ro-bind", shared[i].as_str());
                assert(texts(shared@).take(i + 1).drop_last() =~= texts(shared@).take(i as int));
                assert(texts(out@) =~= grouped + self_binds(
                    "--ro-bind"@,
                    texts(shared@).take(i + 1),
                ));
                i = i + 1;
            }
            assert(texts(shared@).take(shared@.len() as int) =~= texts(shared@));
        } else {
            assert(texts(out@) =~= grouped + seq![]);
        }
        assert(texts(out@) =~= namespace_args(
            rootfs@,
            rootfs_args@,
            ignore_extra_binds,
            no_group,
            host.home@,
            host.shared_paths(),
        ));
        out
    }

    /// The arguments that backend `b` is given for `config`.
    pub fn backend_arguments(b: Backend, config: &SandBoxConfig, host: &HostFacts) -> (r: Vec<
        String,
    >)
        ensures
            texts(r@) == backend_args(b, *config, *host),
    {
        match b {
            Backend::Ptrace => SandBox::build_proot_options(
                config.rootfs.as_str(),
                config.args_bind.as_str(),
                config.ignore_extra_bind,
                config.no_group,
                host,
            ),
            Backend::Namespace => SandBox::build_bwrap_options(
                config.rootfs.as_str(),
                config.args_bind.as_str(),
                config.ignore_extra_bind,
                config.no_group,
                host,
            ),
        }
    }

    /// Prepares a session: the guest root must exist, the backend must be
    /// known, and the result is the backend binary with its whole argument
    /// vector. The namespace backend also asks for the guest mount table link
    /// to be repaired.
    pub fn prepare(
        config: &SandBoxConfig,
        rootfs_exists: bool,
        id: HostIdentity,
        host: &HostFacts,
    ) -> (r: Result<Launch, SandboxError>)
        ensures
            !rootfs_exists ==> (r is Err && r->Err_0.is_rootfs_not_found(config.rootfs@)),
            (r is Err && r->Err_0 is RootfsNotFound) <==> !rootfs_exists,
            rootfs_exists && backend_of(config.rootfs_tool@) is None ==> (r is Err
                && r->Err_0.is_unsupported_backend(config.rootfs_tool@)),
            rootfs_exists && backend_of(config.rootfs_tool@) is Some ==> (r is Ok
                && r->Ok_0.program@ == config.tool_target@ && texts(r->Ok_0.args@) == launch_args(
                backend_of(config.rootfs_tool@)->Some_0,
                *config,
                id,
                *host,
            ) && (r->Ok_0.mtab is Some <==> backend_of(config.rootfs_tool@) == Some(
                Backend::Namespace,
            )) && (r->Ok_0.mtab is Some ==> r->Ok_0.mtab->Some_0@ == mtab_path(config.rootfs@))),
    {
        if !rootfs_exists {
            return Err(SandboxError::RootfsNotFound(RootfsNotFoundError(config.rootfs.clone())));
        }
        let backend = match Backend::from_name(config.rootfs_tool.as_str()) {
            Some(b) => b,
            None => {
                return Err(SandboxError::UnsupportedBackend(config.rootfs_tool.clone()));
            },
        };
        let mut args = SandBox::backend_arguments(backend, config, host);
        push_root_flags(&mut args, backend, config.use_root);
        push_shell(&mut args, config.use_root, id, config.run_cmd.as_str());
        let mtab = match backend {
            Backend::Ptrace => None,
            Backend::Namespace => Some(mtab_location(config.rootfs.as_str())),
        };
        Ok(Launch { program: config.tool_target.clone(), args, mtab })
    }
}

/// With `no_group` set, the ptrace backend binds the guest's own `group` and
/// `passwd` files onto themselves; with it unset, the namespace backend
/// shares the host's `passwd` and `group` files read-only, where present.
pub proof fn lemma_identity_files_polarity(
    rootfs: Seq<char>,
    extra: Seq<char>,
    ignore_extra_bind: bool,
    home: Seq<char>,
    shared: Seq<Seq<char>>,
)
    ensures
        ptrace_args(rootfs, extra, ignore_extra_bind, true, shared).contains(
            "--bind="@ + rootfs + "/etc/group:/etc/group"@,
        ),
        ptrace_args(rootfs, extra, ignore_extra_bind, true, shared).contains(
            "--bind="@ + rootfs + "/etc/passwd:/etc/passwd"@,
        ),
        exists|k: int|
            0 <= k && k + 6 <= namespace_args(
                rootfs,
                extra,
                ignore_extra_bind,
                false,
                home,
                shared,
            ).len() && #[trigger] namespace_args(
                rootfs,
                extra,
                ignore_extra_bind,
                false,
                home,
                shared,
            ).subrange(k, k + 6) == seq![
                "--ro-bind-try"@,
                "/etc/passwd"@,
                "/etc/passwd"@,
                "--ro-bind-try"@,
                "/etc/group"@,
                "/etc/group"@,
            ],
{
    let p = ptrace_args(rootfs, extra, ignore_extra_bind, true, shared);
    let n = 4 + words(extra).len() as int;
    assert(p[n] == "--bind="@ + rootfs + "/etc/group:/etc/group"@);
    assert(p[n + 1] == "--bind="@ + rootfs + "/etc/passwd:/etc/passwd"@);
    let a = namespace_args(rootfs, extra, ignore_extra_bind, false, home, shared);
    let k = namespace_prefix(rootfs, home).len() + words(extra).len() + 3int;
    assert(a.subrange(k, k + 6) =~= seq![
        "--ro-bind-try"@,
        "/etc/passwd"@,
        "/etc/passwd"@,
        "--ro-bind-try"@,
        "/etc/group"@,
        "/etc/group"@,
    ]);
}

proof fn lemma_present_paths_exist(ps: Seq<Seq<char>>, existing: Seq<Seq<char>>, q: Seq<char>)
    requires
        present_paths(ps, existing).contains(q),
    ensures
        existing.contains(q),
        ps.contains(q),
    decreases ps.len(),
{
    if ps.len() > 0 {
        let rest = present_paths(ps.drop_last(), existing);
        if existing.contains(ps.last()) && q == ps.last() {
            assert(ps[ps.len() - 1] == q);
        } else {
            if existing.contains(ps.last()) {
                let i = choose|i: int| 0 <= i < rest.push(ps.last()).len() && rest.push(ps.last())[i] == q;
                assert(i < rest.len());
                assert(rest[i] == q);
            }
            assert(rest.contains(q));
            lemma_present_paths_exist(ps.drop_last(), existing, q);
            let j = choose|j: int| 0 <= j < ps.drop_last().len() && ps.drop_last()[j] == q;
            assert(ps[j] == q);
        }
    }
}

/// An optional host path is shared by either backend only when the host has
/// it: a path missing from the host's existing paths never is among the
/// paths whose binds close the argument vector.
pub proof fn lemma_absent_host_paths_unshared(host: HostFacts, q: Seq<char>)
    requires
        !texts(host.existing@).contains(q),
    ensures
        !host.shared_paths().contains(q),
{
    if host.shared_paths().contains(q) {
        lemma_present_paths_exist(
            host_candidates(texts(host.icon_dirs@)),
            texts(host.existing@),
            q,
        );
    }
}

/// A superuser session adds the root-emulation flag right after the ptrace
/// backend's arguments, or the uid, gid and name overrides right after the
/// namespace backend's; any other session adds no flag there.
pub proof fn lemma_root_flags(b: Backend, cfg: SandBoxConfig, id: HostIdentity, host: HostFacts)
    ensures
        ({
            let a = launch_args(b, cfg, id, host);
            let n = backend_args(b, cfg, host).len() as int;
            &&& (cfg.use_root && b == Backend::Ptrace) ==> a.subrange(n, n + 1) == seq!["-0"@]
            &&& (cfg.use_root && b == Backend::Namespace) ==> a.subrange(n, n + 10) == seq![
                "--uid"@,
                "0"@,
                "--gid"@,
                "0"@,
                "--setenv"@,
                "USER"@,
                "root"@,
                "--setenv"@,
                "LOGNAME"@,
                "root"@,
            ]
            &&& !cfg.use_root ==> a == backend_args(b, cfg, host) + shell_args(
                false,
                id,
                cfg.run_cmd@,
            )
        }),
{
    let a = launch_args(b, cfg, id, host);
    let n = backend_args(b, cfg, host).len() as int;
    if cfg.use_root {
        assert(a.subrange(n, n + root_flags(b, true).len()) =~= root_flags(b, true));
    } else {
        assert(root_flags(b, false) =~= Seq::<Seq<char>>::empty());
        assert(a =~= backend_args(b, cfg, host) + shell_args(false, id, cfg.run_cmd@));
    }
}

} // verus!
