//! Session paths, architecture selection and backend tool resolution.

use vstd::prelude::*;

use crate::sandbox::SandboxError;
use crate::text::{join, join_path, same_text};

verus! {

/// Name of the ptrace-based backend.
pub const USE_PROOT: &'static str = "proot";

/// Name of the namespace-based backend.
pub const USE_BWRAP: &'static str = "bwrap";

/// The one architecture for which prebuilt backend binaries exist.
pub const AMD64: &'static str = "x86_64";

/// Where the prebuilt ptrace backend is published.
pub const PROOT_URL: &'static str =
    "https://github.com/LinuxProativo/StaticHub/releases/download/proot/proot";

/// Where the prebuilt namespace backend is published.
pub const BWRAP_URL: &'static str =
    "https://github.com/LinuxProativo/StaticHub/releases/download/bwrap/bwrap";

/// The paths and names of an application's sessions, fixed at startup.
#[derive(Clone, Debug)]
pub struct SandboxConfig {
    /// Name of the running program.
    pub app_name: String,
    /// The architecture that backend binaries are chosen for.
    pub app_arch: String,
    /// The user's home directory.
    pub safe_home: String,
    /// Directory of the application's configuration.
    pub config_dir: String,
    /// The application's configuration file.
    pub config_file: String,
    /// Directory of the application's lasting cache.
    pub default_cache: String,
    /// Default guest root file system.
    pub default_rootfs: String,
    /// Directory of temporary files.
    pub temp_cache: String,
}

/// The backend chosen for sessions, and its binary.
#[derive(Clone, Debug)]
pub struct SandboxTool {
    /// The backend's name.
    pub name: String,
    /// Path of the backend's binary.
    pub target: String,
}

/// The home directory used when the environment names none.
pub open spec fn home_or_default(home: Option<String>) -> Seq<char> {
    match home {
        Some(h) => h@,
        None => "."@,
    }
}

/// The architecture chosen: the application's own override, else the
/// generic override, else the detected one.
pub open spec fn chosen_arch(
    forced: Option<String>,
    generic: Option<String>,
    detected: Seq<char>,
) -> Seq<char> {
    match forced {
        Some(a) => a@,
        None => match generic {
            Some(a) => a@,
            None => detected,
        },
    }
}

impl SandboxConfig {
    /// Whether `self` holds the paths of application `name` for home
    /// directory `home`, run as `program` and choosing binaries for `arch`.
    pub open spec fn laid_out(
        self,
        name: Seq<char>,
        home: Seq<char>,
        program: Option<String>,
        arch: Seq<char>,
    ) -> bool {
        &&& self.app_name@ == (match program {
            Some(p) => p@,
            None => name,
        })
        &&& self.app_arch@ == arch
        &&& self.safe_home@ == home
        &&& self.config_dir@ == join_path(join_path(home, ".config"@), name)
        &&& self.config_file@ == join_path(self.config_dir@, "config.toml"@)
        &&& self.default_cache@ == join_path(join_path(home, ".cache"@), name)
        &&& self.default_rootfs@ == join_path(home, "."@ + name)
        &&& self.temp_cache@ == join_path("/tmp"@, name)
    }

    /// The paths of application `name`: its configuration and cache under
    /// the home directory (`.` when there is none), its default guest root
    /// in a hidden directory of the home directory, and its temporary files
    /// under `/tmp`.
    pub fn new(name: &str, home: Option<String>, program: Option<String>, arch: String) -> (r:
        SandboxConfig)
        ensures
            r.laid_out(name@, home_or_default(home), program, arch@),
    {
        let home = match home {
            Some(h) => h,
            None => String::from_str("."),
        };
        let app_name = match program {
            Some(p) => p,
            None => String::from_str(name),
        };
        let dot_config = join(home.as_str(), ".config");
        let config_dir = join(dot_config.as_str(), name);
        let config_file = join(config_dir.as_str(), "config.toml");
        let dot_cache = join(home.as_str(), ".cache");
        let default_cache = join(dot_cache.as_str(), name);
        let hidden = String::from_str(".").concat(name);
        let default_rootfs = join(home.as_str(), hidden.as_str());
        let temp_cache = join("/tmp", name);
        SandboxConfig {
            app_name,
            app_arch: arch,
            safe_home: home,
            config_dir,
            config_file,
            default_cache,
            default_rootfs,
            temp_cache,
        }
    }
}

/// The architecture chosen: the application's own override, else the
/// generic override, else the detected one.
pub fn select_arch(forced: Option<String>, generic: Option<String>, detected: &str) -> (r:
    String)
    ensures
        r@ == chosen_arch(forced, generic, detected@),
{
    match forced {
        Some(a) => a,
        None => match generic {
            Some(a) => a,
            None => String::from_str(detected),
        },
    }
}

/// Name of the running program.
pub fn app_name(config: &SandboxConfig) -> (r: String)
    ensures
        r@ == config.app_name@,
{
    config.app_name.clone()
}

/// The architecture that backend binaries are chosen for.
pub fn app_arch(config: &SandboxConfig) -> (r: String)
    ensures
        r@ == config.app_arch@,
{
    config.app_arch.clone()
}

/// The user's home directory.
pub fn safe_home(config: &SandboxConfig) -> (r: String)
    ensures
        r@ == config.safe_home@,
{
    config.safe_home.clone()
}

/// Directory of the application's configuration.
pub fn config_dir(config: &SandboxConfig) -> (r: String)
    ensures
        r@ == config.config_dir@,
{
    config.config_dir.clone()
}

/// The application's configuration file.
pub fn config_file(config: &SandboxConfig) -> (r: String)
    ensures
        r@ == config.config_file@,
{
    config.config_file.clone()
}

/// Directory of the application's lasting cache.
pub fn default_cache(config: &SandboxConfig) -> (r: String)
    ensures
        r@ == config.default_cache@,
{
    config.default_cache.clone()
}

/// Default guest root file system.
pub fn default_rootfs(config: &SandboxConfig) -> (r: String)
    ensures
        r@ == config.default_rootfs@,
{
    config.default_rootfs.clone()
}

/// Directory of temporary files.
pub fn temp_cache(config: &SandboxConfig) -> (r: String)
    ensures
        r@ == config.temp_cache@,
{
    config.temp_cache.clone()
}

/// The chosen backend's name.
pub fn sandbox_tool(tool: &SandboxTool) -> (r: String)
    ensures
        r@ == tool.name@,
{
    tool.name.clone()
}

/// Path of the chosen backend's binary.
pub fn tool_target(tool: &SandboxTool) -> (r: String)
    ensures
        r@ == tool.target@,
{
    tool.target.clone()
}

/// How the backend binary is obtained.
#[derive(Clone, Debug)]
pub enum ToolPlan {
    /// It is installed at this path.
    Installed(String),
    /// It is fetched from `url` into directory `dir`, as file `target`, and
    /// made executable.
    Download { url: String, dir: String, target: String },
}

/// The published binary of the backend called `name`.
pub open spec fn download_url(name: Seq<char>) -> Option<Seq<char>> {
    if name == USE_PROOT@ {
        Some(PROOT_URL@)
    } else if name == USE_BWRAP@ {
        Some(BWRAP_URL@)
    } else {
        None
    }
}

/// The user's own directory of binaries.
pub open spec fn local_bin(home: Seq<char>) -> Seq<char> {
    join_path(join_path(home, ".local"@), "bin"@)
}

/// Whether `r` is how backend `name` is obtained on architecture `arch` for
/// the user whose home is `home`, when a search of the executable path found
/// `found`: the binary found is used; else, on the one architecture with
/// prebuilt binaries, the published binary is fetched into the user's own
/// directory of binaries, if the backend has one; else there is no binary.
pub open spec fn tool_plan(
    name: Seq<char>,
    found: Option<Seq<char>>,
    arch: Seq<char>,
    home: Seq<char>,
    r: Result<ToolPlan, SandboxError>,
) -> bool {
    match found {
        Some(p) => match r {
            Ok(ToolPlan::Installed(q)) => q@ == p,
            _ => false,
        },
        None => if arch != AMD64@ {
            r is Err && r->Err_0.is_tool_unavailable(name, arch)
        } else {
            match download_url(name) {
                None => r is Err && r->Err_0.is_unsupported_backend(name),
                Some(u) => match r {
                    Ok(ToolPlan::Download { url, dir, target }) => url@ == u && dir@ == local_bin(
                        home,
                    ) && target@ == join_path(local_bin(home), name),
                    _ => false,
                },
            }
        },
    }
}

/// The published binary of the backend called `name`.
pub fn tool_download_url(name: &str) -> (r: Option<String>)
    ensures
        r is Some == download_url(name@) is Some,
        r is Some ==> r->Some_0@ == download_url(name@)->Some_0,
{
    if same_text(name, USE_PROOT) {
        Some(String::from_str(PROOT_URL))
    } else if same_text(name, USE_BWRAP) {
        Some(String::from_str(BWRAP_URL))
    } else {
        None
    }
}

/// The user's own directory of binaries.
pub fn local_bin_dir(home: &str) -> (r: String)
    ensures
        r@ == local_bin(home@),
{
    let local = join(home, ".local");
    join(local.as_str(), "bin")
}

/// The executable search path `path` with directory `dir` appended.
pub fn search_path_with(path: &str, dir: &str) -> (r: String)
    ensures
        r@ == path@ + ":"@ + dir@,
{
    String::from_str(path).concat(":").concat(dir)
}

/// How backend `name` is obtained, given what a search of the executable
/// path found.
pub fn plan_tool(name: &str, found: Option<String>, arch: &str, home: &str) -> (r: Result<
    ToolPlan,
    SandboxError,
>)
    ensures
        tool_plan(
            name@,
            match found {
                Some(p) => Some(p@),
                None => None,
            },
            arch@,
            home@,
            r,
        ),
{
    match found {
        Some(p) => Ok(ToolPlan::Installed(p)),
        None => {
            if !same_text(arch, AMD64) {
                return Err(
                    SandboxError::ToolUnavailable {
                        backend: String::from_str(name),
                        arch: String::from_str(arch),
                    },
                );
            }
            match tool_download_url(name) {
                None => Err(SandboxError::UnsupportedBackend(String::from_str(name))),
                Some(url) => {
                    let dir = local_bin_dir(home);
                    let target = join(dir.as_str(), name);
                    Ok(ToolPlan::Download { url, dir, target })
                },
            }
        },
    }
}

/// Relies on `which::which`: the first executable file called `name` in the
/// directories of the executable search path, if any. What it finds depends
/// on the file system and the environment, so nothing is stated of it.
#[verifier::external_body]
fn find_executable(name: &str) -> (r: Option<String>) {
    match which::which(name) {
        Ok(p) => Some(p.to_string_lossy().into_owned()),
        Err(_) => None,
    }
}

/// How backend `name` is obtained: an executable of that name on the search
/// path is used as it is; when there is none, the plan is the one for a
/// search that found nothing.
pub fn resolve_tool(name: &str, arch: &str, home: &str) -> (r: Result<ToolPlan, SandboxError>)
    ensures
        (r is Ok && r->Ok_0 is Installed) || tool_plan(name@, None, arch@, home@, r),
{
    let found = find_executable(name);
    plan_tool(name, found, arch, home)
}

impl SandboxTool {
    /// The backend `name`, with the binary that `plan` provides.
    pub fn from_plan(name: &str, plan: &ToolPlan) -> (r: SandboxTool)
        ensures
            r.name@ == name@,
            r.target@ == (match plan {
                ToolPlan::Installed(p) => p@,
                ToolPlan::Download { target, .. } => target@,
            }),
    {
        let target = match plan {
            ToolPlan::Installed(p) => p.clone(),
            ToolPlan::Download { target, .. } => target.clone(),
        };
        SandboxTool { name: String::from_str(name), target }
    }
}

} // verus!
