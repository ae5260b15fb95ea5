use vstd::prelude::*;
use crate::config::{chars_of, trim, trim_bounds};
use crate::endpoint::{decimal, decimal_string};

verus! {

pub open spec fn node_executable_spec(windows: bool) -> Seq<char> {
    if windows {
        "node.exe"@
    } else {
        "node"@
    }
}

/// The Node.js executable, looked up on the system path.
pub fn get_node_executable(windows: bool) -> (r: String)
    ensures
        r@ == node_executable_spec(windows),
{
    if windows {
        String::from_str("node.exe")
    } else {
        String::from_str("node")
    }
}

/// How to launch the server process. Paths are lists of components; the
/// host joins them onto its resource directory.
pub struct LaunchPlan {
    /// The executable to run.
    pub program: String,
    /// The working directory, relative to the resource directory.
    pub root: Vec<String>,
    /// The entry file, relative to the working directory; it is the only
    /// argument.
    pub entry: Vec<String>,
    /// Environment variables given to the child.
    pub env: Vec<(String, String)>,
    /// Whether the child's console window is suppressed.
    pub hide_console: bool,
}

pub open spec fn views(v: Seq<String>) -> Seq<Seq<char>> {
    v.map_values(|s: String| s@)
}

/// The working directory is the `resources` directory where it exists,
/// else the resource directory itself.
pub open spec fn root_spec(resources_exists: bool) -> Seq<Seq<char>> {
    if resources_exists {
        seq!["resources"@]
    } else {
        Seq::empty()
    }
}

pub open spec fn entry_spec() -> Seq<Seq<char>> {
    seq!["dist"@, "server"@, "main.js"@]
}

pub open spec fn env_spec(port: u16) -> Seq<(Seq<char>, Seq<char>)> {
    seq![("PORT"@, decimal(port as nat)), ("NODE_ENV"@, "production"@)]
}

impl LaunchPlan {
    pub open spec fn env_view(&self) -> Seq<(Seq<char>, Seq<char>)> {
        self.env@.map_values(|e: (String, String)| (e.0@, e.1@))
    }
}

/// The launch of the server on `port`: Node.js runs the entry file from the
/// working directory, with the port and the production mode in its
/// environment.
pub fn plan_launch(port: u16, windows: bool, production: bool, resources_exists: bool) -> (r:
    LaunchPlan)
    ensures
        r.program@ == node_executable_spec(windows),
        views(r.root@) == root_spec(resources_exists),
        views(r.entry@) == entry_spec(),
        r.env_view() == env_spec(port),
        r.hide_console == (windows && production),
{
    let mut root: Vec<String> = Vec::new();
    if resources_exists {
        root.push(String::from_str("resources"));
    }
    let mut entry: Vec<String> = Vec::new();
    entry.push(String::from_str("dist"));
    entry.push(String::from_str("server"));
    entry.push(String::from_str("main.js"));
    let mut env: Vec<(String, String)> = Vec::new();
    env.push((String::from_str("PORT"), decimal_string(port as u64)));
    env.push((String::from_str("NODE_ENV"), String::from_str("production")));
    let r = LaunchPlan {
        program: get_node_executable(windows),
        root,
        entry,
        env,
        hide_console: windows && production,
    };
    assert(views(r.root@) =~= root_spec(resources_exists));
    assert(views(r.entry@) =~= entry_spec());
    assert(r.env_view() =~= env_spec(port));
    r
}

/// What running `node --version` came to.
pub enum VersionProbe {
    /// The executable could not be run at all.
    NotLaunched,
    /// It ran and exited.
    Exited { success: bool, code: Option<i32>, stdout: String },
}

/// Why Node.js is not usable.
#[derive(Clone, Copy, Debug, PartialEq, Eq)]
pub enum NodeCheckError {
    /// Node.js is not installed or not on the system path.
    NotInstalled,
    /// Node.js ran but reported failure, with this exit code if any.
    Failed { code: Option<i32> },
}

pub open spec fn version_check_spec(p: VersionProbe) -> Result<Seq<char>, NodeCheckError> {
    match p {
        VersionProbe::NotLaunched => Err(NodeCheckError::NotInstalled),
        VersionProbe::Exited { success, code, stdout } => if success {
            Ok(trim(stdout@))
        } else {
            Err(NodeCheckError::Failed { code })
        },
    }
}

/// The installed Node.js version, as its `--version` output printed it
/// without surrounding white space.
pub fn interpret_version_probe(p: &VersionProbe) -> (r: Result<String, NodeCheckError>)
    ensures
        match (r, version_check_spec(*p)) {
            (Ok(v), Ok(w)) => v@ == w,
            (Err(e), Err(f)) => e == f,
            _ => false,
        },
{
    match p {
        VersionProbe::NotLaunched => Err(NodeCheckError::NotInstalled),
        VersionProbe::Exited { success, code, stdout } => {
            if *success {
                let s = stdout.as_str();
                let v = chars_of(s);
                let (a, b) = trim_bounds(&v, 0, v.len());
                assert(v@.subrange(0, v@.len() as int) =~= v@);
                Ok(String::from_str(s.substring_char(a, b)))
            } else {
                Err(NodeCheckError::Failed { code: *code })
            }
        },
    }
}

} // verus!
