//! Where things live: the user's base directories, the IPC socket and lock,
//! and the category links.

use vstd::prelude::*;
use vstd::string::*;

use crate::text::{join_path, path_join, relative_to, strip_root, text_eq};

verus! {

/// The application's directory name under a base directory.
pub open spec fn app_name() -> Seq<char> {
    "walrus"@
}

/// A base directory of the user.
#[derive(Clone, Copy, Debug, PartialEq, Eq, Structural)]
pub enum Dirs {
    /// Executables.
    Bin,
    Cache,
    Config,
    Data,
    /// The home directory itself.
    Home,
    /// Ephemeral state of the session, where the IPC socket lives.
    Runtime,
    State,
}

/// Why a directory could not be had.
#[derive(Clone, Debug, PartialEq, Eq)]
pub enum DirError {
    DoesNotExist(String),
    InvalidPath(String),
    IoError(String),
    MissingVar(String),
}

impl DirError {
    /// The message of the error.
    pub fn to_string(&self) -> (r: String)
        ensures
            self matches DirError::DoesNotExist(p) ==> r@ == "Directory does not exist: "@ + p@,
            self matches DirError::InvalidPath(p) ==> r@ == "Invalid path: "@ + p@,
            self matches DirError::IoError(m) ==> r@ == "I/O error: "@ + m@,
            self matches DirError::MissingVar(v) ==> r@ == "Missing environment variable: "@ + v@,
    {
        match self {
            DirError::DoesNotExist(p) => String::from_str("Directory does not exist: ").concat(p.as_str()),
            DirError::InvalidPath(p) => String::from_str("Invalid path: ").concat(p.as_str()),
            DirError::IoError(m) => String::from_str("I/O error: ").concat(m.as_str()),
            DirError::MissingVar(v) => String::from_str("Missing environment variable: ").concat(v.as_str()),
        }
    }
}

/// The environment variable that overrides a base directory, if any.
pub open spec fn dir_var(dir: Dirs) -> Option<Seq<char>> {
    match dir {
        Dirs::Bin => Some("XDG_BIN_HOME"@),
        Dirs::Cache => Some("XDG_CACHE_HOME"@),
        Dirs::Config => Some("XDG_CONFIG_HOME"@),
        Dirs::Data => Some("XDG_DATA_HOME"@),
        Dirs::Home => None,
        Dirs::Runtime => Some("XDG_RUNTIME_DIR"@),
        Dirs::State => Some("XDG_STATE_HOME"@),
    }
}

/// Where a base directory lies under the home directory when its variable is
/// unset or not absolute (the runtime directory has no such place).
pub open spec fn home_default(dir: Dirs) -> Seq<char> {
    match dir {
        Dirs::Bin => ".local/bin"@,
        Dirs::Cache => ".cache"@,
        Dirs::Config => ".config"@,
        Dirs::Data => ".local/share"@,
        Dirs::Home => ""@,
        Dirs::Runtime => ""@,
        Dirs::State => ".local/state"@,
    }
}

pub open spec fn is_absolute(p: Seq<char>) -> bool {
    p.len() > 0 && p[0] == '/'
}

/// The text of an optional value.
pub open spec fn text_of(v: Option<&str>) -> Option<Seq<char>> {
    match v {
        Some(s) => Some(s@),
        None => None,
    }
}

/// Whether a directory's own variable holds an absolute path, which then
/// gives the directory whatever `HOME` is.
pub open spec fn var_decides(dir: Dirs, var: Option<Seq<char>>) -> bool {
    dir != Dirs::Home && (var matches Some(v) && is_absolute(v))
}

/// A base directory from an absolute home, where its own variable does not
/// decide: the home itself, or the directory's place under home.
pub open spec fn home_based_dir(dir: Dirs, home: Seq<char>) -> Seq<char> {
    if dir == Dirs::Home {
        home
    } else {
        path_join(home, home_default(dir))
    }
}

impl Dirs {
    /// The name of the variable that overrides this directory.
    pub fn var_name(&self) -> (r: Option<&'static str>)
        ensures
            r matches Some(s) ==> dir_var(*self) == Some(s@),
            r is None ==> dir_var(*self) is None,
    {
        match self {
            Dirs::Bin => Some("XDG_BIN_HOME"),
            Dirs::Cache => Some("XDG_CACHE_HOME"),
            Dirs::Config => Some("XDG_CONFIG_HOME"),
            Dirs::Data => Some("XDG_DATA_HOME"),
            Dirs::Home => None,
            Dirs::Runtime => Some("XDG_RUNTIME_DIR"),
            Dirs::State => Some("XDG_STATE_HOME"),
        }
    }
}

fn home_default_str(dir: Dirs) -> (r: &'static str)
    ensures
        r@ == home_default(dir),
{
    match dir {
        Dirs::Bin => ".local/bin",
        Dirs::Cache => ".cache",
        Dirs::Config => ".config",
        Dirs::Data => ".local/share",
        Dirs::Home => "",
        Dirs::Runtime => "",
        Dirs::State => ".local/state",
    }
}

fn absolute(p: &str) -> (r: bool)
    ensures
        r == is_absolute(p@),
{
    p.unicode_len() > 0 && p.get_char(0) == '/'
}

/// Resolves a base directory from the values of `HOME` and of the
/// directory's own variable (`None` when unset). An absolute value of the
/// directory's own variable is taken as it is. Otherwise the runtime
/// directory is missing, and any other directory lies under `HOME`, which
/// must then be set and absolute.
pub fn resolve_dir(dir: Dirs, home: Option<&str>, var: Option<&str>) -> (r: Result<String, DirError>)
    ensures
        var_decides(dir, text_of(var)) ==> (r matches Ok(p) && p@ == var->0@),
        !var_decides(dir, text_of(var)) && dir == Dirs::Runtime ==> (r matches Err(
            DirError::MissingVar(v),
        ) && v@ == "XDG_RUNTIME_DIR"@),
        !var_decides(dir, text_of(var)) && dir != Dirs::Runtime && home is None ==> (
        r matches Err(DirError::MissingVar(v)) && v@ == "HOME"@),
        !var_decides(dir, text_of(var)) && dir != Dirs::Runtime && home is Some && !is_absolute(
            home->0@,
        ) ==> (r matches Err(DirError::InvalidPath(p)) && p@ == home->0@),
        !var_decides(dir, text_of(var)) && dir != Dirs::Runtime && home is Some && is_absolute(
            home->0@,
        ) ==> (r matches Ok(p) && p@ == home_based_dir(dir, home->0@)),
{
    if dir != Dirs::Home {
        match var {
            Some(v) => {
                if absolute(v) {
                    return Ok(String::from_str(v));
                }
            },
            None => {},
        }
    }
    if dir == Dirs::Runtime {
        return Err(DirError::MissingVar(String::from_str("XDG_RUNTIME_DIR")));
    }
    let h = match home {
        None => { return Err(DirError::MissingVar(String::from_str("HOME"))); },
        Some(h) => h,
    };
    if !absolute(h) {
        return Err(DirError::InvalidPath(String::from_str(h)));
    }
    if dir == Dirs::Home {
        return Ok(String::from_str(h));
    }
    Ok(join_path(h, home_default_str(dir)))
}

/// The application's own directory under a base directory.
pub fn app_dir(base: &str) -> (r: String)
    ensures
        r@ == path_join(base@, app_name()),
{
    join_path(base, "walrus")
}

/// The directory that holds the IPC socket: the runtime directory when it
/// could be resolved, else the system's temporary directory.
pub fn ipc_dir(runtime: &Result<String, DirError>) -> (r: String)
    ensures
        runtime matches Ok(p) ==> r@ == p@,
        runtime is Err ==> r@ == "/tmp"@,
{
    match runtime {
        Ok(p) => p.clone(),
        Err(_) => String::from_str("/tmp"),
    }
}

/// The socket and lock file paths inside the IPC directory.
pub fn ipc_paths(dir: &str) -> (r: (String, String))
    ensures
        r.0@ == path_join(dir@, "walrus"@),
        r.1@ == path_join(dir@, "walrus.lock"@),
{
    (join_path(dir, "walrus"), join_path(dir, "walrus.lock"))
}

/// The category that excludes `c`: `like` and `dislike` exclude each other.
pub open spec fn opposite_category(c: Seq<char>) -> Option<Seq<char>> {
    if c == "like"@ {
        Some("dislike"@)
    } else if c == "dislike"@ {
        Some("like"@)
    } else {
        None
    }
}

/// The directory of a category under the wallpaper root: its name after a dot.
pub open spec fn category_dir(root: Seq<char>, category: Seq<char>) -> Seq<char> {
    path_join(root, "."@ + category)
}

/// What linking the current wallpaper into a category takes: the category's
/// directory, the link to create (mirroring the wallpaper's place below the
/// root) and its target, and the path that, if it exists, puts the wallpaper
/// in the opposite category already.
#[derive(Debug)]
pub struct CategoryLink {
    pub dir: String,
    pub link: String,
    pub target: String,
    pub conflict: Option<String>,
}

/// Plans the link of `current` into `category`; `None` when `current` does not
/// lie below `root`.
pub fn plan_category_link(root: &str, current: &str, category: &str) -> (r: Option<CategoryLink>)
    ensures
        r is None <==> relative_to(root@, current@) is None,
        r matches Some(l) ==> {
            let rel = relative_to(root@, current@)->0;
            &&& l.dir@ == category_dir(root@, category@)
            &&& l.link@ == path_join(category_dir(root@, category@), rel)
            &&& l.target@ == current@
            &&& (l.conflict matches Some(c) ==> opposite_category(category@) matches Some(o)
                && c@ == path_join(category_dir(root@, o), rel))
            &&& (l.conflict is None ==> opposite_category(category@) is None)
        },
{
    let rel = match strip_root(root, current) {
        Some(rel) => rel,
        None => { return None; },
    };
    let name = String::from_str(".").concat(category);
    let dir = join_path(root, name.as_str());
    let link = join_path(dir.as_str(), rel.as_str());
    let other: Option<&str> = if text_eq(category, "like") {
        Some("dislike")
    } else if text_eq(category, "dislike") {
        Some("like")
    } else {
        None
    };
    let conflict = match other {
        Some(o) => {
            let oname = String::from_str(".").concat(o);
            let odir = join_path(root, oname.as_str());
            Some(join_path(odir.as_str(), rel.as_str()))
        },
        None => None,
    };
    Some(CategoryLink { dir, link, target: String::from_str(current), conflict })
}

impl CategoryLink {
    /// Whether to create the link, given whether the conflict path is the
    /// wallpaper itself (checked only when there is a conflict path): a
    /// wallpaper already in the opposite category is not linked again.
    pub fn should_link(&self, already_in_opposite: bool) -> (r: bool)
        ensures
            r == !(self.conflict is Some && already_in_opposite),
    {
        match &self.conflict {
            Some(_) => !already_in_opposite,
            None => true,
        }
    }
}

} // verus!
