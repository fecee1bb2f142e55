//! The skeleton of a new package.
use vstd::prelude::*;

use crate::paths::{join, join_path, views};

verus! {

/// Opens the build script of a new package, before the driver's crate name.
pub const SCRIPT_OPEN: &'static str = "fn main()\n{\n\tlet mut config = ";

/// Follows the driver's crate name where the configuration is loaded.
pub const SCRIPT_LOAD: &'static str = "::config_from_env();\n\t";

/// Closes the build script of a new package.
pub const SCRIPT_CLOSE: &'static str = "::build(&mut config);\n}";

/// The build script of a new package that builds through the crate `driver`.
pub open spec fn build_script(driver: Seq<char>) -> Seq<char> {
    SCRIPT_OPEN@ + driver + SCRIPT_LOAD@ + driver + SCRIPT_CLOSE@
}

/// The ignore list of a new package.
pub const IGNORE_LIST: &'static str = "/target\n**/*.rs.bk";

/// Directories and files to create for a new package, in order.
pub struct Skeleton {
    pub dirs: Vec<String>,
    /// Each file's path and contents.
    pub files: Vec<(String, String)>,
}

/// The directories of a new package `name`, under the current directory: the
/// package itself, then its header and source directories.
pub open spec fn skeleton_dirs(name: Seq<char>) -> Seq<Seq<char>> {
    seq![join("."@, name), join(name, "include"@), join(name, "source"@)]
}

/// The files of a new package `name`: an empty manifest, the ignore list and
/// a build script that builds through the crate `driver`.
pub open spec fn skeleton_files(name: Seq<char>, driver: Seq<char>) -> Seq<(Seq<char>, Seq<char>)> {
    seq![
        (join(join("."@, name), "Cargo.toml"@), Seq::empty()),
        (join(join("."@, name), ".gitignore"@), IGNORE_LIST@),
        (join(join("."@, name), "build.rs"@), build_script(driver)),
    ]
}

/// What to create for a new package named `name` whose build script builds
/// through the crate `driver`.
pub fn skeleton(name: &str, driver: &str) -> (r: Skeleton)
    ensures
        views(r.dirs@) == skeleton_dirs(name@),
        r.files@.map_values(|p: (String, String)| (p.0@, p.1@)) == skeleton_files(name@, driver@),
{
    let package = join_path(".", name);
    let mut dirs: Vec<String> = Vec::new();
    dirs.push(join_path(".", name));
    dirs.push(join_path(name, "include"));
    dirs.push(join_path(name, "source"));
    let mut files: Vec<(String, String)> = Vec::new();
    files.push((join_path(package.as_str(), "Cargo.toml"), String::new()));
    files.push((join_path(package.as_str(), ".gitignore"), IGNORE_LIST.to_string()));
    let mut script = SCRIPT_OPEN.to_string();
    script.append(driver);
    script.append(SCRIPT_LOAD);
    script.append(driver);
    script.append(SCRIPT_CLOSE);
    files.push((join_path(package.as_str(), "build.rs"), script));
    assert(views(dirs@) =~= skeleton_dirs(name@));
    assert(files@.map_values(|p: (String, String)| (p.0@, p.1@)) =~= skeleton_files(name@, driver@));
    Skeleton { dirs, files }
}

} // verus!
