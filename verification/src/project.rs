use vstd::prelude::*;
use vstd::string::StringExecFns;

use crate::strutil::str_eq;

verus! {

/// How a single source file is to be registered as a crate, decided from
/// what the file system says about its path.
pub enum ProjectPlan {
    /// The path does not end in the source extension.
    BadExtension,
    /// The path names no existing file.
    NoSuchFile,
    /// The path cannot be resolved to a directory and a file stem.
    BadPath,
    /// The file is a crate root already: its directory becomes the crate.
    LibRoot,
    /// Any other file: a crate named after the stem, whose root module only
    /// declares the file as a submodule.
    WrappedModule,
}

/// The path carries the source extension.
pub open spec fn spec_is_cairo_ext(extension: Option<&str>) -> bool {
    match extension {
        Some(e) => e@ == "cairo"@,
        None => false,
    }
}

/// The file stem is the crate-root stem `lib`.
pub open spec fn spec_is_lib_stem(stem: Option<&str>) -> bool {
    match stem {
        Some(s) => s@ == "lib"@,
        None => false,
    }
}

/// Decides how to register a single source file, from its extension, whether
/// it exists, and its file stem. The checks apply in that order, and only a
/// stem of `lib` is taken as a crate root.
pub fn plan_single_file_project(
    extension: Option<&str>,
    exists: bool,
    stem: Option<&str>,
) -> (r: ProjectPlan)
    ensures
        !spec_is_cairo_ext(extension) ==> r is BadExtension,
        spec_is_cairo_ext(extension) && !exists ==> r is NoSuchFile,
        spec_is_cairo_ext(extension) && exists && stem is None ==> r is BadPath,
        spec_is_cairo_ext(extension) && exists && spec_is_lib_stem(stem) ==> r is LibRoot,
        (spec_is_cairo_ext(extension) && exists && stem is Some && !spec_is_lib_stem(stem))
            ==> r is WrappedModule,
{
    match extension {
        Some(e) if str_eq(e, "cairo") => {},
        _ => {
            return ProjectPlan::BadExtension;
        },
    }
    if !exists {
        return ProjectPlan::NoSuchFile;
    }
    match stem {
        None => ProjectPlan::BadPath,
        Some(s) => {
            if str_eq(s, "lib") {
                ProjectPlan::LibRoot
            } else {
                ProjectPlan::WrappedModule
            }
        },
    }
}

/// The root-module text that declares a wrapped file as a submodule.
pub fn module_wrapper_decl(stem: &str) -> (r: String)
    ensures
        r@ == "mod "@ + stem@ + ";"@,
{
    let mut s = String::from_str("mod ");
    s.append(stem);
    s.append(";");
    s
}

} // verus!
