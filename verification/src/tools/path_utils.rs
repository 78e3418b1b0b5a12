//! Path safety: a path may be used only where it lies within the working
//! directory. Resolving the paths is the application's part; the decision
//! on the resolved paths is here.
use vstd::prelude::*;
use crate::text::{self, starts_with};


verus! {

/// Whether the path `target` lies within the directory `base`, component
/// by component: it is `base` itself, or `base` followed by a separator and
/// more (a base that ends in a separator, such as the root, needs none).
pub open spec fn path_within(target: Seq<char>, base: Seq<char>) -> bool {
    &&& starts_with(target, base)
    &&& (target.len() == base.len() || (base.len() > 0 && base.last() == '/')
        || target[base.len() as int] == '/')
}

/// Whether the resolved path `target` lies within the resolved working
/// directory `base`, compared component by component.
pub fn within_base(base: &str, target: &str) -> (r: bool)
    ensures
        r == path_within(target@, base@),
{
    let t = text::str_chars(target);
    let b = text::str_chars(base);
    if !text::has_prefix(&t, &b) {
        return false;
    }
    if t.len() == b.len() {
        return true;
    }
    if b.len() > 0 && b[b.len() - 1] == '/' {
        return true;
    }
    t[b.len()] == '/'
}

/// The refusal of a path outside the working directory.
pub fn outside_message(path: &str) -> (r: String)
    ensures
        r@ == "Access denied: path is outside the working directory: "@ + path@,
{
    let mut m = text::str_chars("Access denied: path is outside the working directory: ");
    text::append_str(&mut m, path);
    text::chars_to_string(&m)
}

/// Whether the resolved path `target` may be used, or the refusal of the
/// path `path` that resolved to it.
pub fn check_resolved(path: &str, base: &str, target: &str) -> (r: Result<(), String>)
    ensures
        path_within(target@, base@) ==> r is Ok,
        !path_within(target@, base@) ==> (r matches Err(m) && m@
            == "Access denied: path is outside the working directory: "@ + path@),
{
    if within_base(base, target) {
        Ok(())
    } else {
        Err(outside_message(path))
    }
}

/// Where a path was found on disk, once resolved.
pub enum Resolution {
    /// The path exists: its canonical form
    Existing(String),
    /// The path does not exist but its parent does: the parent's canonical
    /// form with the path's file name appended
    InExistingParent(String),
    /// The parent exists but the path has no file name
    NoFileName,
    /// The parent does not exist
    ParentMissing,
    /// The path has no parent
    NoParent,
}

/// Why a path may not be used, by the kind of I/O error it is reported as.
#[derive(Debug)]
pub enum PathError {
    /// The path is malformed
    InvalidInput(String),
    /// The path's parent does not exist
    NotFound(String),
    /// The path lies outside the working directory
    PermissionDenied(String),
}

/// Checks a resolved path: the canonical path where it lies within the
/// working directory `base`, else why it may not be used.
pub fn validate_resolution(path: &str, base: &str, resolution: Resolution) -> (r: Result<String, PathError>)
    ensures
        match resolution {
            Resolution::Existing(t) | Resolution::InExistingParent(t) => if path_within(t@, base@) {
                r matches Ok(p) && p@ == t@
            } else {
                r matches Err(PathError::PermissionDenied(m)) && m@
                    == "Access denied: path is outside the working directory: "@ + path@
            },
            Resolution::NoFileName => r matches Err(PathError::InvalidInput(m)) && m@
                == "Invalid path: no filename component"@,
            Resolution::ParentMissing => r matches Err(PathError::NotFound(m)) && m@
                == "Parent directory does not exist"@,
            Resolution::NoParent => r matches Err(PathError::InvalidInput(m)) && m@ == "Invalid path"@,
        },
{
    let target = match resolution {
        Resolution::Existing(t) => t,
        Resolution::InExistingParent(t) => t,
        Resolution::NoFileName => {
            return Err(PathError::InvalidInput(text::chars_to_string(&text::str_chars("Invalid path: no filename component"))));
        },
        Resolution::ParentMissing => {
            return Err(PathError::NotFound(text::chars_to_string(&text::str_chars("Parent directory does not exist"))));
        },
        Resolution::NoParent => {
            return Err(PathError::InvalidInput(text::chars_to_string(&text::str_chars("Invalid path"))));
        },
    };
    if within_base(base, target.as_str()) {
        Ok(target)
    } else {
        Err(PathError::PermissionDenied(outside_message(path)))
    }
}

} // verus!
