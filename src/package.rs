//! Where a test file sits among packages: which directory must be importable, and the
//! dotted module name the file is loaded under.
//!
//! A directory is a package when it holds an `__init__.py` file; a file is a module when
//! its extension is `py`. The host looks at the file system and hands over, for the test
//! file and each directory above it (nearest first), its path, its stem, and whether it
//! is a module.

use vstd::prelude::*;
use vstd::string::*;
use crate::text::{has_suffix, ends_with};

verus! {

/// The test file, or one directory above it.
#[derive(Debug, Clone)]
pub struct PathPart {
    /// The full path
    pub path: String,
    /// The last component, without its extension
    pub stem: String,
    /// A package directory, or a source file
    pub is_module: bool,
}

/// A file name whose extension is `py`.
pub open spec fn has_py_extension(name: Seq<char>) -> bool {
    has_suffix(name, ".py"@) && name.len() > 3
}

/// Checks if a file is a module: a directory containing an `__init__.py` file, or a
/// file whose name (`file_name`, its last path component) has the extension `py`.
pub fn is_python_module(is_dir: bool, has_init: bool, file_name: &str) -> (r: bool)
    ensures
        r == if is_dir {
            has_init
        } else {
            has_py_extension(file_name@)
        },
{
    if is_dir {
        has_init
    } else {
        ends_with(file_name, ".py") && file_name.unicode_len() > 3
    }
}

/// The dotted module name of `parts[0]`: the stems of the leading run of modules,
/// outermost first, joined by `.`; empty when `parts[0]` is no module.
pub open spec fn module_name_of(parts: Seq<PathPart>) -> Seq<char>
    decreases parts.len(),
{
    if parts.len() == 0 || !parts[0].is_module {
        Seq::empty()
    } else {
        let outer = module_name_of(parts.skip(1));
        if outer.len() == 0 {
            parts[0].stem@
        } else {
            outer + "."@ + parts[0].stem@
        }
    }
}

fn module_name_from(parts: &Vec<PathPart>, i: usize) -> (r: String)
    requires
        i <= parts@.len(),
    ensures
        r@ == module_name_of(parts@.skip(i as int)),
    decreases parts@.len() - i,
{
    if i == parts.len() || !parts[i].is_module {
        return String::new();
    }
    proof {
        assert(parts@.skip(i as int).skip(1) =~= parts@.skip(i + 1));
    }
    let mut name = module_name_from(parts, i + 1);
    if name.as_str().unicode_len() != 0 {
        name.append(".");
    }
    name.append(parts[i].stem.as_str());
    name
}

/// Calculates the module name of a file from the file and the directories above it,
/// nearest first. For `birds/eggs/test.py`, with `birds` and `eggs` packages, it is
/// `birds.eggs.test`.
pub fn calculate_module_name(parts: &Vec<PathPart>) -> (r: String)
    ensures
        r@ == module_name_of(parts@),
{
    proof {
        assert(parts@.skip(0) =~= parts@);
    }
    module_name_from(parts, 0)
}

/// The index of the first directory, from `parts[i]` upward, that is no package; `None`
/// when every one of them is a package.
pub open spec fn first_plain_dir(parts: Seq<PathPart>, i: int) -> Option<int>
    decreases parts.len() - i,
{
    if i < 0 || i >= parts.len() {
        None
    } else if !parts[i].is_module {
        Some(i)
    } else {
        first_plain_dir(parts, i + 1)
    }
}

/// The directory to put at the front of the module search path so that the file, and
/// the packages it belongs to, import by their dotted names: the lowest directory above
/// the file that is no package. `None` when every directory above the file is a package.
pub fn add_parent_module_to_path(parts: &Vec<PathPart>) -> (r: Option<String>)
    ensures
        r.is_some() == first_plain_dir(parts@, 1).is_some(),
        r.is_some() ==> r.unwrap()@ == parts@[first_plain_dir(parts@, 1).unwrap()].path@,
{
    let mut i: usize = 1;
    while i < parts.len()
        invariant
            1 <= i,
            i <= parts@.len() ==> first_plain_dir(parts@, 1) == first_plain_dir(parts@, i as int),
            i > parts@.len() ==> first_plain_dir(parts@, 1) is None,
        decreases parts.len() - i,
    {
        if !parts[i].is_module {
            return Some(parts[i].path.clone());
        }
        i = i + 1;
    }
    None
}

} // verus!
