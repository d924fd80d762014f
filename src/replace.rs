//! Naming for the atomic replacement of a file: the new contents go to a
//! sibling file first, which is then renamed over the original.
use vstd::prelude::*;
use vstd::string::StringExecFns;

verus! {

/// The suffix that marks the sibling file.
pub open spec fn temp_suffix() -> Seq<char> {
    ".tmp"@
}

/// The name of the sibling file that stands in for `file_name` while it is
/// replaced: the same name with `.tmp` after it.
pub fn temp_file_name(file_name: &str) -> (r: String)
    ensures
        r@ == file_name@ + temp_suffix(),
{
    let mut name = file_name.to_owned();
    name.append(".tmp");
    name
}

} // verus!
