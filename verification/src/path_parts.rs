use vstd::prelude::*;

verus! {

/// `Path::file_name` of std: the last part of a path as text, if the path has one.
/// How a path falls into parts depends on the system, so nothing is promised of the
/// result.
#[verifier::external_body]
pub(crate) fn file_name_of(path: &str) -> (name: Option<String>) {
    std::path::Path::new(path).file_name().map(|name| name.to_string_lossy().into_owned())
}

/// `Path::parent` of std: the path without its last part, if it has one to lose. How
/// a path falls into parts depends on the system, so nothing is promised of the result.
#[verifier::external_body]
pub(crate) fn parent_of(path: &str) -> (parent: Option<String>) {
    std::path::Path::new(path).parent().map(|parent| parent.to_string_lossy().into_owned())
}

} // verus!
