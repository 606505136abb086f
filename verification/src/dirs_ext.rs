use vstd::prelude::*;

verus! {

/// Relies on dirs' `home_dir`: the platform's home directory, an
/// environment-dependent value of which nothing can be promised,
/// converted to a plain string.
#[verifier::external_body]
pub(crate) fn home_dir_string() -> Option<String> {
    dirs::home_dir().map(|p| p.to_string_lossy().to_string())
}

} // verus!
