//! Which data file paths the server accepts.
use vstd::prelude::*;
use crate::store::StoreError;

verus! {

/// One component of a path, as far as the check below cares.
#[derive(Clone, Copy, Debug, PartialEq, Eq, Structural)]
pub enum PathPart {
    /// `..`
    ParentDir,
    /// Any other component (root, prefix, `.`, or a name).
    Other,
}

/// The message of the refusal of a path that climbs out with `..`.
pub open spec fn parent_dir_message() -> Seq<char> {
    "data file path must not contain '..' components"@
}

/// Some component is `..`.
pub open spec fn has_parent_dir(parts: Seq<PathPart>) -> bool {
    exists|i: int| 0 <= i < parts.len() && #[trigger] parts[i] == PathPart::ParentDir
}

/// Refuse a data file path with a `..` component, so that the configured path
/// cannot climb out of its directory; any other path passes.
pub fn check_no_parent_dir(parts: &Vec<PathPart>) -> (r: Result<(), StoreError>)
    ensures
        has_parent_dir(parts@) ==> (r matches Err(StoreError::Validation(m)) && m@
            == parent_dir_message()),
        !has_parent_dir(parts@) ==> r is Ok,
{
    let mut i: usize = 0;
    while i < parts.len()
        invariant
            i <= parts.len(),
            forall|j: int| 0 <= j < i ==> #[trigger] parts@[j] != PathPart::ParentDir,
        decreases parts.len() - i,
    {
        if parts[i] == PathPart::ParentDir {
            return Err(StoreError::Validation(
                "data file path must not contain '..' components".to_owned(),
            ));
        }
        i = i + 1;
    }
    Ok(())
}

} // verus!
