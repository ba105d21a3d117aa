use vstd::prelude::*;
use crate::error::BuildError;
use crate::text::{join_path, join_path_spec};

verus! {

/// An include directory as seen when looking for a header: its path, if the
/// path is valid text, and whether the header is present in it.
#[derive(Debug, Clone, PartialEq, Eq)]
pub struct HeaderCandidate {
    pub dir: Option<String>,
    pub has_header: bool,
}

/// `index` is the first candidate that holds the header.
pub open spec fn is_first_with_header(candidates: Seq<HeaderCandidate>, index: int) -> bool {
    &&& 0 <= index < candidates.len()
    &&& candidates[index].has_header
    &&& forall|j: int| 0 <= j < index ==> !(#[trigger] candidates[j]).has_header
}

/// `index` is the only candidate that holds the header.
pub open spec fn is_only_with_header(candidates: Seq<HeaderCandidate>, index: int) -> bool {
    &&& 0 <= index < candidates.len()
    &&& candidates[index].has_header
    &&& forall|j: int| 0 <= j < candidates.len() && j != index ==> !(#[trigger] candidates[j]).has_header
}

/// No candidate holds the header.
pub open spec fn none_with_header(candidates: Seq<HeaderCandidate>) -> bool {
    forall|j: int| 0 <= j < candidates.len() ==> !(#[trigger] candidates[j]).has_header
}

/// Finds the header in the first directory, in the given order, that holds
/// it, and returns that directory joined with the header's name. Fails when
/// no directory holds it, or when that directory's path is not valid text.
pub fn locate_header(header: &str, candidates: &Vec<HeaderCandidate>) -> (r: Result<String, BuildError>)
    ensures
        none_with_header(candidates@) ==> (r matches Err(BuildError::HeaderNotFound { header: h })
            && h@ == header@),
        forall|i: int| #[trigger]
            is_first_with_header(candidates@, i) ==> match candidates@[i].dir {
                Some(dir) => r matches Ok(path) && path@ == join_path_spec(dir@, header@),
                None => r matches Err(BuildError::NonUnicodePath { header: h }) && h@ == header@,
            },
        forall|i: int| #[trigger]
            is_only_with_header(candidates@, i) && candidates@[i].dir is Some ==> (r matches Ok(path)
                && path@ == join_path_spec(candidates@[i].dir->Some_0@, header@)),
{
    let mut i: usize = 0;
    while i < candidates.len()
        invariant
            0 <= i <= candidates@.len(),
            forall|j: int| 0 <= j < i ==> !(#[trigger] candidates@[j]).has_header,
        decreases candidates@.len() - i,
    {
        let candidate = &candidates[i];
        if candidate.has_header {
            assert(is_first_with_header(candidates@, i as int));
            assert forall|k: int| #[trigger] is_only_with_header(candidates@, k) implies k == i by {
                if k != i {
                    assert(!candidates@[i as int].has_header);
                }
            }
            assert forall|k: int| #[trigger] is_first_with_header(candidates@, k) implies k == i by {
                if k < i {
                } else if k > i {
                    assert(!candidates@[i as int].has_header);
                }
            }
            return match &candidate.dir {
                Some(dir) => Ok(join_path(dir.as_str(), header)),
                None => Err(BuildError::NonUnicodePath { header: String::from_str(header) }),
            };
        }
        i = i + 1;
    }
    Err(BuildError::HeaderNotFound { header: String::from_str(header) })
}

} // verus!
