//! Catalog validation: requirement names must be unique within a catalog.
//! The check runs at load time, before any selection.

use vstd::prelude::*;

use crate::types::Requirement;
use crate::types::RequirementView;

verus! {

/// The error surfaced when a catalog breaks its invariant.
#[derive(PartialEq, Eq, Structural, Debug, Clone, Copy)]
pub enum CatalogError {
    /// Two requirements in the catalog carry the same name.
    DuplicateRequirementName,
}

/// Whether every requirement name occurs only once in the catalog.
pub open spec fn names_unique(catalog: Seq<RequirementView>) -> bool {
    forall|i: int, j: int|
        0 <= i < j < catalog.len() ==> #[trigger] catalog[i].name != #[trigger] catalog[j].name
}

/// Validates a catalog before selection: succeeds exactly when no two
/// requirements share a name, and reports the duplicate otherwise.
pub fn validate_catalog(catalog: &Vec<Requirement>) -> (res: Result<(), CatalogError>)
    ensures
        res is Ok <==> names_unique(catalog.deep_view()),
        res is Err ==> res == Err::<(), CatalogError>(CatalogError::DuplicateRequirementName),
{
    let ghost cv = catalog.deep_view();
    let mut i: usize = 0;
    while i < catalog.len()
        invariant
            i <= catalog.len(),
            cv == catalog.deep_view(),
            forall|x: int, y: int|
                0 <= x < y < cv.len() && x < i ==> #[trigger] cv[x].name != #[trigger] cv[y].name,
        decreases catalog.len() - i,
    {
        let mut j: usize = i + 1;
        while j < catalog.len()
            invariant
                i < j,
                j <= catalog.len(),
                i < catalog.len(),
                cv == catalog.deep_view(),
                forall|y: int| i < y < j ==> cv[i as int].name != #[trigger] cv[y].name,
            decreases catalog.len() - j,
        {
            proof {
                assert(cv[i as int] == catalog@[i as int].deep_view());
                assert(cv[j as int] == catalog@[j as int].deep_view());
            }
            if catalog[i].name == catalog[j].name {
                proof {
                    assert(cv[i as int].name == catalog@[i as int].name@);
                    assert(cv[j as int].name == catalog@[j as int].name@);
                    assert(cv[i as int].name == cv[j as int].name);
                    assert(!names_unique(cv));
                }
                return Err(CatalogError::DuplicateRequirementName);
            }
            j += 1;
        }
        i += 1;
    }
    Ok(())
}

} // verus!
