//! The filter engine: evaluates a label / name predicate with optional
//! negation against a requirement.

use vstd::prelude::*;

use crate::types::Filter;
use crate::types::FilterView;
use crate::types::Requirement;
use crate::types::RequirementView;

verus! {

/// Whether the label `l` is among an optional list of labels; an absent
/// list holds nothing.
pub open spec fn label_in(labels: Option<Seq<Seq<char>>>, l: Seq<char>) -> bool {
    match labels {
        Some(ls) => ls.contains(l),
        None => false,
    }
}

/// Whether every label of `all` appears among the requirement's labels.
pub open spec fn all_labels_present(all: Seq<Seq<char>>, r: RequirementView) -> bool {
    forall|i: int| 0 <= i < all.len() ==> label_in(r.labels, #[trigger] all[i])
}

/// What a filter means: the requirement must carry all of `all_labels`
/// (when present) and be named by `any_names` (when present); absent
/// predicates are vacuously true, and `negate` inverts the outcome.
pub open spec fn filter_matches(f: FilterView, r: RequirementView) -> bool {
    let labels_ok = match f.all_labels {
        Some(all) => all_labels_present(all, r),
        None => true,
    };
    let names_ok = match f.any_names {
        Some(ns) => ns.contains(r.name),
        None => true,
    };
    (labels_ok && names_ok) != f.negate
}

/// Whether a vector of strings holds the string `s`.
pub fn contains_string(v: &Vec<String>, s: &String) -> (res: bool)
    ensures
        res == v.deep_view().contains(s@),
{
    let mut i: usize = 0;
    while i < v.len()
        invariant
            i <= v.len(),
            forall|k: int| 0 <= k < i ==> v.deep_view()[k] != s@,
        decreases v.len() - i,
    {
        if v[i] == *s {
            proof {
                assert(v.deep_view()[i as int] == v@[i as int]@);
            }
            return true;
        }
        proof {
            assert(v.deep_view()[i as int] == v@[i as int]@);
        }
        i += 1;
    }
    proof {
        assert(forall|k: int| 0 <= k < v.deep_view().len() ==> v.deep_view()[k] != s@);
    }
    false
}

/// Whether the requirement carries the label `l`; a requirement without a
/// label list carries none.
fn requirement_has_label(r: &Requirement, l: &String) -> (res: bool)
    ensures
        res == label_in(r.deep_view().labels, l@),
{
    match &r.labels {
        Some(ls) => contains_string(ls, l),
        None => false,
    }
}

/// Whether every label of `all` is carried by the requirement.
fn has_all_labels(all: &Vec<String>, r: &Requirement) -> (res: bool)
    ensures
        res == all_labels_present(all.deep_view(), r.deep_view()),
{
    let mut i: usize = 0;
    while i < all.len()
        invariant
            i <= all.len(),
            forall|k: int|
                0 <= k < i ==> label_in(r.deep_view().labels, #[trigger] all.deep_view()[k]),
        decreases all.len() - i,
    {
        if !requirement_has_label(r, &all[i]) {
            proof {
                assert(!label_in(r.deep_view().labels, all.deep_view()[i as int]));
            }
            return false;
        }
        i += 1;
    }
    true
}

impl Filter {
    /// Evaluates this filter against a requirement; total and pure.
    pub fn matches(&self, r: &Requirement) -> (res: bool)
        ensures
            res == filter_matches(self.deep_view(), r.deep_view()),
    {
        let labels_ok = match &self.all_labels {
            Some(all) => has_all_labels(all, r),
            None => true,
        };
        let names_ok = match &self.any_names {
            Some(ns) => contains_string(ns, &r.name),
            None => true,
        };
        let base = labels_ok && names_ok;
        if self.negate {
            !base
        } else {
            base
        }
    }
}

/// A filter with both predicates absent matches every requirement, and
/// fails every requirement when negated.
pub proof fn lemma_filter_totality(f: FilterView, r: RequirementView)
    requires
        f.all_labels is None,
        f.any_names is None,
    ensures
        filter_matches(f, r) == !f.negate,
{
}

} // verus!
