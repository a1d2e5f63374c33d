//! The selection engine: folds an ordered list of include / exclude steps
//! over the requirement catalog to produce the selected subset, kept in
//! catalog order.

use vstd::pervasive::VecAdditionalExecFns;
use vstd::prelude::*;

use crate::filter::filter_matches;
use crate::types::clone_requirement;
use crate::types::FilterView;
use crate::types::Requirement;
use crate::types::RequirementView;
use crate::types::SetSteps;
use crate::types::SetStepsView;

verus! {

/// The indices of the catalog entries that a filter matches.
pub open spec fn matching_indices(catalog: Seq<RequirementView>, f: FilterView) -> Set<int> {
    Set::new(|i: int| 0 <= i < catalog.len() && filter_matches(f, catalog[i]))
}

/// The selection (as a set of catalog indices) after an ordered list of
/// steps: starting from the empty selection, `Include` unions the matching
/// indices in and `Exclude` subtracts them, strictly in order.
pub open spec fn selected_after(catalog: Seq<RequirementView>, steps: Seq<SetStepsView>) -> Set<
    int,
>
    decreases steps.len(),
{
    if steps.len() == 0 {
        Set::<int>::empty()
    } else {
        let prev = selected_after(catalog, steps.drop_last());
        match steps.last() {
            SetStepsView::Include(f) => prev.union(matching_indices(catalog, f)),
            SetStepsView::Exclude(f) => prev.difference(matching_indices(catalog, f)),
        }
    }
}

/// The first `n` catalog entries whose index lies in `sel`, in catalog
/// order.
pub open spec fn selected_prefix(
    catalog: Seq<RequirementView>,
    sel: Set<int>,
    n: int,
) -> Seq<RequirementView>
    decreases n,
{
    if n <= 0 {
        Seq::<RequirementView>::empty()
    } else if sel.contains(n - 1) {
        selected_prefix(catalog, sel, n - 1).push(catalog[n - 1])
    } else {
        selected_prefix(catalog, sel, n - 1)
    }
}

/// What selection returns: the selected requirements, in catalog order.
pub open spec fn select_spec(
    catalog: Seq<RequirementView>,
    steps: Seq<SetStepsView>,
) -> Seq<RequirementView> {
    selected_prefix(catalog, selected_after(catalog, steps), catalog.len() as int)
}

/// Applies the steps in order over the catalog and returns the selected
/// requirements, in catalog order. An empty step list selects nothing.
pub fn select(catalog: &Vec<Requirement>, steps: &Vec<SetSteps>) -> (res: Vec<Requirement>)
    ensures
        res.deep_view() == select_spec(catalog.deep_view(), steps.deep_view()),
{
    let ghost cv = catalog.deep_view();
    let ghost sv = steps.deep_view();
    let mut flags: Vec<bool> = Vec::new();
    let mut i: usize = 0;
    while i < catalog.len()
        invariant
            i <= catalog.len(),
            flags@.len() == i,
            forall|k: int| 0 <= k < i ==> flags@[k] == false,
        decreases catalog.len() - i,
    {
        flags.push(false);
        i += 1;
    }
    let mut s: usize = 0;
    while s < steps.len()
        invariant
            s <= steps.len(),
            cv == catalog.deep_view(),
            sv == steps.deep_view(),
            flags@.len() == cv.len(),
            forall|k: int|
                0 <= k < cv.len() ==> #[trigger] flags@[k] == selected_after(
                    cv,
                    sv.take(s as int),
                ).contains(k),
        decreases steps.len() - s,
    {
        let ghost prev = selected_after(cv, sv.take(s as int));
        proof {
            assert(sv[s as int] == steps@[s as int].deep_view());
        }
        match &steps[s] {
            SetSteps::Include(f) => {
                let ghost fv = f.deep_view();
                let mut j: usize = 0;
                while j < catalog.len()
                    invariant
                        j <= catalog.len(),
                        cv == catalog.deep_view(),
                        flags@.len() == cv.len(),
                        fv == f.deep_view(),
                        forall|k: int|
                            0 <= k < j ==> #[trigger] flags@[k] == (prev.contains(k)
                                || filter_matches(fv, cv[k])),
                        forall|k: int|
                            j <= k < cv.len() ==> #[trigger] flags@[k] == prev.contains(k),
                    decreases catalog.len() - j,
                {
                    proof {
                        assert(cv[j as int] == catalog@[j as int].deep_view());
                    }
                    if f.matches(&catalog[j]) {
                        flags.set(j, true);
                    }
                    j += 1;
                }
                proof {
                    assert(sv.take(s + 1 as int).drop_last() =~= sv.take(s as int));
                    assert(sv.take(s + 1 as int).last() == sv[s as int]);
                    assert(selected_after(cv, sv.take(s + 1 as int)) =~= prev.union(
                        matching_indices(cv, fv),
                    ));
                }
            },
            SetSteps::Exclude(f) => {
                let ghost fv = f.deep_view();
                let mut j: usize = 0;
                while j < catalog.len()
                    invariant
                        j <= catalog.len(),
                        cv == catalog.deep_view(),
                        flags@.len() == cv.len(),
                        fv == f.deep_view(),
                        forall|k: int|
                            0 <= k < j ==> #[trigger] flags@[k] == (prev.contains(k)
                                && !filter_matches(fv, cv[k])),
                        forall|k: int|
                            j <= k < cv.len() ==> #[trigger] flags@[k] == prev.contains(k),
                    decreases catalog.len() - j,
                {
                    proof {
                        assert(cv[j as int] == catalog@[j as int].deep_view());
                    }
                    if f.matches(&catalog[j]) {
                        flags.set(j, false);
                    }
                    j += 1;
                }
                proof {
                    assert(sv.take(s + 1 as int).drop_last() =~= sv.take(s as int));
                    assert(sv.take(s + 1 as int).last() == sv[s as int]);
                    assert(selected_after(cv, sv.take(s + 1 as int)) =~= prev.difference(
                        matching_indices(cv, fv),
                    ));
                }
            },
        }
        s += 1;
    }
    let ghost sel = selected_after(cv, sv);
    proof {
        assert(sv.take(steps@.len() as int) =~= sv);
    }
    let mut res: Vec<Requirement> = Vec::new();
    let mut k: usize = 0;
    while k < catalog.len()
        invariant
            k <= catalog.len(),
            cv == catalog.deep_view(),
            flags@.len() == cv.len(),
            forall|t: int| 0 <= t < cv.len() ==> #[trigger] flags@[t] == sel.contains(t),
            res.deep_view() == selected_prefix(cv, sel, k as int),
        decreases catalog.len() - k,
    {
        if flags[k] {
            let ghost rdv = res.deep_view();
            let picked = clone_requirement(&catalog[k]);
            proof {
                assert(picked.deep_view() == cv[k as int]);
            }
            res.push(picked);
            proof {
                assert(res.deep_view() =~= rdv.push(cv[k as int]));
            }
        }
        k += 1;
    }
    res
}

/// Selection is sequential, not commutative: when some catalog entry
/// matches both filters, include-then-exclude and exclude-then-include
/// produce different selections — the entry survives only the second.
pub proof fn lemma_selection_order_matters(
    catalog: Seq<RequirementView>,
    a: FilterView,
    b: FilterView,
    i: int,
)
    requires
        0 <= i < catalog.len(),
        filter_matches(a, catalog[i]),
        filter_matches(b, catalog[i]),
    ensures
        selected_after(catalog, seq![SetStepsView::Include(a), SetStepsView::Exclude(b)])
            != selected_after(catalog, seq![SetStepsView::Exclude(b), SetStepsView::Include(a)]),
{
    let s1 = seq![SetStepsView::Include(a), SetStepsView::Exclude(b)];
    let s2 = seq![SetStepsView::Exclude(b), SetStepsView::Include(a)];
    let r1 = selected_after(catalog, s1);
    let r2 = selected_after(catalog, s2);
    assert(s1.drop_last() =~= seq![SetStepsView::Include(a)]);
    assert(seq![SetStepsView::Include(a)].drop_last() =~= Seq::<SetStepsView>::empty());
    assert(s2.drop_last() =~= seq![SetStepsView::Exclude(b)]);
    assert(seq![SetStepsView::Exclude(b)].drop_last() =~= Seq::<SetStepsView>::empty());
    assert(!r1.contains(i));
    assert(r2.contains(i));
    assert(r1 != r2);
}

} // verus!
