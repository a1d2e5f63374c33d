//! The test case builder: materializes one `TestCase` per selected
//! requirement and permutation assignment, requirements outermost, in the
//! deterministic orders that selection and expansion fix.

use vstd::prelude::*;

use crate::expand::expand;
use crate::expand::expand_spec;
use crate::selection::select;
use crate::selection::select_spec;
use crate::types::clone_assignment;
use crate::types::clone_builder;
use crate::types::clone_requirement;
use crate::types::Requirement;
use crate::types::RequirementView;
use crate::types::TestCase;
use crate::types::TestCaseView;
use crate::types::TestCasesBuilder;
use crate::types::TestCasesBuilderView;

verus! {

/// The row of test cases for one requirement: one per assignment, in
/// assignment order.
pub open spec fn cases_for(
    r: RequirementView,
    assigns: Seq<Seq<(Seq<char>, Seq<char>)>>,
    b: TestCasesBuilderView,
) -> Seq<TestCaseView>
    decreases assigns.len(),
{
    if assigns.len() == 0 {
        Seq::<TestCaseView>::empty()
    } else {
        cases_for(r, assigns.drop_last(), b).push(
            TestCaseView {
                requirement: r,
                builder_used: b,
                selected_permutation: assigns.last(),
            },
        )
    }
}

/// The rows of all selected requirements, in selection order.
pub open spec fn cases_for_all(
    sel: Seq<RequirementView>,
    assigns: Seq<Seq<(Seq<char>, Seq<char>)>>,
    b: TestCasesBuilderView,
) -> Seq<TestCaseView>
    decreases sel.len(),
{
    if sel.len() == 0 {
        Seq::<TestCaseView>::empty()
    } else {
        cases_for_all(sel.drop_last(), assigns, b) + cases_for(sel.last(), assigns, b)
    }
}

/// What building returns: every selected requirement crossed with every
/// expanded assignment, each pair materialized as one test case.
pub open spec fn build_spec(
    catalog: Seq<RequirementView>,
    b: TestCasesBuilderView,
) -> Seq<TestCaseView> {
    cases_for_all(select_spec(catalog, b.set), expand_spec(b.permutations), b)
}

proof fn lemma_cases_for_len(
    r: RequirementView,
    assigns: Seq<Seq<(Seq<char>, Seq<char>)>>,
    b: TestCasesBuilderView,
)
    ensures
        cases_for(r, assigns, b).len() == assigns.len(),
    decreases assigns.len(),
{
    if assigns.len() > 0 {
        lemma_cases_for_len(r, assigns.drop_last(), b);
    }
}

proof fn lemma_cases_for_all_len(
    sel: Seq<RequirementView>,
    assigns: Seq<Seq<(Seq<char>, Seq<char>)>>,
    b: TestCasesBuilderView,
)
    ensures
        cases_for_all(sel, assigns, b).len() == sel.len() * assigns.len(),
    decreases sel.len(),
{
    if sel.len() > 0 {
        lemma_cases_for_all_len(sel.drop_last(), assigns, b);
        lemma_cases_for_len(sel.last(), assigns, b);
        assert((sel.len() - 1) * assigns.len() + assigns.len() == sel.len() * assigns.len())
            by (nonlinear_arith);
    }
}

/// The materialization count law: building yields exactly
/// |selection| * |assignments| test cases.
pub proof fn lemma_materialization_count(catalog: Seq<RequirementView>, b: TestCasesBuilderView)
    ensures
        build_spec(catalog, b).len() == select_spec(catalog, b.set).len() * expand_spec(
            b.permutations,
        ).len(),
{
    lemma_cases_for_all_len(select_spec(catalog, b.set), expand_spec(b.permutations), b);
}

/// Materializes the test cases for a catalog and a builder specification:
/// selects, expands, and emits one test case per pair, copying the
/// requirement, the builder and the assignment into each.
pub fn build(catalog: &Vec<Requirement>, builder: &TestCasesBuilder) -> (res: Vec<TestCase>)
    ensures
        res.deep_view() == build_spec(catalog.deep_view(), builder.deep_view()),
        res.deep_view().len() == select_spec(catalog.deep_view(), builder.deep_view().set).len()
            * expand_spec(builder.deep_view().permutations).len(),
{
    let ghost cv = catalog.deep_view();
    let ghost bv = builder.deep_view();
    let selected = select(catalog, &builder.set);
    let assigns = expand(&builder.permutations);
    let ghost selv = selected.deep_view();
    let ghost asgv = assigns.deep_view();
    let mut res: Vec<TestCase> = Vec::new();
    let mut i: usize = 0;
    while i < selected.len()
        invariant
            i <= selected.len(),
            selv == selected.deep_view(),
            asgv == assigns.deep_view(),
            bv == builder.deep_view(),
            res.deep_view() == cases_for_all(selv.take(i as int), asgv, bv),
        decreases selected.len() - i,
    {
        let ghost row_start = res.deep_view();
        let mut j: usize = 0;
        while j < assigns.len()
            invariant
                j <= assigns.len(),
                i < selected.len(),
                selv == selected.deep_view(),
                asgv == assigns.deep_view(),
                bv == builder.deep_view(),
                row_start == cases_for_all(selv.take(i as int), asgv, bv),
                res.deep_view() == row_start + cases_for(
                    selv[i as int],
                    asgv.take(j as int),
                    bv,
                ),
            decreases assigns.len() - j,
        {
            let ghost before = res.deep_view();
            let case = TestCase {
                requirement: clone_requirement(&selected[i]),
                builder_used: clone_builder(builder),
                selected_permutation: clone_assignment(&assigns[j]),
            };
            proof {
                assert(selv[i as int] == selected@[i as int].deep_view());
                assert(asgv[j as int] == assigns@[j as int].deep_view());
                assert(case.deep_view() == TestCaseView {
                    requirement: selv[i as int],
                    builder_used: bv,
                    selected_permutation: asgv[j as int],
                });
            }
            res.push(case);
            proof {
                assert(asgv.take(j + 1 as int).drop_last() =~= asgv.take(j as int));
                assert(asgv.take(j + 1 as int).last() == asgv[j as int]);
                assert(res.deep_view() =~= before.push(
                    TestCaseView {
                        requirement: selv[i as int],
                        builder_used: bv,
                        selected_permutation: asgv[j as int],
                    },
                ));
            }
            j += 1;
        }
        proof {
            assert(asgv.take(assigns@.len() as int) =~= asgv);
            assert(selv.take(i + 1 as int).drop_last() =~= selv.take(i as int));
            assert(selv.take(i + 1 as int).last() == selv[i as int]);
        }
        i += 1;
    }
    proof {
        assert(selv.take(selected@.len() as int) =~= selv);
        lemma_materialization_count(cv, bv);
    }
    res
}

} // verus!
