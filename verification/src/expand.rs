//! The permutation expander: turns the builder's named variable
//! declarations into the full cross product of concrete assignments, in a
//! deterministic odometer order (variables in declaration order, the last
//! declared variable varying fastest).

use vstd::prelude::*;

use crate::types::clone_assignment;

verus! {

/// Every assignment of `base` extended with one binding of `name` to each
/// of `values`, in value order.
pub open spec fn tag_assign(
    a: Seq<(Seq<char>, Seq<char>)>,
    name: Seq<char>,
    values: Seq<Seq<char>>,
) -> Seq<Seq<(Seq<char>, Seq<char>)>>
    decreases values.len(),
{
    if values.len() == 0 {
        Seq::<Seq<(Seq<char>, Seq<char>)>>::empty()
    } else {
        tag_assign(a, name, values.drop_last()).push(a.push((name, values.last())))
    }
}

/// The cross product of the assignments in `base` with one variable:
/// assignments keep their order, and within one assignment the values come
/// in list order.
pub open spec fn cross_with(
    base: Seq<Seq<(Seq<char>, Seq<char>)>>,
    name: Seq<char>,
    values: Seq<Seq<char>>,
) -> Seq<Seq<(Seq<char>, Seq<char>)>>
    decreases base.len(),
{
    if base.len() == 0 {
        Seq::<Seq<(Seq<char>, Seq<char>)>>::empty()
    } else {
        cross_with(base.drop_last(), name, values) + tag_assign(base.last(), name, values)
    }
}

/// What expansion returns: the cross product of all declared variables.
/// No variables yield exactly one empty assignment.
pub open spec fn expand_spec(perms: Seq<(Seq<char>, Seq<Seq<char>>)>) -> Seq<
    Seq<(Seq<char>, Seq<char>)>,
>
    decreases perms.len(),
{
    if perms.len() == 0 {
        seq![Seq::<(Seq<char>, Seq<char>)>::empty()]
    } else {
        cross_with(expand_spec(perms.drop_last()), perms.last().0, perms.last().1)
    }
}

/// How many assignments expansion owes: the product of the value-list
/// lengths, so one for no variables and zero as soon as one list is empty.
pub open spec fn assignment_count(perms: Seq<(Seq<char>, Seq<Seq<char>>)>) -> nat
    decreases perms.len(),
{
    if perms.len() == 0 {
        1
    } else {
        assignment_count(perms.drop_last()) * perms.last().1.len()
    }
}

proof fn lemma_tag_assign_len(a: Seq<(Seq<char>, Seq<char>)>, name: Seq<char>, values: Seq<Seq<char>>)
    ensures
        tag_assign(a, name, values).len() == values.len(),
    decreases values.len(),
{
    if values.len() > 0 {
        lemma_tag_assign_len(a, name, values.drop_last());
    }
}

proof fn lemma_cross_with_len(
    base: Seq<Seq<(Seq<char>, Seq<char>)>>,
    name: Seq<char>,
    values: Seq<Seq<char>>,
)
    ensures
        cross_with(base, name, values).len() == base.len() * values.len(),
    decreases base.len(),
{
    if base.len() > 0 {
        lemma_cross_with_len(base.drop_last(), name, values);
        lemma_tag_assign_len(base.last(), name, values);
        assert((base.len() - 1) * values.len() + values.len() == base.len() * values.len())
            by (nonlinear_arith);
    }
}

/// The number of expanded assignments is the product of the value-list
/// lengths.
pub proof fn lemma_expand_count(perms: Seq<(Seq<char>, Seq<Seq<char>>)>)
    ensures
        expand_spec(perms).len() == assignment_count(perms),
    decreases perms.len(),
{
    if perms.len() > 0 {
        lemma_expand_count(perms.drop_last());
        lemma_cross_with_len(expand_spec(perms.drop_last()), perms.last().0, perms.last().1);
    }
}

/// Expanding no variables yields exactly one assignment: the empty one.
pub proof fn lemma_expand_no_variables()
    ensures
        expand_spec(Seq::<(Seq<char>, Seq<Seq<char>>)>::empty()) == seq![
            Seq::<(Seq<char>, Seq<char>)>::empty(),
        ],
{
}

/// A variable declared with an empty value list absorbs the whole cross
/// product: no assignment is produced.
pub proof fn lemma_expand_empty_domain(perms: Seq<(Seq<char>, Seq<Seq<char>>)>, i: int)
    requires
        0 <= i < perms.len(),
        perms[i].1.len() == 0,
    ensures
        expand_spec(perms).len() == 0,
    decreases perms.len(),
{
    lemma_expand_count(perms);
    lemma_assignment_count_zero(perms, i);
}

proof fn lemma_assignment_count_zero(perms: Seq<(Seq<char>, Seq<Seq<char>>)>, i: int)
    requires
        0 <= i < perms.len(),
        perms[i].1.len() == 0,
    ensures
        assignment_count(perms) == 0,
    decreases perms.len(),
{
    if i == perms.len() - 1 {
        assert(perms.last().1.len() == 0);
        assert(assignment_count(perms) == assignment_count(perms.drop_last()) * 0);
    } else {
        assert(perms.drop_last()[i] == perms[i]);
        lemma_assignment_count_zero(perms.drop_last(), i);
        assert(assignment_count(perms) == 0 * perms.last().1.len());
    }
}

/// Expands the declared variables into every concrete assignment, one
/// vector of bindings per assignment, in deterministic order.
pub fn expand(perms: &Vec<(String, Vec<String>)>) -> (res: Vec<Vec<(String, String)>>)
    ensures
        res.deep_view() == expand_spec(perms.deep_view()),
{
    let ghost pv = perms.deep_view();
    let mut acc: Vec<Vec<(String, String)>> = Vec::new();
    let empty_assign: Vec<(String, String)> = Vec::new();
    proof {
        assert(empty_assign.deep_view() =~= Seq::<(Seq<char>, Seq<char>)>::empty());
    }
    acc.push(empty_assign);
    proof {
        assert(acc.deep_view() =~= seq![Seq::<(Seq<char>, Seq<char>)>::empty()]);
        assert(pv.take(0).len() == 0);
        assert(acc.deep_view() == expand_spec(pv.take(0)));
    }
    let mut i: usize = 0;
    while i < perms.len()
        invariant
            i <= perms.len(),
            pv == perms.deep_view(),
            acc.deep_view() == expand_spec(pv.take(i as int)),
        decreases perms.len() - i,
    {
        let ghost base = acc.deep_view();
        let ghost name_v = pv[i as int].0;
        let ghost values_v = pv[i as int].1;
        proof {
            assert(pv[i as int] == perms@[i as int].deep_view());
        }
        let mut next: Vec<Vec<(String, String)>> = Vec::new();
        let mut b: usize = 0;
        while b < acc.len()
            invariant
                b <= acc.len(),
                pv == perms.deep_view(),
                i < perms.len(),
                base == acc.deep_view(),
                name_v == pv[i as int].0,
                values_v == pv[i as int].1,
                next.deep_view() == cross_with(base.take(b as int), name_v, values_v),
            decreases acc.len() - b,
        {
            let ghost block_start = next.deep_view();
            let mut v: usize = 0;
            while v < perms[i].1.len()
                invariant
                    v as int <= values_v.len(),
                    b < acc.len(),
                    pv == perms.deep_view(),
                    i < perms.len(),
                    base == acc.deep_view(),
                    name_v == pv[i as int].0,
                    values_v == pv[i as int].1,
                    block_start == cross_with(base.take(b as int), name_v, values_v),
                    next.deep_view() == block_start + tag_assign(
                        base[b as int],
                        name_v,
                        values_v.take(v as int),
                    ),
                decreases values_v.len() - v,
            {
                let ghost before = next.deep_view();
                let mut a = clone_assignment(&acc[b]);
                proof {
                    assert(a.deep_view() == base[b as int]);
                    assert(pv[i as int] == perms@[i as int].deep_view());
                    assert(values_v[v as int] == perms@[i as int].1@[v as int]@);
                }
                a.push((perms[i].0.clone(), perms[i].1[v].clone()));
                proof {
                    assert(a.deep_view() =~= base[b as int].push((name_v, values_v[v as int])));
                }
                next.push(a);
                proof {
                    assert(next.deep_view() =~= before.push(
                        base[b as int].push((name_v, values_v[v as int])),
                    ));
                    assert(values_v.take(v + 1 as int).drop_last() =~= values_v.take(v as int));
                    assert(values_v.take(v + 1 as int).last() == values_v[v as int]);
                    assert(next.deep_view() =~= block_start + tag_assign(
                        base[b as int],
                        name_v,
                        values_v.take(v + 1 as int),
                    ));
                }
                v += 1;
            }
            proof {
                assert(values_v.take(values_v.len() as int) =~= values_v);
                assert(base.take(b + 1 as int).drop_last() =~= base.take(b as int));
                assert(base.take(b + 1 as int).last() == base[b as int]);
                assert(next.deep_view() =~= cross_with(base.take(b + 1 as int), name_v, values_v));
            }
            b += 1;
        }
        proof {
            assert(base.take(acc@.len() as int) =~= base);
            assert(pv.take(i + 1 as int).drop_last() =~= pv.take(i as int));
            assert(pv.take(i + 1 as int).last() == pv[i as int]);
        }
        acc = next;
        i += 1;
    }
    proof {
        assert(pv.take(perms@.len() as int) =~= pv);
    }
    acc
}

} // verus!
