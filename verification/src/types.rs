//! The data model: requirements with their steps, the filter / selection
//! DSL, the builder specification, and the materialized test case.
//!
//! Every type has a deep view made of `Seq`, `Option` and plain values, so
//! that contracts can speak of mathematical values rather than of `Vec` and
//! `String`. Explicit copy functions (`clone_*`) reproduce a value and are
//! verified to preserve its deep view.

use vstd::prelude::*;

verus! {

/// A numbered text fragment, e.g. one line of terminal output.
pub struct Terminal {
    pub number: u64,
    pub text: String,
}

pub struct TerminalView {
    pub number: u64,
    pub text: Seq<char>,
}

impl DeepView for Terminal {
    type V = TerminalView;

    open spec fn deep_view(&self) -> TerminalView {
        TerminalView { number: self.number, text: self.text.deep_view() }
    }
}

/// What is performed at a step.
pub enum Action {
    StdIn(Terminal),
    Image(String),
    Describe(String),
}

pub enum ActionView {
    StdIn(TerminalView),
    Image(Seq<char>),
    Describe(Seq<char>),
}

impl DeepView for Action {
    type V = ActionView;

    open spec fn deep_view(&self) -> ActionView {
        match self {
            Action::StdIn(t) => ActionView::StdIn(t.deep_view()),
            Action::Image(s) => ActionView::Image(s.deep_view()),
            Action::Describe(s) => ActionView::Describe(s.deep_view()),
        }
    }
}

/// What is asserted at a step.
pub enum Expect {
    StdOut(Terminal),
}

pub enum ExpectView {
    StdOut(TerminalView),
}

impl DeepView for Expect {
    type V = ExpectView;

    open spec fn deep_view(&self) -> ExpectView {
        match self {
            Expect::StdOut(t) => ExpectView::StdOut(t.deep_view()),
        }
    }
}

/// One sequential step of a requirement: the actions performed and the
/// outcomes expected.
pub struct Step {
    pub action: Vec<Action>,
    pub expect: Vec<Expect>,
}

pub struct StepView {
    pub action: Seq<ActionView>,
    pub expect: Seq<ExpectView>,
}

impl DeepView for Step {
    type V = StepView;

    open spec fn deep_view(&self) -> StepView {
        StepView { action: self.action.deep_view(), expect: self.expect.deep_view() }
    }
}

/// A named, described unit of testable behavior with ordered steps.
pub struct Requirement {
    pub name: String,
    pub description: String,
    pub labels: Option<Vec<String>>,
    pub links: Option<Vec<String>>,
    pub steps: Vec<Step>,
}

pub struct RequirementView {
    pub name: Seq<char>,
    pub description: Seq<char>,
    pub labels: Option<Seq<Seq<char>>>,
    pub links: Option<Seq<Seq<char>>>,
    pub steps: Seq<StepView>,
}

impl DeepView for Requirement {
    type V = RequirementView;

    open spec fn deep_view(&self) -> RequirementView {
        RequirementView {
            name: self.name.deep_view(),
            description: self.description.deep_view(),
            labels: self.labels.deep_view(),
            links: self.links.deep_view(),
            steps: self.steps.deep_view(),
        }
    }
}

/// A label / name predicate with optional negation, used to select
/// requirements.
pub struct Filter {
    pub all_labels: Option<Vec<String>>,
    pub any_names: Option<Vec<String>>,
    pub negate: bool,
}

pub struct FilterView {
    pub all_labels: Option<Seq<Seq<char>>>,
    pub any_names: Option<Seq<Seq<char>>>,
    pub negate: bool,
}

impl DeepView for Filter {
    type V = FilterView;

    open spec fn deep_view(&self) -> FilterView {
        FilterView {
            all_labels: self.all_labels.deep_view(),
            any_names: self.any_names.deep_view(),
            negate: self.negate,
        }
    }
}

/// One ordered operation of the selection DSL, applied to an accumulating
/// selection.
pub enum SetSteps {
    Include(Filter),
    Exclude(Filter),
}

pub enum SetStepsView {
    Include(FilterView),
    Exclude(FilterView),
}

impl DeepView for SetSteps {
    type V = SetStepsView;

    open spec fn deep_view(&self) -> SetStepsView {
        match self {
            SetSteps::Include(f) => SetStepsView::Include(f.deep_view()),
            SetSteps::Exclude(f) => SetStepsView::Exclude(f.deep_view()),
        }
    }
}

/// The builder specification: the selection pipeline and the permutation
/// variable declarations, in declaration order with unique variable names.
pub struct TestCasesBuilder {
    pub name: String,
    pub description: String,
    pub labels: Option<Vec<String>>,
    pub set: Vec<SetSteps>,
    pub permutations: Vec<(String, Vec<String>)>,
    pub version: u64,
}

pub struct TestCasesBuilderView {
    pub name: Seq<char>,
    pub description: Seq<char>,
    pub labels: Option<Seq<Seq<char>>>,
    pub set: Seq<SetStepsView>,
    pub permutations: Seq<(Seq<char>, Seq<Seq<char>>)>,
    pub version: u64,
}

impl DeepView for TestCasesBuilder {
    type V = TestCasesBuilderView;

    open spec fn deep_view(&self) -> TestCasesBuilderView {
        TestCasesBuilderView {
            name: self.name.deep_view(),
            description: self.description.deep_view(),
            labels: self.labels.deep_view(),
            set: self.set.deep_view(),
            permutations: self.permutations.deep_view(),
            version: self.version,
        }
    }
}

/// One materialized test case: the originating requirement, a snapshot of
/// the builder that produced it, and the chosen permutation assignment.
pub struct TestCase {
    pub requirement: Requirement,
    pub builder_used: TestCasesBuilder,
    pub selected_permutation: Vec<(String, String)>,
}

pub struct TestCaseView {
    pub requirement: RequirementView,
    pub builder_used: TestCasesBuilderView,
    pub selected_permutation: Seq<(Seq<char>, Seq<char>)>,
}

impl DeepView for TestCase {
    type V = TestCaseView;

    open spec fn deep_view(&self) -> TestCaseView {
        TestCaseView {
            requirement: self.requirement.deep_view(),
            builder_used: self.builder_used.deep_view(),
            selected_permutation: self.selected_permutation.deep_view(),
        }
    }
}

/// The projection of a requirement into tracker-comparable form.
pub struct LocalIssue {
    pub labels: Vec<String>,
    pub title: String,
    pub text_body: String,
}

pub struct LocalIssueView {
    pub labels: Seq<Seq<char>>,
    pub title: Seq<char>,
    pub text_body: Seq<char>,
}

impl DeepView for LocalIssue {
    type V = LocalIssueView;

    open spec fn deep_view(&self) -> LocalIssueView {
        LocalIssueView {
            labels: self.labels.deep_view(),
            title: self.title.deep_view(),
            text_body: self.text_body.deep_view(),
        }
    }
}

/// Reproduces a vector of strings; the copy has the same view.
pub fn clone_string_vec(v: &Vec<String>) -> (res: Vec<String>)
    ensures
        res@ == v@,
        res.deep_view() == v.deep_view(),
{
    let mut res: Vec<String> = Vec::new();
    let mut i: usize = 0;
    while i < v.len()
        invariant
            i <= v.len(),
            res@ == v@.take(i as int),
        decreases v.len() - i,
    {
        res.push(v[i].clone());
        proof {
            assert(v@.take(i + 1 as int) =~= v@.take(i as int).push(v@[i as int]));
        }
        i += 1;
    }
    proof {
        assert(res@ =~= v@);
        assert(res.deep_view() =~= v.deep_view());
    }
    res
}

/// Reproduces an optional vector of strings, preserving its deep view.
pub fn clone_opt_string_vec(v: &Option<Vec<String>>) -> (res: Option<Vec<String>>)
    ensures
        res.deep_view() == v.deep_view(),
{
    match v {
        Some(ls) => Some(clone_string_vec(ls)),
        None => None,
    }
}

/// Reproduces a terminal fragment; the copy equals the original.
pub fn clone_terminal(t: &Terminal) -> (res: Terminal)
    ensures
        res == *t,
{
    Terminal { number: t.number, text: t.text.clone() }
}

/// Reproduces an action; the copy equals the original.
pub fn clone_action(a: &Action) -> (res: Action)
    ensures
        res == *a,
{
    match a {
        Action::StdIn(t) => Action::StdIn(clone_terminal(t)),
        Action::Image(s) => Action::Image(s.clone()),
        Action::Describe(s) => Action::Describe(s.clone()),
    }
}

/// Reproduces an expectation; the copy equals the original.
pub fn clone_expect(e: &Expect) -> (res: Expect)
    ensures
        res == *e,
{
    match e {
        Expect::StdOut(t) => Expect::StdOut(clone_terminal(t)),
    }
}

/// Reproduces a step, preserving its deep view.
pub fn clone_step(s: &Step) -> (res: Step)
    ensures
        res.deep_view() == s.deep_view(),
{
    let mut action: Vec<Action> = Vec::new();
    let mut i: usize = 0;
    while i < s.action.len()
        invariant
            i <= s.action.len(),
            action@ == s.action@.take(i as int),
        decreases s.action.len() - i,
    {
        action.push(clone_action(&s.action[i]));
        proof {
            assert(s.action@.take(i + 1 as int) =~= s.action@.take(i as int).push(
                s.action@[i as int],
            ));
        }
        i += 1;
    }
    let mut expect: Vec<Expect> = Vec::new();
    let mut j: usize = 0;
    while j < s.expect.len()
        invariant
            j <= s.expect.len(),
            expect@ == s.expect@.take(j as int),
        decreases s.expect.len() - j,
    {
        expect.push(clone_expect(&s.expect[j]));
        proof {
            assert(s.expect@.take(j + 1 as int) =~= s.expect@.take(j as int).push(
                s.expect@[j as int],
            ));
        }
        j += 1;
    }
    let res = Step { action, expect };
    proof {
        assert(res.action@ =~= s.action@);
        assert(res.expect@ =~= s.expect@);
        assert(res.action.deep_view() =~= s.action.deep_view());
        assert(res.expect.deep_view() =~= s.expect.deep_view());
    }
    res
}

/// Reproduces a requirement, preserving its deep view.
pub fn clone_requirement(r: &Requirement) -> (res: Requirement)
    ensures
        res.deep_view() == r.deep_view(),
{
    let mut steps: Vec<Step> = Vec::new();
    let mut i: usize = 0;
    while i < r.steps.len()
        invariant
            i <= r.steps.len(),
            steps@.len() == i,
            forall|k: int|
                0 <= k < i ==> #[trigger] steps@[k].deep_view() == r.steps@[k].deep_view(),
        decreases r.steps.len() - i,
    {
        steps.push(clone_step(&r.steps[i]));
        i += 1;
    }
    let res = Requirement {
        name: r.name.clone(),
        description: r.description.clone(),
        labels: clone_opt_string_vec(&r.labels),
        links: clone_opt_string_vec(&r.links),
        steps,
    };
    proof {
        assert(res.steps.deep_view() =~= r.steps.deep_view());
    }
    res
}

/// Reproduces a filter, preserving its deep view.
pub fn clone_filter(f: &Filter) -> (res: Filter)
    ensures
        res.deep_view() == f.deep_view(),
{
    Filter {
        all_labels: clone_opt_string_vec(&f.all_labels),
        any_names: clone_opt_string_vec(&f.any_names),
        negate: f.negate,
    }
}

/// Reproduces a selection step, preserving its deep view.
pub fn clone_set_step(s: &SetSteps) -> (res: SetSteps)
    ensures
        res.deep_view() == s.deep_view(),
{
    match s {
        SetSteps::Include(f) => SetSteps::Include(clone_filter(f)),
        SetSteps::Exclude(f) => SetSteps::Exclude(clone_filter(f)),
    }
}

/// Reproduces a permutation assignment, preserving its deep view.
pub fn clone_assignment(a: &Vec<(String, String)>) -> (res: Vec<(String, String)>)
    ensures
        res@ == a@,
        res.deep_view() == a.deep_view(),
{
    let mut res: Vec<(String, String)> = Vec::new();
    let mut i: usize = 0;
    while i < a.len()
        invariant
            i <= a.len(),
            res@ == a@.take(i as int),
        decreases a.len() - i,
    {
        res.push((a[i].0.clone(), a[i].1.clone()));
        proof {
            assert(a@.take(i + 1 as int) =~= a@.take(i as int).push(a@[i as int]));
        }
        i += 1;
    }
    proof {
        assert(res@ =~= a@);
        assert(res.deep_view() =~= a.deep_view());
    }
    res
}

/// Reproduces the permutation variable declarations, preserving their deep
/// view.
pub fn clone_permutations(p: &Vec<(String, Vec<String>)>) -> (res: Vec<(String, Vec<String>)>)
    ensures
        res.deep_view() == p.deep_view(),
{
    let mut res: Vec<(String, Vec<String>)> = Vec::new();
    let mut i: usize = 0;
    while i < p.len()
        invariant
            i <= p.len(),
            res@.len() == i,
            forall|k: int| 0 <= k < i ==> #[trigger] res@[k].deep_view() == p@[k].deep_view(),
        decreases p.len() - i,
    {
        res.push((p[i].0.clone(), clone_string_vec(&p[i].1)));
        i += 1;
    }
    proof {
        assert(res.deep_view() =~= p.deep_view());
    }
    res
}

/// Reproduces a builder specification, preserving its deep view.
pub fn clone_builder(b: &TestCasesBuilder) -> (res: TestCasesBuilder)
    ensures
        res.deep_view() == b.deep_view(),
{
    let mut set: Vec<SetSteps> = Vec::new();
    let mut i: usize = 0;
    while i < b.set.len()
        invariant
            i <= b.set.len(),
            set@.len() == i,
            forall|k: int| 0 <= k < i ==> #[trigger] set@[k].deep_view() == b.set@[k].deep_view(),
        decreases b.set.len() - i,
    {
        set.push(clone_set_step(&b.set[i]));
        i += 1;
    }
    let res = TestCasesBuilder {
        name: b.name.clone(),
        description: b.description.clone(),
        labels: clone_opt_string_vec(&b.labels),
        set,
        permutations: clone_permutations(&b.permutations),
        version: b.version,
    };
    proof {
        assert(res.set.deep_view() =~= b.set.deep_view());
    }
    res
}

/// Reproduces a local issue, preserving its deep view.
pub fn clone_local_issue(l: &LocalIssue) -> (res: LocalIssue)
    ensures
        res.deep_view() == l.deep_view(),
{
    LocalIssue {
        labels: clone_string_vec(&l.labels),
        title: l.title.clone(),
        text_body: l.text_body.clone(),
    }
}

} // verus!
