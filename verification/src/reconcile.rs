//! The reconciliation matcher: compares locally derived issues against a
//! snapshot of the remote tracker and classifies each local issue as
//! missing, matching, or matching with differences.
//!
//! The remote snapshot is consumed as plain values (`GithubIssue` holds the
//! labels, title and optional body that the matcher reads); fetching it is
//! an adapter's concern outside this crate.

use vstd::prelude::*;

use crate::filter::contains_string;
use crate::types::clone_local_issue;
use crate::types::clone_string_vec;
use crate::types::LocalIssue;
use crate::types::LocalIssueView;

verus! {

/// A remote tracker issue, reduced to the fields the matcher reads.
pub struct GithubIssue {
    pub labels: Vec<String>,
    pub title: String,
    pub body: Option<String>,
}

pub struct GithubIssueView {
    pub labels: Seq<Seq<char>>,
    pub title: Seq<char>,
    pub body: Option<Seq<char>>,
}

impl DeepView for GithubIssue {
    type V = GithubIssueView;

    open spec fn deep_view(&self) -> GithubIssueView {
        GithubIssueView {
            labels: self.labels.deep_view(),
            title: self.title.deep_view(),
            body: self.body.deep_view(),
        }
    }
}

/// How a local issue relates to the remote snapshot.
#[derive(PartialEq, Eq, Structural, Debug, Clone, Copy)]
pub enum IssueMatchType {
    /// No equivalent remote issue was found.
    Missing,
    /// A matching remote issue was found, with identical title and body.
    Match,
    /// A matching remote issue was found, but with some differences.
    MatchedWithDiff,
}

impl DeepView for IssueMatchType {
    type V = IssueMatchType;

    open spec fn deep_view(&self) -> IssueMatchType {
        *self
    }
}

/// The reconciliation record for one local issue: the candidate remote
/// issue, if any, and the classification.
pub struct GithubIssueMatches {
    pub local_issue: LocalIssue,
    pub github_issue: Option<GithubIssue>,
    pub match_type: IssueMatchType,
}

pub struct GithubIssueMatchesView {
    pub local_issue: LocalIssueView,
    pub github_issue: Option<GithubIssueView>,
    pub match_type: IssueMatchType,
}

impl DeepView for GithubIssueMatches {
    type V = GithubIssueMatchesView;

    open spec fn deep_view(&self) -> GithubIssueMatchesView {
        GithubIssueMatchesView {
            local_issue: self.local_issue.deep_view(),
            github_issue: self.github_issue.deep_view(),
            match_type: self.match_type,
        }
    }
}

/// A remote issue is a candidate match when its label set is a superset of
/// the local issue's labels (it may carry extra labels).
pub open spec fn candidate_match(l: LocalIssueView, g: GithubIssueView) -> bool {
    forall|i: int| 0 <= i < l.labels.len() ==> g.labels.contains(#[trigger] l.labels[i])
}

/// A remote body that is absent counts as the empty string.
pub open spec fn remote_body_text(g: GithubIssueView) -> Seq<char> {
    match g.body {
        Some(b) => b,
        None => Seq::<char>::empty(),
    }
}

/// A candidate is identical when the titles are equal and the local body
/// equals the remote body; label differences are not inspected here.
pub open spec fn identical_match(l: LocalIssueView, g: GithubIssueView) -> bool {
    l.title == g.title && l.text_body == remote_body_text(g)
}

/// The index of the first candidate match in the remote snapshot, if any.
pub open spec fn first_candidate(l: LocalIssueView, gs: Seq<GithubIssueView>) -> Option<int>
    decreases gs.len(),
{
    if gs.len() == 0 {
        None
    } else if candidate_match(l, gs.first()) {
        Some(0)
    } else {
        match first_candidate(l, gs.drop_first()) {
            Some(i) => Some(i + 1),
            None => None,
        }
    }
}

/// How one local issue is classified against the remote snapshot: no
/// candidate means missing; otherwise the first candidate is reported,
/// identical or with differences.
pub open spec fn classify(l: LocalIssueView, gs: Seq<GithubIssueView>) -> GithubIssueMatchesView {
    match first_candidate(l, gs) {
        None => GithubIssueMatchesView {
            local_issue: l,
            github_issue: None,
            match_type: IssueMatchType::Missing,
        },
        Some(i) => GithubIssueMatchesView {
            local_issue: l,
            github_issue: Some(gs[i]),
            match_type: if identical_match(l, gs[i]) {
                IssueMatchType::Match
            } else {
                IssueMatchType::MatchedWithDiff
            },
        },
    }
}

/// What reconciliation returns: one record per local issue, in input
/// order.
pub open spec fn reconcile_spec(
    ls: Seq<LocalIssueView>,
    gs: Seq<GithubIssueView>,
) -> Seq<GithubIssueMatchesView> {
    Seq::new(ls.len(), |i: int| classify(ls[i], gs))
}

/// A found index with no earlier candidate is the first candidate.
proof fn lemma_first_candidate_found(l: LocalIssueView, gs: Seq<GithubIssueView>, j: int)
    requires
        0 <= j < gs.len(),
        candidate_match(l, gs[j]),
        forall|k: int| 0 <= k < j ==> !candidate_match(l, gs[k]),
    ensures
        first_candidate(l, gs) == Some(j),
    decreases j,
{
    if candidate_match(l, gs.first()) {
        assert(j == 0);
    } else {
        assert(gs.drop_first()[j - 1] == gs[j]);
        assert(forall|k: int| 0 <= k < j - 1 ==> gs.drop_first()[k] == gs[k + 1]);
        lemma_first_candidate_found(l, gs.drop_first(), j - 1);
    }
}

/// With no candidate anywhere, there is no first candidate.
proof fn lemma_first_candidate_none(l: LocalIssueView, gs: Seq<GithubIssueView>)
    requires
        forall|k: int| 0 <= k < gs.len() ==> !candidate_match(l, gs[k]),
    ensures
        first_candidate(l, gs) is None,
    decreases gs.len(),
{
    if gs.len() > 0 {
        assert(forall|k: int| 0 <= k < gs.drop_first().len() ==> gs.drop_first()[k] == gs[k + 1]);
        lemma_first_candidate_none(l, gs.drop_first());
    }
}

/// Reproduces a remote issue, preserving its deep view.
pub fn clone_github_issue(g: &GithubIssue) -> (res: GithubIssue)
    ensures
        res.deep_view() == g.deep_view(),
{
    GithubIssue {
        labels: clone_string_vec(&g.labels),
        title: g.title.clone(),
        body: match &g.body {
            Some(b) => Some(b.clone()),
            None => None,
        },
    }
}

/// Whether the remote issue's labels are a superset of the local issue's
/// labels: every local label must appear remotely, extra remote labels are
/// allowed.
pub fn is_local_issue_match_github_issue(
    local_issue: &LocalIssue,
    github_issue: &GithubIssue,
) -> (res: bool)
    ensures
        res == candidate_match(local_issue.deep_view(), github_issue.deep_view()),
{
    let mut i: usize = 0;
    while i < local_issue.labels.len()
        invariant
            i <= local_issue.labels.len(),
            forall|k: int|
                0 <= k < i ==> github_issue.labels.deep_view().contains(
                    #[trigger] local_issue.labels.deep_view()[k],
                ),
        decreases local_issue.labels.len() - i,
    {
        if !contains_string(&github_issue.labels, &local_issue.labels[i]) {
            proof {
                assert(local_issue.labels.deep_view()[i as int] == local_issue.labels@[i as int]@);
                assert(local_issue.deep_view().labels[i as int] == local_issue.labels@[i as int]@);
                assert(!candidate_match(local_issue.deep_view(), github_issue.deep_view()));
            }
            return false;
        }
        proof {
            assert(local_issue.labels.deep_view()[i as int] == local_issue.labels@[i as int]@);
        }
        i += 1;
    }
    true
}

/// Whether a candidate remote issue is identical to the local issue:
/// titles equal and bodies equal, an absent remote body counting as empty.
pub fn is_local_issue_identical_github_issue(
    local_issue: &LocalIssue,
    github_issue: &GithubIssue,
) -> (res: bool)
    ensures
        res == identical_match(local_issue.deep_view(), github_issue.deep_view()),
{
    let title_match = local_issue.title == github_issue.title;
    let empty = String::new();
    let body_match = match &github_issue.body {
        Some(b) => local_issue.text_body == *b,
        None => local_issue.text_body == empty,
    };
    title_match && body_match
}

/// Reconciles the local issues against the remote snapshot: one record per
/// local issue, in input order, classified by the first candidate found in
/// snapshot order.
pub fn get_local_issues_matches(
    local_issues: &Vec<LocalIssue>,
    github_issues: &Vec<GithubIssue>,
) -> (res: Vec<GithubIssueMatches>)
    ensures
        res.deep_view() == reconcile_spec(local_issues.deep_view(), github_issues.deep_view()),
        res.len() == local_issues.len(),
{
    let ghost lv = local_issues.deep_view();
    let ghost gv = github_issues.deep_view();
    let mut res: Vec<GithubIssueMatches> = Vec::new();
    let mut i: usize = 0;
    while i < local_issues.len()
        invariant
            i <= local_issues.len(),
            lv == local_issues.deep_view(),
            gv == github_issues.deep_view(),
            res@.len() == i,
            forall|k: int| 0 <= k < i ==> #[trigger] res.deep_view()[k] == classify(lv[k], gv),
        decreases local_issues.len() - i,
    {
        let ghost before = res.deep_view();
        proof {
            assert(lv[i as int] == local_issues@[i as int].deep_view());
        }
        let mut j: usize = 0;
        let mut found: Option<usize> = None;
        while j < github_issues.len()
            invariant
                j <= github_issues.len(),
                i < local_issues.len(),
                lv == local_issues.deep_view(),
                gv == github_issues.deep_view(),
                match found {
                    Some(f) => f < j && candidate_match(lv[i as int], gv[f as int]) && forall|
                        k: int,
                    | 0 <= k < f ==> !candidate_match(lv[i as int], gv[k]),
                    None => forall|k: int| 0 <= k < j ==> !candidate_match(lv[i as int], gv[k]),
                },
            decreases github_issues.len() - j,
        {
            proof {
                assert(gv[j as int] == github_issues@[j as int].deep_view());
            }
            if found.is_none() && is_local_issue_match_github_issue(
                &local_issues[i],
                &github_issues[j],
            ) {
                found = Some(j);
            }
            j += 1;
        }
        let record = match found {
            Some(f) => {
                proof {
                    lemma_first_candidate_found(lv[i as int], gv, f as int);
                    assert(gv[f as int] == github_issues@[f as int].deep_view());
                }
                let identical = is_local_issue_identical_github_issue(
                    &local_issues[i],
                    &github_issues[f],
                );
                GithubIssueMatches {
                    local_issue: clone_local_issue(&local_issues[i]),
                    github_issue: Some(clone_github_issue(&github_issues[f])),
                    match_type: if identical {
                        IssueMatchType::Match
                    } else {
                        IssueMatchType::MatchedWithDiff
                    },
                }
            },
            None => {
                proof {
                    lemma_first_candidate_none(lv[i as int], gv);
                }
                GithubIssueMatches {
                    local_issue: clone_local_issue(&local_issues[i]),
                    github_issue: None,
                    match_type: IssueMatchType::Missing,
                }
            },
        };
        proof {
            assert(record.deep_view() == classify(lv[i as int], gv));
        }
        res.push(record);
        proof {
            assert(res.deep_view() =~= before.push(record.deep_view()));
        }
        i += 1;
    }
    proof {
        assert(res.deep_view() =~= reconcile_spec(lv, gv));
    }
    res
}

/// Reconciliation completeness: every local issue produces exactly one
/// record, in input order, carrying that local issue.
pub proof fn lemma_reconciliation_completeness(
    ls: Seq<LocalIssueView>,
    gs: Seq<GithubIssueView>,
)
    ensures
        reconcile_spec(ls, gs).len() == ls.len(),
        forall|i: int| 0 <= i < ls.len() ==> #[trigger] reconcile_spec(ls, gs)[i].local_issue
            == ls[i],
{
}

/// The classification written as three disjoint predicates over the
/// inputs.
pub open spec fn classified_missing(l: LocalIssueView, gs: Seq<GithubIssueView>) -> bool {
    first_candidate(l, gs) is None
}

pub open spec fn classified_identical(l: LocalIssueView, gs: Seq<GithubIssueView>) -> bool {
    match first_candidate(l, gs) {
        Some(i) => identical_match(l, gs[i]),
        None => false,
    }
}

pub open spec fn classified_with_diff(l: LocalIssueView, gs: Seq<GithubIssueView>) -> bool {
    match first_candidate(l, gs) {
        Some(i) => !identical_match(l, gs[i]),
        None => false,
    }
}

/// Classification exhaustiveness and exclusivity: for every pair of a
/// local issue and a remote snapshot, exactly one of the three
/// classifications holds, and `classify` reports exactly that one.
pub proof fn lemma_classification_exclusive(l: LocalIssueView, gs: Seq<GithubIssueView>)
    ensures
        classified_missing(l, gs) || classified_identical(l, gs) || classified_with_diff(l, gs),
        !(classified_missing(l, gs) && classified_identical(l, gs)),
        !(classified_missing(l, gs) && classified_with_diff(l, gs)),
        !(classified_identical(l, gs) && classified_with_diff(l, gs)),
        (classify(l, gs).match_type == IssueMatchType::Missing) <==> classified_missing(l, gs),
        (classify(l, gs).match_type == IssueMatchType::Match) <==> classified_identical(l, gs),
        (classify(l, gs).match_type == IssueMatchType::MatchedWithDiff) <==> classified_with_diff(
            l,
            gs,
        ),
{
}

} // verus!
