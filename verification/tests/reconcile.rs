use yatm_v2::reconcile::get_local_issues_matches;
use yatm_v2::reconcile::GithubIssue;
use yatm_v2::reconcile::IssueMatchType;
use yatm_v2::types::LocalIssue;

fn local(labels: &[&str], title: &str, text_body: &str) -> LocalIssue {
    LocalIssue {
        labels: labels.iter().map(|l| l.to_string()).collect(),
        title: title.to_string(),
        text_body: text_body.to_string(),
    }
}

fn remote(labels: &[&str], title: &str, body: Option<&str>) -> GithubIssue {
    GithubIssue {
        labels: labels.iter().map(|l| l.to_string()).collect(),
        title: title.to_string(),
        body: body.map(|b| b.to_string()),
    }
}

#[test]
fn matches() {
    let local_issues = vec![
        local(&["label1"], "title", "text_body"),
        local(&["label2"], "title2", "text_body2"),
        local(&["label3"], "identical", "text_body3"),
    ];
    let github_issues = vec![
        remote(&["label3"], "identical", Some("text_body3")),
        remote(&["label4"], "Extra", Some("")),
    ];
    let result = get_local_issues_matches(&local_issues, &github_issues);

    let mut missing_count: i32 = 0;
    let mut match_count: i32 = 0;
    let mut match_diff_count: i32 = 0;
    for imatch in result.iter() {
        match imatch.match_type {
            IssueMatchType::Match => match_count += 1,
            IssueMatchType::MatchedWithDiff => match_diff_count += 1,
            IssueMatchType::Missing => missing_count += 1,
        }
    }
    // The first two local issues have no label-superset candidate; the
    // third matches the first remote issue exactly.
    assert_eq!(missing_count, 2);
    assert_eq!(match_count, 1);
    assert_eq!(match_diff_count, 0);
    assert_eq!(result[0].match_type, IssueMatchType::Missing);
    assert_eq!(result[1].match_type, IssueMatchType::Missing);
    assert_eq!(result[2].match_type, IssueMatchType::Match);
}

#[test]
fn one_record_per_local_issue_in_order() {
    let local_issues = vec![
        local(&["a"], "first", "b1"),
        local(&["a"], "second", "b2"),
        local(&["z"], "third", "b3"),
    ];
    let github_issues = vec![remote(&["a", "extra"], "first", Some("b1"))];
    let result = get_local_issues_matches(&local_issues, &github_issues);
    assert_eq!(result.len(), 3);
    assert_eq!(result[0].local_issue.title, "first");
    assert_eq!(result[1].local_issue.title, "second");
    assert_eq!(result[2].local_issue.title, "third");
}

#[test]
fn superset_candidate_with_different_title_is_diff() {
    let local_issues = vec![local(&["a"], "title", "body")];
    let github_issues = vec![remote(&["a", "b"], "other title", Some("body"))];
    let result = get_local_issues_matches(&local_issues, &github_issues);
    assert_eq!(result.len(), 1);
    assert_eq!(result[0].match_type, IssueMatchType::MatchedWithDiff);
    assert_eq!(
        result[0].github_issue.as_ref().unwrap().title,
        "other title"
    );
}

#[test]
fn different_body_is_diff() {
    let local_issues = vec![local(&["a"], "title", "body")];
    let github_issues = vec![remote(&["a"], "title", Some("another body"))];
    let result = get_local_issues_matches(&local_issues, &github_issues);
    assert_eq!(result[0].match_type, IssueMatchType::MatchedWithDiff);
}

#[test]
fn absent_remote_body_counts_as_empty() {
    let local_issues = vec![local(&["a"], "title", "")];
    let github_issues = vec![remote(&["a"], "title", None)];
    let result = get_local_issues_matches(&local_issues, &github_issues);
    assert_eq!(result[0].match_type, IssueMatchType::Match);
}

#[test]
fn absent_remote_body_differs_from_nonempty_local_body() {
    let local_issues = vec![local(&["a"], "title", "something")];
    let github_issues = vec![remote(&["a"], "title", None)];
    let result = get_local_issues_matches(&local_issues, &github_issues);
    assert_eq!(result[0].match_type, IssueMatchType::MatchedWithDiff);
}

#[test]
fn first_candidate_in_snapshot_order_wins() {
    let local_issues = vec![local(&["a"], "title", "body")];
    let github_issues = vec![
        remote(&["a"], "first candidate", Some("x")),
        remote(&["a"], "title", Some("body")),
    ];
    let result = get_local_issues_matches(&local_issues, &github_issues);
    // The scan stops at the first label-superset candidate even though a
    // later remote issue would have been identical.
    assert_eq!(result[0].match_type, IssueMatchType::MatchedWithDiff);
    assert_eq!(
        result[0].github_issue.as_ref().unwrap().title,
        "first candidate"
    );
}

#[test]
fn local_issue_without_labels_matches_any_remote() {
    let local_issues = vec![local(&[], "title", "body")];
    let github_issues = vec![remote(&["whatever"], "title", Some("body"))];
    let result = get_local_issues_matches(&local_issues, &github_issues);
    assert_eq!(result[0].match_type, IssueMatchType::Match);
}

#[test]
fn empty_remote_snapshot_leaves_all_missing() {
    let local_issues = vec![local(&["a"], "title", "body"), local(&[], "t2", "b2")];
    let github_issues: Vec<GithubIssue> = Vec::new();
    let result = get_local_issues_matches(&local_issues, &github_issues);
    assert_eq!(result.len(), 2);
    assert_eq!(result[0].match_type, IssueMatchType::Missing);
    assert!(result[0].github_issue.is_none());
    assert_eq!(result[1].match_type, IssueMatchType::Missing);
}
