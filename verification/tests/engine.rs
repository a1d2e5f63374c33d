use yatm_v2::builder::build;
use yatm_v2::catalog::validate_catalog;
use yatm_v2::catalog::CatalogError;
use yatm_v2::expand::expand;
use yatm_v2::selection::select;
use yatm_v2::types::Filter;
use yatm_v2::types::Requirement;
use yatm_v2::types::SetSteps;
use yatm_v2::types::TestCasesBuilder;

fn strings(items: &[&str]) -> Vec<String> {
    items.iter().map(|s| s.to_string()).collect()
}

fn req(name: &str, labels: &[&str]) -> Requirement {
    Requirement {
        name: name.to_string(),
        description: format!("{} description", name),
        labels: if labels.is_empty() {
            None
        } else {
            Some(strings(labels))
        },
        links: None,
        steps: Vec::new(),
    }
}

fn filter(all_labels: Option<&[&str]>, any_names: Option<&[&str]>, negate: bool) -> Filter {
    Filter {
        all_labels: all_labels.map(strings),
        any_names: any_names.map(strings),
        negate,
    }
}

fn builder_with(set: Vec<SetSteps>, permutations: Vec<(String, Vec<String>)>) -> TestCasesBuilder {
    TestCasesBuilder {
        name: "builder".to_string(),
        description: "description".to_string(),
        labels: Some(strings(&["builder-label"])),
        set,
        permutations,
        version: 1,
    }
}

#[test]
fn empty_filter_matches_everything() {
    let f = filter(None, None, false);
    assert!(f.matches(&req("anything", &["x"])));
    assert!(f.matches(&req("other", &[])));
}

#[test]
fn empty_negated_filter_matches_nothing() {
    let f = filter(None, None, true);
    assert!(!f.matches(&req("anything", &["x"])));
    assert!(!f.matches(&req("other", &[])));
}

#[test]
fn all_labels_must_each_be_present() {
    let f = filter(Some(&["a", "b"]), None, false);
    assert!(f.matches(&req("r", &["b", "c", "a"])));
    assert!(!f.matches(&req("r", &["a", "c"])));
}

#[test]
fn missing_requirement_labels_fail_unless_all_labels_empty() {
    let with_labels = filter(Some(&["a"]), None, false);
    assert!(!with_labels.matches(&req("r", &[])));
    let empty_labels = filter(Some(&[]), None, false);
    assert!(empty_labels.matches(&req("r", &[])));
}

#[test]
fn any_names_requires_membership() {
    let f = filter(None, Some(&["alpha", "beta"]), false);
    assert!(f.matches(&req("alpha", &[])));
    assert!(!f.matches(&req("gamma", &[])));
}

#[test]
fn negate_inverts_a_positive_match() {
    let f = filter(Some(&["a"]), Some(&["r"]), true);
    assert!(!f.matches(&req("r", &["a"])));
    assert!(f.matches(&req("r", &["b"])));
}

#[test]
fn empty_steps_select_nothing() {
    let catalog = vec![req("a", &["x"]), req("b", &["y"])];
    let selected = select(&catalog, &Vec::new());
    assert_eq!(selected.len(), 0);
}

#[test]
fn include_then_exclude_differs_from_exclude_then_include() {
    // The requirement "both" matches filter a (label "a") and filter b
    // (label "b"), so the two orders must produce different selections.
    let catalog = vec![req("both", &["a", "b"]), req("only-a", &["a"])];
    let a = || SetSteps::Include(filter(Some(&["a"]), None, false));
    let b = || SetSteps::Exclude(filter(Some(&["b"]), None, false));
    let include_first = select(&catalog, &vec![a(), b()]);
    let exclude_first = select(&catalog, &vec![b(), a()]);
    let names_1: Vec<&str> = include_first.iter().map(|r| r.name.as_str()).collect();
    let names_2: Vec<&str> = exclude_first.iter().map(|r| r.name.as_str()).collect();
    assert_eq!(names_1, vec!["only-a"]);
    assert_eq!(names_2, vec!["both", "only-a"]);
    assert_ne!(names_1, names_2);
}

#[test]
fn later_include_can_re_add_an_excluded_requirement() {
    let catalog = vec![req("r", &["a"])];
    let steps = vec![
        SetSteps::Include(filter(Some(&["a"]), None, false)),
        SetSteps::Exclude(filter(Some(&["a"]), None, false)),
        SetSteps::Include(filter(None, Some(&["r"]), false)),
    ];
    let selected = select(&catalog, &steps);
    assert_eq!(selected.len(), 1);
    assert_eq!(selected[0].name, "r");
}

#[test]
fn selection_keeps_catalog_order_and_deduplicates() {
    let catalog = vec![req("c", &["x"]), req("a", &["x"]), req("b", &["x"])];
    let steps = vec![
        SetSteps::Include(filter(Some(&["x"]), None, false)),
        SetSteps::Include(filter(Some(&["x"]), None, false)),
    ];
    let selected = select(&catalog, &steps);
    let names: Vec<&str> = selected.iter().map(|r| r.name.as_str()).collect();
    assert_eq!(names, vec!["c", "a", "b"]);
}

#[test]
fn expand_no_variables_yields_one_empty_assignment() {
    let assignments = expand(&Vec::new());
    assert_eq!(assignments.len(), 1);
    assert!(assignments[0].is_empty());
}

#[test]
fn expand_two_variables_in_deterministic_order() {
    let perms = vec![
        ("x".to_string(), strings(&["1", "2"])),
        ("y".to_string(), strings(&["3"])),
    ];
    let assignments = expand(&perms);
    assert_eq!(assignments.len(), 2);
    assert_eq!(
        assignments[0],
        vec![
            ("x".to_string(), "1".to_string()),
            ("y".to_string(), "3".to_string())
        ]
    );
    assert_eq!(
        assignments[1],
        vec![
            ("x".to_string(), "2".to_string()),
            ("y".to_string(), "3".to_string())
        ]
    );
}

#[test]
fn expand_empty_value_list_absorbs_everything() {
    let perms = vec![
        ("x".to_string(), strings(&["1", "2"])),
        ("y".to_string(), Vec::new()),
    ];
    let assignments = expand(&perms);
    assert_eq!(assignments.len(), 0);
}

#[test]
fn build_count_is_selection_times_assignments() {
    let catalog = vec![req("a", &["x"]), req("b", &["x"]), req("c", &["y"])];
    let builder = builder_with(
        vec![SetSteps::Include(filter(Some(&["x"]), None, false))],
        vec![
            ("v".to_string(), strings(&["1", "2"])),
            ("w".to_string(), strings(&["p", "q", "r"])),
        ],
    );
    let cases = build(&catalog, &builder);
    // 2 selected requirements times 6 assignments.
    assert_eq!(cases.len(), 12);
}

#[test]
fn build_pairs_requirements_with_assignments_in_order() {
    let catalog = vec![req("a", &["x"]), req("b", &["x"])];
    let builder = builder_with(
        vec![SetSteps::Include(filter(Some(&["x"]), None, false))],
        vec![("v".to_string(), strings(&["1", "2"]))],
    );
    let cases = build(&catalog, &builder);
    assert_eq!(cases.len(), 4);
    assert_eq!(cases[0].requirement.name, "a");
    assert_eq!(cases[0].selected_permutation[0].1, "1");
    assert_eq!(cases[1].requirement.name, "a");
    assert_eq!(cases[1].selected_permutation[0].1, "2");
    assert_eq!(cases[2].requirement.name, "b");
    assert_eq!(cases[2].selected_permutation[0].1, "1");
    assert_eq!(cases[3].requirement.name, "b");
    assert_eq!(cases[3].selected_permutation[0].1, "2");
    assert_eq!(cases[0].builder_used.name, "builder");
}

#[test]
fn build_with_no_selection_or_no_assignment_is_empty() {
    let catalog = vec![req("a", &["x"])];
    let no_selection = builder_with(Vec::new(), Vec::new());
    assert_eq!(build(&catalog, &no_selection).len(), 0);
    let empty_domain = builder_with(
        vec![SetSteps::Include(filter(None, None, false))],
        vec![("v".to_string(), Vec::new())],
    );
    assert_eq!(build(&catalog, &empty_domain).len(), 0);
}

#[test]
fn unique_names_validate() {
    let catalog = vec![req("a", &[]), req("b", &[]), req("c", &[])];
    assert_eq!(validate_catalog(&catalog), Ok(()));
}

#[test]
fn duplicate_names_are_rejected() {
    let catalog = vec![req("a", &[]), req("b", &[]), req("a", &["x"])];
    assert_eq!(
        validate_catalog(&catalog),
        Err(CatalogError::DuplicateRequirementName)
    );
}
