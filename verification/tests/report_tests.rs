use gitlab_mr_monitor::report::slack_format;
use gitlab_mr_monitor::text::{join_strings, u64_to_dec};
use gitlab_mr_monitor::types::{Author, GMMConfig, MRState, MergeRequest, MergeStatus};

fn mk_mr(iid: i64) -> MergeRequest {
    MergeRequest {
        approvals_needed: 0,
        author: Author {
            id: 7,
            name: "Alex".to_string(),
            username: "alex".to_string(),
        },
        blocking_discussions_resolved: true,
        draft: false,
        has_conflicts: false,
        iid,
        labels: vec![],
        merge_status: MergeStatus::CanBeMerged,
        source_branch: "feature".to_string(),
        state: MRState::Opened,
        title: "Add retry handling".to_string(),
        web_url: "https://example.test/mr/1".to_string(),
        work_in_progress: false,
    }
}

#[test]
fn report_for_plain_item() {
    let mr = mk_mr(1);
    let out = slack_format("Ready to Merge", &vec![mr]);
    assert_eq!(
        out,
        "* *Ready to Merge*\n    * [Add retry handling](https://example.test/mr/1) (alex)\n"
    );
}

#[test]
fn report_shows_labels_and_blockers() {
    let mut mr = mk_mr(2);
    mr.labels = vec!["backend".to_string(), "urgent".to_string()];
    mr.has_conflicts = true;
    mr.approvals_needed = 1;
    let out = slack_format("Blocked", &vec![mr]);
    let expected = String::new()
        + "* *Blocked*\n"
        + "    * [Add retry handling](https://example.test/mr/1) (alex)\n"
        + "        * Labels: backend, urgent\n"
        + "        * has conflicts, requires approval (1)\n";
    assert_eq!(out, expected);
}

#[test]
fn report_of_empty_group_is_just_the_header() {
    let out = slack_format("Ready to Merge", &vec![]);
    assert_eq!(out, "* *Ready to Merge*\n");
}

#[test]
fn report_keeps_item_order() {
    let mut a = mk_mr(1);
    a.title = "First".to_string();
    let mut b = mk_mr(2);
    b.title = "Second".to_string();
    let out = slack_format("Ready to Merge", &vec![a, b]);
    let first = out.find("First").unwrap();
    let second = out.find("Second").unwrap();
    assert!(first < second);
}

#[test]
fn join_strings_matches_std_join() {
    let parts = vec!["a".to_string(), "bb".to_string(), "ccc".to_string()];
    assert_eq!(join_strings(&parts, ", "), parts.join(", "));
    assert_eq!(join_strings(&vec![], ", "), "");
    assert_eq!(join_strings(&vec!["x".to_string()], ", "), "x");
}

#[test]
fn decimal_rendering() {
    assert_eq!(u64_to_dec(0), "0");
    assert_eq!(u64_to_dec(7), "7");
    assert_eq!(u64_to_dec(40), "40");
    assert_eq!(u64_to_dec(1234567890), "1234567890");
    assert_eq!(u64_to_dec(u64::MAX), "18446744073709551615");
}

#[test]
fn default_config_is_empty() {
    let c = GMMConfig::default();
    assert_eq!(c.api_token, "");
    assert!(c.author_ids.is_empty());
    assert_eq!(c.gitlab_base, "");
    assert_eq!(c.project_id, 0);
}
