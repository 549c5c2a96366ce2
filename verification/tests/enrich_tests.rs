use gitlab_mr_monitor::enrich::{enrich, filter_by_authors, parse_approval};
use gitlab_mr_monitor::types::{Author, FetchError, MRState, MergeRequest, MergeStatus};

fn mk_mr(iid: i64, author_id: i64) -> MergeRequest {
    MergeRequest {
        approvals_needed: 0,
        author: Author {
            id: author_id,
            name: "Alex".to_string(),
            username: "alex".to_string(),
        },
        blocking_discussions_resolved: true,
        draft: false,
        has_conflicts: false,
        iid,
        labels: vec![],
        merge_status: MergeStatus::CanBeMerged,
        source_branch: "feature".to_string(),
        state: MRState::Opened,
        title: "A change".to_string(),
        web_url: "https://example.test/mr".to_string(),
        work_in_progress: false,
    }
}

fn body(n: i64) -> Result<String, String> {
    Ok(format!("{{\"approvals_left\": {}}}", n))
}

#[test]
fn parse_approval_reads_the_field() {
    assert!(matches!(parse_approval("{\"approvals_left\": 7}"), Ok(7)));
    assert!(matches!(
        parse_approval("{\"approvals_left\": 0, \"approved\": true}"),
        Ok(0)
    ));
}

#[test]
fn parse_approval_rejects_malformed_document() {
    assert!(matches!(
        parse_approval("{\"approvals_left\":"),
        Err(FetchError::Deserialization(_))
    ));
}

#[test]
fn parse_approval_rejects_missing_or_non_integer_field() {
    assert!(matches!(parse_approval("{}"), Err(FetchError::MissingData)));
    assert!(matches!(parse_approval("null"), Err(FetchError::MissingData)));
    assert!(matches!(
        parse_approval("{\"approvals_left\": \"two\"}"),
        Err(FetchError::MissingData)
    ));
    assert!(matches!(
        parse_approval("{\"approvals_left\": 2.5}"),
        Err(FetchError::MissingData)
    ));
}

#[test]
fn merge_joins_by_iid_not_position() {
    let mrs = vec![mk_mr(1, 7), mk_mr(2, 7), mk_mr(3, 7)];
    // Outcomes settled in scrambled order: (2,0), (1,5), (3,0).
    let fetched = vec![(2, body(0)), (1, body(5)), (3, body(0))];
    let out = enrich(mrs, &fetched).unwrap();
    let got: Vec<(i64, i64)> = out.iter().map(|mr| (mr.iid, mr.approvals_needed)).collect();
    assert_eq!(got, vec![(1, 5), (2, 0), (3, 0)]);
}

#[test]
fn one_failed_fetch_fails_the_whole_call() {
    let mrs = vec![mk_mr(1, 7), mk_mr(2, 7), mk_mr(3, 7)];
    let fetched = vec![
        (1, body(1)),
        (2, Err("connection reset".to_string())),
        (3, body(2)),
    ];
    match enrich(mrs, &fetched) {
        Err(FetchError::Transport(m)) => assert_eq!(m, "connection reset"),
        Err(e) => panic!("expected a transport error, got {}", e.category()),
        Ok(_) => panic!("expected a transport error, got a result"),
    }
}

#[test]
fn one_malformed_body_fails_the_whole_call() {
    let mrs = vec![mk_mr(1, 7), mk_mr(2, 7)];
    let fetched = vec![(1, body(1)), (2, Ok("not json".to_string()))];
    assert!(matches!(
        enrich(mrs, &fetched),
        Err(FetchError::Deserialization(_))
    ));
}

#[test]
fn one_body_without_the_field_fails_the_whole_call() {
    let mrs = vec![mk_mr(1, 7), mk_mr(2, 7)];
    let fetched = vec![(1, body(1)), (2, Ok("{\"approved\": true}".to_string()))];
    assert!(matches!(enrich(mrs, &fetched), Err(FetchError::MissingData)));
}

#[test]
fn completion_order_does_not_change_the_result() {
    let scrambled = vec![(3, body(7)), (1, body(0)), (2, body(2))];
    let in_order = vec![(1, body(0)), (2, body(2)), (3, body(7))];
    let a = enrich(vec![mk_mr(1, 7), mk_mr(2, 7), mk_mr(3, 7)], &scrambled).unwrap();
    let b = enrich(vec![mk_mr(1, 7), mk_mr(2, 7), mk_mr(3, 7)], &in_order).unwrap();
    let pick = |v: &Vec<MergeRequest>| -> Vec<(i64, i64)> {
        v.iter().map(|mr| (mr.iid, mr.approvals_needed)).collect()
    };
    assert_eq!(pick(&a), pick(&b));
    assert_eq!(pick(&a), vec![(1, 0), (2, 2), (3, 7)]);
}

#[test]
fn unmatched_pairs_are_dropped_silently() {
    let mrs = vec![mk_mr(1, 7)];
    let fetched = vec![(1, body(4)), (99, body(9))];
    let out = enrich(mrs, &fetched).unwrap();
    assert_eq!(out.len(), 1);
    assert_eq!(out[0].approvals_needed, 4);
}

#[test]
fn never_enriched_item_keeps_zero() {
    let mrs = vec![mk_mr(1, 7), mk_mr(2, 7)];
    // No outcome carries iid 2: its count stays at the zero default.
    let fetched = vec![(1, body(3))];
    let out = enrich(mrs, &fetched).unwrap();
    assert_eq!(out[0].approvals_needed, 3);
    assert_eq!(out[1].approvals_needed, 0);
    assert!(out[1].blockers().is_empty());
}

#[test]
fn enrich_of_empty_list() {
    let out = enrich(vec![], &vec![]).unwrap();
    assert!(out.is_empty());
}

#[test]
fn filter_keeps_only_configured_authors_in_order() {
    let mrs = vec![mk_mr(1, 7), mk_mr(2, 8), mk_mr(3, 7), mk_mr(4, 9)];
    let out = filter_by_authors(mrs, &vec![7, 9]);
    let iids: Vec<i64> = out.iter().map(|mr| mr.iid).collect();
    assert_eq!(iids, vec![1, 3, 4]);
    assert!(out.iter().all(|mr| mr.author.id == 7 || mr.author.id == 9));
}

#[test]
fn filter_with_no_configured_authors_keeps_nothing() {
    let mrs = vec![mk_mr(1, 7)];
    let out = filter_by_authors(mrs, &vec![]);
    assert!(out.is_empty());
}

#[test]
fn error_categories_have_fixed_text() {
    assert_eq!(
        FetchError::Transport("x".to_string()).category(),
        "transport error"
    );
    assert_eq!(
        FetchError::Deserialization("x".to_string()).category(),
        "deserialization error"
    );
    assert_eq!(FetchError::MissingData.category(), "no approval data");
}
