use jacket_finder::cycle::{SiteResult, plan_cycle};
use jacket_finder::models::Jacket;

fn jacket(id: &str, title: &str, url: &str) -> Jacket {
    Jacket {
        id: id.to_string(),
        title: title.to_string(),
        price: "\u{20ac}100".to_string(),
        url: url.to_string(),
        image_url: None,
        discovered_at: 0,
    }
}

#[test]
fn new_records_are_those_not_known() {
    let known = vec!["id-a".to_string(), "id-b".to_string()];
    let outcomes = vec![SiteResult {
        site: "SiteA".to_string(),
        outcome: Ok(vec![
            jacket("id-a", "Old Jacket", "https://a.example/a"),
            jacket("id-c", "New Jacket", "https://a.example/c"),
        ]),
    }];
    let plan = plan_cycle(&known, outcomes);
    assert_eq!(plan.new_records.len(), 1);
    assert_eq!(plan.new_records[0].id, "id-c");
    assert!(plan.failed_sites.is_empty());
}

#[test]
fn second_cycle_finds_nothing_new() {
    let known: Vec<String> = Vec::new();
    let records = vec![
        jacket("id-a", "Jacket A", "https://a.example/a"),
        jacket("id-b", "Jacket B", "https://a.example/b"),
    ];
    let first = plan_cycle(
        &known,
        vec![SiteResult { site: "SiteA".to_string(), outcome: Ok(records.clone()) }],
    );
    assert_eq!(first.new_records.len(), 2);

    // Persist what the first run emitted, then run the same cycle again.
    let mut known_after: Vec<String> = known.clone();
    for j in &first.new_records {
        known_after.push(j.id.clone());
    }
    let second = plan_cycle(
        &known_after,
        vec![SiteResult { site: "SiteA".to_string(), outcome: Ok(records) }],
    );
    assert_eq!(second.new_records.len(), 0);
}

#[test]
fn partial_source_failure_degrades_gracefully() {
    // Two configured sites: one fails with a transport error, the other
    // returns three matching records of which two are new. The cycle
    // completes, emits exactly the two new identities, and reports the
    // failure.
    let known = vec!["known-1".to_string()];
    let outcomes = vec![
        SiteResult {
            site: "SiteA".to_string(),
            outcome: Err("HTTP 503 from search page".to_string()),
        },
        SiteResult {
            site: "SiteB".to_string(),
            outcome: Ok(vec![
                jacket("known-1", "Seen Jacket", "https://b.example/1"),
                jacket("new-1", "Fresh Jacket", "https://b.example/2"),
                jacket("new-2", "Other Fresh Jacket", "https://b.example/3"),
            ]),
        },
    ];
    let plan = plan_cycle(&known, outcomes);
    assert_eq!(plan.failed_sites, vec!["SiteA".to_string()]);
    assert_eq!(plan.new_records.len(), 2);
    assert_eq!(plan.new_records[0].id, "new-1");
    assert_eq!(plan.new_records[1].id, "new-2");
}

#[test]
fn records_of_distinct_sites_stay_distinct() {
    let known: Vec<String> = Vec::new();
    let outcomes = vec![
        SiteResult {
            site: "SiteA".to_string(),
            outcome: Ok(vec![jacket("a-1", "Jacket", "https://a.example/p")]),
        },
        SiteResult {
            site: "SiteB".to_string(),
            outcome: Ok(vec![jacket("b-1", "Jacket", "https://b.example/p")]),
        },
    ];
    let plan = plan_cycle(&known, outcomes);
    assert_eq!(plan.new_records.len(), 2);
    assert_eq!(plan.new_records[0].id, "a-1");
    assert_eq!(plan.new_records[1].id, "b-1");
}

#[test]
fn all_sites_failing_yields_empty_plan() {
    let known: Vec<String> = Vec::new();
    let outcomes = vec![
        SiteResult { site: "SiteA".to_string(), outcome: Err("timeout".to_string()) },
        SiteResult { site: "SiteB".to_string(), outcome: Err("HTTP 500".to_string()) },
    ];
    let plan = plan_cycle(&known, outcomes);
    assert!(plan.new_records.is_empty());
    assert_eq!(plan.failed_sites.len(), 2);
}
