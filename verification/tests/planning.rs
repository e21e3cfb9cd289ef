use crud_client::envelope::{classify, code_envelope, error_envelope};
use crud_client::ops::{
    delete_all_plan, first_page_query, list_all_plan, update_or_create_plan,
};
use crud_client::{DeleteAllStep, Envelope, Item, ListAllStep, UpsertStep, Verdict};

fn envelope(
    total_items: Option<u32>,
    code: Option<u16>,
    error: Option<u16>,
    ids: Option<Vec<&str>>,
) -> Envelope {
    Envelope {
        total_items,
        code,
        error,
        items: ids.map(|v| v.into_iter().map(|id| Item { id: id.to_string() }).collect()),
    }
}

#[test]
fn probe_query_is_one_per_page() {
    assert_eq!(first_page_query(), "perPage=1");
}

#[test]
fn canonical_envelopes_are_fixed_literals() {
    assert_eq!(error_envelope(), "{\"error\":400}");
    assert_eq!(code_envelope(), "{\"code\":400}");
}

#[test]
fn classifier_error_wins_over_code() {
    let e = envelope(None, Some(404), Some(500), None);
    assert!(matches!(classify(&e), Verdict::Error));
}

#[test]
fn classifier_code_without_error() {
    let e = envelope(None, Some(404), None, None);
    assert!(matches!(classify(&e), Verdict::CodeOnly));
}

#[test]
fn classifier_success_otherwise() {
    let e = envelope(Some(0), None, None, Some(vec![]));
    assert!(matches!(classify(&e), Verdict::Success));
}

#[test]
fn list_all_error_collapses_to_canonical_envelope() {
    // a probe answering {"error":123} ends the operation with {"error":400}
    let e = envelope(None, None, Some(123), None);
    match list_all_plan(&e, None) {
        ListAllStep::Finish { body } => assert_eq!(body, "{\"error\":400}"),
        ListAllStep::SecondCall { .. } => panic!("error probe must not fetch again"),
    }
}

#[test]
fn list_all_code_collapses_to_canonical_envelope() {
    // a probe answering {"code":404} ends the operation with {"code":400}
    let e = envelope(None, Some(404), None, None);
    match list_all_plan(&e, None) {
        ListAllStep::Finish { body } => assert_eq!(body, "{\"code\":400}"),
        ListAllStep::SecondCall { .. } => panic!("code-only probe must not fetch again"),
    }
}

#[test]
fn list_all_success_requests_full_page() {
    // {"totalItems":37,"items":[{"id":"x"}]} leads to a perPage=37 fetch
    let e = envelope(Some(37), None, None, Some(vec!["x"]));
    match list_all_plan(&e, None) {
        ListAllStep::SecondCall { query } => assert_eq!(query, "perPage=37"),
        ListAllStep::Finish { .. } => panic!("successful probe must fetch again"),
    }
}

#[test]
fn list_all_appends_extra_params() {
    let e = envelope(Some(37), None, None, Some(vec!["x"]));
    match list_all_plan(&e, Some("filter=(done=true)")) {
        ListAllStep::SecondCall { query } => {
            assert_eq!(query, "perPage=37&filter=(done=true)")
        },
        ListAllStep::Finish { .. } => panic!("successful probe must fetch again"),
    }
}

#[test]
fn list_all_second_call_url_contains_per_page() {
    let e = envelope(Some(37), None, None, Some(vec!["x"]));
    let con = crud_client::Collection { host: "http://127.0.0.1".to_string(), port: 8090 };
    match list_all_plan(&e, None) {
        ListAllStep::SecondCall { query } => {
            let url = crud_client::Table::Product.list_url(&con, Some(query.as_str()));
            assert_eq!(
                url,
                "http://127.0.0.1:8090/api/collections/product/records?perPage=37"
            );
            assert!(url.contains("perPage=37"));
        },
        ListAllStep::Finish { .. } => panic!("successful probe must fetch again"),
    }
}

#[test]
fn list_all_zero_and_largest_totals() {
    let e = envelope(Some(0), None, None, Some(vec![]));
    match list_all_plan(&e, None) {
        ListAllStep::SecondCall { query } => assert_eq!(query, "perPage=0"),
        ListAllStep::Finish { .. } => panic!("successful probe must fetch again"),
    }
    let e = envelope(Some(u32::MAX), None, None, Some(vec![]));
    match list_all_plan(&e, None) {
        ListAllStep::SecondCall { query } => assert_eq!(query, "perPage=4294967295"),
        ListAllStep::Finish { .. } => panic!("successful probe must fetch again"),
    }
}

#[test]
fn delete_all_deletes_each_listed_id_in_order() {
    let e = envelope(Some(3), None, None, Some(vec!["a", "b", "c"]));
    match delete_all_plan(&e) {
        DeleteAllStep::DeleteEach { ids } => assert_eq!(ids, vec!["a", "b", "c"]),
        DeleteAllStep::Finish { .. } => panic!("successful listing must delete"),
    }
}

#[test]
fn delete_all_empty_listing_deletes_nothing() {
    let e = envelope(Some(0), None, None, Some(vec![]));
    match delete_all_plan(&e) {
        DeleteAllStep::DeleteEach { ids } => assert!(ids.is_empty()),
        DeleteAllStep::Finish { .. } => panic!("successful listing must reach the delete step"),
    }
}

#[test]
fn delete_all_propagates_canonical_envelopes() {
    let e = envelope(None, None, Some(1), None);
    match delete_all_plan(&e) {
        DeleteAllStep::Finish { body } => assert_eq!(body, "{\"error\":400}"),
        DeleteAllStep::DeleteEach { .. } => panic!("failed listing must not delete"),
    }
    let e = envelope(None, Some(404), None, None);
    match delete_all_plan(&e) {
        DeleteAllStep::Finish { body } => assert_eq!(body, "{\"code\":400}"),
        DeleteAllStep::DeleteEach { .. } => panic!("code-only listing must not delete"),
    }
}

#[test]
fn upsert_falls_back_to_create_on_code() {
    // an update answering with a code field triggers the create fallback
    let e = envelope(None, Some(404), None, None);
    assert!(matches!(update_or_create_plan(&e), UpsertStep::CreateFallback));
}

#[test]
fn upsert_error_collapses_to_canonical_envelope() {
    let e = envelope(None, None, Some(7), None);
    match update_or_create_plan(&e) {
        UpsertStep::Finish { body } => assert_eq!(body, "{\"error\":400}"),
        UpsertStep::CreateFallback => panic!("failed update must not create"),
    }
}

#[test]
fn upsert_success_reserializes_without_create() {
    let e = envelope(Some(1), None, None, Some(vec!["a"]));
    match update_or_create_plan(&e) {
        UpsertStep::Finish { body } => assert_eq!(
            body,
            "{\"totalItems\":1,\"code\":null,\"error\":null,\"items\":[{\"id\":\"a\"}]}"
        ),
        UpsertStep::CreateFallback => panic!("successful update must not create"),
    }
}

#[test]
fn upsert_twice_on_existing_record_never_creates() {
    // the record exists both times: both update responses classify as success
    let first = envelope(Some(1), None, None, Some(vec!["a"]));
    let second = envelope(Some(1), None, None, Some(vec!["a"]));
    assert!(!matches!(update_or_create_plan(&first), UpsertStep::CreateFallback));
    assert!(!matches!(update_or_create_plan(&second), UpsertStep::CreateFallback));
}
