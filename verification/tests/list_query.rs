use transfer::query::{format_i64, format_u64, percent_encode, render, QueryPair};
use transfer::{RangeBounds, RangeQuery, Transfer, TransferId, TransferListParams};

fn pair(key: &str, value: &str) -> QueryPair {
    QueryPair { key: key.to_string(), value: value.to_string() }
}

fn shown(pairs: &[QueryPair]) -> Vec<(String, String)> {
    pairs.iter().map(|p| (p.key.clone(), p.value.clone())).collect()
}

#[test]
fn limit_alone_gives_limit_only() {
    let params = TransferListParams { limit: Some(5), ..Default::default() };
    let request = Transfer::list(params);
    assert_eq!(request.query, "limit=5");
    assert_eq!(request.path, "/transfers");
}

#[test]
fn default_params_give_empty_query() {
    let params = TransferListParams::default();
    assert!(params.created.is_none());
    assert!(params.ending_before.is_none());
    assert!(params.expand.is_empty());
    assert!(params.limit.is_none());
    assert!(params.starting_after.is_none());
    assert!(params.query_pairs().is_empty());
    let request = Transfer::list(params);
    assert_eq!(request.query, "");
    assert_eq!(request.path, "/transfers");
}

#[test]
fn every_field_set_appears_in_field_order() {
    let before = TransferId::new("tr_9");
    let after = TransferId::new("tr_1");
    let expand = ["destination", "data.balance_transaction"];
    let params = TransferListParams {
        created: Some(RangeQuery::Exact(1690000000)),
        ending_before: Some(&before),
        expand: &expand,
        limit: Some(100),
        starting_after: Some(&after),
    };
    assert_eq!(
        shown(&params.query_pairs()),
        vec![
            ("created".to_string(), "1690000000".to_string()),
            ("ending_before".to_string(), "tr_9".to_string()),
            ("expand[]".to_string(), "destination".to_string()),
            ("expand[]".to_string(), "data.balance_transaction".to_string()),
            ("limit".to_string(), "100".to_string()),
            ("starting_after".to_string(), "tr_1".to_string()),
        ]
    );
    assert_eq!(
        Transfer::list(params).query,
        "created=1690000000&ending_before=tr_9&expand[]=destination&expand[]=data.balance_transaction&limit=100&starting_after=tr_1"
    );
}

#[test]
fn unset_fields_leave_no_key() {
    let after = TransferId::new("tr_1");
    let params = TransferListParams { starting_after: Some(&after), ..Default::default() };
    let pairs = params.query_pairs();
    assert_eq!(shown(&pairs), vec![("starting_after".to_string(), "tr_1".to_string())]);
    let query = Transfer::list(params).query;
    assert_eq!(query, "starting_after=tr_1");
    assert!(!query.contains("limit"));
    assert!(!query.contains("created"));
    assert!(!query.contains("expand"));
    assert!(!query.contains("ending_before"));
}

#[test]
fn created_bounds_give_one_pair_for_each_bound_set() {
    let bounds = RangeBounds { gt: Some(1), gte: None, lt: None, lte: Some(9) };
    let params =
        TransferListParams { created: Some(RangeQuery::Bounds(bounds)), ..Default::default() };
    assert_eq!(Transfer::list(params).query, "created[gt]=1&created[lte]=9");
    let all = RangeBounds { gt: Some(-1), gte: Some(2), lt: Some(3), lte: Some(4) };
    let params = TransferListParams { created: Some(RangeQuery::Bounds(all)), ..Default::default() };
    assert_eq!(
        Transfer::list(params).query,
        "created[gt]=-1&created[gte]=2&created[lt]=3&created[lte]=4"
    );
    let none = RangeBounds { gt: None, gte: None, lt: None, lte: None };
    let params =
        TransferListParams { created: Some(RangeQuery::Bounds(none)), ..Default::default() };
    assert_eq!(Transfer::list(params).query, "");
}

#[test]
fn limit_is_not_checked_locally() {
    let params = TransferListParams { limit: Some(0), ..Default::default() };
    assert_eq!(Transfer::list(params).query, "limit=0");
    let params = TransferListParams { limit: Some(u64::MAX), ..Default::default() };
    assert_eq!(Transfer::list(params).query, "limit=18446744073709551615");
}

#[test]
fn cursor_values_are_escaped() {
    let odd = TransferId::new("tr 1&x=y");
    let params = TransferListParams { ending_before: Some(&odd), ..Default::default() };
    assert_eq!(Transfer::list(params).query, "ending_before=tr%201%26x%3Dy");
}

#[test]
fn decimal_of_unsigned_numbers() {
    assert_eq!(format_u64(0), "0");
    assert_eq!(format_u64(5), "5");
    assert_eq!(format_u64(10), "10");
    assert_eq!(format_u64(1690000000), "1690000000");
    assert_eq!(format_u64(u64::MAX), "18446744073709551615");
}

#[test]
fn decimal_of_signed_numbers() {
    assert_eq!(format_i64(0), "0");
    assert_eq!(format_i64(-1), "-1");
    assert_eq!(format_i64(1000), "1000");
    assert_eq!(format_i64(i64::MAX), "9223372036854775807");
    assert_eq!(format_i64(i64::MIN), "-9223372036854775808");
}

#[test]
fn percent_encoding_keeps_unreserved_bytes() {
    assert_eq!(percent_encode(""), "");
    assert_eq!(percent_encode("AZaz09-._~"), "AZaz09-._~");
    assert_eq!(percent_encode("data.destination"), "data.destination");
}

#[test]
fn percent_encoding_escapes_other_bytes() {
    assert_eq!(percent_encode("a b"), "a%20b");
    assert_eq!(percent_encode("[]"), "%5B%5D");
    assert_eq!(percent_encode("/@`{"), "%2F%40%60%7B");
    assert_eq!(percent_encode("\u{e9}"), "%C3%A9");
    assert_eq!(percent_encode("\u{0}\u{7f}"), "%00%7F");
}

#[test]
fn render_joins_pairs_with_ampersands() {
    assert_eq!(render(&vec![]), "");
    assert_eq!(render(&vec![pair("a", "1")]), "a=1");
    assert_eq!(render(&vec![pair("a", "1"), pair("b[]", "x y"), pair("a", "")]), "a=1&b[]=x%20y&a=");
}

#[test]
fn transfer_id_keeps_its_text() {
    let id = TransferId::new("tr_42");
    assert_eq!(id.as_str(), "tr_42");
    assert_eq!(id.clone().as_str(), "tr_42");
}
