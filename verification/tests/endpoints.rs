use uuid::Uuid;
use xero_rs_async::endpoints::request::body_shape;
use xero_rs_async::endpoints::request::encode_file_name;
use xero_rs_async::endpoints::request::headers;
use xero_rs_async::endpoints::request::interpret;
use xero_rs_async::endpoints::request::is_success;
use xero_rs_async::endpoints::request::not_found;
use xero_rs_async::endpoints::request::path;
use xero_rs_async::endpoints::request::resource_path;
use xero_rs_async::endpoints::request::url;
use xero_rs_async::endpoints::request::BodyShape;
use xero_rs_async::endpoints::request::Query;
use xero_rs_async::endpoints::request::Segment;
use xero_rs_async::endpoints::request::ACCOUNTING_BASE_URL;
use xero_rs_async::endpoints::request::ASSETS_BASE_URL;
use xero_rs_async::endpoints::request::FILES_BASE_URL;
use xero_rs_async::error::XeroError;

fn id(text: &str) -> u128 {
    Uuid::parse_str(text).expect("a uuid").as_u128()
}

fn pair(name: &str, value: &str) -> (String, String) {
    (name.to_string(), value.to_string())
}

#[test]
fn the_path_of_a_collection_and_of_one_resource() {
    assert_eq!(resource_path("Accounts", None), "/Accounts");
    assert_eq!(
        resource_path("Accounts", Some(id("297c2dc5-cc47-4afd-8ec8-74990b8761e9"))),
        "/Accounts/297c2dc5-cc47-4afd-8ec8-74990b8761e9"
    );
}

#[test]
fn a_path_is_its_steps_with_slashes_before_them() {
    let category = id("351953c4-8127-4009-88c3-f9cd8c9cbe9f");
    let option = id("ce205173-7387-4651-9726-2cf4c5405ba2");
    assert_eq!(
        path(&vec![
            Segment::Name("TrackingCategories".to_string()),
            Segment::Id(category),
            Segment::Name("Options".to_string()),
            Segment::Id(option),
        ]),
        "/TrackingCategories/351953c4-8127-4009-88c3-f9cd8c9cbe9f/Options/ce205173-7387-4651-9726-2cf4c5405ba2"
    );
    assert_eq!(
        path(&vec![
            Segment::Name("Invoices".to_string()),
            Segment::Id(category),
            Segment::Name("history".to_string()),
        ]),
        format!("/{}/{}/history", "Invoices", Uuid::from_u128(category))
    );
    assert_eq!(path(&vec![]), "");
}

#[test]
fn the_address_is_base_and_path() {
    assert_eq!(
        url(ACCOUNTING_BASE_URL, "/Accounts"),
        "https://api.xero.com/api.xro/2.0/Accounts"
    );
    assert_eq!(url(ASSETS_BASE_URL, "/Assets"), "https://api.xero.com/assets.xro/1.0/Assets");
    assert_eq!(url(FILES_BASE_URL, "/Files"), "https://api.xero.com/files.xro/1.0/Files");
}

#[test]
fn square_brackets_in_a_file_name_are_escaped() {
    assert_eq!(encode_file_name("scan[1].pdf"), "scan%5B1%5D.pdf");
    assert_eq!(encode_file_name("plain name.pdf"), "plain name.pdf");
    assert_eq!(encode_file_name("]]["), "%5D%5D%5B");
    assert_eq!(encode_file_name(""), "");
    assert_eq!(
        encode_file_name("a[b]%c"),
        "a[b]%c".replace('[', "%5B").replace(']', "%5D")
    );
}

#[test]
fn a_query_holds_the_parameters_that_have_values_in_their_order() {
    let mut query = Query::new();
    query.list("InvoiceNumbers", Some(vec!["INV-1".to_string(), "INV-2".to_string()]));
    query.ids(
        "ContactIDs",
        Some(vec![
            id("297c2dc5-cc47-4afd-8ec8-74990b8761e9"),
            id("351953c4-8127-4009-88c3-f9cd8c9cbe9f"),
        ]),
    );
    query.list("Statuses", None);
    query.text("where", Some("Type==\"ACCREC\"".to_string()));
    query.text("order", None);
    query.number("page", Some(2));
    query.number("pageSize", None);
    query.flag("summaryOnly", Some(true));
    query.flag("includeArchived", Some(false));
    query.id("ContactID", Some(id("297c2dc5-cc47-4afd-8ec8-74990b8761e9")));
    query.id("SourceTransactionID", None);
    query.set("status", "DRAFT".to_string());
    assert_eq!(
        query.pairs,
        vec![
            pair("InvoiceNumbers", "INV-1,INV-2"),
            pair(
                "ContactIDs",
                "297c2dc5-cc47-4afd-8ec8-74990b8761e9,351953c4-8127-4009-88c3-f9cd8c9cbe9f"
            ),
            pair("where", "Type==\"ACCREC\""),
            pair("page", "2"),
            pair("summaryOnly", "true"),
            pair("includeArchived", "false"),
            pair("ContactID", "297c2dc5-cc47-4afd-8ec8-74990b8761e9"),
            pair("status", "DRAFT"),
        ]
    );
}

#[test]
fn an_empty_query_and_empty_lists() {
    assert!(Query::new().pairs.is_empty());
    let mut query = Query::new();
    query.list("Statuses", Some(vec![]));
    query.ids("IDs", Some(vec![]));
    query.number("page", Some(u32::MAX));
    assert_eq!(
        query.pairs,
        vec![pair("Statuses", ""), pair("IDs", ""), pair("page", "4294967295")]
    );
}

#[test]
fn one_resource_goes_by_itself_and_more_go_as_a_list() {
    assert_eq!(body_shape(1), BodyShape::Single);
    assert_eq!(body_shape(0), BodyShape::Wrapped);
    assert_eq!(body_shape(2), BodyShape::Wrapped);
}

#[test]
fn every_request_names_its_tenant() {
    let tenant = id("6f9619ff-8b86-d011-b42d-00cf4fc964ff");
    assert_eq!(
        headers(tenant, true),
        vec![
            pair("xero-tenant-id", "6f9619ff-8b86-d011-b42d-00cf4fc964ff"),
            pair("Accept", "application/json"),
        ]
    );
    assert_eq!(
        headers(tenant, false),
        vec![pair("xero-tenant-id", "6f9619ff-8b86-d011-b42d-00cf4fc964ff")]
    );
}

#[test]
fn the_200s_are_success() {
    assert!(!is_success(199));
    assert!(is_success(200));
    assert!(is_success(204));
    assert!(is_success(299));
    assert!(!is_success(300));
    assert!(!is_success(404));
    assert!(!is_success(0));
    for status in [100u16, 200, 299, 300, 404, 500, 999] {
        assert_eq!(
            is_success(status),
            reqwest::StatusCode::from_u16(status).expect("a status").is_success()
        );
    }
}

#[test]
fn a_response_is_its_body_or_the_error_of_the_api() {
    assert_eq!(interpret(200, "{}".to_string()).expect("success"), "{}");
    match interpret(429, "slow down".to_string()) {
        Err(XeroError::Api { status, message }) => {
            assert_eq!(status, 429);
            assert_eq!(message, "slow down");
        }
        other => panic!("unexpected outcome: {:?}", other),
    }
}

#[test]
fn a_missing_resource_is_reported_as_not_found() {
    match not_found("Report") {
        XeroError::Api { status, message } => {
            assert_eq!(status, 404);
            assert_eq!(message, "Report not found in response");
        }
        other => panic!("unexpected error: {:?}", other),
    }
    assert_eq!(
        not_found("OnlineInvoice").message(),
        "Xero API error (404 Not Found): OnlineInvoice not found in response"
    );
}
