use flowfull::payments::{
    guest_options, item_action_path, item_path, list_options, org_member_path, PageParams,
    ADDRESSES, CUSTOMERS, GUEST_CONVERT, ORGANIZATIONS, PAYMENTS, PAYMENT_INTENTS,
    PAYMENT_METHODS, SUBSCRIPTIONS,
};
use flowfull::pieces::{split_char, split_once, trim};
use flowfull::{FlowfullError, RequestOptions, UploadBuilder, UploadFile};

fn pairs(list: &[(&str, &str)]) -> Vec<(String, String)> {
    list.iter().map(|(k, v)| (k.to_string(), v.to_string())).collect()
}

#[test]
fn payment_endpoints() {
    assert_eq!(item_path(PAYMENT_INTENTS, "pi_1"), "/bridge-payment/payments/intents/pi_1");
    assert_eq!(item_path(PAYMENTS, "pay_1"), "/bridge-payment/payments/pay_1");
    assert_eq!(item_path(PAYMENT_METHODS, "pm_1"), "/bridge-payment/payment-methods/pm_1");
    assert_eq!(item_path(ADDRESSES, "ad_1"), "/bridge-payment/addresses/ad_1");
    assert_eq!(item_path(CUSTOMERS, "cu_1"), "/bridge-payment/customers/cu_1");
    assert_eq!(
        item_action_path(SUBSCRIPTIONS, "sub_1", "cancel"),
        "/bridge-payment/subscriptions/sub_1/cancel"
    );
    assert_eq!(
        item_action_path(ORGANIZATIONS, "org_1", "members"),
        "/bridge-payment/organizations/org_1/members"
    );
    assert_eq!(
        item_action_path(ORGANIZATIONS, "org_1", "leave"),
        "/bridge-payment/organizations/org_1/leave"
    );
    assert_eq!(
        org_member_path("org_1", "mem_2"),
        "/bridge-payment/organizations/org_1/members/mem_2"
    );
    assert_eq!(GUEST_CONVERT, "/bridge-payment/guest/convert");
}

#[test]
fn listing_options_carry_page_then_limit() {
    let both = list_options(&PageParams { page: Some(2), limit: Some(50) });
    assert_eq!(both.query, pairs(&[("page", "2"), ("limit", "50")]));
    assert_eq!(list_options(&PageParams { page: None, limit: Some(0) }).query, pairs(&[("limit", "0")]));
    let none = list_options(&PageParams::default());
    assert!(none.query.is_empty());
    assert_eq!(none.headers.len(), 0);
    assert!(none.session_id.is_none());
}

#[test]
fn guest_options_carry_the_guest_token() {
    let options = guest_options("gt_123").unwrap();
    assert_eq!(options.headers.get("x-guest-token").as_deref(), Some("gt_123"));
    assert_eq!(options.headers.len(), 1);
    match guest_options("bad\rtoken") {
        Err(FlowfullError::Config(m)) => {
            assert_eq!(m, "invalid header value for request option: failed to parse header value")
        }
        other => panic!("{:?}", other.map(|_| ())),
    }
}

#[test]
fn text_splitting() {
    assert_eq!(split_char("a;b;;c", ';'), vec!["a", "b", "", "c"]);
    assert_eq!(split_char("", '&'), vec![""]);
    assert_eq!(split_char("x&", '&'), vec!["x", ""]);
    assert_eq!(split_once("k=v=w", '='), Some(("k".to_string(), "v=w".to_string())));
    assert_eq!(split_once("kv", '='), None);
    assert_eq!(split_once("=v", '='), Some((String::new(), "v".to_string())));
    assert_eq!(trim(" \t a b \n"), "a b");
    assert_eq!(trim("\u{3000}x\u{a0}"), "x");
    assert_eq!(trim("   "), "");
}

#[test]
fn uploads_of_bytes_keep_their_name_and_type() {
    let file = UploadFile::bytes_with_mime(vec![1, 2, 3], "a.bin", "application/x-test");
    let request = UploadBuilder::new("/upload", file)
        .field("picture")
        .form_field("alt", "me")
        .header("X-Upload", "1")
        .unwrap()
        .into_request()
        .unwrap();
    assert_eq!(request.endpoint, "/upload");
    assert_eq!(request.field, "picture");
    assert_eq!(request.form_fields, pairs(&[("alt", "me")]));
    assert_eq!(request.bytes, vec![1, 2, 3]);
    assert_eq!(request.file_name, "a.bin");
    assert_eq!(request.mime, Some("application/x-test".to_string()));
    assert!(request.path.is_none());
    assert_eq!(request.options.headers.get("x-upload").as_deref(), Some("1"));

    let renamed = UploadBuilder::new("/upload", UploadFile::bytes(vec![], "a.bin"))
        .file_name("b.bin")
        .into_request()
        .unwrap();
    assert_eq!(renamed.file_name, "b.bin");
    assert_eq!(renamed.mime, None);
    assert_eq!(renamed.field, "file");
}

#[test]
fn uploads_from_disk_use_the_path_name_and_guess_the_type() {
    let request = UploadBuilder::new("/upload", UploadFile::path("/tmp/photos/me.png")).into_request()
        .unwrap();
    assert_eq!(request.path, Some("/tmp/photos/me.png".to_string()));
    assert_eq!(request.file_name, "me.png");
    assert_eq!(request.mime, Some("image/png".to_string()));
    assert!(request.bytes.is_empty());

    let unknown = UploadBuilder::new("/upload", UploadFile::path("..")).into_request()
        .unwrap();
    assert_eq!(unknown.file_name, "file");
    assert_eq!(unknown.mime, Some("application/octet-stream".to_string()));

    let found = UploadBuilder::new("/upload", UploadFile::path("x/y.txt"))
        .into_request_with(Some("chosen.txt".to_string()))
        .unwrap();
    assert_eq!(found.file_name, "chosen.txt");
    assert_eq!(found.mime, Some("text/plain".to_string()));
}

#[test]
fn upload_headers_go_on_top_of_the_options() {
    let options = RequestOptions::new().header("X-A", "from-options").unwrap().query("q", "1");
    let request = UploadBuilder::new("/upload", UploadFile::bytes(vec![0], "f"))
        .options(options)
        .header("x-a", "from-upload")
        .unwrap()
        .into_request()
        .unwrap();
    assert_eq!(request.options.headers.get("x-a").as_deref(), Some("from-upload"));
    assert_eq!(request.options.query, pairs(&[("q", "1")]));
    match UploadBuilder::new("/upload", UploadFile::bytes(vec![0], "f")).header("bad name", "v") {
        Err(FlowfullError::Config(m)) => assert_eq!(m, "invalid header name: invalid HTTP header name"),
        _ => panic!("expected a configuration error"),
    }
}

#[test]
fn an_invalid_content_type_refuses_the_upload() {
    let file = UploadFile::bytes_with_mime(vec![1], "a.bin", "not a mime");
    match UploadBuilder::new("/upload", file).into_request() {
        Err(FlowfullError::Network(_)) => {}
        other => panic!("{:?}", other.map(|_| ())),
    }
    let fine = UploadFile::bytes_with_mime(vec![1], "a.bin", "text/plain; charset=utf-8");
    assert!(UploadBuilder::new("/upload", fine).into_request().is_ok());
}

#[test]
fn a_new_upload_has_room_for_headers() {
    let upload = UploadBuilder::new("/upload", UploadFile::bytes(vec![0], "f"));
    assert!(upload.has_header_room());
    assert!(upload.has_request_room());
}
