use rbxsync::errors::SyncError;
use rbxsync::json::{
    parse_created_id, parse_export_page, parse_list_page, parse_poll, parse_upload_submit,
    UploadStart,
};

#[test]
fn list_page_under_data_key() {
    let body = r#"{"data":[{"id":11,"name":"Sword"},{"id":12,"name":"Shield"}],"nextPageCursor":"abc"}"#;
    let page = parse_list_page(body).expect("parses");
    assert_eq!(page.data.len(), 2);
    assert_eq!(page.data[0].id, 11);
    assert_eq!(page.data[0].name, "Sword");
    assert_eq!(page.data[1].id, 12);
    assert_eq!(page.next_page_cursor.as_deref(), Some("abc"));
}

#[test]
fn list_page_under_category_keys() {
    let body = r#"{"gamePasses":[{"id":1,"name":"a"}]}"#;
    let page = parse_list_page(body).expect("parses");
    assert_eq!(page.data.len(), 1);
    assert!(page.next_page_cursor.is_none());

    let body = r#"{"developerProducts":[{"id":2,"name":"b"}],"nextPageToken":"t"}"#;
    let page = parse_list_page(body).expect("parses");
    assert_eq!(page.data[0].id, 2);
    assert_eq!(page.next_page_cursor.as_deref(), Some("t"));

    let body = r#"{"badges":[{"id":3,"name":"c"}]}"#;
    let page = parse_list_page(body).expect("parses");
    assert_eq!(page.data[0].id, 3);
}

#[test]
fn list_page_accepts_string_ids() {
    let body = r#"{"data":[{"id":"44","name":"Sword"}]}"#;
    let page = parse_list_page(body).expect("parses");
    assert_eq!(page.data[0].id, 44);
}

#[test]
fn list_page_errors() {
    assert!(matches!(parse_list_page("not json"), Err(SyncError::ParseError(_))));
    assert!(matches!(parse_list_page(r#"{"other":1}"#), Err(SyncError::ParseError(_))));
    assert!(matches!(parse_list_page(r#"{"data":3}"#), Err(SyncError::ParseError(_))));
    assert!(matches!(
        parse_list_page(r#"{"data":[{"id":1}]}"#),
        Err(SyncError::ParseError(_))
    ));
    assert!(matches!(
        parse_list_page(r#"{"data":[{"name":"x"}]}"#),
        Err(SyncError::ParseError(_))
    ));
    assert!(matches!(
        parse_list_page(r#"{"data":[{"id":"4x4","name":"x"}]}"#),
        Err(SyncError::ParseError(_))
    ));
}

#[test]
fn created_id_parses_number_or_digit_string() {
    assert_eq!(parse_created_id(r#"{"id":123}"#).unwrap(), 123);
    assert_eq!(parse_created_id(r#"{"id":"456"}"#).unwrap(), 456);
    assert!(matches!(parse_created_id(r#"{}"#), Err(SyncError::ParseError(_))));
    assert!(matches!(parse_created_id(r#"{"id":true}"#), Err(SyncError::ParseError(_))));
}

#[test]
fn upload_submit_completed_immediately() {
    let body = r#"{"done":true,"response":{"assetId":"777"}}"#;
    match parse_upload_submit(body).unwrap() {
        UploadStart::Completed(id) => assert_eq!(id, 777),
        _ => panic!("expected a completed upload"),
    }
}

#[test]
fn upload_submit_pending_handle() {
    let body = r#"{"path":"operations/xyz"}"#;
    match parse_upload_submit(body).unwrap() {
        UploadStart::Pending(p) => assert_eq!(p, "operations/xyz"),
        _ => panic!("expected a pending operation"),
    }
}

#[test]
fn upload_submit_done_without_id_still_polls_path() {
    let body = r#"{"done":true,"path":"operations/xyz"}"#;
    assert!(matches!(
        parse_upload_submit(body).unwrap(),
        UploadStart::Pending(_)
    ));
}

#[test]
fn upload_submit_without_path_is_an_error() {
    assert!(matches!(
        parse_upload_submit(r#"{"done":false}"#),
        Err(SyncError::ParseError(_))
    ));
}

#[test]
fn ill_typed_done_flag_is_a_parse_error() {
    assert!(matches!(
        parse_upload_submit(r#"{"done":"yes","path":"operations/xyz"}"#),
        Err(SyncError::ParseError(_))
    ));
    assert!(matches!(
        parse_poll(r#"{"done":1}"#),
        Err(SyncError::ParseError(_))
    ));
}

#[test]
fn ill_typed_asset_id_is_a_parse_error() {
    assert!(matches!(
        parse_upload_submit(r#"{"done":true,"response":{"assetId":true}}"#),
        Err(SyncError::ParseError(_))
    ));
    assert!(matches!(
        parse_poll(r#"{"done":true,"response":{"assetId":"4x"}}"#),
        Err(SyncError::ParseError(_))
    ));
}

#[test]
fn poll_reads_terminal_states() {
    let done = parse_poll(r#"{"done":true,"response":{"assetId":42}}"#).unwrap();
    assert!(done.done);
    assert_eq!(done.asset_id, Some(42));
    assert!(done.error_message.is_none());

    let pending = parse_poll(r#"{"done":false}"#).unwrap();
    assert!(!pending.done);
    assert_eq!(pending.asset_id, None);

    let failed = parse_poll(r#"{"done":true,"error":{"message":"bad image"}}"#).unwrap();
    assert_eq!(failed.error_message.as_deref(), Some("bad image"));

    let failed_blank = parse_poll(r#"{"error":{}}"#).unwrap();
    assert_eq!(failed_blank.error_message.as_deref(), Some("unknown error"));
}

#[test]
fn export_page_keeps_prices() {
    let body = r#"{"data":[{"id":1,"name":"a","price":30},{"id":2,"name":"b"}]}"#;
    let page = parse_export_page(body).expect("parses");
    assert_eq!(page.data[0].price, Some(30));
    assert_eq!(page.data[1].price, None);
}
