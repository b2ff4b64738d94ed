use restate_opendal::service::{
    example_presign_response, BytesRange, CommonListRequest, ListOptionsDef, PresignRequest,
    ReadOptions, StatOptions, Timestamp,
};

#[test]
fn the_example_list_request_has_no_options() {
    let request = CommonListRequest::example();
    assert!(request.options.is_none());
}

#[test]
fn the_example_presign_request_is_one_hour() {
    let request: PresignRequest<ReadOptions> = PresignRequest::example();
    assert_eq!(request.expiration, 3600);
    assert!(request.options.is_none());
}

#[test]
fn the_example_presign_response_is_a_get() {
    let response = example_presign_response();
    assert_eq!(response.method, "GET");
    assert_eq!(response.uri, "https://example.com/path/to/file");
    assert!(response.headers.is_empty());
}

#[test]
fn option_values_carry_through() {
    let options = ListOptionsDef {
        limit: Some(100),
        start_after: Some("k".to_string()),
        recursive: true,
        versions: false,
        deleted: false,
    };
    let request = CommonListRequest { options: Some(options) };
    let options = request.options.unwrap();
    assert_eq!(options.limit, Some(100));
    assert!(options.recursive);

    let stat = StatOptions {
        version: None,
        if_match: Some("etag".to_string()),
        if_none_match: None,
        if_modified_since: Some(Timestamp { second: 1700000000, nanosecond: 0 }),
        if_unmodified_since: None,
        override_content_type: None,
        override_cache_control: None,
        override_content_disposition: None,
    };
    assert_eq!(stat.if_modified_since.unwrap().second, 1700000000);

    let range = BytesRange { offset: 1024, size: Some(2048) };
    assert_eq!(range.offset, 1024);
    assert_eq!(range.size, Some(2048));
}
