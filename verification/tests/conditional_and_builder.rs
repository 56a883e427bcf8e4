use kolomoni::builder::{construct_last_modified_header_value, EndpointResponseBuilder, ResponseHeader, ResponseHeaderName};
use kolomoni::conditional::{
    condition_echoing_last_modified, condition_from_parsed_date, if_modified_since_from_header, IfModifiedSinceHeaderError, OptionalIfModifiedSince,
};
use kolomoni::models::Timestamp;
use kolomoni::responses::EndpointError;

#[test]
fn absent_header_means_no_condition() {
    assert_eq!(if_modified_since_from_header(None), Ok(OptionalIfModifiedSince::Unspecified));
    let t = Timestamp { unix_seconds: 10, subsec_nanos: 0 };
    assert!(!OptionalIfModifiedSince::Unspecified.enabled_and_has_not_changed_since(&t));
}

#[test]
fn http_dates_are_read_to_whole_seconds() {
    assert_eq!(
        if_modified_since_from_header(Some(Some("Sun, 02 Oct 2016 14:44:11 GMT"))),
        Ok(OptionalIfModifiedSince::Specified(Timestamp { unix_seconds: 1475419451, subsec_nanos: 0 }))
    );
    assert_eq!(
        if_modified_since_from_header(Some(Some("Thu, 01 Jan 1970 00:00:00 GMT"))),
        Ok(OptionalIfModifiedSince::Specified(Timestamp { unix_seconds: 0, subsec_nanos: 0 }))
    );
}

#[test]
fn malformed_headers_are_refused() {
    assert_eq!(if_modified_since_from_header(Some(None)), Err(IfModifiedSinceHeaderError::NotVisibleAscii));
    assert_eq!(
        if_modified_since_from_header(Some(Some("yesterday"))),
        Err(IfModifiedSinceHeaderError::NotAnHttpDate)
    );
    assert_eq!(condition_from_parsed_date(None), Err(IfModifiedSinceHeaderError::NotAnHttpDate));
}

#[test]
fn not_modified_compares_whole_seconds() {
    let since = OptionalIfModifiedSince::new_specified(Timestamp { unix_seconds: 100, subsec_nanos: 900 });
    assert_eq!(since, OptionalIfModifiedSince::Specified(Timestamp { unix_seconds: 100, subsec_nanos: 0 }));
    assert!(since.enabled_and_has_not_changed_since(&Timestamp { unix_seconds: 100, subsec_nanos: 999_999_999 }));
    assert!(since.enabled_and_has_not_changed_since(&Timestamp { unix_seconds: 42, subsec_nanos: 0 }));
    assert!(!since.enabled_and_has_not_changed_since(&Timestamp { unix_seconds: 101, subsec_nanos: 0 }));
}

#[test]
fn echoing_last_modified_back_reports_not_modified() {
    let at = Timestamp { unix_seconds: 1475419451, subsec_nanos: 987_654_321 };
    let condition = condition_echoing_last_modified(&at).unwrap();
    assert_eq!(condition, OptionalIfModifiedSince::Specified(Timestamp { unix_seconds: 1475419451, subsec_nanos: 0 }));
    assert!(condition.enabled_and_has_not_changed_since(&at));
    let header = construct_last_modified_header_value(&at);
    assert_eq!(if_modified_since_from_header(Some(Some(header.as_str()))), Ok(condition));
}

#[test]
fn last_modified_header_is_an_http_date() {
    let at = Timestamp { unix_seconds: 1475419451, subsec_nanos: 123 };
    assert_eq!(construct_last_modified_header_value(&at), "Sun, 02 Oct 2016 14:44:11 GMT");
    let epoch = Timestamp { unix_seconds: 0, subsec_nanos: 0 };
    assert_eq!(construct_last_modified_header_value(&epoch), "Thu, 01 Jan 1970 00:00:00 GMT");
}

#[test]
fn builder_collects_status_headers_and_body() {
    let at = Timestamp { unix_seconds: 1475419451, subsec_nanos: 0 };
    let response = EndpointResponseBuilder::ok()
        .with_json_body(Ok(b"{\"ok\":true}".to_vec()))
        .with_last_modified_at(&at)
        .build()
        .unwrap();
    assert_eq!(response.status_code, 200);
    assert_eq!(response.body, Some(b"{\"ok\":true}".to_vec()));
    assert_eq!(
        response.headers,
        vec![
            ResponseHeader { name: ResponseHeaderName::ContentType, value: "application/json".into() },
            ResponseHeader { name: ResponseHeaderName::LastModified, value: "Sun, 02 Oct 2016 14:44:11 GMT".into() },
        ]
    );
    let reason = EndpointResponseBuilder::not_found().with_error_reason(Ok(b"{\"reason\":\"x\"}".to_vec())).build().unwrap();
    assert_eq!(reason.status_code, 404);
    assert_eq!(reason.headers, vec![ResponseHeader { name: ResponseHeaderName::ContentType, value: "application/json".into() }]);
    assert_eq!(reason.body, Some(b"{\"reason\":\"x\"}".to_vec()));
    let end_of_9999 = Timestamp { unix_seconds: 253402300799, subsec_nanos: 0 };
    assert_eq!(construct_last_modified_header_value(&end_of_9999), "Fri, 31 Dec 9999 23:59:59 GMT");
    let leap_day = Timestamp { unix_seconds: 951782400, subsec_nanos: 0 };
    assert_eq!(construct_last_modified_header_value(&leap_day), "Tue, 29 Feb 2000 00:00:00 GMT");
    let empty = EndpointResponseBuilder::not_modified().build().unwrap();
    assert_eq!(empty.status_code, 304);
    assert_eq!(empty.body, None);
    assert!(empty.headers.is_empty());
}

#[test]
fn builder_reports_serialisation_failures() {
    let failed = EndpointResponseBuilder::conflict().with_json_body(Err("key must be a string".into())).build();
    assert_eq!(failed, Err(EndpointError::InternalGenericError { description: "key must be a string".into() }));
    for (builder, status) in [
        (EndpointResponseBuilder::bad_request(), 400),
        (EndpointResponseBuilder::unauthorized(), 401),
        (EndpointResponseBuilder::forbidden(), 403),
        (EndpointResponseBuilder::not_found(), 404),
        (EndpointResponseBuilder::internal_server_error(), 500),
    ] {
        assert_eq!(builder.build().unwrap().status_code, status);
    }
}
