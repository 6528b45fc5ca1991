use rocket_mongo_file_center_raw_response::async_reader::{PollStep, ReadOutcome};
use rocket_mongo_file_center_raw_response::etag::is_etag_match;
use rocket_mongo_file_center_raw_response::{
    AsyncReader, CacheValidator, ClientValidator, FileCenterRawResponse, FileData, FileRecord,
    Lookup, RawResponse, ResponseBody,
};

fn validator(weak: bool, tag: &str) -> CacheValidator {
    CacheValidator::with_string(weak, tag.to_string()).expect("a valid tag")
}

fn report(data: FileData<u32>) -> FileRecord<u32> {
    FileRecord {
        file_name: "report.pdf".to_string(),
        mime_type: "application/pdf".to_string(),
        file_size: 1024,
        temporary: false,
        file_data: data,
    }
}

fn headers_of(r: RawResponse<u32>) -> (Vec<(String, String)>, ResponseBody<u32>) {
    match r {
        RawResponse::Full { headers, body } => {
            (headers.into_iter().map(|h| (h.name, h.value)).collect(), body)
        }
        RawResponse::NotModified => panic!("expected a full response"),
    }
}

fn header<'a>(headers: &'a [(String, String)], name: &str) -> Option<&'a str> {
    headers.iter().find(|(n, _)| n == name).map(|(_, v)| v.as_str())
}

fn fetch_and_respond(
    client: Option<&ClientValidator>,
    etag: Option<CacheValidator>,
    file_name: Option<String>,
    record: FileRecord<u32>,
) -> RawResponse<u32> {
    match FileCenterRawResponse::<u32>::from_object_id(client, etag, file_name) {
        Lookup::Ready(r) => r.respond(),
        Lookup::Fetch(pending) => {
            let r = pending.complete::<u32, ()>(Ok(Some(record))).unwrap().unwrap();
            r.respond()
        }
    }
}

#[test]
fn scenario_full_response_without_client_validator() {
    let r = fetch_and_respond(None, None, None, report(FileData::Stream(7)));
    let (headers, body) = headers_of(r);
    assert_eq!(
        headers,
        vec![
            (
                "Content-Disposition".to_string(),
                "inline; filename*=UTF-8''report.pdf".to_string()
            ),
            ("Content-Type".to_string(), "application/pdf".to_string()),
            ("Content-Length".to_string(), "1024".to_string()),
        ]
    );
    assert!(matches!(body, ResponseBody::Streamed(7)));
}

#[test]
fn scenario_matching_validator_is_not_modified_without_fetch() {
    let client = ClientValidator::with_etags(vec![validator(true, "tok")]);
    let lookup = FileCenterRawResponse::<u32>::from_object_id(
        Some(&client),
        Some(validator(true, "tok")),
        None,
    );
    match lookup {
        Lookup::Ready(r) => {
            assert!(r.file.is_none());
            assert!(r.etag.is_none());
            assert!(matches!(r.respond(), RawResponse::NotModified));
        }
        Lookup::Fetch(_) => panic!("a cache hit must not ask for the file"),
    }
}

#[test]
fn scenario_other_validator_fetches_the_file() {
    let client = ClientValidator::with_etags(vec![validator(true, "old")]);
    let lookup = FileCenterRawResponse::<u32>::from_object_id(
        Some(&client),
        Some(validator(true, "tok")),
        None,
    );
    match lookup {
        Lookup::Fetch(pending) => {
            let r = pending.complete::<u32, ()>(Ok(Some(report(FileData::Stream(1)))));
            let (headers, _) = headers_of(r.unwrap().unwrap().respond());
            assert_eq!(header(&headers, "Etag"), Some("W/\"tok\""));
            assert_eq!(header(&headers, "Content-Length"), Some("1024"));
        }
        Lookup::Ready(_) => panic!("a different validator must not be a cache hit"),
    }
}

#[test]
fn scenario_missing_file_is_not_found() {
    let lookup = FileCenterRawResponse::<u32>::from_object_id(None, None, None);
    match lookup {
        Lookup::Fetch(pending) => {
            let r = pending.complete::<u32, ()>(Ok(None));
            assert!(matches!(r, Ok(None)));
        }
        Lookup::Ready(_) => panic!("expected a fetch"),
    }
}

#[test]
fn fetch_error_is_passed_on() {
    match FileCenterRawResponse::<u32>::from_object_id(None, None, None) {
        Lookup::Fetch(pending) => {
            let r = pending.complete::<u32, &str>(Err("storage down"));
            assert!(matches!(r, Err("storage down")));
        }
        Lookup::Ready(_) => panic!("expected a fetch"),
    }
}

#[test]
fn scenario_non_ascii_name_is_percent_encoded() {
    let mut record = report(FileData::Stream(0));
    record.file_name = "é“.jpg".to_string();
    let (headers, _) = headers_of(fetch_and_respond(None, None, None, record));
    assert_eq!(
        header(&headers, "Content-Disposition"),
        Some("inline; filename*=UTF-8''%C3%A9%E2%80%9C.jpg")
    );
}

#[test]
fn scenario_empty_names_give_no_disposition() {
    let mut record = report(FileData::Stream(0));
    record.file_name = String::new();
    let (headers, _) =
        headers_of(fetch_and_respond(None, None, Some(String::new()), record));
    assert_eq!(header(&headers, "Content-Disposition"), None);
    assert_eq!(headers.len(), 2);
}

#[test]
fn empty_override_falls_back_to_stored_name() {
    let (headers, _) = headers_of(fetch_and_respond(
        None,
        None,
        Some(String::new()),
        report(FileData::Stream(0)),
    ));
    assert_eq!(
        header(&headers, "Content-Disposition"),
        Some("inline; filename*=UTF-8''report.pdf")
    );
}

#[test]
fn override_name_is_used_and_escaped() {
    let (headers, _) = headers_of(fetch_and_respond(
        None,
        None,
        Some("a b/c.txt".to_string()),
        report(FileData::Stream(0)),
    ));
    assert_eq!(
        header(&headers, "Content-Disposition"),
        Some("inline; filename*=UTF-8''a%20b%2Fc.txt")
    );
}

#[test]
fn buffer_length_is_the_content_length() {
    let (headers, body) =
        headers_of(fetch_and_respond(None, None, None, report(FileData::Buffer(vec![1, 2, 3]))));
    assert_eq!(header(&headers, "Content-Length"), Some("3"));
    match body {
        ResponseBody::Sized(v) => assert_eq!(v, vec![1, 2, 3]),
        ResponseBody::Streamed(_) => panic!("expected a buffered body"),
    }
}

#[test]
fn headers_come_in_order_with_etag_first() {
    let (headers, _) = headers_of(fetch_and_respond(
        None,
        Some(validator(false, "v1")),
        None,
        report(FileData::Stream(0)),
    ));
    let names: Vec<&str> = headers.iter().map(|(n, _)| n.as_str()).collect();
    assert_eq!(names, vec!["Etag", "Content-Disposition", "Content-Type", "Content-Length"]);
    assert_eq!(header(&headers, "Etag"), Some("\"v1\""));
}

#[test]
fn equal_tags_match_whatever_the_strength() {
    let client = ClientValidator::with_etags(vec![validator(false, "abc")]);
    assert!(is_etag_match(Some(&client), Some(&validator(true, "abc"))));
    let client = ClientValidator::with_etags(vec![validator(true, "x"), validator(true, "abc")]);
    assert!(is_etag_match(Some(&client), Some(&validator(false, "abc"))));
    assert!(!is_etag_match(Some(&client), Some(&validator(false, "abd"))));
}

#[test]
fn no_server_validator_never_matches() {
    assert!(!is_etag_match(Some(&ClientValidator::wildcard()), None));
    assert!(!is_etag_match(Some(&ClientValidator::with_etags(vec![validator(true, "a")])), None));
    assert!(!is_etag_match(None, None));
}

#[test]
fn absent_client_validator_never_matches() {
    assert!(!is_etag_match(None, Some(&validator(true, "a"))));
    assert!(!is_etag_match(Some(&ClientValidator::absent()), Some(&validator(true, "a"))));
}

#[test]
fn wildcard_matches_any_server_validator() {
    assert!(is_etag_match(Some(&ClientValidator::wildcard()), Some(&validator(false, "zz"))));
}

#[test]
fn materializing_twice_gives_the_same_headers() {
    let etag = validator(true, "tok");
    let first = fetch_and_respond(None, Some(validator(true, "tok")), None, report(FileData::Stream(1)));
    let second = fetch_and_respond(None, Some(etag), None, report(FileData::Stream(2)));
    assert_eq!(headers_of(first).0, headers_of(second).0);
    let client = ClientValidator::with_etags(vec![validator(true, "tok")]);
    for _ in 0..2 {
        let r = fetch_and_respond(
            Some(&client),
            Some(validator(true, "tok")),
            None,
            report(FileData::Stream(1)),
        );
        assert!(matches!(r, RawResponse::NotModified));
    }
}

#[test]
fn id_token_gives_a_weak_validator() {
    let v = FileCenterRawResponse::<u32>::create_etag_by_id_token("AbC-_9".to_string()).unwrap();
    assert!(v.is_weak());
    assert_eq!(v.get_tag(), "AbC-_9");
    assert_eq!(v.to_header_value(), "W/\"AbC-_9\"");
}

#[test]
fn quoted_id_token_loses_its_quotes() {
    let v = FileCenterRawResponse::<u32>::create_etag_by_id_token("\"abc\"".to_string()).unwrap();
    assert_eq!(v.get_tag(), "abc");
}

#[test]
fn invalid_id_token_gives_no_validator() {
    assert!(FileCenterRawResponse::<u32>::create_etag_by_id_token("a b".to_string()).is_none());
    assert!(FileCenterRawResponse::<u32>::create_etag_by_id_token("\"abc".to_string()).is_none());
    let client = ClientValidator::absent();
    assert!(FileCenterRawResponse::<u32>::from_id_token(&client, "a\"b".to_string(), None).is_none());
}

#[test]
fn id_token_lookup_uses_the_token_as_validator() {
    let client = ClientValidator::with_etags(vec![validator(false, "tok")]);
    let lookup = FileCenterRawResponse::<u32>::from_id_token(&client, "tok".to_string(), None);
    assert!(matches!(lookup, Some(Lookup::Ready(_))));
    let client = ClientValidator::absent();
    match FileCenterRawResponse::<u32>::from_id_token(&client, "tok".to_string(), None) {
        Some(Lookup::Fetch(pending)) => {
            let etag = pending.etag.expect("the token's validator");
            assert_eq!(etag.to_header_value(), "W/\"tok\"");
        }
        _ => panic!("expected a fetch"),
    }
}

#[test]
fn temporary_flag_is_reported() {
    let mut record = report(FileData::Stream(0));
    record.temporary = true;
    let r = FileCenterRawResponse::from_file_item(None, record, None::<String>);
    assert_eq!(r.is_temporary(), Some(true));
    assert_eq!(FileCenterRawResponse::<u32>::not_modified().is_temporary(), None);
}

#[test]
fn poll_step_follows_the_read() {
    let reader = AsyncReader::from(5u8);
    assert_eq!(reader.0, 5);
    assert!(matches!(AsyncReader::<u8>::poll_read_step::<()>(ReadOutcome::Read(4)), PollStep::Advance(4)));
    assert!(matches!(AsyncReader::<u8>::poll_read_step::<()>(ReadOutcome::WouldBlock), PollStep::Pending));
    assert!(matches!(AsyncReader::<u8>::poll_read_step(ReadOutcome::Failed("e")), PollStep::Fail("e")));
}
