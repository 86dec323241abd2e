use orthanc_cli::connection::{get_password, get_server_address, get_username, Connection};
use orthanc_cli::diagnostic::{settle_reply, classify_status, io_failure, Diagnostic, ErrorKind, Reply};
use orthanc_cli::hierarchy::{
    delete_request, download_request, finish_download, finish_record, finish_unit, list_request,
    partial_path, save_step, show_request, tags_request, ResourceKind, SaveEvent, SaveStep,
};
use orthanc_cli::modality::{
    echo_request, modality_body, modality_delete_request, modality_list_request,
    modality_show_request, parse_port, store_report, store_request, ModalityRecord,
};
use orthanc_cli::request::{request_url, Body, Method, Request};
use orthanc_cli::text::{decimal, json_string_of, parse_capped};
use orthanc_cli::transform::{
    finish_transform, transform_request, ConfigInput, TransformOp, TransformOutput,
};

const KINDS: [ResourceKind; 4] = [
    ResourceKind::Patient,
    ResourceKind::Study,
    ResourceKind::Series,
    ResourceKind::Instance,
];

fn answered(status: u16, body: &[u8]) -> Reply {
    Reply::Answered { status, body: body.to_vec() }
}

fn path(r: &Request) -> Vec<&str> {
    r.path.iter().map(|s| s.as_str()).collect()
}

#[test]
fn test_get_server() {
    let missing = || Err("environment variable not found".to_string());
    assert_eq!(get_server_address(Some("foo"), missing()).unwrap(), "foo".to_string());
    assert_eq!(
        get_server_address(None, missing()).unwrap_err(),
        Diagnostic::new(
            ErrorKind::Command,
            Some("Neither --server-address nor ORC_ORTHANC_ADDRESS are set".to_string()),
            Some("environment variable not found".to_string()),
        )
    );
    assert_eq!(get_server_address(None, Ok("bar".to_string())).unwrap(), "bar".to_string());
    assert_eq!(get_server_address(Some("baz"), Ok("bar".to_string())).unwrap(), "baz".to_string());
}

#[test]
fn test_get_username() {
    assert_eq!(get_username(Some("foo"), None).unwrap(), "foo".to_string());
    assert_eq!(get_username(None, None), None);
    assert_eq!(get_username(Some("foo"), Some("bar".to_string())).unwrap(), "foo".to_string());
    assert_eq!(get_username(None, Some("bar".to_string())).unwrap(), "bar".to_string());
}

#[test]
fn test_get_password() {
    assert_eq!(get_password(Some("foo"), None).unwrap(), "foo".to_string());
    assert_eq!(get_password(None, None), None);
    assert_eq!(get_password(Some("foo"), Some("bar".to_string())).unwrap(), "foo".to_string());
    assert_eq!(get_password(None, Some("bar".to_string())).unwrap(), "bar".to_string());
}

#[test]
fn explicit_value_wins_over_any_fallback() {
    for fallback in [None, Some(String::new()), Some("other".to_string())] {
        assert_eq!(get_username(Some("alice"), fallback.clone()), Some("alice".to_string()));
        assert_eq!(get_password(Some("secret"), fallback.clone()), Some("secret".to_string()));
        let f = fallback.ok_or_else(|| "unset".to_string());
        assert_eq!(get_server_address(Some("http://a:8042"), f).unwrap(), "http://a:8042");
    }
}

#[test]
fn connection_credentials_go_in_pairs() {
    let c = Connection::new("http://a".to_string(), Some("u".to_string()), Some("p".to_string()))
        .unwrap();
    assert_eq!(c.credentials, Some(("u".to_string(), "p".to_string())));
    let c = Connection::new("http://a".to_string(), None, None).unwrap();
    assert_eq!(c.credentials, None);
    assert_eq!(c.address, "http://a");
    let e = Connection::new("http://a".to_string(), Some("u".to_string()), None).unwrap_err();
    assert_eq!(e.kind, ErrorKind::Command);
    let e = Connection::new("http://a".to_string(), None, Some("p".to_string())).unwrap_err();
    assert_eq!(e.kind, ErrorKind::Command);
}

#[test]
fn statuses_are_classified() {
    assert_eq!(classify_status(200), None);
    assert_eq!(classify_status(204), None);
    assert_eq!(classify_status(299), None);
    assert_eq!(classify_status(401), Some(ErrorKind::Auth));
    assert_eq!(classify_status(403), Some(ErrorKind::Auth));
    assert_eq!(classify_status(404), Some(ErrorKind::NotFound));
    assert_eq!(classify_status(500), Some(ErrorKind::Server));
    assert_eq!(classify_status(302), Some(ErrorKind::Server));
    assert_eq!(classify_status(199), Some(ErrorKind::Server));
}

#[test]
fn failures_keep_their_text() {
    let d = settle_reply(answered(500, b"boom")).unwrap_err();
    assert_eq!(d.kind, ErrorKind::Server);
    assert_eq!(d.title(), "Server error");
    assert_eq!(d.detail, Some("boom".to_string()));
    assert_eq!(d.reason, Some("The archive answered with an unexpected status".to_string()));
    let d = settle_reply(answered(400, b"bad \xff")).unwrap_err();
    assert_eq!(d.detail, Some("bad \u{fffd}".to_string()));
    let d = settle_reply(Reply::Unreachable { detail: "connection refused".to_string() })
        .unwrap_err();
    assert_eq!(d.kind, ErrorKind::Network);
    assert_eq!(d.title(), "Network error");
    assert_eq!(d.detail, Some("connection refused".to_string()));
    let d = settle_reply(answered(401, b"")).unwrap_err();
    assert_eq!(d.kind, ErrorKind::Auth);
    assert_eq!(d.title(), "Authentication error");
    assert_eq!(settle_reply(answered(200, b"[1]")).unwrap(), b"[1]".to_vec());
}

#[test]
fn show_of_unknown_id_is_not_found() {
    for kind in KINDS {
        let r = show_request(kind, "unknown");
        assert_eq!(r.method, Method::Get);
        assert_eq!(path(&r), vec![kind.collection(), "unknown"]);
        let d = finish_record(answered(404, b"{}")).unwrap_err();
        assert_eq!(d.kind, ErrorKind::NotFound);
        assert_eq!(d.title(), "Not found");
    }
}

#[test]
fn list_requests() {
    let r = list_request(ResourceKind::Patient, None).unwrap();
    assert_eq!(path(&r), vec!["patients"]);
    let r = list_request(ResourceKind::Study, Some("pa1")).unwrap();
    assert_eq!(path(&r), vec!["patients", "pa1", "studies"]);
    let r = list_request(ResourceKind::Series, Some("s1")).unwrap();
    assert_eq!(path(&r), vec!["studies", "s1", "series"]);
    let r = list_request(ResourceKind::Instance, Some("x1")).unwrap();
    assert_eq!(path(&r), vec!["series", "x1", "instances"]);
    assert_eq!(r.body, Body::Empty);
    let e = list_request(ResourceKind::Patient, Some("pa1")).unwrap_err();
    assert_eq!(e.kind, ErrorKind::Validation);
}

#[test]
fn list_keeps_the_archive_order() {
    let body = b"[\"b\",\"a\",\"c\"]";
    assert_eq!(finish_record(answered(200, body)).unwrap(), body.to_vec());
}

#[test]
fn delete_and_tags_requests() {
    let r = delete_request(ResourceKind::Series, "s1");
    assert_eq!(r.method, Method::Delete);
    assert_eq!(path(&r), vec!["series", "s1"]);
    assert_eq!(finish_unit(answered(200, b"")), Ok(()));
    assert_eq!(finish_unit(answered(404, b"")).unwrap_err().kind, ErrorKind::NotFound);
    let r = tags_request("i1");
    assert_eq!(path(&r), vec!["instances", "i1", "tags"]);
}

#[test]
fn download_twice_gives_identical_bytes() {
    let payload: Vec<u8> = vec![0x50, 0x4b, 3, 4, 0, 255, 7];
    let first = download_request(ResourceKind::Study, "s1");
    let second = download_request(ResourceKind::Study, "s1");
    assert_eq!(first, second);
    assert_eq!(path(&first), vec!["studies", "s1", "archive"]);
    let a = finish_download(Reply::Answered { status: 200, body: payload.clone() }).unwrap();
    let b = finish_download(Reply::Answered { status: 200, body: payload.clone() }).unwrap();
    assert_eq!(a, b);
    assert_eq!(a, payload);
    assert_eq!(partial_path("/tmp/a.zip"), "/tmp/a.zip.part");
    assert_ne!(partial_path("/tmp/a.zip"), partial_path("/tmp/b.zip"));
    let r = download_request(ResourceKind::Instance, "i1");
    assert_eq!(path(&r), vec!["instances", "i1", "file"]);
}

#[test]
fn anonymize_patient_yields_new_resource() {
    let r = transform_request(TransformOp::Anonymize, ResourceKind::Patient, "pa1", ConfigInput::Absent)
        .unwrap();
    assert_eq!(r.method, Method::Post);
    assert_eq!(path(&r), vec!["patients", "pa1", "anonymize"]);
    assert_eq!(r.body, Body::Text("{}".to_string()));
    let record = b"{\"ID\":\"pa2\",\"Type\":\"Patient\"}".to_vec();
    let out = finish_transform(ResourceKind::Patient, answered(200, &record)).unwrap();
    assert_eq!(out, TransformOutput::NewResource(record));
}

#[test]
fn anonymize_instance_yields_payload() {
    let payload = vec![1u8, 2, 3, 4, 5, 6, 7, 8, 9];
    let out = finish_transform(ResourceKind::Instance, answered(200, &payload)).unwrap();
    match out {
        TransformOutput::RawPayload(bytes) => {
            assert_eq!(bytes.len(), payload.len());
            assert_eq!(bytes, payload);
        }
        TransformOutput::NewResource(_) => panic!("an instance gives no record"),
    }
    let d = finish_transform(ResourceKind::Instance, answered(400, b"bad config")).unwrap_err();
    assert_eq!(d.kind, ErrorKind::Server);
    assert_eq!(d.detail, Some("bad config".to_string()));
}

#[test]
fn modify_without_config_fails_first() {
    for kind in KINDS {
        let d = transform_request(TransformOp::Modify, kind, "x", ConfigInput::Absent).unwrap_err();
        assert_eq!(d.kind, ErrorKind::Configuration);
        assert_eq!(d.title(), "Configuration error");
    }
    let d = transform_request(
        TransformOp::Anonymize,
        ResourceKind::Study,
        "x",
        ConfigInput::Unreadable("No such file".to_string()),
    )
    .unwrap_err();
    assert_eq!(d.kind, ErrorKind::Configuration);
    assert_eq!(d.detail, Some("No such file".to_string()));
    let config = b"{\"Replace\":{\"PatientName\":\"X\"}}".to_vec();
    let r = transform_request(
        TransformOp::Modify,
        ResourceKind::Series,
        "s1",
        ConfigInput::Loaded(config.clone()),
    )
    .unwrap();
    assert_eq!(path(&r), vec!["series", "s1", "modify"]);
    assert_eq!(r.body, Body::Bytes(config));
}

#[test]
fn create_modality_with_bad_port_fails() {
    let d = ModalityRecord::new("M", "AET", "host", "not-a-port").unwrap_err();
    assert_eq!(d.kind, ErrorKind::Validation);
    assert_eq!(d.title(), "Validation error");
    assert_eq!(d.detail, Some("not-a-port".to_string()));
    let m = ModalityRecord::new("M", "AET", "host", "104").unwrap();
    assert_eq!(m.port, 104);
    let r = m.register_request();
    assert_eq!(r.method, Method::Put);
    assert_eq!(path(&r), vec!["modalities", "M"]);
    assert_eq!(r.body, Body::Text("{\"AET\":\"AET\",\"Host\":\"host\",\"Port\":104}".to_string()));
}

#[test]
fn port_bounds() {
    assert_eq!(parse_port("1"), Ok(1));
    assert_eq!(parse_port("65535"), Ok(65535));
    assert_eq!(parse_port("+80"), Ok(80));
    assert_eq!(parse_port("0080"), Ok(80));
    for bad in ["0", "65536", "", "+", "-1", "80a", " 80", "99999999999999999999"] {
        assert_eq!(parse_port(bad).unwrap_err().kind, ErrorKind::Validation, "{}", bad);
    }
    assert_eq!(parse_capped("123", 100), Some(100));
    assert_eq!(parse_capped("99", 100), Some(99));
}

#[test]
fn json_text() {
    assert_eq!(decimal(0), "0");
    assert_eq!(decimal(65535), "65535");
    assert_eq!(json_string_of("a\"b\\c\nd"), "\"a\\\"b\\\\c\\u000ad\"");
    assert_eq!(json_string_of("\u{1f}é"), "\"\\u001fé\"");
    assert_eq!(
        modality_body("A\"E", "h", 4242),
        "{\"AET\":\"A\\\"E\",\"Host\":\"h\",\"Port\":4242}"
    );
}

#[test]
fn modality_requests() {
    assert_eq!(path(&modality_list_request()), vec!["modalities"]);
    assert_eq!(path(&modality_show_request("M")), vec!["modalities", "M", "configuration"]);
    let r = modality_delete_request("M");
    assert_eq!(r.method, Method::Delete);
    assert_eq!(path(&r), vec!["modalities", "M"]);
    let r = echo_request("M");
    assert_eq!(r.method, Method::Post);
    assert_eq!(path(&r), vec!["modalities", "M", "echo"]);
    let r = store_request("M", "abc");
    assert_eq!(path(&r), vec!["modalities", "M", "store"]);
    assert_eq!(r.body, Body::Text("abc".to_string()));
}

#[test]
fn store_reports_each_push_in_order() {
    let ids: Vec<String> = vec!["A".to_string(), "B".to_string(), "C".to_string()];
    let replies = vec![answered(200, b"{}"), answered(500, b"push of B failed"), answered(200, b"{}")];
    let report = store_report(&ids, &replies);
    assert_eq!(report.rows.len(), 3);
    let got: Vec<&str> = report.rows.iter().map(|r| r.id.as_str()).collect();
    assert_eq!(got, vec!["A", "B", "C"]);
    assert!(report.rows[0].succeeded());
    assert!(!report.rows[1].succeeded());
    assert!(report.rows[2].succeeded());
    let e = report.rows[1].error.as_ref().unwrap();
    assert_eq!(e.kind, ErrorKind::Server);
    assert_eq!(e.detail, Some("push of B failed".to_string()));
    assert!(!report.succeeded);
}

#[test]
fn store_with_duplicates_and_all_success() {
    let ids: Vec<String> = vec!["A".to_string(), "A".to_string()];
    let replies = vec![answered(200, b""), answered(200, b"")];
    let report = store_report(&ids, &replies);
    assert!(report.succeeded);
    assert_eq!(report.rows.len(), 2);
    let empty = store_report(&Vec::new(), &Vec::new());
    assert!(empty.succeeded);
    assert!(empty.rows.is_empty());
}

#[test]
fn urls_join_segments() {
    let r = show_request(ResourceKind::Study, "s1");
    assert_eq!(request_url("http://localhost:8042", &r), "http://localhost:8042/studies/s1");
    let r = modality_list_request();
    assert_eq!(request_url("http://h", &r), "http://h/modalities");
}

#[test]
fn io_failures_keep_the_system_message() {
    let d = io_failure("Permission denied".to_string());
    assert_eq!(d.kind, ErrorKind::Io);
    assert_eq!(d.title(), "I/O error");
    assert_eq!(d.detail, Some("Permission denied".to_string()));
}

#[test]
fn saving_goes_through_the_partial_file() {
    assert_eq!(
        save_step("out.zip", SaveEvent::Written),
        SaveStep::Rename { from: "out.zip.part".to_string(), to: "out.zip".to_string() }
    );
    assert_eq!(save_step("out.zip", SaveEvent::Renamed), SaveStep::Finished);
    for event in [
        SaveEvent::WriteFailed("disk full".to_string()),
        SaveEvent::RenameFailed("disk full".to_string()),
    ] {
        match save_step("out.zip", event) {
            SaveStep::Discard { partial, error } => {
                assert_eq!(partial, "out.zip.part");
                assert_eq!(error.kind, ErrorKind::Io);
                assert_eq!(error.detail, Some("disk full".to_string()));
            }
            other => panic!("unexpected step {:?}", other),
        }
    }
}
