use hp_vendor::api::endpoints::EndpointMap;
use hp_vendor::api::http::Status;
use hp_vendor::api::template::fill;
use hp_vendor::api::{
    decode_download, decoded, describe_failure, err_from_resp, response, Api, ApiError,
    ErrorResponse, EventsResponse, EventsResponseDetail, Request, TokenResponse, BASE_URL,
};
use hp_vendor::event::{DeviceOSIds, EventPayload, Property, Taxonomy};

fn status(code: u16) -> Status {
    Status::new(code).unwrap()
}

fn ids() -> DeviceOSIds {
    DeviceOSIds { device_id: String::from("host-17"), os_install_uuid: String::from("os-42") }
}

fn endpoints() -> EndpointMap {
    let mut map = EndpointMap::new();
    map.insert(
        String::from("DataUpload"),
        String::from("POST"),
        String::from("/data/upload/{dID}?os={osID}"),
    );
    map.insert(
        String::from("DataDownload"),
        String::from("GET"),
        String::from("/data/{osID}/download/{dID}"),
    );
    map.insert(String::from("DataDelete"), String::from("DELETE"), String::from("/data/{dID}"));
    map.insert(String::from("Broken"), String::from("GE T"), String::from("/broken"));
    map.insert(String::from("Empty"), String::new(), String::from("/empty"));
    map
}

fn token_response(device_id: &str) -> TokenResponse {
    TokenResponse {
        detail: String::from("ok"),
        token: String::from("tok-123"),
        device_id: String::from(device_id),
        endpoints: endpoints(),
    }
}

fn session() -> Api {
    Api::new(ids(), status(200), Some(token_response("dev-9")), None).unwrap()
}

fn error(message: &str) -> Option<ErrorResponse> {
    Some(ErrorResponse { message: String::from(message) })
}

fn taxonomy() -> Taxonomy {
    Taxonomy::from_schema(vec![
        Property { name: String::from("hw_battery"), payload: String::from("Battery") },
        Property { name: String::from("hw_fan"), payload: String::from("Fan") },
    ])
    .unwrap()
}

fn payload(payload_type: &str, fields: &[u8]) -> EventPayload {
    EventPayload { payload_type: String::from(payload_type), fields: fields.to_vec() }
}

fn pair(name: &str, value: &str) -> (String, String) {
    (String::from(name), String::from(value))
}

#[test]
fn fill_replaces_both_placeholders() {
    assert_eq!(fill("/a/{dID}/b/{osID}/c", "D1", "O2"), "/a/D1/b/O2/c");
    assert_eq!(fill("{osID}{dID}", "D1", "O2"), "O2D1");
}

#[test]
fn fill_replaces_every_occurrence() {
    assert_eq!(fill("{dID}-{dID}-{osID}-{dID}", "x", "y"), "x-x-y-x");
}

#[test]
fn fill_does_not_read_a_value_again() {
    assert_eq!(fill("/a/{dID}/b/{osID}", "{osID}", "{dID}"), "/a/{osID}/b/{dID}");
    assert_eq!(fill("{dID}{osID}", "{osID}", "O"), "{osID}O");
    assert_eq!(fill("{dID}ID}", "{os", "O"), "{osID}");
}

#[test]
fn fill_keeps_plain_text_and_broken_placeholders() {
    assert_eq!(fill("/plain/path", "D", "O"), "/plain/path");
    assert_eq!(fill("", "D", "O"), "");
    assert_eq!(fill("{dID", "D", "O"), "{dID");
    assert_eq!(fill("{did}{OSID}{}", "D", "O"), "{did}{OSID}{}");
    assert_eq!(fill("{{dID}}", "D", "O"), "{D}");
    assert_eq!(fill("{osI{osID}", "D", "O"), "{osIO");
}

#[test]
fn fill_with_text_beyond_ascii() {
    assert_eq!(fill("/é/{dID}/ü", "ñ", "O"), "/é/ñ/ü");
}

#[test]
fn status_takes_three_digit_codes_only() {
    assert!(Status::new(99).is_none());
    assert!(Status::new(1000).is_none());
    assert!(Status::new(0).is_none());
    assert!(Status::new(u16::MAX).is_none());
    assert_eq!(Status::new(100).unwrap().as_u16(), 100);
    assert_eq!(Status::new(999).unwrap().as_u16(), 999);
}

#[test]
fn status_success_is_the_two_hundreds() {
    assert!(!status(199).is_success());
    assert!(status(200).is_success());
    assert!(status(204).is_success());
    assert!(status(299).is_success());
    assert!(!status(300).is_success());
    assert!(!status(404).is_success());
    assert!(!status(500).is_success());
}

#[test]
fn status_text_has_code_and_reason() {
    assert_eq!(status(200).text(), "200 OK");
    assert_eq!(status(404).text(), "404 Not Found");
    assert_eq!(status(799).text(), "799 <unknown status code>");
}

#[test]
fn status_text_agrees_with_the_http_crate() {
    for code in [100u16, 201, 302, 400, 418, 503, 999] {
        let expected = reqwest::StatusCode::from_u16(code).unwrap().to_string();
        assert_eq!(status(code).text(), expected);
    }
}

#[test]
fn structured_error_has_status_and_message() {
    let text = err_from_resp(status(400), error("bad input"));
    assert!(text.contains("400"));
    assert!(text.contains("bad input"));
    assert_eq!(text, "400 Bad Request: bad input");
}

#[test]
fn unstructured_error_has_the_status_only() {
    let text = err_from_resp(status(400), None);
    assert_eq!(text, "400 Bad Request");
    let text = err_from_resp(status(503), None);
    assert_eq!(text, "503 Service Unavailable");
}

#[test]
fn describe_failure_joins_with_colon_and_space() {
    assert_eq!(describe_failure("418 I'm a teapot", &error("short and stout")), "418 I'm a teapot: short and stout");
    assert_eq!(describe_failure("418 I'm a teapot", &None), "418 I'm a teapot");
    assert_eq!(describe_failure("", &error("")), ": ");
}

#[test]
fn response_with_success_gives_the_body() {
    let body = response(status(200), vec![1, 2, 3], None).unwrap();
    assert_eq!(body, vec![1, 2, 3]);
    let body = response(status(204), Vec::new(), error("ignored")).unwrap();
    assert_eq!(body, Vec::<u8>::new());
}

#[test]
fn response_without_success_gives_the_failure() {
    match response(status(400), b"{\"message\":\"bad input\"}".to_vec(), error("bad input")) {
        Err(ApiError::Request { text }) => assert_eq!(text, "400 Bad Request: bad input"),
        other => panic!("unexpected: {:?}", other.map(|_| ())),
    }
    match response(status(500), b"<html>".to_vec(), None) {
        Err(ApiError::Request { text }) => assert_eq!(text, "500 Internal Server Error"),
        other => panic!("unexpected: {:?}", other.map(|_| ())),
    }
}

#[test]
fn timeout_is_half_a_minute() {
    assert_eq!(hp_vendor::api::TIMEOUT_SECS, 30);
}

#[test]
fn bootstrap_posts_the_identity_to_the_token_endpoint() {
    let request: Request = Api::bootstrap(b"{\"id\":1}".to_vec());
    assert_eq!(request.method, "POST");
    assert_eq!(request.url, format!("{}/data/token", BASE_URL));
    assert_eq!(request.url, "API_URL/data/token");
    assert!(request.headers.is_empty());
    assert!(request.query.is_empty());
    assert_eq!(request.body, Some(b"{\"id\":1}".to_vec()));
}

#[test]
fn new_opens_a_session_on_success() {
    let api = Api::new(ids(), status(200), Some(token_response("dev-9")), None);
    assert!(api.is_ok());
    let api = Api::new(ids(), status(201), Some(token_response("dev-9")), error("ignored"));
    assert!(api.is_ok());
}

#[test]
fn new_fails_with_the_reported_failure() {
    match Api::new(ids(), status(401), None, error("unknown device")) {
        Err(ApiError::Authentication { text }) => assert_eq!(text, "401 Unauthorized: unknown device"),
        _ => panic!("the bootstrap should have failed"),
    }
    match Api::new(ids(), status(403), Some(token_response("dev-9")), None) {
        Err(ApiError::Authentication { text }) => assert_eq!(text, "403 Forbidden"),
        _ => panic!("the bootstrap should have failed"),
    }
}

#[test]
fn new_fails_on_a_success_without_a_token_response() {
    assert!(matches!(Api::new(ids(), status(200), None, None), Err(ApiError::Decode)));
    assert!(matches!(Api::new(ids(), status(200), None, error("odd")), Err(ApiError::Decode)));
}

#[test]
fn url_resolves_method_and_address() {
    let api = session();
    let (method, url) = api.url("DataUpload").unwrap();
    assert_eq!(method, "POST");
    assert_eq!(url, "API_URL/data/upload/dev-9?os=os-42");
    let (method, url) = api.url("DataDownload").unwrap();
    assert_eq!(method, "GET");
    assert_eq!(url, "API_URL/data/os-42/download/dev-9");
    assert_eq!(reqwest::Method::from_bytes(method.as_bytes()).unwrap(), reqwest::Method::GET);
}

#[test]
fn url_uses_the_assigned_device_id_not_the_host_one() {
    let api = session();
    let (_, url) = api.url("DataDelete").unwrap();
    assert_eq!(url, "API_URL/data/dev-9");
    assert!(!url.contains("host-17"));
}

#[test]
fn url_substitution_is_independent() {
    let api = Api::new(
        DeviceOSIds { device_id: String::from("h"), os_install_uuid: String::from("{dID}") },
        status(200),
        Some(token_response("{osID}")),
        None,
    )
    .unwrap();
    let (_, url) = api.url("DataDownload").unwrap();
    assert_eq!(url, "API_URL/data/{dID}/download/{osID}");
}

#[test]
fn url_of_an_unknown_name() {
    let api = session();
    match api.url("DataRename") {
        Err(ApiError::EndpointNotConfigured { name }) => assert_eq!(name, "DataRename"),
        _ => panic!("the name should not resolve"),
    }
    assert!(matches!(api.url(""), Err(ApiError::EndpointNotConfigured { .. })));
    assert!(matches!(api.url("dataupload"), Err(ApiError::EndpointNotConfigured { .. })));
}

#[test]
fn url_of_an_invalid_method() {
    let api = session();
    match api.url("Broken") {
        Err(ApiError::InvalidMethod { method }) => assert_eq!(method, "GE T"),
        _ => panic!("the method should be refused"),
    }
    match api.url("Empty") {
        Err(ApiError::InvalidMethod { method }) => assert_eq!(method, ""),
        _ => panic!("the method should be refused"),
    }
}

#[test]
fn url_accepts_every_method_character() {
    let mut map = EndpointMap::new();
    map.insert(String::from("Odd"), String::from("aZ09!*+-.^_`|~"), String::from("/odd"));
    for (i, bad) in ["G#T", "G$T", "G%T", "G&T", "G'T", "GÉT", "G/T", "G\tT", "G{T", "G}T"].iter().enumerate() {
        map.insert(format!("Bad{}", i), String::from(*bad), String::from("/bad"));
    }
    let api = Api::new(
        ids(),
        status(200),
        Some(TokenResponse {
            detail: String::new(),
            token: String::from("t"),
            device_id: String::from("d"),
            endpoints: map,
        }),
        None,
    )
    .unwrap();
    let (method, _) = api.url("Odd").unwrap();
    assert_eq!(method, "aZ09!*+-.^_`|~");
    for i in 0..10 {
        assert!(matches!(api.url(&format!("Bad{}", i)), Err(ApiError::InvalidMethod { .. })));
    }
}

#[test]
fn request_carries_token_query_and_body() {
    let api = session();
    let request = api
        .request("DataUpload", vec![pair("a", "1"), pair("b", "2")], Some(b"[]".to_vec()))
        .unwrap();
    assert_eq!(request.method, "POST");
    assert_eq!(request.url, "API_URL/data/upload/dev-9?os=os-42");
    assert_eq!(request.headers, vec![pair("authorizationToken", "tok-123")]);
    assert_eq!(request.query, vec![pair("a", "1"), pair("b", "2")]);
    assert_eq!(request.body, Some(b"[]".to_vec()));
}

#[test]
fn request_fails_as_url_does() {
    let api = session();
    assert!(matches!(
        api.request("Nope", Vec::new(), None),
        Err(ApiError::EndpointNotConfigured { .. })
    ));
    assert!(matches!(api.request("Broken", Vec::new(), None), Err(ApiError::InvalidMethod { .. })));
}

#[test]
fn upload_sends_the_batch_to_data_upload() {
    let api = session();
    let taxonomy = taxonomy();
    let batch = vec![
        taxonomy.lift(payload("Battery", b"{\"ct\":3}")).ok().unwrap(),
        taxonomy.lift(payload("Fan", b"{}")).ok().unwrap(),
    ];
    let request = api.upload(&taxonomy, &batch).unwrap();
    assert_eq!(request.method, "POST");
    assert_eq!(request.url, "API_URL/data/upload/dev-9?os=os-42");
    assert_eq!(request.headers, vec![pair("authorizationToken", "tok-123")]);
    assert!(request.query.is_empty());
    assert_eq!(request.body, Some(b"[{\"hw_battery\":{\"ct\":3}},{\"hw_fan\":{}}]".to_vec()));
}

#[test]
fn upload_of_an_empty_batch() {
    let request = session().upload(&taxonomy(), &Vec::new()).unwrap();
    assert_eq!(request.body, Some(b"[]".to_vec()));
}

#[test]
fn download_selects_the_file_format() {
    let api = session();
    let zipped = api.download(true).unwrap();
    assert_eq!(zipped.method, "GET");
    assert_eq!(zipped.url, "API_URL/data/os-42/download/dev-9");
    assert_eq!(zipped.query, vec![pair("fileFormat", "ZIP")]);
    assert_eq!(zipped.body, None);
    let plain = api.download(false).unwrap();
    assert_eq!(plain.query, vec![pair("fileFormat", "JSON")]);
    assert_eq!(plain.headers, vec![pair("authorizationToken", "tok-123")]);
    assert_eq!(plain.body, None);
}

#[test]
fn delete_has_no_body() {
    let api = session();
    let request = api.delete().unwrap();
    assert_eq!(request.method, "DELETE");
    assert_eq!(request.url, "API_URL/data/dev-9");
    assert_eq!(request.headers, vec![pair("authorizationToken", "tok-123")]);
    assert!(request.query.is_empty());
    assert_eq!(request.body, None);
}

#[test]
fn operations_fail_without_their_endpoint() {
    let api = Api::new(
        ids(),
        status(200),
        Some(TokenResponse {
            detail: String::new(),
            token: String::from("t"),
            device_id: String::from("d"),
            endpoints: EndpointMap::new(),
        }),
        None,
    )
    .unwrap();
    match api.upload(&taxonomy(), &Vec::new()) {
        Err(ApiError::EndpointNotConfigured { name }) => assert_eq!(name, "DataUpload"),
        _ => panic!("upload should not resolve"),
    }
    match api.download(true) {
        Err(ApiError::EndpointNotConfigured { name }) => assert_eq!(name, "DataDownload"),
        _ => panic!("download should not resolve"),
    }
    match api.delete() {
        Err(ApiError::EndpointNotConfigured { name }) => assert_eq!(name, "DataDelete"),
        _ => panic!("delete should not resolve"),
    }
}

#[test]
fn compressed_download_is_decoded() {
    let bytes = decode_download(true, b"aGVsbG8gd29ybGQ=".to_vec()).unwrap();
    assert_eq!(bytes, b"hello world".to_vec());
    let bytes = decode_download(true, b"UEsDBAoAAAAAAA==".to_vec()).unwrap();
    assert_eq!(bytes, vec![0x50, 0x4b, 0x03, 0x04, 0x0a, 0, 0, 0, 0, 0]);
    let bytes = decode_download(true, Vec::new()).unwrap();
    assert_eq!(bytes, Vec::<u8>::new());
}

#[test]
fn plain_download_is_unchanged() {
    let bytes = decode_download(false, b"aGVsbG8gd29ybGQ=".to_vec()).unwrap();
    assert_eq!(bytes, b"aGVsbG8gd29ybGQ=".to_vec());
    let bytes = decode_download(false, b"not base64 at all!".to_vec()).unwrap();
    assert_eq!(bytes, b"not base64 at all!".to_vec());
}

#[test]
fn malformed_compressed_download_is_a_decode_failure() {
    assert!(matches!(decode_download(true, b"aGVsbG8*".to_vec()), Err(ApiError::Decode)));
    assert!(matches!(decode_download(true, b"a".to_vec()), Err(ApiError::Decode)));
    assert!(matches!(decode_download(true, b"aGVsbG8gd29ybGQ=\n".to_vec()), Err(ApiError::Decode)));
    assert!(matches!(decode_download(true, b"YQ==YQ==".to_vec()), Err(ApiError::Decode)));
}

#[test]
fn decoded_maps_the_decoder_error() {
    assert!(matches!(decoded(Err(base64::DecodeError::InvalidLength)), Err(ApiError::Decode)));
    assert!(matches!(decoded(Err(base64::DecodeError::InvalidByte(3, b'*'))), Err(ApiError::Decode)));
    assert_eq!(decoded(Ok(vec![9, 8])).unwrap(), vec![9, 8]);
}

#[test]
fn endpoint_map_binds_and_replaces() {
    let mut map = EndpointMap::new();
    assert!(map.get("a").is_none());
    map.insert(String::from("a"), String::from("GET"), String::from("/1"));
    map.insert(String::from("b"), String::from("PUT"), String::from("/2"));
    {
        let (method, template) = map.get("a").unwrap();
        assert_eq!(method, "GET");
        assert_eq!(template, "/1");
    }
    map.insert(String::from("a"), String::from("POST"), String::from("/3"));
    let (method, template) = map.get("a").unwrap();
    assert_eq!(method, "POST");
    assert_eq!(template, "/3");
    let (method, template) = map.get("b").unwrap();
    assert_eq!(method, "PUT");
    assert_eq!(template, "/2");
    assert!(map.get("c").is_none());
    assert!(map.get("A").is_none());
}

#[test]
fn events_response_holds_its_details() {
    let detail = EventsResponseDetail {
        loc: (
            String::from("body"),
            String::from("data"),
            3,
            String::from("hw_battery"),
            String::from("ct"),
        ),
        msg: String::from("field required"),
        type_: String::from("value_error.missing"),
    };
    let response = EventsResponse { detail: vec![detail] };
    assert_eq!(response.detail.len(), 1);
    assert_eq!(response.detail[0].loc.2, 3);
    assert_eq!(response.detail[0].type_, "value_error.missing");
}
