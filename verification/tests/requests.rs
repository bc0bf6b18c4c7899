//! The requests that the handlers build.

use x0rs::client::ApiVersion;
use x0rs::error::{ClientError, RequestError};
use x0rs::model::namespace::frame_invite;
use x0rs::transport::{prepare, user_agent, Header, Method, Request};
use x0rs::Client;

fn header(name: &str, value: &str) -> Header {
    Header { name: name.to_string(), value: value.to_string() }
}

#[test]
fn the_user_agent_names_the_library_and_its_version() {
    assert_eq!(user_agent(), "x0rs / 0.1.0");
}

#[test]
fn a_new_client_speaks_the_first_generation() {
    let client = Client::new("http://localhost:8080").unwrap();
    assert_eq!(client.base_uri, "http://localhost:8080");
    assert_eq!(client.version, ApiVersion::V1);
    let client = Client::with_version("http://localhost:8080", ApiVersion::V2).unwrap();
    assert_eq!(client.base_uri, "http://localhost:8080");
    assert_eq!(client.version, ApiVersion::V2);
}

#[test]
fn endpoints_are_the_base_the_prefix_and_the_path() {
    let first = Client::new("http://h").unwrap();
    assert_eq!(first.endpoint("/info"), "http://h/v1/info");
    assert_eq!(ApiVersion::V1.prefix(), "/v1");
    let second = Client::with_version("http://h", ApiVersion::V2).unwrap();
    assert_eq!(second.endpoint("/info"), "http://h/v2/info");
    assert_eq!(ApiVersion::V2.prefix(), "/v2");
}

#[test]
fn the_info_request_is_a_get_without_credential_or_body() {
    let client = Client::new("http://localhost:8080").unwrap();
    let request = client.info().get_request().unwrap();
    assert_eq!(
        request,
        Request {
            method: Method::Get,
            uri: "http://localhost:8080/v1/info".to_string(),
            headers: vec![header("User-Agent", "x0rs / 0.1.0")],
            body: vec![],
        }
    );
}

#[test]
fn the_get_request_sends_the_token_as_bearer_credential() {
    let client = Client::new("http://localhost:8080").unwrap();
    let request = client.namespace("mock-namespace", "mock-token").get_request().unwrap();
    assert_eq!(
        request,
        Request {
            method: Method::Get,
            uri: "http://localhost:8080/v1/namespaces/mock-namespace".to_string(),
            headers: vec![
                header("User-Agent", "x0rs / 0.1.0"),
                header("Authorization", "Bearer mock-token"),
            ],
            body: vec![],
        }
    );
}

#[test]
fn an_empty_token_is_sent_as_it_is() {
    let client = Client::new("http://localhost:8080").unwrap();
    let request = client.namespace("mock-namespace", "").get_request().unwrap();
    assert_eq!(request.headers[1], header("Authorization", "Bearer "));
}

#[test]
fn the_create_request_is_a_post_without_credential() {
    let client = Client::new("http://localhost:8080").unwrap();
    let handler = client.namespace("mock-namespace", "held");
    let request = handler.create_request(None).unwrap();
    assert_eq!(
        request,
        Request {
            method: Method::Post,
            uri: "http://localhost:8080/v1/namespaces/mock-namespace".to_string(),
            headers: vec![header("User-Agent", "x0rs / 0.1.0")],
            body: b"{}".to_vec(),
        }
    );
    let request = handler.create_request(Some("abc")).unwrap();
    assert_eq!(request.body, b"{\"invite\":\"abc\"}".to_vec());
    assert_eq!(request.headers, vec![header("User-Agent", "x0rs / 0.1.0")]);
}

#[test]
fn the_invite_code_is_written_as_a_json_string() {
    let client = Client::new("http://localhost:8080").unwrap();
    let handler = client.namespace("mock-namespace", "");
    let request = handler.create_request(Some("a\"b\\c\n")).unwrap();
    assert_eq!(request.body, b"{\"invite\":\"a\\\"b\\\\c\\n\"}".to_vec());
    let document: serde_json::Value = serde_json::from_slice(&request.body).unwrap();
    assert_eq!(document.get("invite").unwrap().as_str(), Some("a\"b\\c\n"));
}

#[test]
fn the_body_of_a_creation_frames_the_encoded_code() {
    assert_eq!(frame_invite(None), b"{}".to_vec());
    assert_eq!(frame_invite(Some(b"\"x\"")), b"{\"invite\":\"x\"}".to_vec());
    assert_eq!(frame_invite(Some(b"")), b"{\"invite\":}".to_vec());
}

#[test]
fn the_reset_request_is_a_post_under_the_held_token() {
    let client = Client::new("http://localhost:8080").unwrap();
    let request = client.namespace("mock-namespace", "mock-token").reset_token_request().unwrap();
    assert_eq!(
        request,
        Request {
            method: Method::Post,
            uri: "http://localhost:8080/v1/namespaces/mock-namespace/resettoken".to_string(),
            headers: vec![
                header("User-Agent", "x0rs / 0.1.0"),
                header("Authorization", "Bearer mock-token"),
            ],
            body: vec![],
        }
    );
}

#[test]
fn the_second_generation_has_its_own_prefix_on_every_path() {
    let client = Client::with_version("http://localhost:8080", ApiVersion::V2).unwrap();
    assert_eq!(client.info().get_request().unwrap().uri, "http://localhost:8080/v2/info");
    let handler = client.namespace("n", "t");
    assert_eq!(handler.get_request().unwrap().uri, "http://localhost:8080/v2/namespaces/n");
    assert_eq!(handler.create_request(None).unwrap().uri, "http://localhost:8080/v2/namespaces/n");
    assert_eq!(
        handler.reset_token_request().unwrap().uri,
        "http://localhost:8080/v2/namespaces/n/resettoken"
    );
}

#[test]
fn every_request_carries_the_user_agent() {
    let client = Client::new("http://localhost:8080").unwrap();
    let handler = client.namespace("mock-namespace", "mock-token");
    let requests = vec![
        client.info().get_request().unwrap(),
        handler.get_request().unwrap(),
        handler.create_request(None).unwrap(),
        handler.create_request(Some("code")).unwrap(),
        handler.reset_token_request().unwrap(),
    ];
    for request in requests {
        assert_eq!(request.headers[0], header("User-Agent", "x0rs / 0.1.0"));
    }
}

#[test]
fn the_identifier_is_not_validated() {
    let client = Client::new("http://localhost:8080").unwrap();
    let request = client.namespace("UPPER_and-0", "t").get_request().unwrap();
    assert_eq!(request.uri, "http://localhost:8080/v1/namespaces/UPPER_and-0");
}

#[test]
fn an_address_that_is_no_uri_is_a_request_error() {
    let client = Client::new("http://local host").unwrap();
    let expected = ClientError::HttpError(RequestError::InvalidUri);
    assert_eq!(client.info().get_request().unwrap_err(), expected);
    let handler = client.namespace("mock-namespace", "mock-token");
    assert_eq!(handler.get_request().unwrap_err(), expected);
    assert_eq!(handler.create_request(Some("code")).unwrap_err(), expected);
    assert_eq!(handler.reset_token_request().unwrap_err(), expected);
    let empty = Client::new("").unwrap();
    assert_eq!(
        prepare(Method::Get, String::new(), None, vec![]).unwrap_err(),
        ClientError::HttpError(RequestError::InvalidUri)
    );
    assert!(empty.info().get_request().is_ok());
}

#[test]
fn an_identifier_that_breaks_the_uri_is_a_request_error() {
    let client = Client::new("http://localhost:8080").unwrap();
    let handler = client.namespace("with space", "mock-token");
    assert_eq!(
        handler.get_request().unwrap_err(),
        ClientError::HttpError(RequestError::InvalidUri)
    );
}

#[test]
fn a_token_that_is_no_header_value_is_a_request_error() {
    let client = Client::new("http://localhost:8080").unwrap();
    let expected = ClientError::HttpError(RequestError::InvalidHeaderValue);
    assert_eq!(client.namespace("n", "line\nbreak").get_request().unwrap_err(), expected);
    assert_eq!(client.namespace("n", "del\u{7f}").reset_token_request().unwrap_err(), expected);
    assert_eq!(client.namespace("n", "nul\u{0}").get_request().unwrap_err(), expected);
    // a creation sends no credential, so the token is not judged
    assert!(client.namespace("n", "line\nbreak").create_request(None).is_ok());
}

#[test]
fn a_token_with_a_tab_or_a_letter_beyond_ascii_is_a_header_value() {
    let client = Client::new("http://localhost:8080").unwrap();
    let request = client.namespace("n", "a\tb").get_request().unwrap();
    assert_eq!(request.headers[1].value, "Bearer a\tb");
    let request = client.namespace("n", "clé").get_request().unwrap();
    assert_eq!(request.headers[1].value, "Bearer clé");
}

#[test]
fn the_address_is_judged_before_the_token() {
    let client = Client::new("http://local host").unwrap();
    let handler = client.namespace("n", "line\nbreak");
    assert_eq!(
        handler.get_request().unwrap_err(),
        ClientError::HttpError(RequestError::InvalidUri)
    );
}

#[test]
fn prepare_keeps_the_method_the_address_and_the_body() {
    let request =
        prepare(Method::Post, "http://h/p".to_string(), Some("t"), vec![1, 2, 3]).unwrap();
    assert_eq!(request.method, Method::Post);
    assert_eq!(request.method.as_str(), "POST");
    assert_eq!(Method::Get.as_str(), "GET");
    assert_eq!(request.uri, "http://h/p");
    assert_eq!(request.body, vec![1, 2, 3]);
    assert_eq!(
        request.headers,
        vec![header("User-Agent", "x0rs / 0.1.0"), header("Authorization", "Bearer t")]
    );
}

#[test]
fn the_token_builder_replaces_the_token_only() {
    let client = Client::new("http://localhost:8080").unwrap();
    let handler = client.namespace("mock-namespace", "first").token("second");
    assert_eq!(handler.id(), "mock-namespace");
    assert_eq!(handler.current_token(), "second");
    assert_eq!(handler.get_request().unwrap().headers[1].value, "Bearer second");
}
