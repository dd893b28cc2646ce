use slack_morphism::{
    HttpMethod, SlackApiFilesInfoRequest, SlackApiFilesListRequest, SlackApiToken,
    SlackApiTokenValue, SlackChannelId, SlackClientError, SlackClientId, SlackClientReplayConnector,
    SlackClientSecret, SlackClientSession, SlackCursorId, SlackDateTime, SlackFileId,
    SlackWireResponse,
};

fn session_with(
    responses: Vec<Result<SlackWireResponse, String>>,
) -> SlackClientSession<SlackClientReplayConnector> {
    let mut connector = SlackClientReplayConnector::new();
    for r in responses {
        connector.enqueue(r);
    }
    SlackClientSession::new(
        connector,
        SlackApiToken::new(SlackApiTokenValue("SECRET-REDACTED".to_string())),
    )
}

fn json_response(body: &str) -> Result<SlackWireResponse, String> {
    Ok(SlackWireResponse {
        status: 200,
        content_type: Some("application/json; charset=utf-8".to_string()),
        body: body.to_string(),
    })
}

#[test]
fn files_info_sends_expected_get_and_decodes_file_id() {
    let mut session = session_with(vec![json_response(r#"{"ok":true,"file":{"id":"F123"}}"#)]);
    let req = SlackApiFilesInfoRequest::new(SlackFileId("F123".to_string()));
    let resp = session.files_info(&req).unwrap();
    assert_eq!(resp.file.as_ref().unwrap().id, SlackFileId("F123".to_string()));

    let sent = session.connector.requests();
    assert_eq!(sent.len(), 1);
    assert_eq!(sent[0].method, HttpMethod::Get);
    assert_eq!(sent[0].url, "https://slack.com/api/files.info?file=F123");
    assert!(sent[0].body.is_none());
    assert_eq!(
        sent[0].headers,
        vec![
            ("accept-charset".to_string(), "utf-8".to_string()),
            ("authorization".to_string(), "Bearer SECRET-REDACTED".to_string()),
        ]
    );
}

#[test]
fn files_info_envelope_error_yields_api_error() {
    let mut session = session_with(vec![json_response(r#"{"ok":false,"error":"file_not_found"}"#)]);
    let req = SlackApiFilesInfoRequest::new(SlackFileId("F404".to_string()));
    match session.files_info(&req) {
        Err(SlackClientError::ApiError(e)) => {
            assert_eq!(e.code, "file_not_found");
            assert!(e.warnings.is_none());
            assert_eq!(
                e.http_response_body.as_deref(),
                Some(r#"{"ok":false,"error":"file_not_found"}"#)
            );
        }
        other => panic!("expected an api error, got {:?}", other),
    }
}

#[test]
fn api_error_carries_warnings() {
    let mut session = session_with(vec![json_response(
        r#"{"ok":false,"error":"limited","warnings":["w1","w2"]}"#,
    )]);
    let req = SlackApiFilesInfoRequest::new(SlackFileId("F1".to_string()));
    match session.files_info(&req) {
        Err(SlackClientError::ApiError(e)) => {
            assert_eq!(e.code, "limited");
            assert_eq!(e.warnings, Some(vec!["w1".to_string(), "w2".to_string()]));
        }
        other => panic!("expected an api error, got {:?}", other),
    }
}

#[test]
fn non_200_status_yields_http_error_with_exact_status_and_body() {
    let mut session = session_with(vec![Ok(SlackWireResponse {
        status: 503,
        content_type: Some("application/json".to_string()),
        body: r#"{"ok":true}"#.to_string(),
    })]);
    let req = SlackApiFilesInfoRequest::new(SlackFileId("F1".to_string()));
    match session.files_info(&req) {
        Err(SlackClientError::HttpError(e)) => {
            assert_eq!(e.status_code, 503);
            assert_eq!(e.http_response_body.as_deref(), Some(r#"{"ok":true}"#));
        }
        other => panic!("expected an http error, got {:?}", other),
    }
}

#[test]
fn transport_failure_yields_transport_error() {
    let mut session = session_with(vec![Err("connection reset".to_string())]);
    let req = SlackApiFilesInfoRequest::new(SlackFileId("F1".to_string()));
    match session.files_info(&req) {
        Err(SlackClientError::TransportError(e)) => {
            assert_eq!(e.cause, "connection reset");
        }
        other => panic!("expected a transport error, got {:?}", other),
    }
}

#[test]
fn empty_200_body_yields_zero_value_response() {
    let mut session = session_with(vec![json_response("")]);
    let req = SlackApiFilesInfoRequest::new(SlackFileId("F1".to_string()));
    let resp = session.files_info(&req).unwrap();
    assert!(resp.file.is_none());
}

#[test]
fn non_json_content_type_at_200_yields_zero_value_response() {
    let mut session = session_with(vec![Ok(SlackWireResponse {
        status: 200,
        content_type: Some("text/html; charset=utf-8".to_string()),
        body: "<html></html>".to_string(),
    })]);
    let req = SlackApiFilesInfoRequest::new(SlackFileId("F1".to_string()));
    let resp = session.files_info(&req).unwrap();
    assert!(resp.file.is_none());
}

#[test]
fn absent_content_type_is_treated_as_json() {
    let mut session = session_with(vec![Ok(SlackWireResponse {
        status: 200,
        content_type: None,
        body: r#"{"ok":true,"file":{"id":"F9"}}"#.to_string(),
    })]);
    let req = SlackApiFilesInfoRequest::new(SlackFileId("F9".to_string()));
    let resp = session.files_info(&req).unwrap();
    assert_eq!(resp.file.unwrap().id, SlackFileId("F9".to_string()));
}

#[test]
fn unparseable_200_body_yields_protocol_error() {
    let mut session = session_with(vec![json_response("this is not json")]);
    let req = SlackApiFilesInfoRequest::new(SlackFileId("F1".to_string()));
    match session.files_info(&req) {
        Err(SlackClientError::ProtocolError(e)) => {
            assert_eq!(e.http_response_body, "this is not json");
        }
        other => panic!("expected a protocol error, got {:?}", other),
    }
}

#[test]
fn optional_parameters_are_formatted_and_omitted() {
    let mut session = session_with(vec![json_response(r#"{"ok":true}"#)]);
    let req = SlackApiFilesInfoRequest::new(SlackFileId("F7".to_string()))
        .opt_cursor(Some(SlackCursorId("cur1".to_string())));
    let req = SlackApiFilesInfoRequest { count: Some(42), ..req };
    session.files_info(&req).unwrap();
    let sent = session.connector.requests();
    assert_eq!(
        sent[0].url,
        "https://slack.com/api/files.info?file=F7&count=42&cursor=cur1"
    );
}

#[test]
fn parameter_values_are_form_urlencoded() {
    let mut session = session_with(vec![json_response(r#"{"ok":true}"#)]);
    let req = SlackApiFilesInfoRequest::new(SlackFileId("a b/c".to_string()));
    session.files_info(&req).unwrap();
    let sent = session.connector.requests();
    assert_eq!(sent[0].url, "https://slack.com/api/files.info?file=a+b%2Fc");
}

#[test]
fn files_list_builds_query_and_decodes_files() {
    let body = r#"{"ok":true,"files":[
        {"id":"F1","name":"one.txt","size":10,"created":1577836800,
         "editable":true,"channels":["C1","C2"]},
        {"id":"F2","title":"two"}
    ]}"#;
    let mut session = session_with(vec![json_response(body)]);
    let req = SlackApiFilesListRequest {
        channel: Some(SlackChannelId("C1".to_string())),
        types: Some(vec!["images".to_string(), "zips".to_string()]),
        ..SlackApiFilesListRequest::new()
    };
    let resp = session.files_list(&req).unwrap();
    let files = resp.files.unwrap();
    assert_eq!(files.len(), 2);
    assert_eq!(files[0].id, SlackFileId("F1".to_string()));
    assert_eq!(files[0].name.as_deref(), Some("one.txt"));
    assert_eq!(files[0].size, Some(10));
    assert_eq!(files[0].created, Some(SlackDateTime(1577836800)));
    assert_eq!(files[0].editable, Some(true));
    assert_eq!(
        files[0].channels,
        Some(vec![SlackChannelId("C1".to_string()), SlackChannelId("C2".to_string())])
    );
    assert_eq!(files[1].id, SlackFileId("F2".to_string()));
    assert_eq!(files[1].title.as_deref(), Some("two"));
    assert!(files[1].name.is_none());

    let sent = session.connector.requests();
    assert_eq!(
        sent[0].url,
        "https://slack.com/api/files.list?channel=C1&types=images%2Czips"
    );
}

#[test]
fn files_list_bool_parameter_is_sent_as_text() {
    let mut session = session_with(vec![json_response(r#"{"ok":true}"#)]);
    let req = SlackApiFilesListRequest {
        show_files_hidden_by_limit: Some(true),
        ..SlackApiFilesListRequest::new()
    };
    session.files_list(&req).unwrap();
    let sent = session.connector.requests();
    assert_eq!(
        sent[0].url,
        "https://slack.com/api/files.list?show_files_hidden_by_limit=true"
    );
}

#[test]
fn client_credential_get_uses_basic_auth() {
    let mut connector = SlackClientReplayConnector::new();
    connector.enqueue(json_response(r#"{"ok":true}"#));
    let r = slack_morphism::http_get_with_client_secret(
        &mut connector,
        "https://slack.com/api/oauth.access".to_string(),
        &SlackClientId("user".to_string()),
        &SlackClientSecret("pass".to_string()),
    );
    assert!(r.is_ok());
    let sent = connector.requests();
    assert_eq!(
        sent[0].headers,
        vec![
            ("accept-charset".to_string(), "utf-8".to_string()),
            ("authorization".to_string(), "Basic dXNlcjpwYXNz".to_string()),
        ]
    );
}

#[test]
fn post_sends_json_body_and_content_type() {
    let mut connector = SlackClientReplayConnector::new();
    connector.enqueue(json_response(r#"{"ok":true}"#));
    let token = SlackApiToken::new(SlackApiTokenValue("xoxb-a".to_string()));
    let r = slack_morphism::http_post_uri(
        &mut connector,
        "https://slack.com/api/files.delete".to_string(),
        r#"{"file":"F1"}"#.to_string(),
        Some(&token),
    );
    assert!(r.is_ok());
    let sent = connector.requests();
    assert_eq!(sent[0].method, HttpMethod::Post);
    assert_eq!(sent[0].body.as_deref(), Some(r#"{"file":"F1"}"#));
    assert_eq!(
        sent[0].headers,
        vec![
            ("accept-charset".to_string(), "utf-8".to_string()),
            ("content-type".to_string(), "application/json; charset=utf-8".to_string()),
            ("authorization".to_string(), "Bearer xoxb-a".to_string()),
        ]
    );
}

#[test]
fn with_new_cursor_replaces_only_the_cursor() {
    let req = SlackApiFilesInfoRequest {
        count: Some(5),
        ..SlackApiFilesInfoRequest::new(SlackFileId("F1".to_string()))
    };
    let next = req.with_new_cursor(Some(&SlackCursorId("c2".to_string())));
    assert_eq!(next.file, SlackFileId("F1".to_string()));
    assert_eq!(next.count, Some(5));
    assert_eq!(next.cursor, Some(SlackCursorId("c2".to_string())));
    let cleared = next.with_new_cursor(None);
    assert!(cleared.cursor.is_none());
}

#[test]
fn scroll_fetches_one_page_through_the_session() {
    let mut session = session_with(vec![json_response(r#"{"ok":true,"file":{"id":"F5"}}"#)]);
    let req = SlackApiFilesInfoRequest::new(SlackFileId("F5".to_string()));
    let resp = req.scroll(&mut session).unwrap();
    assert_eq!(resp.file.unwrap().id, SlackFileId("F5".to_string()));
}

#[test]
fn successful_envelope_decodes_without_loss_of_fields() {
    let body = r#"{"ok":true,"file":{
        "id":"F42","created":1531763254,"timestamp":1531763254,
        "name":"tedair.gif","title":"tedair","mimetype":"image/gif",
        "filetype":"gif","pretty_type":"GIF","user":"U061F7AUR",
        "editable":false,"size":137531,"mode":"hosted",
        "is_external":false,"external_type":"","is_public":true,
        "public_url_shared":false,"display_as_bot":false,"username":"bot",
        "url_private":"https://files.example/p","url_private_download":"https://files.example/d",
        "thumb_64":"https://files.example/t64","thumb_80":"https://files.example/t80",
        "thumb_360":"https://files.example/t360","thumb_360_w":176,"thumb_360_h":226,
        "thumb_160":"https://files.example/t160","thumb_360_gif":"https://files.example/tg",
        "image_exif_rotation":1,"original_w":176,"original_h":226,
        "deanimate_gif":"https://files.example/dg","pjpeg":"https://files.example/pj",
        "permalink":"https://example/permalink","permalink_public":"https://example/public",
        "comments_count":0,"channels":["C0T8SE4AU"],"groups":[],"ims":[]
    }}"#;
    let mut session = session_with(vec![json_response(body)]);
    let req = SlackApiFilesInfoRequest::new(SlackFileId("F42".to_string()));
    let file = session.files_info(&req).unwrap().file.unwrap();
    assert_eq!(file.id, SlackFileId("F42".to_string()));
    assert_eq!(file.created, Some(SlackDateTime(1531763254)));
    assert_eq!(file.timestamp, Some(SlackDateTime(1531763254)));
    assert_eq!(file.name.as_deref(), Some("tedair.gif"));
    assert_eq!(file.title.as_deref(), Some("tedair"));
    assert_eq!(file.mimetype.as_deref(), Some("image/gif"));
    assert_eq!(file.filetype.as_deref(), Some("gif"));
    assert_eq!(file.pretty_type.as_deref(), Some("GIF"));
    assert_eq!(file.user, Some(slack_morphism::SlackUserId("U061F7AUR".to_string())));
    assert_eq!(file.editable, Some(false));
    assert_eq!(file.size, Some(137531));
    assert_eq!(file.mode.as_deref(), Some("hosted"));
    assert_eq!(file.is_external, Some(false));
    assert_eq!(file.external_type.as_deref(), Some(""));
    assert_eq!(file.is_public, Some(true));
    assert_eq!(file.public_url_shared, Some(false));
    assert_eq!(file.display_as_bot, Some(false));
    assert_eq!(file.username.as_deref(), Some("bot"));
    assert_eq!(file.url_private.as_deref(), Some("https://files.example/p"));
    assert_eq!(file.url_private_download.as_deref(), Some("https://files.example/d"));
    assert_eq!(file.thumb_64.as_deref(), Some("https://files.example/t64"));
    assert_eq!(file.thumb_80.as_deref(), Some("https://files.example/t80"));
    assert_eq!(file.thumb_360.as_deref(), Some("https://files.example/t360"));
    assert_eq!(file.thumb_360_w, Some(176));
    assert_eq!(file.thumb_360_h, Some(226));
    assert_eq!(file.thumb_160.as_deref(), Some("https://files.example/t160"));
    assert_eq!(file.thumb_360_gif.as_deref(), Some("https://files.example/tg"));
    assert_eq!(file.image_exif_rotation, Some(1));
    assert_eq!(file.original_w, Some(176));
    assert_eq!(file.original_h, Some(226));
    assert_eq!(file.deanimate_gif.as_deref(), Some("https://files.example/dg"));
    assert_eq!(file.pjpeg.as_deref(), Some("https://files.example/pj"));
    assert_eq!(file.permalink.as_deref(), Some("https://example/permalink"));
    assert_eq!(file.permalink_public.as_deref(), Some("https://example/public"));
    assert_eq!(file.comments_count, Some(0));
    assert_eq!(file.channels, Some(vec![SlackChannelId("C0T8SE4AU".to_string())]));
    assert_eq!(file.groups, Some(vec![]));
    assert_eq!(file.ims, Some(vec![]));
}

#[test]
fn session_post_hits_the_method_url_with_the_json_body() {
    let mut session = session_with(vec![json_response(r#"{"ok":true}"#)]);
    let r = session.http_post("files.delete", r#"{"file":"F1"}"#.to_string());
    assert!(r.is_ok());
    let sent = session.connector.requests();
    assert_eq!(sent[0].url, "https://slack.com/api/files.delete");
    assert_eq!(sent[0].body.as_deref(), Some(r#"{"file":"F1"}"#));
}

#[test]
fn a_200_body_that_is_no_object_yields_protocol_error() {
    let mut session = session_with(vec![json_response("[1,2,3]")]);
    let req = SlackApiFilesInfoRequest::new(SlackFileId("F1".to_string()));
    match session.files_info(&req) {
        Err(SlackClientError::ProtocolError(e)) => {
            assert_eq!(e.http_response_body, "[1,2,3]");
        }
        other => panic!("expected a protocol error, got {:?}", other),
    }
}

#[test]
fn content_type_check_looks_only_at_the_media_type() {
    assert!(slack_morphism::is_json_content_type("application/json"));
    assert!(slack_morphism::is_json_content_type("application/json; charset=utf-8"));
    assert!(!slack_morphism::is_json_content_type("text/html; charset=utf-8"));
    assert!(!slack_morphism::is_json_content_type("application/jsonx"));
    assert!(!slack_morphism::is_json_content_type(""));
}

#[test]
fn parse_u64_reads_whole_decimal_numbers_only() {
    assert_eq!(slack_morphism::parse_u64("123"), Some(123));
    assert_eq!(slack_morphism::parse_u64("0"), Some(0));
    assert_eq!(slack_morphism::parse_u64(""), None);
    assert_eq!(slack_morphism::parse_u64("12a"), None);
    assert_eq!(slack_morphism::parse_u64("-1"), None);
    assert_eq!(slack_morphism::parse_u64("18446744073709551615"), Some(u64::MAX));
    assert_eq!(slack_morphism::parse_u64("18446744073709551616"), None);
}
