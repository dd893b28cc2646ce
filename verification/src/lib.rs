//! A typed client core for a JSON-over-HTTP web API that answers every call
//! with a uniform `ok`/`error`/`warnings` envelope. The verified library
//! builds authenticated requests, classifies each wire outcome by the
//! protocol's three-way branch (HTTP failure, envelope failure, success),
//! verifies inbound webhook signatures over raw bodies, and walks paginated
//! listings cursor by cursor. The asynchronous transport that performs the
//! wire calls lives outside, behind the connector contract.

mod connector;
mod envelope;
mod errors;
mod files;
mod json;
mod models;
mod request;
mod scroller;
mod signature;
mod text;

pub use connector::{
    basic_get_request_view, create_post_request, get_request_view, http_get_uri,
    http_get_with_client_secret, http_post_uri, json_content_type_header, opt_token_view,
    post_request_view, send_webapi_request, SlackClientHttpConnector, SlackClientReplayConnector,
    SlackClientSession,
};
pub use envelope::{
    decode_webapi_response, envelope_of, is_json_content_type, is_json_media_type,
    lemma_api_error_classification, lemma_http_error_classification, media_type_of,
    webapi_payload_of, webapi_result_view, wire_outcome_view, SlackEnvelopeMessage,
    SlackEnvelopeMessageView, SlackWireResponse, SlackWireResponseView,
};
pub use errors::{
    SlackClientApiError, SlackClientError, SlackClientErrorView, SlackClientHttpError,
    SlackClientProtocolError, SlackClientTransportError, SlackEventSignatureError,
    SlackSignatureErrorReason,
};
pub use files::{
    bool_rep, files_info_params, files_info_response_matches, files_list_params,
    files_list_response_matches, opt_datetime_of, opt_u16_rep, opt_u32_of, opt_u8_of,
    parse_files_info_response, parse_files_list_response, parse_slack_file,
    slack_file_fields_match, SlackApiFilesInfoRequest, SlackApiFilesInfoResponse,
    SlackApiFilesListRequest, SlackApiFilesListResponse,
};
pub use json::{
    json_array_field_of, json_bool_field_of, json_object_field_of, json_string_array_field_of,
    json_string_field_of, json_u64_field_of,
};
pub use models::{
    SlackApiToken, SlackApiTokenValue, SlackChannelId, SlackClientId, SlackClientSecret,
    SlackCursorId, SlackDateTime, SlackFile, SlackFileId, SlackSigningSecret, SlackTeamId,
    SlackTs, SlackUserId,
};
pub use request::{
    api_base_url, api_method_url, base64_of, basic_header_value, bearer_header_value,
    build_api_method_url, build_query_string, create_http_request, form_encoded_of,
    is_form_safe_char, query_string_of, setup_basic_auth_header, setup_token_auth_header,
    HttpMethod, HttpRequest, HttpRequestView,
};
pub use scroller::{
    collect_scrollable_pages, cursor_continues, lemma_scroll_all_pages,
    lemma_scroll_error_surfaces, pages_items, scroll_collect, SlackApiScrollablePage,
};
pub use signature::{
    constant_time_str_eq, expected_signature, hex_char, hex_encode, hex_of, hmac_sha256_of,
    lemma_signature_verification, signature_base_string, signature_verifies, timestamp_fresh,
    SlackEventSignatureVerifier,
};
pub use text::{
    all_dec_digits, comma_join, dec_digit_char, dec_digit_val, dec_rep, dec_val, is_dec_digit,
    join_with_commas, parse_u64,
};
