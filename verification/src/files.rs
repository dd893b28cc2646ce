use vstd::prelude::*;
use vstd::string::StringExecFns;

use crate::connector::{get_request_view, SlackClientHttpConnector, SlackClientSession};
use crate::envelope::webapi_payload_of;
use crate::errors::SlackClientError;
use crate::json::{
    json_array_field, json_array_field_of, json_bool_field, json_bool_field_of, json_object_field,
    json_object_field_of, json_string_array_field, json_string_array_field_of, json_string_field,
    json_string_field_of, json_u64_field, json_u64_field_of,
};
use crate::models::{
    SlackChannelId, SlackCursorId, SlackDateTime, SlackFile, SlackFileId, SlackTeamId, SlackTs,
    SlackUserId,
};
use crate::request::api_method_url;
use crate::text::{comma_join, dec_rep, join_with_commas, u16_to_string};

verus! {

/// The parameters of one `files.info` call; everything but the file
/// identifier is optional.
#[derive(Debug, Clone, PartialEq)]
pub struct SlackApiFilesInfoRequest {
    pub file: SlackFileId,
    pub count: Option<u16>,
    pub cursor: Option<SlackCursorId>,
    pub limit: Option<u16>,
    pub page: Option<u16>,
}

/// What a `files.info` call hands back.
#[derive(Debug, Clone, PartialEq)]
pub struct SlackApiFilesInfoResponse {
    pub file: Option<SlackFile>,
}

/// The parameters of one `files.list` call, all optional.
#[derive(Debug, Clone, PartialEq)]
pub struct SlackApiFilesListRequest {
    pub channel: Option<SlackChannelId>,
    pub count: Option<u16>,
    pub page: Option<u16>,
    pub show_files_hidden_by_limit: Option<bool>,
    pub team_id: Option<SlackTeamId>,
    pub ts_from: Option<SlackTs>,
    pub ts_to: Option<SlackTs>,
    pub types: Option<Vec<String>>,
    pub user: Option<SlackUserId>,
}

/// What a `files.list` call hands back.
#[derive(Debug, Clone, PartialEq)]
pub struct SlackApiFilesListResponse {
    pub files: Option<Vec<SlackFile>>,
}

/// The decimal text of an optional number parameter.
pub open spec fn opt_u16_rep(v: Option<u16>) -> Option<Seq<char>> {
    match v {
        Some(x) => Some(dec_rep(x as nat)),
        None => None,
    }
}

/// The text of an optional boolean parameter.
pub open spec fn bool_rep(b: bool) -> Seq<char> {
    if b {
        "true"@
    } else {
        "false"@
    }
}

fn u16_param(v: Option<u16>) -> (r: Option<String>)
    ensures
        r.deep_view() == opt_u16_rep(v),
{
    match v {
        Some(x) => Some(u16_to_string(x)),
        None => None,
    }
}

/// The ordered parameter list of a `files.info` call.
pub open spec fn files_info_params(req: SlackApiFilesInfoRequest) -> Seq<
    (Seq<char>, Option<Seq<char>>),
> {
    seq![
        ("file"@, Some(req.file.0@)),
        ("count"@, opt_u16_rep(req.count)),
        ("cursor"@, req.cursor.deep_view()),
        ("limit"@, opt_u16_rep(req.limit)),
        ("page"@, opt_u16_rep(req.page)),
    ]
}

fn files_info_params_vec(req: &SlackApiFilesInfoRequest) -> (r: Vec<(String, Option<String>)>)
    ensures
        r.deep_view() == files_info_params(*req),
{
    let mut params: Vec<(String, Option<String>)> = Vec::new();
    params.push((String::from_str("file"), Some(req.file.value().clone())));
    params.push((String::from_str("count"), u16_param(req.count)));
    params.push(
        (
            String::from_str("cursor"),
            match &req.cursor {
                Some(c) => Some(c.value().clone()),
                None => None,
            },
        ),
    );
    params.push((String::from_str("limit"), u16_param(req.limit)));
    params.push((String::from_str("page"), u16_param(req.page)));
    proof {
        assert(params.deep_view() =~= files_info_params(*req));
    }
    params
}

/// The ordered parameter list of a `files.list` call. The `count` parameter
/// is sent twice; the service reads either occurrence.
pub open spec fn files_list_params(req: SlackApiFilesListRequest) -> Seq<
    (Seq<char>, Option<Seq<char>>),
> {
    seq![
        ("channel"@, req.channel.deep_view()),
        ("count"@, opt_u16_rep(req.count)),
        ("page"@, opt_u16_rep(req.page)),
        (
            "show_files_hidden_by_limit"@,
            match req.show_files_hidden_by_limit {
                Some(b) => Some(bool_rep(b)),
                None => None,
            },
        ),
        ("team_id"@, req.team_id.deep_view()),
        ("ts_from"@, req.ts_from.deep_view()),
        ("ts_to"@, req.ts_to.deep_view()),
        ("user"@, req.user.deep_view()),
        ("count"@, opt_u16_rep(req.count)),
        (
            "types"@,
            match req.types {
                Some(xs) => Some(comma_join(xs.deep_view())),
                None => None,
            },
        ),
    ]
}

fn bool_to_string(b: bool) -> (r: String)
    ensures
        r@ == bool_rep(b),
{
    if b {
        String::from_str("true")
    } else {
        String::from_str("false")
    }
}

fn files_list_params_vec(req: &SlackApiFilesListRequest) -> (r: Vec<(String, Option<String>)>)
    ensures
        r.deep_view() == files_list_params(*req),
{
    let mut params: Vec<(String, Option<String>)> = Vec::new();
    params.push(
        (
            String::from_str("channel"),
            match &req.channel {
                Some(c) => Some(c.value().clone()),
                None => None,
            },
        ),
    );
    params.push((String::from_str("count"), u16_param(req.count)));
    params.push((String::from_str("page"), u16_param(req.page)));
    params.push(
        (
            String::from_str("show_files_hidden_by_limit"),
            match req.show_files_hidden_by_limit {
                Some(b) => Some(bool_to_string(b)),
                None => None,
            },
        ),
    );
    params.push(
        (
            String::from_str("team_id"),
            match &req.team_id {
                Some(t) => Some(t.value().clone()),
                None => None,
            },
        ),
    );
    params.push(
        (
            String::from_str("ts_from"),
            match &req.ts_from {
                Some(t) => Some(t.value().clone()),
                None => None,
            },
        ),
    );
    params.push(
        (
            String::from_str("ts_to"),
            match &req.ts_to {
                Some(t) => Some(t.value().clone()),
                None => None,
            },
        ),
    );
    params.push(
        (
            String::from_str("user"),
            match &req.user {
                Some(u) => Some(u.value().clone()),
                None => None,
            },
        ),
    );
    params.push((String::from_str("count"), u16_param(req.count)));
    params.push(
        (
            String::from_str("types"),
            match &req.types {
                Some(xs) => Some(join_with_commas(xs)),
                None => None,
            },
        ),
    );
    proof {
        assert(params.deep_view() =~= files_list_params(*req));
    }
    params
}

/// The number a counter field holds when it fits, read from an optional
/// whole-number JSON field.
pub open spec fn opt_u32_of(v: Option<u64>) -> Option<u32> {
    match v {
        Some(x) => if x <= u32::MAX {
            Some(x as u32)
        } else {
            None
        },
        None => None,
    }
}

pub open spec fn opt_u8_of(v: Option<u64>) -> Option<u8> {
    match v {
        Some(x) => if x <= u8::MAX {
            Some(x as u8)
        } else {
            None
        },
        None => None,
    }
}

pub open spec fn opt_datetime_of(v: Option<u64>) -> Option<SlackDateTime> {
    match v {
        Some(x) => Some(SlackDateTime(x)),
        None => None,
    }
}

fn opt_u32_field(s: &str, name: &str) -> (r: Option<u32>)
    ensures
        r == opt_u32_of(json_u64_field_of(s@, name@)),
{
    match json_u64_field(s, name) {
        Some(v) => if v <= u32::MAX as u64 {
            Some(v as u32)
        } else {
            None
        },
        None => None,
    }
}

fn opt_u8_field(s: &str, name: &str) -> (r: Option<u8>)
    ensures
        r == opt_u8_of(json_u64_field_of(s@, name@)),
{
    match json_u64_field(s, name) {
        Some(v) => if v <= u8::MAX as u64 {
            Some(v as u8)
        } else {
            None
        },
        None => None,
    }
}

fn opt_datetime_field(s: &str, name: &str) -> (r: Option<SlackDateTime>)
    ensures
        r == opt_datetime_of(json_u64_field_of(s@, name@)),
{
    match json_u64_field(s, name) {
        Some(v) => Some(SlackDateTime(v)),
        None => None,
    }
}

fn to_channel_ids(xs: Vec<String>) -> (r: Vec<SlackChannelId>)
    ensures
        r.deep_view() == xs.deep_view(),
{
    let ghost goal = xs.deep_view();
    let mut xs = xs;
    let mut r: Vec<SlackChannelId> = Vec::new();
    while xs.len() > 0
        invariant
            r.deep_view() + xs.deep_view() =~= goal,
        decreases xs.len(),
    {
        let x = xs.remove(0);
        r.push(SlackChannelId(x));
        proof {
            assert(r.deep_view() + xs.deep_view() =~= goal);
        }
    }
    proof {
        assert(r.deep_view() =~= goal);
    }
    r
}

fn opt_channel_ids_field(s: &str, name: &str) -> (r: Option<Vec<SlackChannelId>>)
    ensures
        r.deep_view() == json_string_array_field_of(s@, name@),
{
    match json_string_array_field(s, name) {
        Some(xs) => Some(to_channel_ids(xs)),
        None => None,
    }
}

/// How every field of a file record relates to the JSON text it was read
/// from: the identifier is the `id` string, and each optional field holds
/// exactly the same-named JSON field where one of the right kind is present.
pub open spec fn slack_file_fields_match(f: SlackFile, s: Seq<char>) -> bool {
    &&& json_string_field_of(s, "id"@) == Some(f.id.0@)
    &&& f.created == opt_datetime_of(json_u64_field_of(s, "created"@))
    &&& f.timestamp == opt_datetime_of(json_u64_field_of(s, "timestamp"@))
    &&& f.name.deep_view() == json_string_field_of(s, "name"@)
    &&& f.title.deep_view() == json_string_field_of(s, "title"@)
    &&& f.mimetype.deep_view() == json_string_field_of(s, "mimetype"@)
    &&& f.filetype.deep_view() == json_string_field_of(s, "filetype"@)
    &&& f.pretty_type.deep_view() == json_string_field_of(s, "pretty_type"@)
    &&& f.user.deep_view() == json_string_field_of(s, "user"@)
    &&& f.editable == json_bool_field_of(s, "editable"@)
    &&& f.size == opt_u32_of(json_u64_field_of(s, "size"@))
    &&& f.mode.deep_view() == json_string_field_of(s, "mode"@)
    &&& f.is_external == json_bool_field_of(s, "is_external"@)
    &&& f.external_type.deep_view() == json_string_field_of(s, "external_type"@)
    &&& f.is_public == json_bool_field_of(s, "is_public"@)
    &&& f.public_url_shared == json_bool_field_of(s, "public_url_shared"@)
    &&& f.display_as_bot == json_bool_field_of(s, "display_as_bot"@)
    &&& f.username.deep_view() == json_string_field_of(s, "username"@)
    &&& f.url_private.deep_view() == json_string_field_of(s, "url_private"@)
    &&& f.url_private_download.deep_view() == json_string_field_of(s, "url_private_download"@)
    &&& f.thumb_64.deep_view() == json_string_field_of(s, "thumb_64"@)
    &&& f.thumb_80.deep_view() == json_string_field_of(s, "thumb_80"@)
    &&& f.thumb_360.deep_view() == json_string_field_of(s, "thumb_360"@)
    &&& f.thumb_360_w == opt_u32_of(json_u64_field_of(s, "thumb_360_w"@))
    &&& f.thumb_360_h == opt_u32_of(json_u64_field_of(s, "thumb_360_h"@))
    &&& f.thumb_160.deep_view() == json_string_field_of(s, "thumb_160"@)
    &&& f.thumb_360_gif.deep_view() == json_string_field_of(s, "thumb_360_gif"@)
    &&& f.image_exif_rotation == opt_u8_of(json_u64_field_of(s, "image_exif_rotation"@))
    &&& f.original_w == opt_u32_of(json_u64_field_of(s, "original_w"@))
    &&& f.original_h == opt_u32_of(json_u64_field_of(s, "original_h"@))
    &&& f.deanimate_gif.deep_view() == json_string_field_of(s, "deanimate_gif"@)
    &&& f.pjpeg.deep_view() == json_string_field_of(s, "pjpeg"@)
    &&& f.permalink.deep_view() == json_string_field_of(s, "permalink"@)
    &&& f.permalink_public.deep_view() == json_string_field_of(s, "permalink_public"@)
    &&& f.comments_count == opt_u32_of(json_u64_field_of(s, "comments_count"@))
    &&& f.channels.deep_view() == json_string_array_field_of(s, "channels"@)
    &&& f.groups.deep_view() == json_string_array_field_of(s, "groups"@)
    &&& f.ims.deep_view() == json_string_array_field_of(s, "ims"@)
}

/// Reads a file record out of the JSON text of one `file` object. A text
/// without an `id` string is no file record.
pub fn parse_slack_file(s: &str) -> (r: Option<SlackFile>)
    ensures
        r is Some <==> json_string_field_of(s@, "id"@) is Some,
        r matches Some(f) ==> slack_file_fields_match(f, s@),
{
    let id = match json_string_field(s, "id") {
        Some(v) => v,
        None => {
            return None;
        },
    };
    Some(
        SlackFile {
            id: SlackFileId(id),
            created: opt_datetime_field(s, "created"),
            timestamp: opt_datetime_field(s, "timestamp"),
            name: json_string_field(s, "name"),
            title: json_string_field(s, "title"),
            mimetype: json_string_field(s, "mimetype"),
            filetype: json_string_field(s, "filetype"),
            pretty_type: json_string_field(s, "pretty_type"),
            user: match json_string_field(s, "user") {
                Some(v) => Some(SlackUserId(v)),
                None => None,
            },
            editable: json_bool_field(s, "editable"),
            size: opt_u32_field(s, "size"),
            mode: json_string_field(s, "mode"),
            is_external: json_bool_field(s, "is_external"),
            external_type: json_string_field(s, "external_type"),
            is_public: json_bool_field(s, "is_public"),
            public_url_shared: json_bool_field(s, "public_url_shared"),
            display_as_bot: json_bool_field(s, "display_as_bot"),
            username: json_string_field(s, "username"),
            url_private: json_string_field(s, "url_private"),
            url_private_download: json_string_field(s, "url_private_download"),
            thumb_64: json_string_field(s, "thumb_64"),
            thumb_80: json_string_field(s, "thumb_80"),
            thumb_360: json_string_field(s, "thumb_360"),
            thumb_360_w: opt_u32_field(s, "thumb_360_w"),
            thumb_360_h: opt_u32_field(s, "thumb_360_h"),
            thumb_160: json_string_field(s, "thumb_160"),
            thumb_360_gif: json_string_field(s, "thumb_360_gif"),
            image_exif_rotation: opt_u8_field(s, "image_exif_rotation"),
            original_w: opt_u32_field(s, "original_w"),
            original_h: opt_u32_field(s, "original_h"),
            deanimate_gif: json_string_field(s, "deanimate_gif"),
            pjpeg: json_string_field(s, "pjpeg"),
            permalink: json_string_field(s, "permalink"),
            permalink_public: json_string_field(s, "permalink_public"),
            comments_count: opt_u32_field(s, "comments_count"),
            channels: opt_channel_ids_field(s, "channels"),
            groups: opt_channel_ids_field(s, "groups"),
            ims: opt_channel_ids_field(s, "ims"),
        },
    )
}

/// How a `files.info` response relates to the payload text it was decoded
/// from: the `file` field read as a file record where one is present.
pub open spec fn files_info_response_matches(
    resp: SlackApiFilesInfoResponse,
    payload: Seq<char>,
) -> bool {
    match json_object_field_of(payload, "file"@) {
        None => resp.file is None,
        Some(fjson) => if json_string_field_of(fjson, "id"@) is Some {
            resp.file matches Some(f) && slack_file_fields_match(f, fjson)
        } else {
            resp.file is None
        },
    }
}

/// Decodes the payload of a `files.info` call.
pub fn parse_files_info_response(payload: &str) -> (r: SlackApiFilesInfoResponse)
    ensures
        files_info_response_matches(r, payload@),
{
    let file = match json_object_field(payload, "file") {
        Some(fjson) => parse_slack_file(fjson.as_str()),
        None => None,
    };
    SlackApiFilesInfoResponse { file }
}

/// How a `files.list` response relates to the payload text: the `files`
/// array with every element read as a file record, where the array is
/// present and every element has an identifier.
pub open spec fn files_list_response_matches(
    resp: SlackApiFilesListResponse,
    payload: Seq<char>,
) -> bool {
    match json_array_field_of(payload, "files"@) {
        None => resp.files is None,
        Some(elems) => if forall|j: int|
            0 <= j < elems.len() ==> json_string_field_of(#[trigger] elems[j], "id"@) is Some {
            resp.files matches Some(fs) && fs@.len() == elems.len() && forall|j: int|
                0 <= j < elems.len() ==> slack_file_fields_match(#[trigger] fs@[j], elems[j])
        } else {
            resp.files is None
        },
    }
}

/// Decodes the payload of a `files.list` call.
pub fn parse_files_list_response(payload: &str) -> (r: SlackApiFilesListResponse)
    ensures
        files_list_response_matches(r, payload@),
{
    let elems = match json_array_field(payload, "files") {
        Some(elems) => elems,
        None => {
            return SlackApiFilesListResponse { files: None };
        },
    };
    let mut fs: Vec<SlackFile> = Vec::new();
    let mut i: usize = 0;
    while i < elems.len()
        invariant
            0 <= i <= elems.len(),
            json_array_field_of(payload@, "files"@) == Some(elems.deep_view()),
            fs@.len() == i,
            forall|j: int|
                0 <= j < i ==> json_string_field_of(
                    #[trigger] elems.deep_view()[j],
                    "id"@,
                ) is Some,
            forall|j: int|
                0 <= j < i ==> slack_file_fields_match(#[trigger] fs@[j], elems.deep_view()[j]),
        decreases elems.len() - i,
    {
        match parse_slack_file(elems[i].as_str()) {
            Some(f) => {
                fs.push(f);
            },
            None => {
                proof {
                    let ev = elems.deep_view();
                    assert(ev[i as int] == elems@[i as int]@);
                    assert(json_string_field_of(ev[i as int], "id"@) is None);
                    assert(!(forall|j: int|
                        0 <= j < ev.len() ==> json_string_field_of(
                            #[trigger] ev[j],
                            "id"@,
                        ) is Some));
                }
                return SlackApiFilesListResponse { files: None };
            },
        }
        i += 1;
    }
    SlackApiFilesListResponse { files: Some(fs) }
}

impl SlackApiFilesInfoRequest {
    pub fn new(file: SlackFileId) -> (r: Self)
        ensures
            r.file == file,
            r.count is None,
            r.cursor is None,
            r.limit is None,
            r.page is None,
    {
        SlackApiFilesInfoRequest { file, count: None, cursor: None, limit: None, page: None }
    }

    pub fn opt_cursor(self, cursor: Option<SlackCursorId>) -> (r: Self)
        ensures
            r.file == self.file,
            r.count == self.count,
            r.cursor == cursor,
            r.limit == self.limit,
            r.page == self.page,
    {
        SlackApiFilesInfoRequest { cursor, ..self }
    }

    /// The same call aimed at another page: everything kept, only the
    /// cursor replaced.
    pub fn with_new_cursor(&self, new_cursor: Option<&SlackCursorId>) -> (r: Self)
        ensures
            r.file == self.file,
            r.count == self.count,
            r.limit == self.limit,
            r.page == self.page,
            match new_cursor {
                Some(c) => r.cursor == Some(*c),
                None => r.cursor is None,
            },
    {
        let cursor = match new_cursor {
            Some(c) => Some(c.clone()),
            None => None,
        };
        SlackApiFilesInfoRequest {
            file: self.file.clone(),
            count: self.count,
            cursor,
            limit: self.limit,
            page: self.page,
        }
    }
}

impl SlackApiFilesListRequest {
    pub fn new() -> (r: Self)
        ensures
            r.channel is None,
            r.count is None,
            r.page is None,
            r.show_files_hidden_by_limit is None,
            r.team_id is None,
            r.ts_from is None,
            r.ts_to is None,
            r.types is None,
            r.user is None,
    {
        SlackApiFilesListRequest {
            channel: None,
            count: None,
            page: None,
            show_files_hidden_by_limit: None,
            team_id: None,
            ts_from: None,
            ts_to: None,
            types: None,
            user: None,
        }
    }
}

impl<C: SlackClientHttpConnector> SlackClientSession<C> {
    /// One `files.info` call: sends the GET the parameter list describes and
    /// decodes the payload into a response, or hands back the classified
    /// error.
    pub fn files_info(&mut self, req: &SlackApiFilesInfoRequest) -> (r: Result<
        SlackApiFilesInfoResponse,
        SlackClientError,
    >)
        ensures
            final(self).token == old(self).token,
            final(self).connector.sent_requests() == old(self).connector.sent_requests().push(
                get_request_view(
                    api_method_url("files.info"@, files_info_params(*req)),
                    Some(old(self).token.token_value.0@),
                ),
            ),
            old(self).connector.upcoming_responses().len() > 0 ==> {
                &&& match webapi_payload_of(old(self).connector.upcoming_responses()[0]) {
                    Ok(payload) => r matches Ok(resp) && files_info_response_matches(
                        resp,
                        payload,
                    ),
                    Err(e) => r matches Err(err) && err@ == e,
                }
                &&& final(self).connector.upcoming_responses() == old(
                    self,
                ).connector.upcoming_responses().skip(1)
            },
            old(self).connector.upcoming_responses().len() == 0 ==> {
                &&& r matches Err(e) && e@ is Transport
                &&& final(self).connector.upcoming_responses() == old(
                    self,
                ).connector.upcoming_responses()
            },
    {
        let params = files_info_params_vec(req);
        match self.http_get("files.info", &params) {
            Ok(payload) => Ok(parse_files_info_response(payload.as_str())),
            Err(e) => Err(e),
        }
    }

    /// One `files.list` call, by the same rule.
    pub fn files_list(&mut self, req: &SlackApiFilesListRequest) -> (r: Result<
        SlackApiFilesListResponse,
        SlackClientError,
    >)
        ensures
            final(self).token == old(self).token,
            final(self).connector.sent_requests() == old(self).connector.sent_requests().push(
                get_request_view(
                    api_method_url("files.list"@, files_list_params(*req)),
                    Some(old(self).token.token_value.0@),
                ),
            ),
            old(self).connector.upcoming_responses().len() > 0 ==> {
                &&& match webapi_payload_of(old(self).connector.upcoming_responses()[0]) {
                    Ok(payload) => r matches Ok(resp) && files_list_response_matches(
                        resp,
                        payload,
                    ),
                    Err(e) => r matches Err(err) && err@ == e,
                }
                &&& final(self).connector.upcoming_responses() == old(
                    self,
                ).connector.upcoming_responses().skip(1)
            },
            old(self).connector.upcoming_responses().len() == 0 ==> {
                &&& r matches Err(e) && e@ is Transport
                &&& final(self).connector.upcoming_responses() == old(
                    self,
                ).connector.upcoming_responses()
            },
    {
        let params = files_list_params_vec(req);
        match self.http_get("files.list", &params) {
            Ok(payload) => Ok(parse_files_list_response(payload.as_str())),
            Err(e) => Err(e),
        }
    }
}

impl SlackApiFilesInfoRequest {
    /// Fetches the page this request aims at, through the session; the step
    /// a cursor-driven walk repeats.
    pub fn scroll<C: SlackClientHttpConnector>(&self, session: &mut SlackClientSession<C>) -> (r:
        Result<SlackApiFilesInfoResponse, SlackClientError>)
        ensures
            final(session).token == old(session).token,
            final(session).connector.sent_requests() == old(
                session,
            ).connector.sent_requests().push(
                get_request_view(
                    api_method_url("files.info"@, files_info_params(*self)),
                    Some(old(session).token.token_value.0@),
                ),
            ),
            old(session).connector.upcoming_responses().len() > 0 ==> {
                &&& match webapi_payload_of(old(session).connector.upcoming_responses()[0]) {
                    Ok(payload) => r matches Ok(resp) && files_info_response_matches(
                        resp,
                        payload,
                    ),
                    Err(e) => r matches Err(err) && err@ == e,
                }
                &&& final(session).connector.upcoming_responses() == old(
                    session,
                ).connector.upcoming_responses().skip(1)
            },
            old(session).connector.upcoming_responses().len() == 0 ==> {
                &&& r matches Err(e) && e@ is Transport
                &&& final(session).connector.upcoming_responses() == old(
                    session,
                ).connector.upcoming_responses()
            },
    {
        session.files_info(self)
    }
}

} // verus!
