use vstd::prelude::*;

verus! {

/// An identifier of a file stored in the workspace.
#[derive(Debug, PartialEq, Eq)]
pub struct SlackFileId(pub String);

impl Clone for SlackFileId {
    fn clone(&self) -> (r: Self)
        ensures
            r == *self,
    {
        SlackFileId(self.0.clone())
    }
}

/// An opaque pagination cursor: never interpreted, only passed back verbatim.
#[derive(Debug, PartialEq, Eq)]
pub struct SlackCursorId(pub String);

impl Clone for SlackCursorId {
    fn clone(&self) -> (r: Self)
        ensures
            r == *self,
    {
        SlackCursorId(self.0.clone())
    }
}

/// An identifier of a channel.
#[derive(Debug, Clone, PartialEq, Eq)]
pub struct SlackChannelId(pub String);

/// An identifier of a team (workspace).
#[derive(Debug, Clone, PartialEq, Eq)]
pub struct SlackTeamId(pub String);

/// A message timestamp in the service's own string format.
#[derive(Debug, Clone, PartialEq, Eq)]
pub struct SlackTs(pub String);

/// An identifier of a user.
#[derive(Debug, Clone, PartialEq, Eq)]
pub struct SlackUserId(pub String);

/// A client identifier, used as the username of the basic-auth variant.
#[derive(Debug, Clone, PartialEq, Eq)]
pub struct SlackClientId(pub String);

/// A client secret, used as the password of the basic-auth variant.
#[derive(Debug, Clone, PartialEq, Eq)]
pub struct SlackClientSecret(pub String);

/// The value of a bearer token.
#[derive(Debug, Clone, PartialEq, Eq)]
pub struct SlackApiTokenValue(pub String);

/// The pre-shared key that authenticates inbound webhook requests.
#[derive(Debug, Clone, PartialEq, Eq)]
pub struct SlackSigningSecret(pub String);

/// A bearer credential, supplied by the caller per request.
#[derive(Debug, Clone, PartialEq, Eq)]
pub struct SlackApiToken {
    pub token_value: SlackApiTokenValue,
}

impl SlackApiToken {
    pub fn new(token_value: SlackApiTokenValue) -> (r: Self)
        ensures
            r.token_value == token_value,
    {
        SlackApiToken { token_value }
    }
}

/// A point in time, held as whole seconds of the Unix epoch.
#[derive(Debug, Clone, Copy, PartialEq, Eq, Structural)]
pub struct SlackDateTime(pub u64);

impl SlackFileId {
    pub fn value(&self) -> (r: &String)
        ensures
            r@ == self.0@,
    {
        &self.0
    }
}

impl SlackCursorId {
    pub fn value(&self) -> (r: &String)
        ensures
            r@ == self.0@,
    {
        &self.0
    }
}

impl SlackChannelId {
    pub fn value(&self) -> (r: &String)
        ensures
            r@ == self.0@,
    {
        &self.0
    }
}

impl SlackTeamId {
    pub fn value(&self) -> (r: &String)
        ensures
            r@ == self.0@,
    {
        &self.0
    }
}

impl SlackTs {
    pub fn value(&self) -> (r: &String)
        ensures
            r@ == self.0@,
    {
        &self.0
    }
}

impl SlackUserId {
    pub fn value(&self) -> (r: &String)
        ensures
            r@ == self.0@,
    {
        &self.0
    }
}

impl SlackClientId {
    pub fn value(&self) -> (r: &String)
        ensures
            r@ == self.0@,
    {
        &self.0
    }
}

impl SlackClientSecret {
    pub fn value(&self) -> (r: &String)
        ensures
            r@ == self.0@,
    {
        &self.0
    }
}

impl SlackApiTokenValue {
    pub fn value(&self) -> (r: &String)
        ensures
            r@ == self.0@,
    {
        &self.0
    }
}

impl SlackSigningSecret {
    pub fn value(&self) -> (r: &String)
        ensures
            r@ == self.0@,
    {
        &self.0
    }
}

impl View for SlackFileId {
    type V = Seq<char>;

    open spec fn view(&self) -> Seq<char> {
        self.0@
    }
}

impl DeepView for SlackFileId {
    type V = Seq<char>;

    open spec fn deep_view(&self) -> Seq<char> {
        self.0@
    }
}

impl View for SlackCursorId {
    type V = Seq<char>;

    open spec fn view(&self) -> Seq<char> {
        self.0@
    }
}

impl DeepView for SlackCursorId {
    type V = Seq<char>;

    open spec fn deep_view(&self) -> Seq<char> {
        self.0@
    }
}

impl View for SlackChannelId {
    type V = Seq<char>;

    open spec fn view(&self) -> Seq<char> {
        self.0@
    }
}

impl DeepView for SlackChannelId {
    type V = Seq<char>;

    open spec fn deep_view(&self) -> Seq<char> {
        self.0@
    }
}

impl View for SlackTeamId {
    type V = Seq<char>;

    open spec fn view(&self) -> Seq<char> {
        self.0@
    }
}

impl DeepView for SlackTeamId {
    type V = Seq<char>;

    open spec fn deep_view(&self) -> Seq<char> {
        self.0@
    }
}

impl View for SlackTs {
    type V = Seq<char>;

    open spec fn view(&self) -> Seq<char> {
        self.0@
    }
}

impl DeepView for SlackTs {
    type V = Seq<char>;

    open spec fn deep_view(&self) -> Seq<char> {
        self.0@
    }
}

impl View for SlackUserId {
    type V = Seq<char>;

    open spec fn view(&self) -> Seq<char> {
        self.0@
    }
}

impl DeepView for SlackUserId {
    type V = Seq<char>;

    open spec fn deep_view(&self) -> Seq<char> {
        self.0@
    }
}

/// A file record as the service reports it: every descriptive field is
/// optional, only the identifier is always present.
#[derive(Debug, Clone, PartialEq)]
pub struct SlackFile {
    pub id: SlackFileId,
    pub created: Option<SlackDateTime>,
    pub timestamp: Option<SlackDateTime>,
    pub name: Option<String>,
    pub title: Option<String>,
    pub mimetype: Option<String>,
    pub filetype: Option<String>,
    pub pretty_type: Option<String>,
    pub user: Option<SlackUserId>,
    pub editable: Option<bool>,
    pub size: Option<u32>,
    pub mode: Option<String>,
    pub is_external: Option<bool>,
    pub external_type: Option<String>,
    pub is_public: Option<bool>,
    pub public_url_shared: Option<bool>,
    pub display_as_bot: Option<bool>,
    pub username: Option<String>,
    pub url_private: Option<String>,
    pub url_private_download: Option<String>,
    pub thumb_64: Option<String>,
    pub thumb_80: Option<String>,
    pub thumb_360: Option<String>,
    pub thumb_360_w: Option<u32>,
    pub thumb_360_h: Option<u32>,
    pub thumb_160: Option<String>,
    pub thumb_360_gif: Option<String>,
    pub image_exif_rotation: Option<u8>,
    pub original_w: Option<u32>,
    pub original_h: Option<u32>,
    pub deanimate_gif: Option<String>,
    pub pjpeg: Option<String>,
    pub permalink: Option<String>,
    pub permalink_public: Option<String>,
    pub comments_count: Option<u32>,
    pub channels: Option<Vec<SlackChannelId>>,
    pub groups: Option<Vec<SlackChannelId>>,
    pub ims: Option<Vec<SlackChannelId>>,
}

} // verus!
