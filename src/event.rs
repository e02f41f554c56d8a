use vstd::prelude::*;
use vstd::string::*;
use crate::text::eq_str;

verus! {

/// A JSON document as plain values.
#[derive(Debug)]
pub enum Json {
    Null,
    Bool(bool),
    /// A number, as serde_json writes it.
    Number(String),
    Str(String),
    Array(Vec<Json>),
    Object(Vec<JsonMember>),
}

/// One member of a JSON object.
#[derive(Debug)]
pub struct JsonMember {
    pub key: String,
    pub value: Json,
}

#[verifier::external_type_specification]
#[verifier::external_body]
pub struct ExValue(serde_json::Value);

/// The document that `serde_json` reads from `s`, or `None` where `s` is not one.
pub uninterp spec fn parsed_json(s: Seq<char>) -> Option<Json>;

/// Relies on serde_json::from_str: parses `s` as one JSON document, `None` where it fails.
#[verifier::external_body]
fn parse_json(s: &str) -> (r: Option<Json>)
    ensures
        r == parsed_json(s@),
{
    serde_json::from_str::<serde_json::Value>(s).ok().map(json_of_value)
}

/// Relies on serde_json::Value's variants: converts a parsed value node for node.
#[verifier::external_body]
fn json_of_value(v: serde_json::Value) -> Json {
    match v {
        serde_json::Value::Null => Json::Null,
        serde_json::Value::Bool(b) => Json::Bool(b),
        serde_json::Value::Number(n) => Json::Number(n.to_string()),
        serde_json::Value::String(s) => Json::Str(s),
        serde_json::Value::Array(a) => Json::Array(a.into_iter().map(json_of_value).collect()),
        serde_json::Value::Object(m) => Json::Object(
            m.into_iter().map(|(key, value)| JsonMember { key, value: json_of_value(value) }).collect(),
        ),
    }
}

/// The value under `key` among `members`: the first member with that key.
pub open spec fn member(members: Seq<JsonMember>, key: Seq<char>) -> Option<Json>
    decreases members.len(),
{
    if members.len() == 0 {
        None
    } else if members[0].key@ == key {
        Some(members[0].value)
    } else {
        member(members.drop_first(), key)
    }
}

/// The value under `key` where `v` is an object.
pub open spec fn field(v: Json, key: Seq<char>) -> Option<Json> {
    match v {
        Json::Object(ms) => member(ms@, key),
        _ => None,
    }
}

/// The string under `key` where `v` is an object and that value is a string.
pub open spec fn str_field(v: Json, key: Seq<char>) -> Option<Seq<char>> {
    match field(v, key) {
        Some(Json::Str(s)) => Some(s@),
        _ => None,
    }
}

/// The string under `key` in the object under "user".
pub open spec fn user_str(v: Json, key: Seq<char>) -> Option<Seq<char>> {
    match field(v, "user"@) {
        Some(u) => str_field(u, key),
        None => None,
    }
}

pub open spec fn first_nonempty(a: Option<Seq<char>>, b: Option<Seq<char>>) -> Option<Seq<char>> {
    match a {
        Some(s) => if s.len() > 0 {
            a
        } else {
            b
        },
        None => b,
    }
}

/// The display name of a friend-online content: nested, then top level, then "Friend".
pub open spec fn display_name_of(c: Json) -> Seq<char> {
    match user_str(c, "displayName"@) {
        Some(n) => n,
        None => match str_field(c, "displayName"@) {
            Some(n) => n,
            None => "Friend"@,
        },
    }
}

/// The first non-empty icon URL: override picture, icon, avatar image, avatar thumbnail,
/// each looked up first under "user", then at the top level.
pub open spec fn image_url_of(c: Json) -> Option<Seq<char>> {
    first_nonempty(
        user_str(c, "profilePicOverride"@),
        first_nonempty(
            user_str(c, "userIcon"@),
            first_nonempty(
                user_str(c, "currentAvatarImageUrl"@),
                first_nonempty(
                    user_str(c, "currentAvatarThumbnailImageUrl"@),
                    first_nonempty(
                        str_field(c, "profilePicOverride"@),
                        first_nonempty(
                            str_field(c, "userIcon"@),
                            first_nonempty(
                                str_field(c, "currentAvatarImageUrl"@),
                                first_nonempty(str_field(c, "currentAvatarThumbnailImageUrl"@), None),
                            ),
                        ),
                    ),
                ),
            ),
        ),
    )
}

/// The content of an envelope: a string that holds a JSON document is read once more.
pub open spec fn content_of(c: Json) -> Json {
    match c {
        Json::Str(raw) => match parsed_json(raw@) {
            Some(v) => v,
            None => c,
        },
        _ => c,
    }
}

/// A friend who came online.
#[derive(Clone, Debug)]
pub struct FriendOnline {
    pub id: Option<String>,
    pub display_name: String,
    pub image_url: Option<String>,
}

/// An event of the stream.
#[derive(Debug)]
pub enum PipelineEvent {
    FriendOnline(FriendOnline),
    Other { kind: String, content: Json },
}

pub enum EventView {
    FriendOnline(Option<Seq<char>>, Seq<char>, Option<Seq<char>>),
    Other(Seq<char>, Json),
}

pub open spec fn opt_view(o: Option<String>) -> Option<Seq<char>> {
    match o {
        Some(s) => Some(s@),
        None => None,
    }
}

impl View for PipelineEvent {
    type V = EventView;

    open spec fn view(&self) -> EventView {
        match self {
            PipelineEvent::FriendOnline(f) => EventView::FriendOnline(
                opt_view(f.id),
                f.display_name@,
                opt_view(f.image_url),
            ),
            PipelineEvent::Other { kind, content } => EventView::Other(kind@, *content),
        }
    }
}

/// The event of kind `kind` with its decoded content `c`.
pub open spec fn event_spec(kind: Seq<char>, c: Json) -> EventView {
    if kind == "friend-online"@ {
        EventView::FriendOnline(str_field(c, "userId"@), display_name_of(c), image_url_of(c))
    } else {
        EventView::Other(kind, c)
    }
}

/// The event of an envelope `{"type": kind, "content": content}`; `None` for anything else.
pub open spec fn envelope_spec(v: Json) -> Option<EventView> {
    match envelope_parts(v) {
        Some((kind, c)) => Some(event_spec(kind, content_of(c))),
        None => None,
    }
}

pub open spec fn deref_json(o: Option<&Json>) -> Option<Json> {
    match o {
        Some(j) => Some(*j),
        None => None,
    }
}

/// Index of the member under `key`: the first with that key.
fn find_member(ms: &Vec<JsonMember>, key: &str) -> (r: Option<usize>)
    ensures
        match r {
            Some(i) => i < ms@.len() && member(ms@, key@) == Some(ms@[i as int].value),
            None => member(ms@, key@) is None,
        },
{
    let n = ms.len();
    let mut i: usize = 0;
    assert(ms@.subrange(0, n as int) == ms@);
    while i < n
        invariant
            i <= n,
            n == ms@.len(),
            member(ms@, key@) == member(ms@.subrange(i as int, n as int), key@),
        decreases n - i,
    {
        let ghost rest = ms@.subrange(i as int, n as int);
        assert(rest[0] == ms@[i as int]);
        if eq_str(ms[i].key.as_str(), key) {
            return Some(i);
        }
        assert(rest.drop_first() == ms@.subrange(i + 1, n as int));
        i = i + 1;
    }
    None
}

pub fn get_field<'a>(v: &'a Json, key: &str) -> (r: Option<&'a Json>)
    ensures
        deref_json(r) == field(*v, key@),
{
    match v {
        Json::Object(ms) => match find_member(ms, key) {
            Some(i) => Some(&ms[i].value),
            None => None,
        },
        _ => None,
    }
}

/// The value under `key`, taken out of `v`.
pub fn into_field(v: Json, key: &str) -> (r: Option<Json>)
    ensures
        r == field(v, key@),
{
    match v {
        Json::Object(mut ms) => match find_member(&ms, key) {
            Some(i) => Some(ms.remove(i).value),
            None => None,
        },
        _ => None,
    }
}

pub fn get_str(v: &Json, key: &str) -> (r: Option<String>)
    ensures
        opt_view(r) == str_field(*v, key@),
{
    match get_field(v, key) {
        Some(Json::Str(s)) => Some(s.clone()),
        _ => None,
    }
}

fn get_user_str(v: &Json, key: &str) -> (r: Option<String>)
    ensures
        opt_view(r) == user_str(*v, key@),
{
    match get_field(v, "user") {
        Some(u) => get_str(u, key),
        None => None,
    }
}

fn or_nonempty(a: Option<String>, b: Option<String>) -> (r: Option<String>)
    ensures
        opt_view(r) == first_nonempty(opt_view(a), opt_view(b)),
{
    match a {
        Some(s) => if s.as_str().unicode_len() > 0 {
            Some(s)
        } else {
            b
        },
        None => b,
    }
}

fn display_name_in(c: &Json) -> (r: String)
    ensures
        r@ == display_name_of(*c),
{
    match get_user_str(c, "displayName") {
        Some(n) => n,
        None => match get_str(c, "displayName") {
            Some(n) => n,
            None => String::from_str("Friend"),
        },
    }
}

fn image_url_in(c: &Json) -> (r: Option<String>)
    ensures
        opt_view(r) == image_url_of(*c),
{
    let t8 = or_nonempty(get_str(c, "currentAvatarThumbnailImageUrl"), None);
    let t7 = or_nonempty(get_str(c, "currentAvatarImageUrl"), t8);
    let t6 = or_nonempty(get_str(c, "userIcon"), t7);
    let t5 = or_nonempty(get_str(c, "profilePicOverride"), t6);
    let u4 = or_nonempty(get_user_str(c, "currentAvatarThumbnailImageUrl"), t5);
    let u3 = or_nonempty(get_user_str(c, "currentAvatarImageUrl"), u4);
    let u2 = or_nonempty(get_user_str(c, "userIcon"), u3);
    or_nonempty(get_user_str(c, "profilePicOverride"), u2)
}

/// The event of kind `kind` whose content is already decoded.
pub fn event_of(kind: String, content: Json) -> (r: PipelineEvent)
    ensures
        r@ == event_spec(kind@, content),
{
    if eq_str(kind.as_str(), "friend-online") {
        PipelineEvent::FriendOnline(
            FriendOnline {
                id: get_str(&content, "userId"),
                display_name: display_name_in(&content),
                image_url: image_url_in(&content),
            },
        )
    } else {
        PipelineEvent::Other { kind, content }
    }
}

/// Reads a string content once more as JSON; other content, or a string that is no JSON
/// document, stays as it is.
pub fn decode_content(c: Json) -> (r: Json)
    ensures
        r == content_of(c),
{
    match c {
        Json::Str(raw) => match parse_json(raw.as_str()) {
            Some(v) => v,
            None => Json::Str(raw),
        },
        other => other,
    }
}

/// The event of a parsed envelope; `None` where it is not an object with a string "type"
/// and a "content".
pub fn classify_value(v: Json) -> (r: Option<PipelineEvent>)
    ensures
        match r {
            Some(e) => envelope_spec(v) == Some(e@),
            None => envelope_spec(v) is None,
        },
{
    match WebsocketMessage::from_value(v) {
        Some(m) => Some(m.into_event()),
        None => None,
    }
}

/// The event that one frame of the stream carries; `None`, and no failure, where the frame
/// is no JSON envelope.
pub fn parse_message(payload: &str) -> (r: Option<PipelineEvent>)
    ensures
        parsed_json(payload@) is None ==> r is None,
        parsed_json(payload@) matches Some(v) ==> match r {
            Some(e) => envelope_spec(v) == Some(e@),
            None => envelope_spec(v) is None,
        },
{
    match parse_json(payload) {
        Some(v) => classify_value(v),
        None => None,
    }
}

/// The user that a friend-online event names, with the four places an icon may come from.
#[derive(Debug, Clone)]
pub struct FriendOnlineUser {
    pub display_name: String,
    pub profile_pic_override: String,
    pub user_icon: String,
    pub current_avatar_image_url: String,
    pub current_avatar_thumbnail_image_url: String,
}

pub open spec fn nonempty_or(a: Seq<char>, b: Option<Seq<char>>) -> Option<Seq<char>> {
    if a.len() > 0 {
        Some(a)
    } else {
        b
    }
}

/// The icon URL of a user: the first non-empty of the override picture, the icon, the avatar
/// image and the avatar thumbnail.
pub fn resolve_user_icon_url(user: &FriendOnlineUser) -> (r: Option<String>)
    ensures
        opt_view(r) == nonempty_or(
            user.profile_pic_override@,
            nonempty_or(
                user.user_icon@,
                nonempty_or(
                    user.current_avatar_image_url@,
                    nonempty_or(user.current_avatar_thumbnail_image_url@, None),
                ),
            ),
        ),
{
    if user.profile_pic_override.as_str().unicode_len() > 0 {
        Some(user.profile_pic_override.clone())
    } else if user.user_icon.as_str().unicode_len() > 0 {
        Some(user.user_icon.clone())
    } else if user.current_avatar_image_url.as_str().unicode_len() > 0 {
        Some(user.current_avatar_image_url.clone())
    } else if user.current_avatar_thumbnail_image_url.as_str().unicode_len() > 0 {
        Some(user.current_avatar_thumbnail_image_url.clone())
    } else {
        None
    }
}

/// A friendship that ended.
#[derive(Debug, Clone)]
pub struct FriendDeleteEvent {
    pub user_id: String,
}

/// A friend who went offline.
#[derive(Debug, Clone)]
pub struct FriendOfflineEvent {
    pub user_id: String,
    pub platform: Option<String>,
}

/// The message of an API error body: its "message", else the "message" of its "error".
pub open spec fn error_message_of(v: Json) -> Option<Seq<char>> {
    match str_field(v, "message"@) {
        Some(m) => Some(m),
        None => match field(v, "error"@) {
            Some(e) => str_field(e, "message"@),
            None => None,
        },
    }
}

/// The message of a parsed API error body, where it holds one.
pub fn error_message_in(v: &Json) -> (r: Option<String>)
    ensures
        opt_view(r) == error_message_of(*v),
{
    match get_str(v, "message") {
        Some(m) => Some(m),
        None => match get_field(v, "error") {
            Some(e) => get_str(e, "message"),
            None => None,
        },
    }
}

/// The message of an API error body; `None` where the body is no JSON document or holds
/// no message.
pub fn extract_error_message(content: &str) -> (r: Option<String>)
    ensures
        parsed_json(content@) is None ==> r is None,
        parsed_json(content@) matches Some(v) ==> opt_view(r) == error_message_of(v),
{
    match parse_json(content) {
        Some(v) => error_message_in(&v),
        None => None,
    }
}

/// A frame of the stream before its content is decoded: its kind and its content.
#[derive(Debug)]
pub struct WebsocketMessage {
    pub kind: String,
    pub content: Json,
}

/// The kind and the content of an envelope, where `v` is an object with a string "type"
/// and a "content".
pub open spec fn envelope_parts(v: Json) -> Option<(Seq<char>, Json)> {
    match (field(v, "type"@), field(v, "content"@)) {
        (Some(Json::Str(kind)), Some(c)) => Some((kind@, c)),
        _ => None,
    }
}

/// The kinds of event that concern a friend.
pub open spec fn is_friend_kind(k: Seq<char>) -> bool {
    k == "friend-add"@ || k == "friend-delete"@ || k == "friend-active"@ || k == "friend-online"@
        || k == "friend-offline"@ || k == "friend-update"@ || k == "friend-location"@
}

impl WebsocketMessage {
    /// The envelope of a parsed frame.
    pub fn from_value(v: Json) -> (r: Option<WebsocketMessage>)
        ensures
            match r {
                Some(m) => envelope_parts(v) == Some((m.kind@, m.content)),
                None => envelope_parts(v) is None,
            },
    {
        let kind = match get_field(&v, "type") {
            Some(Json::Str(kind)) => kind.clone(),
            _ => {
                return None;
            },
        };
        match into_field(v, "content") {
            Some(content) => Some(WebsocketMessage { kind, content }),
            None => None,
        }
    }

    /// The envelope of a raw frame; `None` where it is no JSON envelope.
    pub fn from_raw_message(raw: &str) -> (r: Option<WebsocketMessage>)
        ensures
            parsed_json(raw@) is None ==> r is None,
            parsed_json(raw@) matches Some(v) ==> match r {
                Some(m) => envelope_parts(v) == Some((m.kind@, m.content)),
                None => envelope_parts(v) is None,
            },
    {
        match parse_json(raw) {
            Some(v) => WebsocketMessage::from_value(v),
            None => None,
        }
    }

    pub fn is_friend_online_message(&self) -> (r: bool)
        ensures
            r == (self.kind@ == "friend-online"@),
    {
        eq_str(self.kind.as_str(), "friend-online")
    }

    /// Whether the event concerns a friend, so that the friend list may have changed.
    pub fn is_friend_message(&self) -> (r: bool)
        ensures
            r == is_friend_kind(self.kind@),
    {
        let k = self.kind.as_str();
        eq_str(k, "friend-add") || eq_str(k, "friend-delete") || eq_str(k, "friend-active")
            || eq_str(k, "friend-online") || eq_str(k, "friend-offline") || eq_str(k, "friend-update")
            || eq_str(k, "friend-location")
    }

    /// The event this envelope carries, its content decoded.
    pub fn into_event(self) -> (r: PipelineEvent)
        ensures
            r@ == event_spec(self.kind@, content_of(self.content)),
    {
        event_of(self.kind, decode_content(self.content))
    }
}

} // verus!
