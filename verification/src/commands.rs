//! Routing of incoming chat messages and button presses.
use vstd::prelude::*;
use vstd::string::{StrSliceExecFns, StringSliceAdditionalSpecFns};
use vstd::utf8::{encode_utf8, encode_utf8_valid_utf8, is_char_boundary};
use crate::db::{Chat, DbError, HasID, User};
use crate::handles::MediaKind;
use crate::text::{starts_with, strip_prefix};
use crate::user_status::{UserStatus, status_code, status_of_code};

verus! {

/// Links that are downloaded as videos even without a command.
pub open spec fn is_known_site(link: Seq<char>) -> bool {
    "https://youtu.be"@.is_prefix_of(link) || "https://vk.com/video"@.is_prefix_of(link)
}

/// Whether a link points to a site whose links are downloaded as videos
/// without a command.
pub fn known_sites(link: &str) -> (b: bool)
    ensures
        b == is_known_site(link@),
        b == ("https://youtu.be"@.is_prefix_of(link@) || "https://vk.com/video"@.is_prefix_of(link@)),
{
    starts_with(link, "https://youtu.be") || starts_with(link, "https://vk.com/video")
}

/// What a chat message asks for.
pub enum MessageRoute {
    /// Download `link` and send it back.
    Fetch { kind: MediaKind, link: String },
    /// Show the chat's preferences menu.
    GroupConfig,
    /// Show the sender's preferences menu.
    UserConfig,
    /// Remember that the next message of the chat is a link of this kind,
    /// and ask for it.
    AwaitLink(UserStatus),
    /// Nothing to do.
    Ignore,
}

/// A message route, with the link as characters.
pub enum RouteView {
    Fetch(MediaKind, Seq<char>),
    GroupConfig,
    UserConfig,
    AwaitLink(UserStatus),
    Ignore,
}

impl View for MessageRoute {
    type V = RouteView;

    open spec fn view(&self) -> RouteView {
        match self {
            MessageRoute::Fetch { kind, link } => RouteView::Fetch(*kind, link@),
            MessageRoute::GroupConfig => RouteView::GroupConfig,
            MessageRoute::UserConfig => RouteView::UserConfig,
            MessageRoute::AwaitLink(s) => RouteView::AwaitLink(*s),
            MessageRoute::Ignore => RouteView::Ignore,
        }
    }
}

/// The pending request of the sender as the router sees it: a failed lookup
/// counts as nothing pending.
pub open spec fn pending_of(status: Result<UserStatus, DbError>) -> UserStatus {
    match status {
        Ok(s) => s,
        Err(_) => UserStatus::Idle,
    }
}

/// Where a message with text `t` goes when the sender has `pending` open.
///
/// A pending request takes the whole text as its link.  Otherwise the
/// commands are tried in order; `/vid` and `/mus` followed by more text
/// (the text is longer than four bytes) take the rest as the link, alone
/// they ask for one.  A link to a known site is downloaded as a video.
pub open spec fn message_route(t: Seq<char>, pending: UserStatus) -> RouteView {
    if pending == UserStatus::MusRequest {
        RouteView::Fetch(MediaKind::Audio, t)
    } else if pending == UserStatus::VidRequest {
        RouteView::Fetch(MediaKind::Video, t)
    } else if "/config"@.is_prefix_of(t) {
        RouteView::GroupConfig
    } else if "/selfconfig"@.is_prefix_of(t) {
        RouteView::UserConfig
    } else if encode_utf8(t).len() > 4 {
        if "/vid"@.is_prefix_of(t) {
            RouteView::Fetch(MediaKind::Video, t.skip(4))
        } else if "/mus"@.is_prefix_of(t) {
            RouteView::Fetch(MediaKind::Audio, t.skip(4))
        } else if is_known_site(t) {
            RouteView::Fetch(MediaKind::Video, t)
        } else {
            RouteView::Ignore
        }
    } else if "/vid"@.is_prefix_of(t) {
        RouteView::AwaitLink(UserStatus::VidRequest)
    } else if "/mus"@.is_prefix_of(t) {
        RouteView::AwaitLink(UserStatus::MusRequest)
    } else {
        RouteView::Ignore
    }
}

/// Decides what a text message asks for, given the sender's pending
/// request as read from the database.
pub fn route_message(text: &str, status: Result<UserStatus, DbError>) -> (r: MessageRoute)
    ensures
        r@ == message_route(text@, pending_of(status)),
        pending_of(status) == UserStatus::Idle && ("https://youtu.be"@.is_prefix_of(text@)
            || "https://vk.com/video"@.is_prefix_of(text@))
            ==> r@ == RouteView::Fetch(MediaKind::Video, text@),
        pending_of(status) == UserStatus::Idle && "/mus"@.is_prefix_of(text@)
            && text.spec_bytes().len() > 4
            ==> r@ == RouteView::Fetch(MediaKind::Audio, text@.skip(4)),
        pending_of(status) == UserStatus::Idle && "/vid"@.is_prefix_of(text@)
            && text.spec_bytes().len() > 4
            ==> r@ == RouteView::Fetch(MediaKind::Video, text@.skip(4)),
{
    proof {
        let t = text@;
        if "https://youtu.be"@.is_prefix_of(t) || "https://vk.com/video"@.is_prefix_of(t) {
            lemma_known_site_links_fetched_as_video(t);
        }
        if "/mus"@.is_prefix_of(t) && encode_utf8(t).len() > 4 {
            lemma_mus_with_link_fetches_audio(t);
        }
        if "/vid"@.is_prefix_of(t) && encode_utf8(t).len() > 4 {
            lemma_vid_with_link_fetches_video(t);
        }
    }
    let pending = match status {
        Ok(s) => s,
        Err(_) => UserStatus::Idle,
    };
    match pending {
        UserStatus::MusRequest => {
            return MessageRoute::Fetch { kind: MediaKind::Audio, link: String::from_str(text) };
        },
        UserStatus::VidRequest => {
            return MessageRoute::Fetch { kind: MediaKind::Video, link: String::from_str(text) };
        },
        UserStatus::Idle => {},
    }
    if starts_with(text, "/config") {
        return MessageRoute::GroupConfig;
    } else if starts_with(text, "/selfconfig") {
        return MessageRoute::UserConfig;
    }
    proof {
        reveal_strlit("/vid");
        reveal_strlit("/mus");
    }
    // the length in bytes, as `str::len` gives it
    let n = text.as_bytes().len();
    if n > 4 {
        if let Some(rest) = strip_prefix(text, "/vid") {
            assert(rest@ =~= text@.skip(4));
            MessageRoute::Fetch { kind: MediaKind::Video, link: String::from_str(rest) }
        } else if let Some(rest) = strip_prefix(text, "/mus") {
            assert(rest@ =~= text@.skip(4));
            MessageRoute::Fetch { kind: MediaKind::Audio, link: String::from_str(rest) }
        } else if known_sites(text) {
            MessageRoute::Fetch { kind: MediaKind::Video, link: String::from_str(text) }
        } else {
            MessageRoute::Ignore
        }
    } else if starts_with(text, "/vid") {
        MessageRoute::AwaitLink(UserStatus::VidRequest)
    } else if starts_with(text, "/mus") {
        MessageRoute::AwaitLink(UserStatus::MusRequest)
    } else {
        MessageRoute::Ignore
    }
}

proof fn lemma_encoding_not_shorter(t: Seq<char>)
    ensures
        encode_utf8(t).len() >= t.len(),
    decreases t.len(),
{
    if t.len() > 0 {
        lemma_encoding_not_shorter(t.drop_first());
    }
}

/// A link is a known video site exactly when it starts with
/// `https://youtu.be` or `https://vk.com/video`; any other address, another
/// page of `vk.com` among them, is not.
pub proof fn lemma_known_sites_exactly(link: Seq<char>)
    ensures
        is_known_site(link) <==> ("https://youtu.be"@.is_prefix_of(link)
            || "https://vk.com/video"@.is_prefix_of(link)),
{
}

/// With nothing pending, a text that starts with `https://youtu.be` or
/// `https://vk.com/video` is downloaded as a video, the whole text being
/// the link.
pub proof fn lemma_known_site_links_fetched_as_video(t: Seq<char>)
    requires
        "https://youtu.be"@.is_prefix_of(t) || "https://vk.com/video"@.is_prefix_of(t),
    ensures
        message_route(t, UserStatus::Idle) == RouteView::Fetch(MediaKind::Video, t),
{
    reveal_strlit("https://youtu.be");
    reveal_strlit("https://vk.com/video");
    reveal_strlit("/config");
    reveal_strlit("/selfconfig");
    reveal_strlit("/vid");
    reveal_strlit("/mus");
    lemma_encoding_not_shorter(t);
    assert(t[0] == 'h') by {
        if "https://youtu.be"@.is_prefix_of(t) {
            assert(t.subrange(0, 16)[0] == t[0]);
        } else {
            assert(t.subrange(0, 20)[0] == t[0]);
        }
    }
    assert(!"/config"@.is_prefix_of(t)) by {
        if "/config"@.is_prefix_of(t) {
            assert(t.subrange(0, 7)[0] == t[0]);
        }
    }
    assert(!"/selfconfig"@.is_prefix_of(t)) by {
        if "/selfconfig"@.is_prefix_of(t) {
            assert(t.subrange(0, 11)[0] == t[0]);
        }
    }
    assert(!"/vid"@.is_prefix_of(t)) by {
        if "/vid"@.is_prefix_of(t) {
            assert(t.subrange(0, 4)[0] == t[0]);
        }
    }
    assert(!"/mus"@.is_prefix_of(t)) by {
        if "/mus"@.is_prefix_of(t) {
            assert(t.subrange(0, 4)[0] == t[0]);
        }
    }
}

/// With nothing pending, `/mus` followed by more text (over four bytes in
/// all) downloads music, whatever the rest is, and the rest is the link.
pub proof fn lemma_mus_with_link_fetches_audio(t: Seq<char>)
    requires
        "/mus"@.is_prefix_of(t),
        encode_utf8(t).len() > 4,
    ensures
        message_route(t, UserStatus::Idle) == RouteView::Fetch(MediaKind::Audio, t.skip(4)),
{
    reveal_strlit("/config");
    reveal_strlit("/selfconfig");
    reveal_strlit("/vid");
    reveal_strlit("/mus");
    assert(t[1] == 'm') by {
        assert(t.subrange(0, 4)[1] == t[1]);
    }
    assert(!"/config"@.is_prefix_of(t)) by {
        if "/config"@.is_prefix_of(t) {
            assert(t.subrange(0, 7)[1] == t[1]);
        }
    }
    assert(!"/selfconfig"@.is_prefix_of(t)) by {
        if "/selfconfig"@.is_prefix_of(t) {
            assert(t.subrange(0, 11)[1] == t[1]);
        }
    }
    assert(!"/vid"@.is_prefix_of(t)) by {
        if "/vid"@.is_prefix_of(t) {
            assert(t.subrange(0, 4)[1] == t[1]);
        }
    }
}

/// With nothing pending, `/vid` followed by more text (over four bytes in
/// all) downloads a video, whatever the rest is, and the rest is the link.
pub proof fn lemma_vid_with_link_fetches_video(t: Seq<char>)
    requires
        "/vid"@.is_prefix_of(t),
        encode_utf8(t).len() > 4,
    ensures
        message_route(t, UserStatus::Idle) == RouteView::Fetch(MediaKind::Video, t.skip(4)),
{
    reveal_strlit("/config");
    reveal_strlit("/selfconfig");
    reveal_strlit("/vid");
    assert(t[1] == 'v') by {
        assert(t.subrange(0, 4)[1] == t[1]);
    }
    assert(!"/config"@.is_prefix_of(t)) by {
        if "/config"@.is_prefix_of(t) {
            assert(t.subrange(0, 7)[1] == t[1]);
        }
    }
    assert(!"/selfconfig"@.is_prefix_of(t)) by {
        if "/selfconfig"@.is_prefix_of(t) {
            assert(t.subrange(0, 11)[1] == t[1]);
        }
    }
}

/// A pending request takes the whole text as its link, whatever the text:
/// music after `/mus`, a video after `/vid`.
pub proof fn lemma_pending_request_takes_text(t: Seq<char>)
    ensures
        message_route(t, UserStatus::MusRequest) == RouteView::Fetch(MediaKind::Audio, t),
        message_route(t, UserStatus::VidRequest) == RouteView::Fetch(MediaKind::Video, t),
{
}

/// With nothing pending, `/config…` shows the chat's menu and
/// `/selfconfig…` the sender's menu.
pub proof fn lemma_config_commands(t: Seq<char>)
    ensures
        "/config"@.is_prefix_of(t) ==> message_route(t, UserStatus::Idle) == RouteView::GroupConfig,
        "/selfconfig"@.is_prefix_of(t) ==> message_route(t, UserStatus::Idle)
            == RouteView::UserConfig,
{
    reveal_strlit("/config");
    reveal_strlit("/selfconfig");
    if "/selfconfig"@.is_prefix_of(t) && "/config"@.is_prefix_of(t) {
        assert(t.subrange(0, 7)[1] == t[1]);
        assert(t.subrange(0, 11)[1] == t[1]);
    }
}

/// With nothing pending, `/vid` or `/mus` alone asks for a link of that
/// kind.
pub proof fn lemma_bare_commands_ask_for_link()
    ensures
        message_route("/vid"@, UserStatus::Idle) == RouteView::AwaitLink(UserStatus::VidRequest),
        message_route("/mus"@, UserStatus::Idle) == RouteView::AwaitLink(UserStatus::MusRequest),
{
    reveal_strlit("/config");
    reveal_strlit("/selfconfig");
    reveal_strlit("/vid");
    reveal_strlit("/mus");
    vstd::utf8::is_ascii_chars_encode_utf8("/vid"@);
    vstd::utf8::is_ascii_chars_encode_utf8("/mus"@);
    assert(!"/config"@.is_prefix_of("/vid"@));
    assert(!"/selfconfig"@.is_prefix_of("/vid"@));
    assert(!"/config"@.is_prefix_of("/mus"@));
    assert(!"/selfconfig"@.is_prefix_of("/mus"@));
    assert(!"/vid"@.is_prefix_of("/mus"@)) by {
        assert("/mus"@.subrange(0, 4)[1] == 'm');
    }
}

/// With nothing pending, a text that starts with none of the commands and
/// is no link to a known site is ignored.
pub proof fn lemma_other_text_ignored(t: Seq<char>)
    requires
        !"/config"@.is_prefix_of(t),
        !"/selfconfig"@.is_prefix_of(t),
        !"/vid"@.is_prefix_of(t),
        !"/mus"@.is_prefix_of(t),
        !"https://youtu.be"@.is_prefix_of(t),
        !"https://vk.com/video"@.is_prefix_of(t),
    ensures
        message_route(t, UserStatus::Idle) == RouteView::Ignore,
{
}

/// Button data is routed by its bytes: `cfg_user` and `cfg_group` set the
/// preference to whether the tenth character is `1`, another `cfg` button
/// changes nothing, and data not starting with `cfg` is unknown.
pub proof fn lemma_query_route_by_bytes(b: Seq<u8>, t: Seq<char>)
    ensures
        b.subrange(0, 3) == seq![0x63u8, 0x66u8, 0x67u8] && b.subrange(4, 8) == seq![
            0x75u8,
            0x73u8,
            0x65u8,
            0x72u8,
        ] ==> query_route(b, t) == QueryRoute::SetDeleteOnSend(t[9] == '1'),
        b.subrange(0, 3) == seq![0x63u8, 0x66u8, 0x67u8] && b.subrange(4, 8) != seq![
            0x75u8,
            0x73u8,
            0x65u8,
            0x72u8,
        ] && b.subrange(4, 9) == seq![0x67u8, 0x72u8, 0x6fu8, 0x75u8, 0x70u8]
            ==> query_route(b, t) == QueryRoute::SetDeleteOnSend(t[9] == '1'),
        b.subrange(0, 3) == seq![0x63u8, 0x66u8, 0x67u8] && b.subrange(4, 8) != seq![
            0x75u8,
            0x73u8,
            0x65u8,
            0x72u8,
        ] && b.subrange(4, 9) != seq![0x67u8, 0x72u8, 0x6fu8, 0x75u8, 0x70u8]
            ==> query_route(b, t) == QueryRoute::Ignore,
        b.subrange(0, 3) != seq![0x63u8, 0x66u8, 0x67u8] ==> query_route(b, t)
            == QueryRoute::Unsupported,
{
}

/// A command that asks for a link, answered by a link in the next message,
/// fetches that link: once the pending request is stored and read back,
/// the next text, whatever it is, is downloaded as the announced kind.
pub proof fn lemma_announced_request_fetches_next(first: Seq<char>, next: Seq<char>)
    ensures
        message_route(first, UserStatus::Idle) == RouteView::AwaitLink(UserStatus::VidRequest)
            ==> message_route(next, status_of_code(status_code(UserStatus::VidRequest) as int))
            == RouteView::Fetch(MediaKind::Video, next),
        message_route(first, UserStatus::Idle) == RouteView::AwaitLink(UserStatus::MusRequest)
            ==> message_route(next, status_of_code(status_code(UserStatus::MusRequest) as int))
            == RouteView::Fetch(MediaKind::Audio, next),
{
}

/// Only `/vid` and `/mus` leave a request pending, and nothing but a pending
/// request is ever announced.
pub proof fn lemma_await_only_requests(t: Seq<char>, pending: UserStatus)
    ensures
        message_route(t, pending) matches RouteView::AwaitLink(s)
            ==> s != UserStatus::Idle && pending == UserStatus::Idle,
{
}

/// An incoming chat message, reduced to what the bot reads of it.
pub struct Message {
    pub message_id: i32,
    pub from: Option<User>,
    pub chat: Chat,
    pub text: Option<String>,
}

/// A button press, reduced to what the bot reads of it: its id, who pressed,
/// the button's data, and the message the button belongs to.
pub struct CallbackQuery {
    pub id: String,
    pub from: User,
    pub data: Option<String>,
    pub message: Option<Message>,
}

/// How every handled button press is answered: a quiet notice to the
/// presser, the deletion of the message that carried the button, and the
/// answer that ends the press.
pub struct QueryAck {
    pub notice_chat_id: i64,
    pub notice: String,
    pub silent: bool,
    pub delete_chat_id: i64,
    pub delete_message_id: i32,
    pub callback_query_id: String,
}

/// The answer to a button press whose message is known: "Ok, done" sent
/// quietly to the presser, the menu message deleted, the press answered.
pub fn query_ack(query: &CallbackQuery) -> (ack: QueryAck)
    requires
        query.message is Some,
    ensures
        ack.notice_chat_id == query.from.id_of(),
        ack.notice@ == "Ok, done"@,
        ack.silent,
        ack.delete_chat_id == query.message->0.chat.id,
        ack.delete_message_id == query.message->0.message_id,
        ack.callback_query_id@ == query.id@,
{
    let message = query.message.as_ref().unwrap();
    QueryAck {
        notice_chat_id: query.from.get_id(),
        notice: String::from_str("Ok, done"),
        silent: true,
        delete_chat_id: message.chat.get_id(),
        delete_message_id: message.message_id,
        callback_query_id: query.id.clone(),
    }
}

/// The kinds of updates the bot tells apart.
#[derive(Clone, Copy, Debug, PartialEq, Eq, Structural)]
pub enum UpdateKind {
    Message,
    CallbackQuery,
    Other,
}

/// The offset to poll updates from after seeing update `update_id`: past
/// it for the messages and button presses the bot handles, unchanged for
/// any other update.
pub fn next_offset(current: Option<u32>, update_id: u32, kind: UpdateKind) -> (r: Option<u32>)
    requires
        kind != UpdateKind::Other ==> update_id < u32::MAX,
    ensures
        kind != UpdateKind::Other ==> r == Some((update_id + 1) as u32),
        kind == UpdateKind::Other ==> r == current,
{
    match kind {
        UpdateKind::Other => current,
        _ => Some(update_id + 1),
    }
}

/// The bytes of `cfg`.
pub open spec fn cfg_bytes() -> Seq<u8> {
    seq![0x63u8, 0x66u8, 0x67u8]
}

/// The bytes of `user`.
pub open spec fn user_bytes() -> Seq<u8> {
    seq![0x75u8, 0x73u8, 0x65u8, 0x72u8]
}

/// The bytes of `group`.
pub open spec fn group_bytes() -> Seq<u8> {
    seq![0x67u8, 0x72u8, 0x6fu8, 0x75u8, 0x70u8]
}

/// Whether the data of a button press, as bytes `b` and as characters `t`,
/// can be looked at: its first three bytes form whole characters; after
/// `cfg`, bytes 4 to 8 form whole characters, and so do bytes 4 to 9 unless
/// bytes 4 to 8 read `user`; and after `cfg_user` or `cfg_group` the data
/// has a tenth character.
pub open spec fn query_accepted(b: Seq<u8>, t: Seq<char>) -> bool {
    &&& is_char_boundary(b, 3)
    &&& b.subrange(0, 3) == cfg_bytes() ==> {
        &&& is_char_boundary(b, 4)
        &&& is_char_boundary(b, 8)
        &&& if b.subrange(4, 8) == user_bytes() {
            t.len() > 9
        } else {
            &&& is_char_boundary(b, 9)
            &&& b.subrange(4, 9) == group_bytes() ==> t.len() > 9
        }
    }
}

/// What a button press asks for.
#[derive(Clone, Copy, Debug, PartialEq, Eq, Structural)]
pub enum QueryRoute {
    /// Store the presser's preference to delete requests after sending, or
    /// not.
    SetDeleteOnSend(bool),
    /// A preferences button that changes nothing.
    Ignore,
    /// Data the bot does not know.
    Unsupported,
}

/// Where a button press with data bytes `b` and characters `t` goes: data
/// starting with `cfg` is a preferences button; `cfg_user` and `cfg_group`
/// set the preference to delete requests to whether the tenth character is
/// `1`.
pub open spec fn query_route(b: Seq<u8>, t: Seq<char>) -> QueryRoute {
    if b.subrange(0, 3) == cfg_bytes() {
        if b.subrange(4, 8) == user_bytes() {
            QueryRoute::SetDeleteOnSend(t[9] == '1')
        } else if b.subrange(4, 9) == group_bytes() {
            QueryRoute::SetDeleteOnSend(t[9] == '1')
        } else {
            QueryRoute::Ignore
        }
    } else {
        QueryRoute::Unsupported
    }
}

proof fn lemma_boundary_in_range(s: &str, i: int)
    ensures
        is_char_boundary(s.spec_bytes(), i) ==> 0 <= i <= s.spec_bytes().len(),
{
    encode_utf8_valid_utf8(s@);
}

/// Whether the data of a button press can be routed (see `query_accepted`).
pub fn query_data_accepted(data: &str) -> (ok: bool)
    ensures
        ok == query_accepted(data.spec_bytes(), data@),
{
    proof {
        lemma_boundary_in_range(data, 3);
        lemma_boundary_in_range(data, 4);
        lemma_boundary_in_range(data, 8);
        lemma_boundary_in_range(data, 9);
    }
    if !data.is_char_boundary(3) {
        return false;
    }
    let b = data.as_bytes();
    if !(b[0] == 0x63 && b[1] == 0x66 && b[2] == 0x67) {
        assert(b@.subrange(0, 3) != cfg_bytes()) by {
            if b@.subrange(0, 3) == cfg_bytes() {
                assert(b@.subrange(0, 3)[0] == b@[0]);
                assert(b@.subrange(0, 3)[1] == b@[1]);
                assert(b@.subrange(0, 3)[2] == b@[2]);
            }
        }
        return true;
    }
    assert(b@.subrange(0, 3) =~= cfg_bytes());
    if !(data.is_char_boundary(4) && data.is_char_boundary(8)) {
        return false;
    }
    let chars = data.unicode_len();
    if b[4] == 0x75 && b[5] == 0x73 && b[6] == 0x65 && b[7] == 0x72 {
        assert(b@.subrange(4, 8) =~= user_bytes());
        chars > 9
    } else {
        assert(b@.subrange(4, 8) != user_bytes()) by {
            if b@.subrange(4, 8) == user_bytes() {
                assert(b@.subrange(4, 8)[0] == b@[4]);
                assert(b@.subrange(4, 8)[1] == b@[5]);
                assert(b@.subrange(4, 8)[2] == b@[6]);
                assert(b@.subrange(4, 8)[3] == b@[7]);
            }
        }
        if !data.is_char_boundary(9) {
            return false;
        }
        if b[4] == 0x67 && b[5] == 0x72 && b[6] == 0x6f && b[7] == 0x75 && b[8] == 0x70 {
            assert(b@.subrange(4, 9) =~= group_bytes());
            chars > 9
        } else {
            assert(b@.subrange(4, 9) != group_bytes()) by {
                if b@.subrange(4, 9) == group_bytes() {
                    assert(b@.subrange(4, 9)[0] == b@[4]);
                    assert(b@.subrange(4, 9)[1] == b@[5]);
                    assert(b@.subrange(4, 9)[2] == b@[6]);
                    assert(b@.subrange(4, 9)[3] == b@[7]);
                    assert(b@.subrange(4, 9)[4] == b@[8]);
                }
            }
            true
        }
    }
}

/// Decides what a button press asks for.  The data must be one that can be
/// looked at (`query_accepted`); on other data the slicing and character
/// lookups of the routing would fail.
pub fn route_query(data: &str) -> (r: QueryRoute)
    requires
        query_accepted(data.spec_bytes(), data@),
    ensures
        r == query_route(data.spec_bytes(), data@),
{
    proof {
        lemma_boundary_in_range(data, 3);
        lemma_boundary_in_range(data, 8);
        lemma_boundary_in_range(data, 9);
    }
    let b = data.as_bytes();
    if b[0] == 0x63 && b[1] == 0x66 && b[2] == 0x67 {
        assert(b@.subrange(0, 3) =~= cfg_bytes());
        if b[4] == 0x75 && b[5] == 0x73 && b[6] == 0x65 && b[7] == 0x72 {
            assert(b@.subrange(4, 8) =~= user_bytes());
            QueryRoute::SetDeleteOnSend(data.get_char(9) == '1')
        } else {
            assert(b@.subrange(4, 8) != user_bytes()) by {
                if b@.subrange(4, 8) == user_bytes() {
                    assert(b@.subrange(4, 8)[0] == b@[4]);
                    assert(b@.subrange(4, 8)[1] == b@[5]);
                    assert(b@.subrange(4, 8)[2] == b@[6]);
                    assert(b@.subrange(4, 8)[3] == b@[7]);
                }
            }
            if b[4] == 0x67 && b[5] == 0x72 && b[6] == 0x6f && b[7] == 0x75 && b[8] == 0x70 {
                assert(b@.subrange(4, 9) =~= group_bytes());
                QueryRoute::SetDeleteOnSend(data.get_char(9) == '1')
            } else {
                assert(b@.subrange(4, 9) != group_bytes()) by {
                    if b@.subrange(4, 9) == group_bytes() {
                        assert(b@.subrange(4, 9)[0] == b@[4]);
                        assert(b@.subrange(4, 9)[1] == b@[5]);
                        assert(b@.subrange(4, 9)[2] == b@[6]);
                        assert(b@.subrange(4, 9)[3] == b@[7]);
                        assert(b@.subrange(4, 9)[4] == b@[8]);
                    }
                }
                QueryRoute::Ignore
            }
        }
    } else {
        assert(b@.subrange(0, 3) != cfg_bytes()) by {
            if b@.subrange(0, 3) == cfg_bytes() {
                assert(b@.subrange(0, 3)[0] == b@[0]);
                assert(b@.subrange(0, 3)[1] == b@[1]);
                assert(b@.subrange(0, 3)[2] == b@[2]);
            }
        }
        QueryRoute::Unsupported
    }
}

} // verus!
