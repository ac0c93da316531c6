//! What the bot answers: the preferences menus, the prompt for a link, and
//! the choices made around a download.
use vstd::prelude::*;
use vstd::string::StringSliceAdditionalSpecFns;
use vstd::utf8::{
    decode_utf8, encode_utf8, encode_utf8_decode_utf8, encode_utf8_valid_utf8, is_ascii_chars,
    is_ascii_chars_encode_utf8, is_char_boundary, is_char_boundary_iff_not_is_continuation_byte,
    is_char_boundary_start_end_of_seq, valid_utf8,
};
use crate::chat_config::ChatConfig;
use crate::commands::{Message, QueryRoute, cfg_bytes, query_accepted, query_route};
use crate::config::Config;
use crate::db::{DbError, HasID};
use crate::text::utf8_str;

verus! {

/// A preferences menu: a titled message to `chat_id` with one button that
/// shows `button_text` and sends `callback_data` when pressed.
pub struct ConfigMenu {
    pub chat_id: i64,
    pub title: String,
    pub button_text: String,
    pub callback_data: String,
}

/// The label of the preferences button: it offers to start deleting
/// requests only when they are explicitly kept.
pub open spec fn button_text_for(delete_on_send: Option<bool>) -> Seq<char> {
    if delete_on_send == Some(false) {
        "Delete"@
    } else {
        "Don't delete"@
    }
}

/// The data of the personal preferences button: `cfg_user_1` turns deleting
/// on, `cfg_user_0` turns it off.
pub open spec fn user_callback_for(delete_on_send: Option<bool>) -> Seq<char> {
    if delete_on_send == Some(false) {
        "cfg_user_1"@
    } else {
        "cfg_user_0"@
    }
}

/// The personal preferences menu for the chat of `message`, given the
/// sender's preferences.
pub fn user_config(message: &Message, config: &ChatConfig) -> (menu: ConfigMenu)
    ensures
        menu.chat_id == message.chat.id,
        menu.title@ == "Personal configuration"@,
        menu.button_text@ == button_text_for(config.delete_on_send),
        menu.callback_data@ == user_callback_for(config.delete_on_send),
{
    let (text, data) = match config.delete_on_send {
        Some(true) => ("Don't delete", "cfg_user_0"),
        Some(false) => ("Delete", "cfg_user_1"),
        None => ("Don't delete", "cfg_user_0"),
    };
    ConfigMenu {
        chat_id: message.chat.id,
        title: String::from_str("Personal configuration"),
        button_text: String::from_str(text),
        callback_data: String::from_str(data),
    }
}

/// The chat preferences menu for the chat of `message`, given the chat's
/// preferences.  Its button sends its own label as data.
pub fn group_config(message: &Message, config: &ChatConfig) -> (menu: ConfigMenu)
    ensures
        menu.chat_id == message.chat.id,
        menu.title@ == "Group configuration"@,
        menu.button_text@ == button_text_for(config.delete_on_send),
        menu.callback_data@ == button_text_for(config.delete_on_send),
{
    let (text, data) = match config.delete_on_send {
        Some(true) => ("Don't delete", "Don't delete"),
        Some(false) => ("Delete", "Delete"),
        None => ("Don't delete", "Don't delete"),
    };
    ConfigMenu {
        chat_id: message.chat.id,
        title: String::from_str("Group configuration"),
        button_text: String::from_str(text),
        callback_data: String::from_str(data),
    }
}

proof fn lemma_ascii_boundary(t: Seq<char>, i: int)
    requires
        is_ascii_chars(t),
        0 <= i <= t.len(),
    ensures
        is_char_boundary(encode_utf8(t), i),
{
    let b = encode_utf8(t);
    encode_utf8_valid_utf8(t);
    is_ascii_chars_encode_utf8(t);
    if i == t.len() {
        is_char_boundary_start_end_of_seq(b);
    } else {
        is_char_boundary_iff_not_is_continuation_byte(b, i);
        assert(t[i] as u8 == b[i]);
        assert('\0' <= t[i] <= '\u{7f}');
    }
}

/// Pressing the personal preferences button flips the preference: the
/// router reads its data as setting deletion on exactly when requests are
/// currently kept, and the button is labelled `Delete` exactly then.
pub proof fn lemma_user_menu_button_flips(c: Option<bool>)
    ensures
        query_accepted(encode_utf8(user_callback_for(c)), user_callback_for(c)),
        query_route(encode_utf8(user_callback_for(c)), user_callback_for(c))
            == QueryRoute::SetDeleteOnSend(c == Some(false)),
        (button_text_for(c) == "Delete"@) == (c == Some(false)),
{
    reveal_strlit("cfg_user_1");
    reveal_strlit("cfg_user_0");
    reveal_strlit("Delete");
    reveal_strlit("Don't delete");
    let t = user_callback_for(c);
    let last = if c == Some(false) { '1' } else { '0' };
    assert(t =~= seq!['c', 'f', 'g', '_', 'u', 's', 'e', 'r', '_', last]);
    assert(is_ascii_chars(t));
    let b = encode_utf8(t);
    is_ascii_chars_encode_utf8(t);
    lemma_ascii_boundary(t, 3);
    lemma_ascii_boundary(t, 4);
    lemma_ascii_boundary(t, 8);
    assert(b[0] == 0x63 && b[1] == 0x66 && b[2] == 0x67);
    assert(b[4] == 0x75 && b[5] == 0x73 && b[6] == 0x65 && b[7] == 0x72);
    assert(b.subrange(0, 3) =~= cfg_bytes());
    assert(b.subrange(4, 8) =~= crate::commands::user_bytes());
    assert("Delete"@.len() != "Don't delete"@.len());
}

/// The chat preferences button changes nothing: its data, its own label,
/// is not data the router knows.
pub proof fn lemma_group_menu_button_unsupported(c: Option<bool>)
    ensures
        query_accepted(encode_utf8(button_text_for(c)), button_text_for(c)),
        query_route(encode_utf8(button_text_for(c)), button_text_for(c)) == QueryRoute::Unsupported,
{
    reveal_strlit("Delete");
    reveal_strlit("Don't delete");
    let t = button_text_for(c);
    if c == Some(false) {
        assert(t =~= seq!['D', 'e', 'l', 'e', 't', 'e']);
    } else {
        assert(t =~= seq!['D', 'o', 'n', '\'', 't', ' ', 'd', 'e', 'l', 'e', 't', 'e']);
    }
    assert(is_ascii_chars(t));
    let b = encode_utf8(t);
    is_ascii_chars_encode_utf8(t);
    lemma_ascii_boundary(t, 3);
    assert(b[0] == 0x44);
    assert(b.subrange(0, 3)[0] == b[0]);
    assert(b.subrange(0, 3) != cfg_bytes());
}

/// A text message to send.
pub struct Reply {
    pub chat_id: i64,
    pub text: String,
}

/// The question sent once a user or chat is waiting for a link.
pub fn link_prompt<T: HasID>(ent: &T) -> (r: Reply)
    ensures
        r.chat_id == ent.id_of(),
        r.text@ == "What to send?"@,
{
    Reply { chat_id: ent.get_id(), text: String::from_str("What to send?") }
}

/// The message sent when the download itself failed.
pub fn download_failure_reply(chat_id: i64) -> (r: Reply)
    ensures
        r.chat_id == chat_id,
        r.text@ == "Something went wrong"@,
{
    Reply { chat_id, text: String::from_str("Something went wrong") }
}

/// The message sent when the downloaded file could not be sent, with the
/// reason.
pub fn send_failure_reply(chat_id: i64, reason: &str) -> (r: Reply)
    ensures
        r.chat_id == chat_id,
        r.text@ == "Something went wrong: "@ + reason@,
{
    let mut text = String::from_str("Something went wrong: ");
    text.append(reason);
    Reply { chat_id, text }
}

/// What is downloaded.
#[derive(Clone, Copy, Debug, PartialEq, Eq, Structural)]
pub enum MediaKind {
    Video,
    Audio,
}

impl MediaKind {
    /// The `yt-dlp` format selector configured for this kind.
    pub fn format<'a>(&self, config: &'a Config) -> (f: &'a String)
        ensures
            *self == MediaKind::Video ==> f == &config.vid_format,
            *self == MediaKind::Audio ==> f == &config.aud_format,
    {
        match self {
            MediaKind::Video => &config.vid_format,
            MediaKind::Audio => &config.aud_format,
        }
    }
}

/// The work a download request sets off, besides the download itself.
pub struct MediaPlan {
    pub kind: MediaKind,
    /// Whose pending request is cleared: the sender's for a video, the
    /// chat's for music.
    pub reset_status_of: i64,
    /// The sender, whose preferences are read.
    pub user_id: i64,
    /// The chat, whose preferences are read and where the file goes.
    pub chat_id: i64,
    /// The message that asked, deleted afterwards if the preferences say so.
    pub message_id: i32,
    pub link: String,
}

/// What a download request in `message` for `link` sets off.  The message
/// must have a sender.
pub fn plan_media(kind: MediaKind, message: &Message, link: &str) -> (p: MediaPlan)
    requires
        message.from is Some,
    ensures
        p.kind == kind,
        p.user_id == message.from->0.id_of(),
        p.chat_id == message.chat.id,
        p.message_id == message.message_id,
        p.reset_status_of == (match kind {
            MediaKind::Video => message.from->0.id_of(),
            MediaKind::Audio => message.chat.id,
        }),
        p.link@ == link@,
{
    let user_id = message.from.as_ref().unwrap().get_id();
    let chat_id = message.chat.get_id();
    let reset_status_of = match kind {
        MediaKind::Video => user_id,
        MediaKind::Audio => chat_id,
    };
    MediaPlan {
        kind,
        reset_status_of,
        user_id,
        chat_id,
        message_id: message.message_id,
        link: String::from_str(link),
    }
}

/// The arguments of the `yt-dlp` run that downloads `link` in `format` to
/// `file`.
pub fn download_args(format: &str, file: &str, link: &str) -> (args: Vec<String>)
    ensures
        args@.len() == 6,
        args@[0]@ == "-f"@,
        args@[1]@ == format@,
        args@[2]@ == "-o"@,
        args@[3]@ == file@,
        args@[4]@ == "-v"@,
        args@[5]@ == link@,
{
    let mut args: Vec<String> = Vec::new();
    args.push(String::from_str("-f"));
    args.push(String::from_str(format));
    args.push(String::from_str("-o"));
    args.push(String::from_str(file));
    args.push(String::from_str("-v"));
    args.push(String::from_str(link));
    args
}

/// The arguments of the `yt-dlp` run that prints the title behind `url`.
pub fn title_args(url: &str) -> (args: Vec<String>)
    ensures
        args@.len() == 3,
        args@[0]@ == "--skip-download"@,
        args@[1]@ == "--get-title"@,
        args@[2]@ == url@,
{
    let mut args: Vec<String> = Vec::new();
    args.push(String::from_str("--skip-download"));
    args.push(String::from_str("--get-title"));
    args.push(String::from_str(url));
    args
}

/// The title printed by `yt-dlp`: its output as text when that is valid
/// UTF-8, else `unknown_name`.
pub fn title_from_output(stdout: &[u8]) -> (title: String)
    ensures
        valid_utf8(stdout@) ==> title@ == decode_utf8(stdout@),
        !valid_utf8(stdout@) ==> title@ == "unknown_name"@,
{
    match utf8_str(stdout) {
        Some(s) => {
            proof {
                encode_utf8_decode_utf8(s@);
            }
            String::from_str(s)
        },
        None => String::from_str("unknown_name"),
    }
}

/// The name the downloaded file is given: the title, or `unknown` when the
/// title could not be fetched.
pub fn file_title(title: Option<String>) -> (name: String)
    ensures
        title matches Some(t) ==> name@ == t@,
        title is None ==> name@ == "unknown"@,
{
    match title {
        Some(t) => t,
        None => String::from_str("unknown"),
    }
}

/// The name of the file a download is written to, inside a fresh temporary
/// directory.
pub fn download_file_name() -> (name: &'static str)
    ensures
        name@ == "file"@,
{
    "file"
}

/// Why a download failed before any file was ready.
#[derive(Clone, Copy, Debug, PartialEq, Eq, Structural)]
pub enum DownloadError {
    /// The temporary file's path is not valid UTF-8, so it cannot be passed
    /// to `yt-dlp`.
    UnusablePath,
    /// `yt-dlp` ended without success.
    ProcessFailed,
}

impl DownloadError {
    /// The message that goes with the error.
    pub fn message(&self) -> (m: &'static str)
        ensures
            *self == DownloadError::UnusablePath ==> m@ == "Unable to get filepath for youtube-dl"@,
            *self == DownloadError::ProcessFailed ==> m@ == "Process failed to execute"@,
    {
        match self {
            DownloadError::UnusablePath => "Unable to get filepath for youtube-dl",
            DownloadError::ProcessFailed => "Process failed to execute",
        }
    }
}

/// What polling the download process showed.
#[derive(Clone, Copy, Debug, PartialEq, Eq, Structural)]
pub enum ChildPoll {
    /// The process ended, successfully or not.
    Exited { success: bool },
    /// The process is still running.
    Running,
    /// The process could not be polled.
    Failed,
}

/// What the download does after a poll.
#[derive(Clone, Copy, Debug, PartialEq, Eq, Structural)]
pub enum DownloadStep {
    /// The file is ready.
    Finished,
    /// The process failed: the download fails.
    ProcessFailed,
    /// Yield, then poll again.
    Wait,
    /// Polling failed: the download fails with that error.
    PollFailed,
}

/// The next step of a download after a poll of its process.
pub fn download_step(poll: ChildPoll) -> (step: DownloadStep)
    ensures
        step == (match poll {
            ChildPoll::Exited { success: true } => DownloadStep::Finished,
            ChildPoll::Exited { success: false } => DownloadStep::ProcessFailed,
            ChildPoll::Running => DownloadStep::Wait,
            ChildPoll::Failed => DownloadStep::PollFailed,
        }),
{
    match poll {
        ChildPoll::Exited { success } => {
            if success {
                DownloadStep::Finished
            } else {
                DownloadStep::ProcessFailed
            }
        },
        ChildPoll::Running => DownloadStep::Wait,
        ChildPoll::Failed => DownloadStep::PollFailed,
    }
}

/// Whether preferences read back from the database ask for requests to be
/// deleted.
pub open spec fn asks_deletion(c: Result<ChatConfig, DbError>) -> bool {
    c matches Ok(cfg) && cfg.delete_on_send == Some(true)
}

/// Whether the request is deleted after the file was sent: when the
/// sender's or the chat's preferences, as read, turn deleting on.
pub fn should_delete_request(
    user: &Result<ChatConfig, DbError>,
    group: &Result<ChatConfig, DbError>,
) -> (d: bool)
    ensures
        d == (asks_deletion(*user) || asks_deletion(*group)),
{
    let by_user = match user {
        Ok(c) => c.deletes_on_send(),
        Err(_) => false,
    };
    let by_group = match group {
        Ok(c) => c.deletes_on_send(),
        Err(_) => false,
    };
    by_user || by_group
}

} // verus!
