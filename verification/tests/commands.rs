use ytbot::commands::{
    known_sites, next_offset, query_ack, query_data_accepted, route_message, route_query,
    CallbackQuery, Message, MessageRoute, QueryRoute, UpdateKind,
};
use ytbot::db::{Chat, DbError, User};
use ytbot::handles::{group_config, user_config, MediaKind};
use ytbot::chat_config::ChatConfig;
use ytbot::user_status::UserStatus;

fn idle() -> Result<UserStatus, DbError> {
    Ok(UserStatus::Idle)
}

fn fetch(route: MessageRoute) -> Option<(MediaKind, String)> {
    match route {
        MessageRoute::Fetch { kind, link } => Some((kind, link)),
        _ => None,
    }
}

#[test]
fn known_site_links() {
    assert!(known_sites("https://youtu.be/abc"));
    assert!(known_sites("https://vk.com/video-1_2"));
    assert!(!known_sites("https://www.youtube.com/watch?v=abc"));
    assert!(!known_sites("http://youtu.be/abc"));
    assert!(!known_sites(""));
}

#[test]
fn pending_request_takes_whole_text() {
    let r = route_message("/config", Ok(UserStatus::MusRequest));
    assert_eq!(fetch(r), Some((MediaKind::Audio, "/config".to_string())));
    let r = route_message("https://x/y", Ok(UserStatus::VidRequest));
    assert_eq!(fetch(r), Some((MediaKind::Video, "https://x/y".to_string())));
}

#[test]
fn failed_status_lookup_counts_as_idle() {
    assert!(matches!(route_message("/config", Err(DbError::Error)), MessageRoute::GroupConfig));
    assert!(matches!(route_message("hello", Err(DbError::Error)), MessageRoute::Ignore));
}

#[test]
fn config_commands() {
    assert!(matches!(route_message("/config", idle()), MessageRoute::GroupConfig));
    assert!(matches!(route_message("/configure", idle()), MessageRoute::GroupConfig));
    assert!(matches!(route_message("/selfconfig", idle()), MessageRoute::UserConfig));
}

#[test]
fn commands_with_links() {
    let r = route_message("/vid https://a/b", idle());
    assert_eq!(fetch(r), Some((MediaKind::Video, " https://a/b".to_string())));
    let r = route_message("/mushttps://a/b", idle());
    assert_eq!(fetch(r), Some((MediaKind::Audio, "https://a/b".to_string())));
    let r = route_message("/video", idle());
    assert_eq!(fetch(r), Some((MediaKind::Video, "eo".to_string())));
    let r = route_message("https://youtu.be/xyz", idle());
    assert_eq!(fetch(r), Some((MediaKind::Video, "https://youtu.be/xyz".to_string())));
    assert!(matches!(route_message("hello there", idle()), MessageRoute::Ignore));
}

#[test]
fn bare_commands_ask_for_a_link() {
    assert!(matches!(
        route_message("/vid", idle()),
        MessageRoute::AwaitLink(UserStatus::VidRequest)
    ));
    assert!(matches!(
        route_message("/mus", idle()),
        MessageRoute::AwaitLink(UserStatus::MusRequest)
    ));
    assert!(matches!(route_message("/vi", idle()), MessageRoute::Ignore));
    assert!(matches!(route_message("", idle()), MessageRoute::Ignore));
}

#[test]
fn length_is_counted_in_bytes() {
    // four characters, five bytes: "/vid" is followed by more text
    let r = route_message("/viд", idle());
    assert!(matches!(r, MessageRoute::Ignore));
    let r = route_message("/vidé", idle());
    assert_eq!(fetch(r), Some((MediaKind::Video, "é".to_string())));
}

#[test]
fn announced_request_then_link() {
    let first = route_message("/vid", idle());
    let status = match first {
        MessageRoute::AwaitLink(s) => s,
        _ => panic!("expected a request for a link"),
    };
    let stored = ytbot::db::status_result(ytbot::db::DbReply::Value(status.code()));
    let r = route_message("anything at all", stored);
    assert_eq!(fetch(r), Some((MediaKind::Video, "anything at all".to_string())));
}

#[test]
fn query_data_checks() {
    assert!(query_data_accepted("cfg_user_1"));
    assert!(query_data_accepted("cfg_group_1"));
    assert!(query_data_accepted("Delete"));
    assert!(query_data_accepted("abc"));
    assert!(query_data_accepted("cfg_other"));
    assert!(!query_data_accepted("ab"));
    assert!(!query_data_accepted("cfg"));
    assert!(!query_data_accepted("cfg_user"));
    assert!(!query_data_accepted("cfg_user_"));
    assert!(!query_data_accepted("cfg_grou"));
    assert!(!query_data_accepted("cfg_group"));
    assert!(!query_data_accepted("abé"));
    assert!(!query_data_accepted("cfgé_user_1"));
}

#[test]
fn query_routes() {
    assert_eq!(route_query("cfg_user_1"), QueryRoute::SetDeleteOnSend(true));
    assert_eq!(route_query("cfg_user_0"), QueryRoute::SetDeleteOnSend(false));
    assert_eq!(route_query("cfg_user_1xyz"), QueryRoute::SetDeleteOnSend(true));
    // the tenth character of "cfg_group_1" is the underscore
    assert_eq!(route_query("cfg_group_1"), QueryRoute::SetDeleteOnSend(false));
    assert_eq!(route_query("cfg_group1"), QueryRoute::SetDeleteOnSend(true));
    assert_eq!(route_query("cfg_other"), QueryRoute::Ignore);
    assert_eq!(route_query("Delete"), QueryRoute::Unsupported);
    assert_eq!(route_query("Don't delete"), QueryRoute::Unsupported);
}

fn message(chat: i64, from: Option<u64>) -> Message {
    Message {
        message_id: 77,
        from: from.map(|id| User { id }),
        chat: Chat { id: chat },
        text: None,
    }
}

#[test]
fn menu_buttons_through_the_router() {
    let m = message(10, Some(10));
    for c in [Some(true), Some(false), None] {
        let cfg = ChatConfig { delete_on_send: c };
        let menu = user_config(&m, &cfg);
        assert!(query_data_accepted(&menu.callback_data));
        assert_eq!(
            route_query(&menu.callback_data),
            QueryRoute::SetDeleteOnSend(c == Some(false))
        );
        assert_eq!(menu.button_text == "Delete", c == Some(false));
        let menu = group_config(&m, &cfg);
        assert!(query_data_accepted(&menu.callback_data));
        assert_eq!(route_query(&menu.callback_data), QueryRoute::Unsupported);
    }
}

#[test]
fn query_acknowledgement() {
    let q = CallbackQuery {
        id: "q1".to_string(),
        from: User { id: 5 },
        data: Some("cfg_user_1".to_string()),
        message: Some(message(-200, None)),
    };
    let ack = query_ack(&q);
    assert_eq!(ack.notice_chat_id, 5);
    assert_eq!(ack.notice, "Ok, done");
    assert!(ack.silent);
    assert_eq!(ack.delete_chat_id, -200);
    assert_eq!(ack.delete_message_id, 77);
    assert_eq!(ack.callback_query_id, "q1");
}

#[test]
fn offsets() {
    assert_eq!(next_offset(None, 10, UpdateKind::Message), Some(11));
    assert_eq!(next_offset(Some(3), 10, UpdateKind::CallbackQuery), Some(11));
    assert_eq!(next_offset(Some(3), 10, UpdateKind::Other), Some(3));
    assert_eq!(next_offset(None, u32::MAX, UpdateKind::Other), None);
}

#[test]
fn pending_request_is_never_announced_again() {
    let r = route_message("/vid", Ok(UserStatus::VidRequest));
    assert_eq!(fetch(r), Some((MediaKind::Video, "/vid".to_string())));
    let r = route_message("/mus", Ok(UserStatus::VidRequest));
    assert_eq!(fetch(r), Some((MediaKind::Video, "/mus".to_string())));
}
