use ytbot::chat_config::ChatConfig;
use ytbot::commands::Message;
use ytbot::config::Config;
use ytbot::db::{Chat, DbError, User};
use ytbot::handles::{
    download_args, download_failure_reply, download_step, file_title, group_config,
    link_prompt, plan_media, send_failure_reply, should_delete_request, title_args,
    title_from_output, user_config, ChildPoll, DownloadStep, MediaKind,
};

fn message(chat: i64, from: u64) -> Message {
    Message { message_id: 9, from: Some(User { id: from }), chat: Chat { id: chat }, text: None }
}

#[test]
fn personal_menu() {
    let m = message(-5, 4);
    let menu = user_config(&m, &ChatConfig { delete_on_send: Some(true) });
    assert_eq!(menu.chat_id, -5);
    assert_eq!(menu.title, "Personal configuration");
    assert_eq!(menu.button_text, "Don't delete");
    assert_eq!(menu.callback_data, "cfg_user_0");
    let menu = user_config(&m, &ChatConfig { delete_on_send: Some(false) });
    assert_eq!(menu.button_text, "Delete");
    assert_eq!(menu.callback_data, "cfg_user_1");
    let menu = user_config(&m, &ChatConfig { delete_on_send: None });
    assert_eq!(menu.button_text, "Don't delete");
    assert_eq!(menu.callback_data, "cfg_user_0");
}

#[test]
fn group_menu() {
    let m = message(-5, 4);
    let menu = group_config(&m, &ChatConfig { delete_on_send: Some(false) });
    assert_eq!(menu.chat_id, -5);
    assert_eq!(menu.title, "Group configuration");
    assert_eq!(menu.button_text, "Delete");
    assert_eq!(menu.callback_data, "Delete");
    let menu = group_config(&m, &ChatConfig { delete_on_send: None });
    assert_eq!(menu.callback_data, "Don't delete");
}

#[test]
fn replies() {
    let r = link_prompt(&Chat { id: 3 });
    assert_eq!((r.chat_id, r.text.as_str()), (3, "What to send?"));
    let r = link_prompt(&User { id: u64::MAX });
    assert_eq!(r.chat_id, -1);
    let r = download_failure_reply(8);
    assert_eq!((r.chat_id, r.text.as_str()), (8, "Something went wrong"));
    let r = send_failure_reply(8, "too big");
    assert_eq!(r.text, "Something went wrong: too big");
}

#[test]
fn formats_per_kind() {
    let config = Config {
        vid_format: "bv+ba".to_string(),
        aud_format: "ba".to_string(),
        redis_address: None,
        telegram_token: "SECRET-REDACTED".to_string(),
    };
    assert_eq!(MediaKind::Video.format(&config), "bv+ba");
    assert_eq!(MediaKind::Audio.format(&config), "ba");
}

#[test]
fn media_plans() {
    let m = message(-300, 12);
    let p = plan_media(MediaKind::Video, &m, "https://l");
    assert_eq!((p.reset_status_of, p.user_id, p.chat_id, p.message_id), (12, 12, -300, 9));
    assert_eq!(p.link, "https://l");
    let p = plan_media(MediaKind::Audio, &m, "https://l");
    assert_eq!(p.reset_status_of, -300);
    assert_eq!(p.kind, MediaKind::Audio);
}

#[test]
fn yt_dlp_arguments() {
    assert_eq!(
        download_args("best", "/tmp/x/file", "https://l"),
        vec!["-f", "best", "-o", "/tmp/x/file", "-v", "https://l"]
    );
    assert_eq!(title_args("https://l"), vec!["--skip-download", "--get-title", "https://l"]);
}

#[test]
fn titles() {
    assert_eq!(title_from_output(b"A song\n"), "A song\n");
    assert_eq!(title_from_output("Пісня".as_bytes()), "Пісня");
    assert_eq!(title_from_output(&[0xff, 0xfe]), "unknown_name");
    assert_eq!(title_from_output(b""), "");
    assert_eq!(file_title(Some("t".to_string())), "t");
    assert_eq!(file_title(None), "unknown");
}

#[test]
fn download_steps() {
    assert_eq!(download_step(ChildPoll::Exited { success: true }), DownloadStep::Finished);
    assert_eq!(download_step(ChildPoll::Exited { success: false }), DownloadStep::ProcessFailed);
    assert_eq!(download_step(ChildPoll::Running), DownloadStep::Wait);
    assert_eq!(download_step(ChildPoll::Failed), DownloadStep::PollFailed);
}

#[test]
fn deletion_decision() {
    let yes = Ok(ChatConfig { delete_on_send: Some(true) });
    let no = Ok(ChatConfig { delete_on_send: Some(false) });
    let unset = Ok(ChatConfig { delete_on_send: None });
    let err: Result<ChatConfig, DbError> = Err(DbError::Error);
    assert!(should_delete_request(&yes, &err));
    assert!(should_delete_request(&err, &yes));
    assert!(should_delete_request(&no, &yes));
    assert!(!should_delete_request(&no, &unset));
    assert!(!should_delete_request(&err, &err));
    assert!(!should_delete_request(&unset, &no));
}
