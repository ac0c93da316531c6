use ytbot::chat_config::ChatConfig;
use ytbot::config::Config;
use ytbot::db::{
    config_key, config_or_default, config_pipeline, config_text, decimal_string, open_client,
    status_key, status_pipeline, status_result, write_result, Chat, DbError, DbReply, HasID, User,
    STATUS_TTL_SECS,
};
use ytbot::user_status::UserStatus;

fn config_with(address: Option<&str>) -> Config {
    Config {
        vid_format: "best".to_string(),
        aud_format: "bestaudio".to_string(),
        redis_address: address.map(|a| a.to_string()),
        telegram_token: "SECRET-REDACTED".to_string(),
    }
}

#[test]
fn decimal_matches_std_formatting() {
    let values = [
        0i64, 1, 9, 10, 11, 99, 100, 12345, -1, -9, -10, -100, 1234567890123,
        i64::MAX, i64::MIN, i64::MIN + 1, i64::MAX - 1,
    ];
    for v in values {
        assert_eq!(decimal_string(v), v.to_string());
    }
}

#[test]
fn user_ids_wrap_to_signed() {
    assert_eq!(User { id: 42 }.get_id(), 42);
    assert_eq!(User { id: i64::MAX as u64 }.get_id(), i64::MAX);
    assert_eq!(User { id: u64::MAX }.get_id(), -1);
    assert_eq!(User { id: 1u64 << 63 }.get_id(), i64::MIN);
    assert_eq!(Chat { id: -100123 }.get_id(), -100123);
}

#[test]
fn keys_layout() {
    assert_eq!(status_key(&Chat { id: 12 }), "12:status");
    assert_eq!(config_key(&Chat { id: -1001 }), "-1001:config");
    assert_eq!(status_key(&User { id: 777 }), "777:status");
    assert_eq!(config_key(&User { id: u64::MAX }), "-1:config");
}

#[test]
fn keys_never_collide() {
    let ids = [0i64, 1, -1, 10, 100, -10, i64::MAX, i64::MIN];
    for a in ids {
        for b in ids {
            let (sa, sb) = (status_key(&Chat { id: a }), status_key(&Chat { id: b }));
            let (ca, cb) = (config_key(&Chat { id: a }), config_key(&Chat { id: b }));
            assert_eq!(sa == sb, a == b);
            assert_eq!(ca == cb, a == b);
            assert_ne!(sa, cb);
        }
    }
}

#[test]
fn status_pipeline_commands() {
    let p = status_pipeline(&Chat { id: 5 }, UserStatus::MusRequest);
    assert_eq!(
        p.get_packed_pipeline(),
        b"*3\r\n$3\r\nSET\r\n$8\r\n5:status\r\n$1\r\n2\r\n*3\r\n$6\r\nEXPIRE\r\n$8\r\n5:status\r\n$2\r\n60\r\n".to_vec()
    );
    assert_eq!(STATUS_TTL_SECS, 60);
    let p = status_pipeline(&User { id: u64::MAX }, UserStatus::Idle);
    assert_eq!(
        p.get_packed_pipeline(),
        b"*3\r\n$3\r\nSET\r\n$9\r\n-1:status\r\n$1\r\n3\r\n*3\r\n$6\r\nEXPIRE\r\n$9\r\n-1:status\r\n$2\r\n60\r\n".to_vec()
    );
}

#[test]
fn config_pipeline_commands() {
    let p = config_pipeline(&User { id: 3 }, "{\"delete_on_send\":true}");
    assert_eq!(
        p.get_packed_pipeline(),
        b"*3\r\n$3\r\nSET\r\n$8\r\n3:config\r\n$23\r\n{\"delete_on_send\":true}\r\n".to_vec()
    );
}

#[test]
fn write_outcomes() {
    assert_eq!(write_result(DbReply::Value(())), Ok(()));
    assert_eq!(write_result(DbReply::Failed), Err(DbError::Error));
    assert_eq!(write_result(DbReply::NoConnection), Err(DbError::Error));
}

#[test]
fn status_outcomes() {
    assert_eq!(status_result(DbReply::NoConnection), Err(DbError::Error));
    assert_eq!(status_result(DbReply::Failed), Ok(UserStatus::Idle));
    assert_eq!(status_result(DbReply::Value(1)), Ok(UserStatus::VidRequest));
    assert_eq!(status_result(DbReply::Value(2)), Ok(UserStatus::MusRequest));
    assert_eq!(status_result(DbReply::Value(3)), Ok(UserStatus::Idle));
    assert_eq!(status_result(DbReply::Value(0)), Ok(UserStatus::Idle));
}

#[test]
fn config_text_outcomes() {
    assert_eq!(config_text(DbReply::NoConnection), Err(DbError::Error));
    assert_eq!(config_text(DbReply::Failed), Err(DbError::Error));
    assert_eq!(config_text(DbReply::Value(None)), Ok("{'delete_on_send': false}".to_string()));
    assert_eq!(
        config_text(DbReply::Value(Some("{\"delete_on_send\":null}".to_string()))),
        Ok("{\"delete_on_send\":null}".to_string())
    );
}

#[test]
fn unreadable_config_falls_back() {
    assert_eq!(config_or_default(None), ChatConfig { delete_on_send: Some(false) });
    let c = ChatConfig { delete_on_send: None };
    assert_eq!(config_or_default(Some(c)), c);
    let c = ChatConfig { delete_on_send: Some(true) };
    assert_eq!(config_or_default(Some(c)), c);
}

#[test]
fn client_opening() {
    assert!(open_client(&config_with(None)).is_none());
    assert!(matches!(open_client(&config_with(Some("redis://127.0.0.1:6379/"))), Some(Ok(_))));
    assert!(matches!(open_client(&config_with(Some("redis://127.0.0.1/0"))), Some(Ok(_))));
    assert!(matches!(open_client(&config_with(Some("http://127.0.0.1/"))), Some(Err(_))));
    assert!(matches!(open_client(&config_with(Some("not a url"))), Some(Err(_))));
}

#[test]
fn unset_config_text_never_decodes() {
    let text = config_text(DbReply::Value(None)).unwrap();
    assert!(serde_json::from_str::<serde_json::Value>(&text).is_err());
}
