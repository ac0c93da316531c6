use ytbot::user_status::{StatusDecodeError, StoredValue, UserStatus};

#[test]
fn status_codes() {
    assert_eq!(UserStatus::VidRequest.code(), 1);
    assert_eq!(UserStatus::MusRequest.code(), 2);
    assert_eq!(UserStatus::Idle.code(), 3);
}

#[test]
fn status_from_codes() {
    assert_eq!(UserStatus::from_code(1), UserStatus::VidRequest);
    assert_eq!(UserStatus::from_code(2), UserStatus::MusRequest);
    assert_eq!(UserStatus::from_code(3), UserStatus::Idle);
    assert_eq!(UserStatus::from_code(0), UserStatus::Idle);
    assert_eq!(UserStatus::from_code(-7), UserStatus::Idle);
    assert_eq!(UserStatus::from_code(i32::MAX), UserStatus::Idle);
}

#[test]
fn status_code_round_trip() {
    for s in [UserStatus::VidRequest, UserStatus::MusRequest, UserStatus::Idle] {
        assert_eq!(UserStatus::from_code(s.code()), s);
        assert_eq!(UserStatus::from_redis_value(&StoredValue::Int(s.code() as i64)), Ok(s));
    }
}

#[test]
fn stored_values_decode() {
    assert_eq!(UserStatus::from_redis_value(&StoredValue::Int(1)), Ok(UserStatus::VidRequest));
    assert_eq!(UserStatus::from_redis_value(&StoredValue::Int(2)), Ok(UserStatus::MusRequest));
    assert_eq!(UserStatus::from_redis_value(&StoredValue::Int(42)), Ok(UserStatus::Idle));
    assert_eq!(UserStatus::from_redis_value(&StoredValue::Int(1 << 40)), Ok(UserStatus::Idle));
    assert_eq!(
        UserStatus::from_redis_value(&StoredValue::Other),
        Err(StatusDecodeError::InvalidType)
    );
    assert_eq!(StatusDecodeError::InvalidType.message(), "Invalid type in database");
}
