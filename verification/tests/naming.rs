use trace_archiver::envelope::Timestamp;
use trace_archiver::naming::{
    artifact_name, generate_filename, NameError, MAX_UTC_MILLIS, MIN_UTC_MILLIS,
};

#[test]
fn timestamp_without_time_gives_no_millis() {
    assert_eq!(Timestamp::NotAvailable.to_millis(), None);
    assert_eq!(Timestamp::CreateTime(-1).to_millis(), None);
    assert_eq!(Timestamp::LogAppendTime(-1).to_millis(), None);
}

#[test]
fn timestamp_with_time_gives_its_millis() {
    assert_eq!(Timestamp::CreateTime(0).to_millis(), Some(0));
    assert_eq!(Timestamp::CreateTime(1000).to_millis(), Some(1000));
    assert_eq!(Timestamp::LogAppendTime(-2).to_millis(), Some(-2));
    assert_eq!(Timestamp::LogAppendTime(i64::MAX).to_millis(), Some(i64::MAX));
}

#[test]
fn name_of_one_second_after_the_epoch() {
    assert_eq!(
        generate_filename(Timestamp::CreateTime(1000)),
        Ok("1970-01-01T00:00:01Z.h5".to_string())
    );
}

#[test]
fn name_keeps_milliseconds() {
    assert_eq!(
        generate_filename(Timestamp::CreateTime(947_638_923_004)),
        Ok("2000-01-12T01:02:03.004Z.h5".to_string())
    );
    assert_eq!(
        generate_filename(Timestamp::LogAppendTime(1500)),
        Ok("1970-01-01T00:00:01.500Z.h5".to_string())
    );
}

#[test]
fn name_of_the_epoch_and_before() {
    assert_eq!(
        generate_filename(Timestamp::CreateTime(0)),
        Ok("1970-01-01T00:00:00Z.h5".to_string())
    );
    assert_eq!(
        generate_filename(Timestamp::CreateTime(-2)),
        Ok("1969-12-31T23:59:59.998Z.h5".to_string())
    );
}

#[test]
fn same_millisecond_gives_the_same_name() {
    let first = generate_filename(Timestamp::CreateTime(1_700_000_000_123));
    let second = generate_filename(Timestamp::CreateTime(1_700_000_000_123));
    let appended = generate_filename(Timestamp::LogAppendTime(1_700_000_000_123));
    assert_eq!(first, Ok("2023-11-14T22:13:20.123Z.h5".to_string()));
    assert_eq!(first, second);
    assert_eq!(first, appended);
    assert_ne!(first, generate_filename(Timestamp::CreateTime(1_700_000_000_124)));
}

#[test]
fn missing_timestamp_gives_no_name() {
    assert_eq!(generate_filename(Timestamp::NotAvailable), Err(NameError::TimestampUnavailable));
    assert_eq!(generate_filename(Timestamp::CreateTime(-1)), Err(NameError::TimestampUnavailable));
    assert_eq!(
        generate_filename(Timestamp::LogAppendTime(-1)),
        Err(NameError::TimestampUnavailable)
    );
}

#[test]
fn range_bounds_are_those_of_the_calendar() {
    assert_eq!(MIN_UTC_MILLIS, chrono::DateTime::<chrono::Utc>::MIN_UTC.timestamp_millis());
    assert_eq!(MAX_UTC_MILLIS, chrono::DateTime::<chrono::Utc>::MAX_UTC.timestamp_millis());
}

#[test]
fn names_exist_up_to_the_range_bounds() {
    assert_eq!(
        generate_filename(Timestamp::CreateTime(MIN_UTC_MILLIS)),
        Ok("-262143-01-01T00:00:00Z.h5".to_string())
    );
    assert_eq!(
        generate_filename(Timestamp::CreateTime(MAX_UTC_MILLIS)),
        Ok("+262142-12-31T23:59:59.999Z.h5".to_string())
    );
}

#[test]
fn timestamp_beyond_the_range_gives_no_name() {
    assert_eq!(
        generate_filename(Timestamp::CreateTime(MIN_UTC_MILLIS - 1)),
        Err(NameError::TimestampOutOfRange)
    );
    assert_eq!(
        generate_filename(Timestamp::CreateTime(MAX_UTC_MILLIS + 1)),
        Err(NameError::TimestampOutOfRange)
    );
    assert_eq!(
        generate_filename(Timestamp::LogAppendTime(i64::MAX)),
        Err(NameError::TimestampOutOfRange)
    );
    assert_eq!(
        generate_filename(Timestamp::LogAppendTime(i64::MIN)),
        Err(NameError::TimestampOutOfRange)
    );
}

#[test]
fn artifact_name_appends_the_extension() {
    assert_eq!(artifact_name(Some("run".to_string())), Ok("run.h5".to_string()));
    assert_eq!(artifact_name(Some(String::new())), Ok(".h5".to_string()));
    assert_eq!(artifact_name(None), Err(NameError::TimestampOutOfRange));
}

#[test]
fn name_error_message() {
    assert_eq!(
        NameError::TimestampUnavailable.message(),
        "Failed to convert timestamp to milliseconds"
    );
    assert_eq!(
        NameError::TimestampOutOfRange.message(),
        "Failed to convert timestamp to milliseconds"
    );
}
