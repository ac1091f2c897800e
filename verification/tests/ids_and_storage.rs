use complex_server::domain::job::JobStatus;
use complex_server::error::AppError;
use complex_server::queue::redis_queue::{parse_queue_entry, queue_entry};
use complex_server::storage::cache::cache_key;
use complex_server::storage::ledger::{
    decode_job_row, millis_to_utc, JobMeta, CHRONO_MAX_MILLIS, CHRONO_MIN_MILLIS,
};
use complex_server::text::{i64_decimal, u64_decimal, usize_decimal};

const ID: u128 = 0xa1a2a3a4_b1b2_c1c2_d1d2_d3d4d5d6d7d8;
const ID_TEXT: &str = "a1a2a3a4-b1b2-c1c2-d1d2-d3d4d5d6d7d8";

#[test]
fn queue_entries_are_hyphenated_ids() {
    assert_eq!(queue_entry(ID), ID_TEXT);
    assert_eq!(queue_entry(0), "00000000-0000-0000-0000-000000000000");
    assert_eq!(queue_entry(u128::MAX), "ffffffff-ffff-ffff-ffff-ffffffffffff");
}

#[test]
fn queue_entries_read_back() {
    for id in [0u128, 1, ID, u128::MAX, 0x550e8400_e29b_41d4_a716_446655440000] {
        assert_eq!(parse_queue_entry(&queue_entry(id)), Ok(id));
    }
    assert_eq!(parse_queue_entry("A1A2A3A4-B1B2-C1C2-D1D2-D3D4D5D6D7D8"), Ok(ID));
}

#[test]
fn bad_queue_entries() {
    match parse_queue_entry("not-a-uuid") {
        Err(AppError::Internal(m)) => assert_eq!(
            m,
            format!("invalid id in queue: {}", uuid::Uuid::parse_str("not-a-uuid").unwrap_err())
        ),
        other => panic!("unexpected {:?}", other),
    }
    assert!(parse_queue_entry("").is_err());
}

#[test]
fn cache_keys() {
    assert_eq!(cache_key("job:", ID), format!("job:{}", ID_TEXT));
    assert_eq!(cache_key("", 0), "00000000-0000-0000-0000-000000000000");
    assert_ne!(cache_key("job:", 1), cache_key("job:", 2));
}

#[test]
fn timestamps() {
    assert_eq!(millis_to_utc(0), Ok(0));
    assert_eq!(millis_to_utc(1_725_029_869_000), Ok(1_725_029_869_000));
    assert_eq!(millis_to_utc(-8_000_000_000_000_000), Ok(-8_000_000_000_000_000));
    assert_eq!(
        millis_to_utc(i64::MAX),
        Err(AppError::Internal("bad timestamp: 9223372036854775807".to_string()))
    );
    assert_eq!(
        millis_to_utc(i64::MIN),
        Err(AppError::Internal("bad timestamp: -9223372036854775808".to_string()))
    );
}

#[test]
fn rows_decode() {
    assert_eq!(
        decode_job_row(ID_TEXT, "completed", 10, Some(20), Some(30)),
        Ok(JobMeta {
            id: ID,
            status: JobStatus::Completed,
            created_at: 10,
            started_at: Some(20),
            completed_at: Some(30),
        })
    );
    assert_eq!(
        decode_job_row(ID_TEXT, "queued", 10, None, None),
        Ok(JobMeta { id: ID, status: JobStatus::Queued, created_at: 10, started_at: None, completed_at: None })
    );
}

#[test]
fn rows_with_bad_columns() {
    match decode_job_row("nope", "bogus", i64::MAX, None, None) {
        Err(AppError::Internal(m)) => assert_eq!(
            m,
            format!("bad uuid in db: {}", uuid::Uuid::parse_str("nope").unwrap_err())
        ),
        other => panic!("unexpected {:?}", other),
    }
    assert_eq!(
        decode_job_row(ID_TEXT, "bogus", i64::MAX, None, None),
        Err(AppError::Internal("bad status: bogus".to_string()))
    );
    assert_eq!(
        decode_job_row(ID_TEXT, "running", i64::MAX, Some(i64::MIN), None),
        Err(AppError::Internal("bad timestamp: 9223372036854775807".to_string()))
    );
    assert_eq!(
        decode_job_row(ID_TEXT, "running", 5, Some(i64::MIN), Some(i64::MAX)),
        Err(AppError::Internal("bad timestamp: -9223372036854775808".to_string()))
    );
    assert_eq!(
        decode_job_row(ID_TEXT, "failed", 5, Some(6), Some(i64::MAX)),
        Err(AppError::Internal("bad timestamp: 9223372036854775807".to_string()))
    );
}

#[test]
fn chrono_range_edges() {
    assert_eq!(CHRONO_MIN_MILLIS, -8_334_601_228_800_000);
    assert_eq!(CHRONO_MAX_MILLIS, 8_210_266_876_799_999);
    assert_eq!(millis_to_utc(CHRONO_MIN_MILLIS), Ok(CHRONO_MIN_MILLIS));
    assert_eq!(millis_to_utc(CHRONO_MAX_MILLIS), Ok(CHRONO_MAX_MILLIS));
    assert_eq!(
        millis_to_utc(CHRONO_MIN_MILLIS - 1),
        Err(AppError::Internal("bad timestamp: -8334601228800001".to_string()))
    );
    assert_eq!(
        millis_to_utc(CHRONO_MAX_MILLIS + 1),
        Err(AppError::Internal("bad timestamp: 8210266876800000".to_string()))
    );
}

#[test]
fn decimal_numerals() {
    for v in [0u64, 7, 10, 99, 100, 12345, u64::MAX] {
        assert_eq!(u64_decimal(v), v.to_string());
    }
    for v in [0usize, 1, 256, usize::MAX] {
        assert_eq!(usize_decimal(v), v.to_string());
    }
    for v in [0i64, -1, 42, -9, i64::MAX, i64::MIN] {
        assert_eq!(i64_decimal(v), v.to_string());
    }
}

#[test]
fn queue_entries_in_every_layout() {
    assert_eq!(parse_queue_entry("a1a2a3a4b1b2c1c2d1d2d3d4d5d6d7d8"), Ok(ID));
    assert_eq!(parse_queue_entry("{a1a2a3a4-b1b2-c1c2-d1d2-d3d4d5d6d7d8}"), Ok(ID));
    assert_eq!(parse_queue_entry("urn:uuid:a1a2a3a4-b1b2-c1c2-d1d2-d3d4d5d6d7d8"), Ok(ID));
    assert_eq!(parse_queue_entry("URN:UUID:A1A2A3A4-B1B2-C1C2-D1D2-D3D4D5D6D7D8"), Ok(ID));
    assert!(parse_queue_entry("a1a2a3a4-b1b2-c1c2-d1d2-d3d4d5d6d7d").is_err());
    assert!(parse_queue_entry("a1a2a3a4+b1b2-c1c2-d1d2-d3d4d5d6d7d8").is_err());
    assert!(parse_queue_entry("g1a2a3a4b1b2c1c2d1d2d3d4d5d6d7d8").is_err());
    assert!(parse_queue_entry("urx:uuid:a1a2a3a4-b1b2-c1c2-d1d2-d3d4d5d6d7d8").is_err());
}
