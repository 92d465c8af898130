use redb_opfs::ErrorKind;
use redb_opfs::Lifecycle;
use redb_opfs::SeekFrom;
use redb_opfs::MAX_SAFE_LEN;
use redb_opfs::seek_position;
use redb_opfs::set_len_allowed;

#[test]
fn seek_from_start_is_the_offset_itself() {
    assert_eq!(seek_position(SeekFrom::Start(5), 100, 3).unwrap(), 5);
    assert_eq!(seek_position(SeekFrom::Start(0), 100, 3).unwrap(), 0);
}

#[test]
fn seek_past_the_end_is_legal() {
    assert_eq!(seek_position(SeekFrom::Start(1000), 0, 3).unwrap(), 1000);
    assert_eq!(seek_position(SeekFrom::End(7), 0, 3).unwrap(), 10);
}

#[test]
fn seek_from_current_moves_both_ways() {
    assert_eq!(seek_position(SeekFrom::Current(5), 10, 0).unwrap(), 15);
    assert_eq!(seek_position(SeekFrom::Current(-5), 10, 0).unwrap(), 5);
    assert_eq!(seek_position(SeekFrom::Current(0), 10, 0).unwrap(), 10);
}

#[test]
fn seek_below_zero_is_invalid_input() {
    let err = seek_position(SeekFrom::Current(-5), 3, 0).unwrap_err();
    assert_eq!(err.kind(), ErrorKind::InvalidInput);
    assert_eq!(err.describe(), "over/underflow seeking from current position".to_string());
    let err = seek_position(SeekFrom::End(-11), 0, 10).unwrap_err();
    assert_eq!(err.kind(), ErrorKind::InvalidInput);
    assert_eq!(err.describe(), "over/underflow seeking from file end".to_string());
}

#[test]
fn seek_overflow_is_invalid_input() {
    let err = seek_position(SeekFrom::Current(1), u64::MAX, 0).unwrap_err();
    assert_eq!(err.kind(), ErrorKind::InvalidInput);
    let err = seek_position(SeekFrom::End(1), 0, u64::MAX).unwrap_err();
    assert_eq!(err.kind(), ErrorKind::InvalidInput);
}

#[test]
fn host_length_bound_is_exactly_the_largest_safe_integer() {
    assert_eq!(MAX_SAFE_LEN, 9007199254740991);
    assert!(set_len_allowed(MAX_SAFE_LEN));
    assert!(!set_len_allowed(MAX_SAFE_LEN + 1));
    assert!(set_len_allowed(0));
}

#[test]
fn lifecycle_initializes_exactly_once() {
    let mut cell: Lifecycle<String> = Lifecycle::new();
    assert!(!cell.is_initialized());
    assert_eq!(cell.get().unwrap_err().kind(), ErrorKind::NotInitialized);
    assert!(cell.init("store".to_string()).is_ok());
    assert!(cell.is_initialized());
    assert_eq!(cell.get().unwrap().as_str(), "store");
    let err = cell.init("again".to_string()).unwrap_err();
    assert_eq!(err.kind(), ErrorKind::AlreadyInitialized);
    assert_eq!(cell.get().unwrap().as_str(), "store");
}

#[test]
fn lifecycle_teardown_empties_the_cell() {
    let mut cell: Lifecycle<u32> = Lifecycle::new();
    cell.init(7).unwrap();
    assert_eq!(cell.take(), Some(7));
    assert!(!cell.is_initialized());
    assert_eq!(cell.take(), None);
    assert!(cell.init(9).is_ok());
}
