use ashe::{Buffer, SaveError};

fn refused(path: &str) -> Result<(), SaveError> {
    Err(SaveError { reason: format!("cannot write {}", path) })
}

#[test]
fn test_new_buffer() {
    let data = vec![1, 2, 3];
    let buffer = Buffer::new(data.clone());

    assert_eq!(buffer.len(), data.len());
    assert_eq!(buffer.is_dirty(), false);
    assert_eq!(buffer[0], 1);
    assert_eq!(buffer[1], 2);
    assert_eq!(buffer[2], 3);
}

#[test]
fn test_buffer_len() {
    let buffer = Buffer::new(vec![1, 2, 3]);
    assert_eq!(buffer.len(), 3);

    let empty_buffer = Buffer::new(vec![]);
    assert_eq!(empty_buffer.len(), 0);
}

#[test]
fn test_update() {
    let mut buffer = Buffer::new(vec![1, 2, 3]);
    buffer.update(1, 5);

    assert!(buffer.is_dirty());
    assert_eq!(buffer[1], 5);
}

#[test]
fn test_is_dirty() {
    let mut buffer = Buffer::new(vec![1, 2, 3]);
    assert!(!buffer.is_dirty());

    buffer.update(1, 5);
    assert!(buffer.is_dirty());
}

#[test]
fn test_save_success() {
    let mut buffer = Buffer::new(vec![1, 2, 3]);

    let saved_data = buffer.data().clone();
    assert!(buffer.save(Ok(())).is_ok());
    assert!(!buffer.is_dirty());

    assert_eq!(saved_data, vec![1, 2, 3]);
}

#[test]
fn test_save_error() {
    let mut buffer = Buffer::new(vec![1, 2, 3]);
    buffer.update(1, 5);

    let path = "/invalid/test_save_error.bin";
    assert!(buffer.is_dirty());
    assert!(buffer.save(refused(path)).is_err());
    assert!(buffer.is_dirty());
}

#[test]
fn test_index_access() {
    let buffer = Buffer::new(vec![1, 2, 3]);

    assert_eq!(buffer[0], 1);
    assert_eq!(buffer[1], 2);
    assert_eq!(buffer[2], 3);
}

#[test]
fn update_marks_dirty_even_without_change() {
    let mut buffer = Buffer::new(vec![7, 8]);
    buffer.update(0, 7);
    assert!(buffer.is_dirty());
    assert_eq!(buffer.data(), &vec![7, 8]);
}

#[test]
fn update_changes_one_byte_only() {
    let mut buffer = Buffer::new(vec![1, 2, 3, 4]);
    buffer.update(2, 0xff);
    assert_eq!(buffer.data(), &vec![1, 2, 0xff, 4]);
    assert_eq!(buffer.get(2), 0xff);
    assert_eq!(buffer.len(), 4);
}

#[test]
fn save_hands_the_error_back() {
    let mut buffer = Buffer::new(vec![1]);
    buffer.update(0, 2);
    let result = buffer.save(refused("/nowhere"));
    assert_eq!(result.unwrap_err().reason, "cannot write /nowhere");
    assert_eq!(buffer.data(), &vec![2]);
}

#[test]
fn save_success_clears_dirty_and_keeps_bytes() {
    let mut buffer = Buffer::new(vec![1, 2, 3]);
    buffer.update(0, 9);
    assert!(buffer.save(Ok(())).is_ok());
    assert!(!buffer.is_dirty());
    assert_eq!(buffer.data(), &vec![9, 2, 3]);
}

#[test]
fn failed_save_on_clean_buffer_stays_clean() {
    let mut buffer = Buffer::new(vec![1, 2, 3]);
    assert!(buffer.save(refused("/nowhere")).is_err());
    assert!(!buffer.is_dirty());
}

#[test]
fn failed_save_offers_the_same_bytes_again() {
    let mut buffer = Buffer::new(vec![1, 2, 3]);
    buffer.update(1, 0x55);
    let first = buffer.data().clone();
    assert!(buffer.save(refused("/nowhere")).is_err());
    let second = buffer.data().clone();
    assert_eq!(first, second);
    assert!(buffer.save(Ok(())).is_ok());
    assert!(!buffer.is_dirty());
}
