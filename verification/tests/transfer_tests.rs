use tcprobe::errors::{ConfigError, SessionError};
use tcprobe::transfer::{check_buff_size, fill_buffer, validate_buffer, FILL_BYTE, FILL_WORD};

#[test]
fn buff_size_accepts_positive_word_multiples() {
    assert_eq!(check_buff_size(8), Ok(()));
    assert_eq!(check_buff_size(16), Ok(()));
    assert_eq!(check_buff_size(256 * 1024), Ok(()));
}

#[test]
fn buff_size_rejects_non_multiples() {
    for n in [1usize, 2, 3, 4, 5, 6, 7, 9, 12, 1023] {
        assert_eq!(check_buff_size(n), Err(ConfigError::BuffSizeNotWordMultiple));
    }
}

#[test]
fn buff_size_rejects_zero() {
    assert_eq!(check_buff_size(0), Err(ConfigError::BuffSizeNotWordMultiple));
}

#[test]
fn fill_buffer_is_all_fill_bytes() {
    let buf = fill_buffer(64);
    assert_eq!(buf.len(), 64);
    assert!(buf.iter().all(|b| *b == FILL_BYTE));
    assert_eq!(FILL_BYTE, 0xaa);
}

#[test]
fn filled_buffer_validates_cleanly() {
    for n in [8usize, 16, 64, 256 * 1024] {
        let buf = fill_buffer(n);
        assert_eq!(validate_buffer(&buf), Ok(()));
    }
}

#[test]
fn empty_buffer_validates_cleanly() {
    let buf: Vec<u8> = Vec::new();
    assert_eq!(validate_buffer(&buf), Ok(()));
}

#[test]
fn corrupted_first_word_is_reported() {
    let mut buf = fill_buffer(16);
    buf[3] ^= 0x01;
    assert_eq!(
        validate_buffer(&buf),
        Err(SessionError::Validation {
            word: 0xaaaa_aaaa_abaa_aaaa,
            word_index: 0,
        })
    );
}

#[test]
fn first_mismatching_word_wins() {
    let mut buf = fill_buffer(32);
    buf[8] = 0x00;
    buf[24] = 0x11;
    assert_eq!(
        validate_buffer(&buf),
        Err(SessionError::Validation {
            word: 0xaaaa_aaaa_aaaa_aa00,
            word_index: 1,
        })
    );
}

#[test]
fn whole_word_of_fill_bytes_matches_fill_word() {
    let buf = fill_buffer(8);
    assert_eq!(
        u64::from_le_bytes([buf[0], buf[1], buf[2], buf[3], buf[4], buf[5], buf[6], buf[7]]),
        FILL_WORD
    );
}

#[test]
fn trailing_bytes_beyond_last_word_are_ignored() {
    let mut buf = fill_buffer(9);
    buf[8] = 0x00;
    assert_eq!(validate_buffer(&buf), Ok(()));
}
