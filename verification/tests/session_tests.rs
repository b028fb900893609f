use tcprobe::errors::SessionError;
use tcprobe::session::{RateSample, SamplerPhase, Session};
use tcprobe::transfer::fill_buffer;

#[test]
fn start_resets_counter_and_clears_stop() {
    let s = Session::start(64, true);
    assert_eq!(s.counter, 0);
    assert!(!s.stop_requested);
    assert_eq!(s.phase, SamplerPhase::Running);
    assert_eq!(s.last_sampled, 0);
    assert_eq!(s.buff_size, 64);
    assert!(s.validate);
}

#[test]
fn sent_buffers_grow_the_counter() {
    let mut s = Session::start(64, false);
    s.record_sent(64);
    s.record_sent(64);
    assert_eq!(s.counter, 128);
}

#[test]
fn received_fill_buffers_validate_and_count() {
    let mut s = Session::start(64, true);
    let buf = fill_buffer(64);
    assert_eq!(s.record_received(&buf), Ok(()));
    assert_eq!(s.record_received(&buf), Ok(()));
    assert_eq!(s.counter, 128);
}

#[test]
fn corrupted_buffer_fails_validation_but_still_counts() {
    let mut s = Session::start(64, true);
    let mut buf = fill_buffer(64);
    buf[10] = 0x2a;
    let r = s.record_received(&buf);
    assert_eq!(
        r,
        Err(SessionError::Validation {
            word: 0xaaaa_aaaa_aa2a_aaaa,
            word_index: 1,
        })
    );
    assert_eq!(s.counter, 64);
}

#[test]
fn validation_off_accepts_any_bytes() {
    let mut s = Session::start(16, false);
    let buf = vec![0u8; 16];
    assert_eq!(s.record_received(&buf), Ok(()));
    assert_eq!(s.counter, 16);
}

#[test]
fn sampler_reports_deltas_between_wakes() {
    let mut s = Session::start(8, false);
    s.record_sent(100);
    assert_eq!(
        s.sampler_wake(),
        Some(RateSample {
            total: 100,
            rate: 100,
        })
    );
    s.record_sent(50);
    assert_eq!(
        s.sampler_wake(),
        Some(RateSample {
            total: 150,
            rate: 50,
        })
    );
    assert_eq!(
        s.sampler_wake(),
        Some(RateSample { total: 150, rate: 0 })
    );
}

#[test]
fn stop_signal_retires_sampler_without_final_sample() {
    let mut s = Session::start(8, false);
    s.record_sent(100);
    s.stop_ticker();
    assert!(s.stop_requested);
    assert_eq!(s.sampler_wake(), None);
    assert_eq!(s.phase, SamplerPhase::Stopped);
    assert_eq!(s.sampler_wake(), None);
    assert_eq!(s.phase, SamplerPhase::Stopped);
}

#[test]
fn restart_leaks_nothing_from_the_previous_session() {
    let mut first = Session::start(8, false);
    first.record_sent(1_000_000);
    first.sampler_wake();
    first.stop_ticker();
    assert_eq!(first.sampler_wake(), None);

    let mut second = Session::start(8, false);
    assert_eq!(second.counter, 0);
    assert!(!second.stop_requested);
    second.record_sent(42);
    assert_eq!(
        second.sampler_wake(),
        Some(RateSample { total: 42, rate: 42 })
    );
}
