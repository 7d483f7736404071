use oled_display::failure::{Failure, FATAL_EXIT_STATUS};
use oled_display::notification::SourceError;
use oled_display::screen::OpenError;
use oled_display::text::RenderFailure;

#[test]
fn a_lost_connection_ends_the_process_with_a_failure_status() {
    let lost = Failure::ConnectionLost;
    assert!(lost.is_fatal());
    assert_eq!(lost.exit_status(), Some(1));
    assert_ne!(lost.exit_status(), Some(0));
    assert_eq!(FATAL_EXIT_STATUS, 1);
}

#[test]
fn a_bad_item_is_passed_over() {
    let bad = Failure::Source(SourceError::Malformed);
    assert!(!bad.is_fatal());
    assert_eq!(bad.exit_status(), None);
}

#[test]
fn every_other_failure_is_fatal() {
    let fatal = [
        Failure::ConnectionLost,
        Failure::Open(OpenError::DeviceNotFound),
        Failure::Open(OpenError::OpenFailed),
        Failure::Render(RenderFailure::TextTooLong),
        Failure::Write,
    ];
    for failure in fatal {
        assert!(failure.is_fatal(), "{:?}", failure);
        assert_eq!(failure.exit_status(), Some(1), "{:?}", failure);
    }
}
