use ezwhisper::config::default_language;
use ezwhisper::input::InputEvent;
use ezwhisper::output::TextInserter;

#[test]
fn test_default_language() {
    assert_eq!(default_language(), "en");
}

#[test]
fn test_input_event_equality() {
    assert_eq!(InputEvent::TriggerPressed, InputEvent::TriggerPressed);
    assert_ne!(InputEvent::TriggerPressed, InputEvent::TriggerReleased);
}

#[test]
fn test_inserter_creation() {
    let _inserter = TextInserter::new(false);
}
