use mute_puck::link::{classify_code, classify_report, link_step, LinkInput, LinkState};
use mute_puck::state::Event;

#[test]
fn press_code_classifies_as_press() {
    assert_eq!(classify_code(4, 0), Some(Event::Press));
}

#[test]
fn release_code_classifies_as_release() {
    assert_eq!(classify_code(0, 0), Some(Event::Release));
}

#[test]
fn firmware_variant_release_code_is_configurable() {
    assert_eq!(classify_code(2, 2), Some(Event::Release));
    assert_eq!(classify_code(0, 2), None);
}

#[test]
fn other_codes_are_ignored() {
    assert_eq!(classify_code(1, 0), None);
    assert_eq!(classify_code(3, 0), None);
    assert_eq!(classify_code(255, 0), None);
}

#[test]
fn report_code_sits_at_offset_three() {
    let report = [0u8, 0, 0, 4, 0, 0, 0, 0];
    assert_eq!(classify_report(&report, 0), Some(Event::Press));
    let report = [9u8, 9, 9, 0, 9, 9, 9, 9];
    assert_eq!(classify_report(&report, 0), Some(Event::Release));
}

#[test]
fn successful_open_emits_hotplug_and_drains() {
    for cur in [LinkState::Waiting, LinkState::Reading] {
        let step = link_step(cur, LinkInput::OpenOk, 0);
        assert_eq!(step.next, LinkState::Reading);
        assert_eq!(step.emit, Some(Event::Hotplug));
        assert!(step.drain);
        assert!(!step.retry_open);
    }
}

#[test]
fn failed_open_waits_for_hotplug() {
    let step = link_step(LinkState::Waiting, LinkInput::OpenFailed, 0);
    assert_eq!(step.next, LinkState::Waiting);
    assert_eq!(step.emit, None);
    assert!(!step.retry_open);
}

#[test]
fn reads_emit_classified_events() {
    let step = link_step(LinkState::Reading, LinkInput::ReadOk(4), 0);
    assert_eq!(step.next, LinkState::Reading);
    assert_eq!(step.emit, Some(Event::Press));
    let step = link_step(LinkState::Reading, LinkInput::ReadOk(7), 0);
    assert_eq!(step.emit, None);
}

#[test]
fn spurious_notifications_resume_the_wait() {
    let step = link_step(LinkState::Waiting, LinkInput::HotplugOther, 0);
    assert_eq!(step.next, LinkState::Waiting);
    assert_eq!(step.emit, None);
    assert!(!step.retry_open);
}

#[test]
fn scenario_disconnect_and_reconnect() {
    // Device disconnects mid-session: the read fails, the source falls
    // back to waiting (retrying the open once, which fails while the
    // device is gone), then an "added" notification retries the open;
    // on success a fresh Hotplug is emitted and reading resumes.
    let mut cur = LinkState::Reading;

    let step = link_step(cur, LinkInput::ReadFailed, 0);
    assert_eq!(step.next, LinkState::Waiting);
    assert!(step.retry_open);
    cur = step.next;

    let step = link_step(cur, LinkInput::OpenFailed, 0);
    assert_eq!(step.next, LinkState::Waiting);
    assert_eq!(step.emit, None);
    cur = step.next;

    let step = link_step(cur, LinkInput::HotplugAdd, 0);
    assert_eq!(step.next, LinkState::Waiting);
    assert!(step.retry_open);
    cur = step.next;

    let step = link_step(cur, LinkInput::OpenOk, 0);
    assert_eq!(step.next, LinkState::Reading);
    assert_eq!(step.emit, Some(Event::Hotplug));
    assert!(step.drain);
    cur = step.next;

    // Reading resumes.
    let step = link_step(cur, LinkInput::ReadOk(0), 0);
    assert_eq!(step.emit, Some(Event::Release));
    assert_eq!(step.next, LinkState::Reading);
}
