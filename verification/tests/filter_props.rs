use mute_puck::filter::{should_track, should_track_props, str_eq};
use mute_puck::props::{mute_command_props, mute_from_props, MuteRead, Prop, PropValue};

#[test]
fn audio_input_streams_are_tracked() {
    assert!(should_track("Stream/Input/Audio", "", "Firefox"));
}

#[test]
fn other_classes_are_not_tracked() {
    assert!(!should_track("Stream/Output/Audio", "", "Firefox"));
    assert!(!should_track("Audio/Sink", "", "Firefox"));
    assert!(!should_track("", "", "Firefox"));
}

#[test]
fn manager_category_is_not_tracked() {
    assert!(!should_track("Stream/Input/Audio", "Manager", "Firefox"));
}

#[test]
fn denylisted_mixer_uis_are_not_tracked() {
    assert!(!should_track("Stream/Input/Audio", "", "GNOME Settings"));
    assert!(!should_track("Stream/Input/Audio", "", "PulseAudio Volume Control"));
}

#[test]
fn missing_properties_take_their_defaults() {
    // Missing class reads as empty: not an audio input stream.
    assert!(!should_track_props(None, None, None));
    // Missing category and name do not disqualify a real stream.
    assert!(should_track_props(Some("Stream/Input/Audio"), None, None));
    // The defaults do not collide with the denylist.
    assert!(should_track_props(Some("Stream/Input/Audio"), Some(""), Some("UNKNOWN")));
}

#[test]
fn str_eq_compares_whole_strings() {
    assert!(str_eq("", ""));
    assert!(str_eq("Manager", "Manager"));
    assert!(!str_eq("Manager", "manager"));
    assert!(!str_eq("Manager", "Manage"));
    assert!(!str_eq("", "x"));
}

const MUTE_KEY: u32 = 65540;

#[test]
fn mute_flag_is_found_by_key() {
    let props = vec![
        Prop { key: 1, value: PropValue::Other },
        Prop { key: MUTE_KEY, value: PropValue::Bool(true) },
        Prop { key: 9, value: PropValue::Bool(false) },
    ];
    assert_eq!(mute_from_props(&props, MUTE_KEY), MuteRead::Found(true));
}

#[test]
fn missing_mute_key_reads_absent() {
    let props = vec![
        Prop { key: 1, value: PropValue::Bool(true) },
        Prop { key: 2, value: PropValue::Other },
    ];
    assert_eq!(mute_from_props(&props, MUTE_KEY), MuteRead::Absent);
    assert_eq!(mute_from_props(&Vec::new(), MUTE_KEY), MuteRead::Absent);
}

#[test]
fn non_boolean_mute_value_reads_malformed() {
    let props = vec![Prop { key: MUTE_KEY, value: PropValue::Other }];
    assert_eq!(mute_from_props(&props, MUTE_KEY), MuteRead::Malformed);
}

#[test]
fn first_occurrence_of_the_key_wins() {
    let props = vec![
        Prop { key: MUTE_KEY, value: PropValue::Bool(false) },
        Prop { key: MUTE_KEY, value: PropValue::Bool(true) },
    ];
    assert_eq!(mute_from_props(&props, MUTE_KEY), MuteRead::Found(false));
}

#[test]
fn command_props_round_trip() {
    for mute in [true, false] {
        let props = mute_command_props(MUTE_KEY, mute);
        assert_eq!(props.len(), 1);
        assert_eq!(props[0], Prop { key: MUTE_KEY, value: PropValue::Bool(mute) });
        assert_eq!(mute_from_props(&props, MUTE_KEY), MuteRead::Found(mute));
    }
}
