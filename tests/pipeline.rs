use soundpad::channel::TriggerChannel;
use soundpad::config::{
    initial_device, load_sounds, save_sounds, SocketConfig, SoundField, SoundsFile,
    CHANNEL_CAPACITY, DEFAULT_PORT,
};
use soundpad::devices::merge_device_names;
use soundpad::pad::{Action, Message, SoundPad};
use soundpad::protocol::parse_trigger;
use soundpad::sound_button::SoundButton;

fn catalog_ab() -> Vec<SoundField> {
    vec![SoundField::new("A", "a.wav"), SoundField::new("B", "b.wav")]
}

fn pad_ab(device: &str) -> SoundPad {
    SoundPad::new(
        &catalog_ab(),
        "sounds".to_string(),
        vec!["Speakers".to_string(), "Headset".to_string()],
        device.to_string(),
        SocketConfig { enabled: true, port: DEFAULT_PORT },
    )
}

#[test]
fn parse_plain_numbers() {
    assert_eq!(parse_trigger(b"1"), Some(1));
    assert_eq!(parse_trigger(b"42"), Some(42));
    assert_eq!(parse_trigger(b"007"), Some(7));
    assert_eq!(parse_trigger(b"+7"), Some(7));
    assert_eq!(parse_trigger(b"0"), Some(0));
}

#[test]
fn parse_rejects_malformed_payloads() {
    assert_eq!(parse_trigger(b""), None);
    assert_eq!(parse_trigger(b"+"), None);
    assert_eq!(parse_trigger(b"abc"), None);
    assert_eq!(parse_trigger(b"-1"), None);
    assert_eq!(parse_trigger(b"12a"), None);
    assert_eq!(parse_trigger(b" 1"), None);
    assert_eq!(parse_trigger(b"1\n"), None);
    assert_eq!(parse_trigger(b"++1"), None);
    assert_eq!(parse_trigger(&[0xff, 0x31]), None);
}

#[test]
fn parse_matches_std_on_samples() {
    let samples: Vec<&[u8]> = vec![b"5", b"+5", b"-5", b"", b"x", b"99999", b"1 2"];
    for s in samples {
        let expected = String::from_utf8_lossy(s).parse::<usize>().ok();
        assert_eq!(parse_trigger(s), expected);
    }
}

#[test]
fn parse_largest_and_overflowing_values() {
    let max = usize::MAX.to_string();
    assert_eq!(parse_trigger(max.as_bytes()), Some(usize::MAX));
    let over = format!("{}0", usize::MAX);
    assert_eq!(parse_trigger(over.as_bytes()), None);
    let over_by_one = (usize::MAX as u128 + 1).to_string();
    assert_eq!(parse_trigger(over_by_one.as_bytes()), None);
}

#[test]
fn channel_refuses_send_past_capacity() {
    let mut ch = TriggerChannel::new(CHANNEL_CAPACITY);
    for i in 0..CHANNEL_CAPACITY {
        assert_eq!(ch.try_send(i + 1), Ok(()));
    }
    assert_eq!(ch.len(), CHANNEL_CAPACITY);
    assert_eq!(ch.try_send(99), Err(99));
    assert_eq!(ch.len(), CHANNEL_CAPACITY);
    assert_eq!(ch.recv(), Some(1));
    assert_eq!(ch.try_send(99), Ok(()));
    let mut out = Vec::new();
    while let Some(v) = ch.recv() {
        out.push(v);
    }
    assert_eq!(out, vec![2, 3, 4, 5, 6, 7, 8, 9, 10, 99]);
}

#[test]
fn channel_keeps_fifo_order() {
    let mut ch = TriggerChannel::new(2);
    assert_eq!(ch.capacity(), 2);
    assert_eq!(ch.recv(), None);
    assert_eq!(ch.try_send(7), Ok(()));
    assert_eq!(ch.try_send(3), Ok(()));
    assert_eq!(ch.recv(), Some(7));
    assert_eq!(ch.recv(), Some(3));
    assert_eq!(ch.recv(), None);
}

#[test]
fn device_list_puts_default_first_once() {
    let (list, default) = merge_device_names(
        Some("B".to_string()),
        vec!["A".to_string(), "B".to_string(), "C".to_string(), "A".to_string()],
    );
    assert_eq!(list, vec!["B".to_string(), "A".to_string(), "C".to_string()]);
    assert_eq!(default, Some("B".to_string()));
}

#[test]
fn device_list_without_default() {
    let (list, default) = merge_device_names(None, vec!["X".to_string(), "X".to_string()]);
    assert_eq!(list, vec!["X".to_string()]);
    assert_eq!(default, None);
}

#[test]
fn device_list_empty() {
    let (list, default) = merge_device_names(None, Vec::new());
    assert!(list.is_empty());
    assert_eq!(default, None);
}

#[test]
fn dispatch_resolves_one_based_triggers() {
    let pad = pad_ab("Speakers");
    let a = pad.dispatch_trigger(1).unwrap();
    assert_eq!(a.file, "a.wav");
    assert_eq!(a.sounds_dir, "sounds");
    assert_eq!(a.device_name, "Speakers");
    let b = pad.dispatch_trigger(2).unwrap();
    assert_eq!(b.file, "b.wav");
}

#[test]
fn dispatch_drops_out_of_range_triggers() {
    let pad = pad_ab("Speakers");
    assert!(pad.dispatch_trigger(0).is_none());
    assert!(pad.dispatch_trigger(3).is_none());
    assert!(pad.dispatch_trigger(usize::MAX).is_none());
}

#[test]
fn dispatch_on_empty_catalog() {
    let pad = SoundPad::new(
        &Vec::new(),
        "sounds".to_string(),
        Vec::new(),
        "Speakers".to_string(),
        SocketConfig::initial(),
    );
    assert!(pad.dispatch_trigger(1).is_none());
    assert!(pad.press_button(0).is_none());
}

#[test]
fn press_button_uses_zero_based_ids() {
    let pad = pad_ab("Speakers");
    assert_eq!(pad.press_button(0).unwrap().file, "a.wav");
    assert_eq!(pad.press_button(1).unwrap().file, "b.wav");
    assert!(pad.press_button(2).is_none());
    assert_eq!(pad.buttons[1].id, 1);
    assert_eq!(pad.buttons[1].label, "B");
}

#[test]
fn selected_device_is_used_for_triggers() {
    let mut pad = pad_ab("Speakers");
    pad.select_device("X".to_string());
    assert_eq!(pad.dispatch_trigger(2).unwrap().device_name, "X");
    assert_eq!(pad.press_button(0).unwrap().device_name, "X");
}

#[test]
fn refresh_with_no_devices_keeps_selection() {
    let mut pad = pad_ab("Speakers");
    pad.refresh_devices(Vec::new(), None);
    assert!(pad.output_devices.is_empty());
    assert_eq!(pad.device, "Speakers");
    assert_eq!(pad.dispatch_trigger(1).unwrap().device_name, "Speakers");
}

#[test]
fn refresh_takes_new_default() {
    let mut pad = pad_ab("Speakers");
    pad.refresh_devices(vec!["Headset".to_string()], Some("Headset".to_string()));
    assert_eq!(pad.output_devices, vec!["Headset".to_string()]);
    assert_eq!(pad.device, "Headset");
}

#[test]
fn update_routes_each_event() {
    let mut pad = pad_ab("Speakers");
    match pad.update(Message::ButtonPressed(1)) {
        Action::Play(req) => assert_eq!(req.file, "b.wav"),
        _ => panic!("expected playback"),
    }
    assert!(matches!(pad.update(Message::ButtonPressed(5)), Action::Nothing));
    assert!(matches!(
        pad.update(Message::OutputDeviceSelected("Headset".to_string())),
        Action::SaveConfig
    ));
    assert_eq!(pad.device, "Headset");
    assert!(matches!(pad.update(Message::RefreshDevices), Action::ListDevices));
    assert!(matches!(
        pad.update(Message::DevicesListed(Vec::new(), None)),
        Action::Nothing
    ));
    assert_eq!(pad.device, "Headset");
    assert!(matches!(
        pad.update(Message::TokioStartListening),
        Action::StartListener(12345)
    ));
    match pad.update(Message::TokioMessageReceived(1)) {
        Action::Play(req) => {
            assert_eq!(req.file, "a.wav");
            assert_eq!(req.device_name, "Headset");
        }
        _ => panic!("expected playback"),
    }
    assert!(matches!(pad.update(Message::TokioMessageReceived(0)), Action::Nothing));
    assert!(matches!(pad.update(Message::Noop), Action::Nothing));
}

#[test]
fn disabled_listener_is_not_started() {
    let mut pad = SoundPad::new(
        &catalog_ab(),
        "sounds".to_string(),
        Vec::new(),
        "Speakers".to_string(),
        SocketConfig { enabled: false, port: 4000 },
    );
    assert!(matches!(pad.update(Message::TokioStartListening), Action::Nothing));
}

#[test]
fn end_to_end_datagrams() {
    let pad = pad_ab("Speakers");
    let mut ch = TriggerChannel::new(CHANNEL_CAPACITY);
    for payload in [&b"1"[..], &b"3"[..], &b"abc"[..]] {
        if let Some(n) = parse_trigger(payload) {
            assert_eq!(ch.try_send(n), Ok(()));
        }
    }
    assert_eq!(ch.len(), 2);
    let mut played = Vec::new();
    while let Some(n) = ch.recv() {
        if let Some(req) = pad.dispatch_trigger(n) {
            played.push(req.file);
        }
    }
    assert_eq!(played, vec!["a.wav".to_string()]);
}

#[test]
fn sequential_dispatch_keeps_order() {
    let pad = pad_ab("Speakers");
    let mut ch = TriggerChannel::new(CHANNEL_CAPACITY);
    assert_eq!(ch.try_send(2), Ok(()));
    assert_eq!(ch.try_send(1), Ok(()));
    let first = pad.dispatch_trigger(ch.recv().unwrap()).unwrap();
    let second = pad.dispatch_trigger(ch.recv().unwrap()).unwrap();
    assert_eq!(first.file, "b.wav");
    assert_eq!(second.file, "a.wav");
}

#[test]
fn sounds_catalog_load_and_save() {
    assert!(load_sounds(None).is_empty());
    let stored = SoundsFile { sounds: catalog_ab() };
    let loaded = load_sounds(Some(stored));
    assert_eq!(loaded.len(), 2);
    assert_eq!(loaded[0].label, "A");
    let doc = save_sounds(&loaded);
    assert_eq!(doc.sounds.len(), 2);
    assert_eq!(doc.sounds[1].file, "b.wav");
    assert_eq!(doc.sounds[1].label, "B");
}

#[test]
fn initial_device_choice() {
    let devices = vec!["First".to_string(), "Second".to_string()];
    assert_eq!(initial_device(&devices, &Some("Def".to_string())), Some("Def".to_string()));
    assert_eq!(initial_device(&devices, &None), Some("First".to_string()));
    assert_eq!(initial_device(&Vec::new(), &None), None);
}

#[test]
fn socket_config_initial() {
    let s = SocketConfig::initial();
    assert!(s.enabled);
    assert_eq!(s.port, 12345);
}

#[test]
fn sound_button_new() {
    let b = SoundButton::new(3, "Horn", "horn.wav");
    assert_eq!(b.id, 3);
    assert_eq!(b.label, "Horn");
    assert_eq!(b.file, "horn.wav");
}
