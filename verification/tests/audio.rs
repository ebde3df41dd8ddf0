use micbridge::audio::sink::{
    latency_hint, looks_like_virtual_cable, no_cable, open_cable, sink_plan, validate, SinkPlan,
};
use micbridge::audio::{
    config_for, find, no_format, ConfigRange, DeviceInfo, Direction, FindError, Format, Pick,
};
use micbridge::i18n::catalog::text;
use micbridge::i18n::{fill, Key, Lang};

#[test]
fn a_virtual_sink_is_refused_up_front_off_linux() {
    for on_linux in [true, false] {
        let result = validate("virtual", on_linux);
        assert_eq!(result.is_err(), !on_linux);
    }
}

#[test]
fn every_other_selector_passes_validation() {
    for s in ["auto", "device", "@0", "cable input", "  AUTO  "] {
        for on_linux in [true, false] {
            assert!(validate(s, on_linux).is_ok(), "refused `{s}`");
        }
    }
}

#[test]
fn cable_names_are_recognised_regardless_of_case_and_suffix() {
    assert!(looks_like_virtual_cable(
        "CABLE Input (VB-Audio Virtual Cable)"
    ));
    assert!(looks_like_virtual_cable("VoiceMeeter Input (VB-Audio)"));
    assert!(!looks_like_virtual_cable("Głośniki (Realtek Audio)"));
}

#[test]
fn the_latency_hint_fires_only_for_vb_cable() {
    assert!(latency_hint("CABLE Input (VB-Audio Virtual Cable)").is_some());
    assert!(latency_hint("Głośniki").is_none());
}

#[test]
fn a_selector_decides_the_sink() {
    assert!(matches!(sink_plan("auto", true), SinkPlan::Virtual));
    assert!(matches!(sink_plan(" Auto ", false), SinkPlan::Cable));
    assert!(matches!(sink_plan("yeti", true), SinkPlan::Device(s) if s == "yeti"));
}

#[test]
fn the_first_cable_is_taken() {
    let names: Vec<String> = vec![
        "Speakers".into(),
        "CABLE Input (VB-Audio Virtual Cable)".into(),
        "CABLE Input 2".into(),
    ];
    assert_eq!(open_cable(&names), Some(1));
    let none: Vec<String> = vec!["Speakers".into(), "Headphones".into()];
    assert_eq!(open_cable(&none), None);
    let complaint = no_cable(&none);
    assert!(complaint.contains("Speakers") && complaint.contains("Headphones"));
}

fn names() -> Vec<String> {
    vec![
        "Yeti Nano".into(),
        "Webcam C920".into(),
        "Yeti X".into(),
    ]
}

#[test]
fn a_device_is_picked_by_default_index_or_name() {
    assert_eq!(find("default", &names()).unwrap(), Pick::Default);
    assert_eq!(find(" DEFAULT ", &names()).unwrap(), Pick::Default);
    assert_eq!(find("@1", &names()).unwrap(), Pick::At(1));
    assert_eq!(find(" webcam ", &names()).unwrap(), Pick::At(1));
}

#[test]
fn a_selector_that_picks_nothing_says_why() {
    let say = |e: &FindError, s: &str| e.message(s, Direction::Input, &names(), Lang::Pl);

    let e = find("@x", &names()).unwrap_err();
    assert!(matches!(e, FindError::NotAnIndex));
    assert_eq!(say(&e, "@x"), "`@x` nie jest indeksem urządzenia");

    let e = find("@9", &names()).unwrap_err();
    assert!(matches!(e, FindError::NoIndex(9)));
    assert_eq!(
        say(&e, "@9"),
        fill(
            text(Key::ErrNoDeviceIdx, Lang::Pl),
            &[Direction::Input.label(Lang::Pl), "9"]
        )
    );

    let e = find("shure", &names()).unwrap_err();
    assert!(matches!(e, FindError::NoMatch));
    assert!(say(&e, "shure").ends_with("Yeti Nano\n  Webcam C920\n  Yeti X"));

    let e = find("YETI", &names()).unwrap_err();
    assert!(matches!(&e, FindError::Many(places) if *places == vec![0, 2]));
    assert_eq!(
        say(&e, "YETI"),
        "`YETI` pasuje do 2 urządzeń, doprecyzuj:\n  Yeti Nano\n  Yeti X"
    );
    assert_eq!(
        FindError::NoDefault.message("default", Direction::Output, &names(), Lang::En),
        fill(
            text(Key::ErrNoDefault, Lang::En),
            &[Direction::Output.label(Lang::En)]
        )
    );
}

#[test]
fn a_device_without_a_name_gets_one() {
    let d = DeviceInfo::new(3, None, &Some("Yeti".into()), None, None);
    assert_eq!(d.name, "<urządzenie 3 bez nazwy>");
    assert!(!d.is_default);
    let d = DeviceInfo::new(0, Some("Yeti".into()), &Some("Yeti".into()), Some(48_000), Some(2));
    assert!(d.is_default);
}

fn range(min_rate: u32, max_rate: u32, channels: u16, format: Format) -> ConfigRange {
    ConfigRange {
        min_rate,
        max_rate,
        channels,
        format,
    }
}

#[test]
fn a_configuration_prefers_the_rate_then_fewer_channels_then_floats() {
    let ranges = vec![
        range(44_100, 44_100, 1, Format::F32),
        range(44_100, 96_000, 2, Format::F32),
        range(48_000, 48_000, 1, Format::I16),
        range(48_000, 48_000, 1, Format::F32),
        range(48_000, 48_000, 1, Format::Other),
    ];
    assert_eq!(config_for(&ranges, 48_000), Some((3, 48_000)));
    assert_eq!(config_for(&ranges[..1].to_vec(), 48_000), Some((0, 44_100)));
    assert_eq!(config_for(&ranges[4..].to_vec(), 48_000), None);
    assert!(no_format("Yeti", Lang::Pl).contains("Yeti"));
}

#[test]
fn a_range_that_is_not_taken_may_be_upside_down() {
    let ranges = vec![
        range(96_000, 8_000, 1, Format::Other),
        range(96_000, 8_000, 6, Format::I16),
        range(44_100, 48_000, 2, Format::F32),
    ];
    assert_eq!(config_for(&ranges, 48_000), Some((2, 48_000)));
}
