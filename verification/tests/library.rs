use std::sync::mpsc::sync_channel;

use kbdlight::channel::ActivityChannel;
use kbdlight::input::{remaining_ms, InputHandler, READER_POLL_INTERVAL_MS, READ_BATCHES_PER_WAKEUP};
use kbdlight::config::{default_brightness, default_fade_ms, default_timeout};
use kbdlight::config::{Brightness, Config, ConfigError, General, Input, Led as LedConfig};
use kbdlight::fade::{sample_brightness, target_brightness};
use kbdlight::filter::{filter_from_config, is_keyboard_or_trackpad, DeviceCaps, DeviceFilter};
use kbdlight::leds::{auto_select, plan_from_config, Led, LedError, Leds};
use kbdlight::logger::{init, LogLevel};
use kbdlight::service::{timeout_ms_of, Service};
use kbdlight::sysfs::{contains_bytes, format_brightness, is_backlight_name, parse_brightness};

fn caps(key_repeat: bool, touch: bool, direct: bool) -> DeviceCaps {
    DeviceCaps {
        supports_key_repeat: key_repeat,
        has_touch_button: touch,
        has_direct_pointing: direct,
    }
}

#[test]
fn auto_filter_keyboard_is_interesting() {
    assert!(is_keyboard_or_trackpad(&caps(true, false, false)));
    assert!(is_keyboard_or_trackpad(&caps(true, true, true)));
}

#[test]
fn auto_filter_trackpad_is_interesting() {
    assert!(is_keyboard_or_trackpad(&caps(false, true, false)));
}

#[test]
fn auto_filter_touchscreen_is_not_interesting() {
    assert!(!is_keyboard_or_trackpad(&caps(false, true, true)));
}

#[test]
fn auto_filter_plain_device_is_not_interesting() {
    assert!(!is_keyboard_or_trackpad(&caps(false, false, false)));
}

#[test]
fn name_filter_matches_exact_names() {
    let filter = DeviceFilter::from_names(vec![
        String::from("AT Translated Set 2 keyboard"),
        String::from("SynPS/2 Synaptics TouchPad"),
    ]);
    let anything = caps(false, false, false);
    assert!(filter.matches(&String::from("AT Translated Set 2 keyboard"), &anything));
    assert!(!filter.matches(&String::from("Video Bus"), &anything));
}

#[test]
fn auto_filter_ignores_names() {
    let filter = DeviceFilter::Auto;
    assert!(filter.matches(&String::from("whatever"), &caps(true, false, false)));
    assert!(!filter.matches(&String::from("whatever"), &caps(false, false, true)));
}

#[test]
fn filter_choice_follows_config() {
    let config = Config::default();
    assert!(matches!(filter_from_config(&config), DeviceFilter::Auto));

    let mut config = Config::default();
    config.inputs.push(Input { name: String::from("kb") });
    match filter_from_config(&config) {
        DeviceFilter::Names(names) => assert_eq!(names, vec![String::from("kb")]),
        DeviceFilter::Auto => panic!("expected an explicit name list"),
    }
}

#[test]
fn target_is_rounded_percentage() {
    assert_eq!(target_brightness(50, 255), 128);
    assert_eq!(target_brightness(80, 250), 200);
    assert_eq!(target_brightness(33, 100), 33);
    assert_eq!(target_brightness(1, 49), 0);
    assert_eq!(target_brightness(1, 50), 1);
}

#[test]
fn target_extremes() {
    assert_eq!(target_brightness(0, 255), 0);
    assert_eq!(target_brightness(0, 0), 0);
    assert_eq!(target_brightness(100, 255), 255);
    assert_eq!(target_brightness(100, u32::MAX), u32::MAX);
}

#[test]
fn fade_sample_midpoint() {
    let v = sample_brightness(0, 100, 500, 1000);
    assert!((49..=51).contains(&v));
}

#[test]
fn fade_sample_endpoints() {
    assert_eq!(sample_brightness(0, 100, 0, 1000), 0);
    assert_eq!(sample_brightness(0, 100, 1000, 1000), 100);
    assert_eq!(sample_brightness(0, 100, 5000, 1000), 100);
    assert_eq!(sample_brightness(200, 0, 100, 100), 0);
    assert_eq!(sample_brightness(200, 0, 0, 100), 200);
}

#[test]
fn brightness_validation() {
    assert_eq!(Brightness::new(0).unwrap().raw(), 0);
    assert_eq!(Brightness::new(100).unwrap().raw(), 100);
    let err = Brightness::new(101).unwrap_err();
    assert_eq!(err, ConfigError::BrightnessOutOfRange);
    assert_eq!(err.message(), "brightness must be in range 0-100");
}

#[test]
fn general_validation() {
    let b = Brightness::new(80).unwrap();
    let g = General::new(10, 100, b).unwrap();
    assert_eq!(g.timeout(), 10);
    assert_eq!(g.fade_ms(), 100);
    assert_eq!(g.brightness().raw(), 80);
    assert_eq!(General::new(0, 100, b).unwrap_err(), ConfigError::ZeroTimeout);
    assert_eq!(General::new(10, 0, b).unwrap_err(), ConfigError::ZeroFade);
}

#[test]
fn default_config_values() {
    let config = Config::default();
    assert_eq!(config.general.timeout(), default_timeout());
    assert_eq!(config.general.fade_ms(), default_fade_ms());
    assert_eq!(config.general.brightness().raw(), default_brightness().raw());
    assert!(config.inputs.is_empty());
    assert!(config.leds.is_empty());
}

#[test]
fn led_plan_uses_overrides() {
    let mut config = Config::default();
    config.leds.push(LedConfig {
        name: String::from("tpacpi::kbd_backlight"),
        brightness: Some(Brightness::new(40).unwrap()),
    });
    config.leds.push(LedConfig { name: String::from("second::kbd_backlight"), brightness: None });
    let plan = plan_from_config(&config);
    assert_eq!(plan.len(), 2);
    assert_eq!(plan[0].name, "tpacpi::kbd_backlight");
    assert_eq!(plan[0].percentage.raw(), 40);
    assert_eq!(plan[1].name, "second::kbd_backlight");
    assert_eq!(plan[1].percentage.raw(), 100);
}

#[test]
fn backlight_name_detection() {
    assert!(is_backlight_name("tpacpi::kbd_backlight"));
    assert!(is_backlight_name("kbd_backlight"));
    assert!(!is_backlight_name("input0::capslock"));
    assert!(!is_backlight_name("kbd_back"));
}

#[test]
fn byte_search() {
    assert!(contains_bytes(b"abcdef", b"cde"));
    assert!(contains_bytes(b"abc", b""));
    assert!(!contains_bytes(b"abc", b"abcd"));
    assert!(!contains_bytes(b"abcabx", b"aby"));
}

#[test]
fn auto_selection_keeps_backlights() {
    let entries = vec![
        String::from("input0::capslock"),
        String::from("tpacpi::kbd_backlight"),
        String::from("platform::kbd_backlight"),
    ];
    let picked = auto_select(&entries).unwrap();
    assert_eq!(
        picked,
        vec![String::from("tpacpi::kbd_backlight"), String::from("platform::kbd_backlight")]
    );
}

#[test]
fn auto_selection_with_no_backlight_fails() {
    let entries = vec![String::from("input0::capslock")];
    let err = auto_select(&entries).unwrap_err();
    assert_eq!(err, LedError::NoneFound);
    assert_eq!(err.message(), "didn't find any backlight LEDs");
}

#[test]
fn brightness_file_parsing() {
    assert_eq!(parse_brightness(b"128\n"), Some(128));
    assert_eq!(parse_brightness(b"  42 \n"), Some(42));
    assert_eq!(parse_brightness(b"0"), Some(0));
    assert_eq!(parse_brightness(b"4294967295\n"), Some(u32::MAX));
    assert_eq!(parse_brightness(b"4294967296\n"), None);
    assert_eq!(parse_brightness(b""), None);
    assert_eq!(parse_brightness(b"  \n"), None);
    assert_eq!(parse_brightness(b"12a"), None);
    assert_eq!(parse_brightness(b"-3"), None);
}

#[test]
fn brightness_file_formatting() {
    assert_eq!(format_brightness(0), b"0\n");
    assert_eq!(format_brightness(7), b"7\n");
    assert_eq!(format_brightness(200), b"200\n");
    assert_eq!(format_brightness(u32::MAX), b"4294967295\n");
}

#[test]
fn brightness_file_round_trip() {
    for v in [0u32, 1, 9, 10, 99, 128, 200, 4096, u32::MAX] {
        assert_eq!(parse_brightness(&format_brightness(v)), Some(v));
    }
}

fn demo_leds() -> Leds {
    let pct = Brightness::new(80).unwrap();
    let leds = vec![
        Led::new(String::from("a::kbd_backlight"), 250, &pct),
        Led::new(String::from("b::kbd_backlight"), 100, &pct),
    ];
    Leds::from_leds(100, leds)
}

#[test]
fn led_targets_from_maximum() {
    let leds = demo_leds();
    assert_eq!(leds.len(), 2);
    let values = {
        let mut l = demo_leds();
        l.begin_fade(&vec![Some(0), Some(0)]).unwrap();
        l.fade_values(true, 100)
    };
    assert_eq!(values, vec![200, 80]);
}

#[test]
fn fade_starts_from_read_values() {
    let mut leds = demo_leds();
    leds.begin_fade(&vec![Some(120), Some(40)]).unwrap();
    assert_eq!(leds.fade_values(true, 0), vec![120, 40]);
    assert_eq!(leds.fade_values(true, 100), vec![200, 80]);
    assert_eq!(leds.fade_values(false, 100), vec![0, 0]);
    assert!(!leds.fade_done(99));
    assert!(leds.fade_done(100));
}

#[test]
fn failed_read_excludes_led() {
    let mut leds = demo_leds();
    leds.begin_fade(&vec![None, Some(40)]).unwrap();
    assert_eq!(leds.len(), 1);
    assert_eq!(leds.name_at(0).as_str(), "b::kbd_backlight");
    assert_eq!(leds.fade_values(true, 100), vec![80]);
}

#[test]
fn failed_write_excludes_led_permanently() {
    let mut leds = demo_leds();
    leds.begin_fade(&vec![Some(0), Some(0)]).unwrap();
    leds.apply_write_results(&vec![false, true]).unwrap();
    assert_eq!(leds.len(), 1);
    assert_eq!(leds.name_at(0).as_str(), "b::kbd_backlight");
    // The surviving LED keeps fading toward its own target.
    assert_eq!(leds.fade_values(true, 50), vec![40]);
    assert_eq!(leds.fade_values(true, 100), vec![80]);
}

#[test]
fn all_leds_failing_is_an_error_but_not_fatal() {
    let mut leds = demo_leds();
    leds.begin_fade(&vec![Some(0), Some(0)]).unwrap();
    let err = leds.apply_write_results(&vec![false, false]).unwrap_err();
    assert_eq!(err, LedError::AllFailed);
    assert_eq!(err.message(), "all controlled LEDs encountered errors");
    // The orchestrator keeps polling: a later decision still works.
    let mut service = Service::new(10_000, 0);
    assert_eq!(service.step(true, 5), Some(true));
    // A later fade attempt fails again instead of crashing.
    assert_eq!(leds.begin_fade(&vec![]).unwrap_err(), LedError::AllFailed);
}

#[test]
fn service_transitions() {
    let mut service = Service::new(10_000, 0);
    assert!(!service.on);
    assert_eq!(service.poll_deadline(), 10_000);
    // Activity before the deadline turns the backlight on.
    assert_eq!(service.step(true, 500), Some(true));
    assert!(service.on);
    // More activity keeps it on without a new fade.
    assert_eq!(service.step(true, 900), None);
    // A silent poll at the deadline turns it off.
    assert_eq!(service.step(false, 10_900), Some(false));
    assert!(!service.on);
    // Staying silent keeps it off without a new fade.
    assert_eq!(service.step(false, 20_900), None);
}

#[test]
fn debounce_deadline_rolls_forward() {
    let mut service = Service::new(10_000, 0);
    // One activity signal at time T resets the deadline to T + 10 s.
    service.step(true, 2_000);
    assert_eq!(service.poll_deadline(), 12_000);
    // The wait covers the whole window: no poll, so no flip, before then.
    service.step(false, 12_000);
    assert!(!service.on);
    assert_eq!(service.poll_deadline(), 22_000);
}

#[test]
fn timeout_in_milliseconds() {
    let g = General::new(10, 100, Brightness::new(80).unwrap()).unwrap();
    assert_eq!(timeout_ms_of(&g), 10_000);
    let g = General::new(1, 100, Brightness::new(80).unwrap()).unwrap();
    assert_eq!(timeout_ms_of(&g), 1_000);
}

#[test]
fn channel_coalesces_rapid_sends() {
    let mut channel = ActivityChannel::new();
    assert!(channel.send());
    for _ in 0..100 {
        // Sends while the slot is full are absorbed, not queued.
        assert!(!channel.send());
    }
    // The consumer observes at least one notification...
    assert!(channel.recv());
    // ...but only one: the rest were dropped.
    assert!(!channel.recv());
}

#[test]
fn logger_verbosity_policy() {
    let quiet = init(false);
    assert!(quiet.enabled(LogLevel::Error));
    assert!(quiet.enabled(LogLevel::Warn));
    assert!(quiet.enabled(LogLevel::Info));
    assert!(!quiet.enabled(LogLevel::Debug));
    let verbose = init(true);
    assert!(verbose.enabled(LogLevel::Info));
    assert!(verbose.enabled(LogLevel::Debug));
}

#[test]
fn end_to_end_decision_sequence() {
    // timeout 10 s, fade 0.1 s, brightness 80 %, maximum 250.
    let pct = Brightness::new(80).unwrap();
    let general = General::new(10, 100, pct).unwrap();
    let mut leds = Leds::from_leds(
        general.fade_ms(),
        vec![Led::new(String::from("tpacpi::kbd_backlight"), 250, &general.brightness())],
    );
    let mut service = Service::new(timeout_ms_of(&general), 0);
    let mut channel = ActivityChannel::new();

    // A keyboard emits one key event.
    channel.send();
    let activity = channel.recv();
    assert!(activity);
    let action = service.step(activity, 400);
    assert_eq!(action, Some(true));

    // The fade drives the LED toward round(0.8 * 250) = 200 within one fade.
    leds.begin_fade(&vec![Some(0)]).unwrap();
    let mid = leds.fade_values(true, 50)[0];
    assert!(mid > 0 && mid <= 200);
    assert_eq!(leds.fade_values(true, 100), vec![200]);
    assert!(leds.fade_done(100));

    // Ten seconds of silence: the poll at the deadline orders the fade off.
    assert_eq!(service.poll_deadline(), 10_400);
    let action = service.step(channel.recv(), 10_400);
    assert_eq!(action, Some(false));
    leds.begin_fade(&vec![Some(200)]).unwrap();
    assert_eq!(leds.fade_values(false, 100), vec![0]);
}

#[test]
fn input_handler_receives_notifications() {
    let (sender, recv) = sync_channel(1);
    let input = InputHandler::new(recv);
    sender.send(()).unwrap();
    // A pending notification is observed before the deadline.
    assert!(input.wait_deadline(100, 0));
    // An empty channel times out at the deadline.
    assert!(!input.wait_deadline(5, 0));
    // A deadline already in the past does not wait at all.
    assert!(!input.wait_deadline(0, 10));
}

#[test]
fn reader_throttle_outpaces_minimum_timeout() {
    assert!(READER_POLL_INTERVAL_MS < 1_000);
    assert_eq!(READ_BATCHES_PER_WAKEUP, 16);
}

#[test]
fn wait_budget_is_saturating_remainder() {
    assert_eq!(remaining_ms(10_000, 4_000), 6_000);
    assert_eq!(remaining_ms(10_000, 10_000), 0);
    assert_eq!(remaining_ms(10_000, 12_000), 0);
    assert_eq!(remaining_ms(0, u64::MAX), 0);
}
