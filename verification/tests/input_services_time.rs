use pebble_rust_2026::geometry::{Angle, GSize};
use pebble_rust_2026::timer::{TimerAction, TimerEvent, TimerMachine, TimerPhase};
use pebble_rust_2026::graphics::{
    BitmapFormat, CompOp, ConfigConflict, ContentIndicator, ContentIndicatorConfig, ContentIndicatorDirection,
    CornerMask, GAlign, StatusBarSeparatorMode, SystemFont, TextAlignment, TextAttributes, TextOverflowMode,
};
use pebble_rust_2026::input::{duration_to_millis, multi_click_range, ActionButton, Button, ClickConfig};
use pebble_rust_2026::package::{is_identifier, message_key_names, resource_names, Package, Pebble, Resource, Resources};
use pebble_rust_2026::service::{
    clamp_samples_per_update, compass_heading_filter, heap_reservation, AccelerometerAxis,
    AccelerometerSamplingRate, AppFocus, CompassHeading, CompassHeadingData, PendingWakeup,
    WakeupSchedulingError,
};
use pebble_rust_2026::status_code::StatusError;
use pebble_rust_2026::time::{LocalTime, Time, TimeUnits};

#[test]
fn button_ids() {
    for (b, raw) in [(Button::Back, 0u8), (Button::Up, 1), (Button::Select, 2), (Button::Down, 3)] {
        assert_eq!(b.raw(), raw);
        assert!(Button::from_raw(raw) == b);
    }
    assert_eq!(ActionButton::Up.raw(), 1);
    assert_eq!(ActionButton::Select.raw(), 2);
    assert_eq!(ActionButton::Down.raw(), 3);
}

#[test]
fn click_durations_saturate() {
    assert_eq!(duration_to_millis(0), 0);
    assert_eq!(duration_to_millis(500), 500);
    assert_eq!(duration_to_millis(65535), 65535);
    assert_eq!(duration_to_millis(65536), 65535);
    assert_eq!(duration_to_millis(u128::MAX), 65535);
    let d = std::time::Duration::from_secs(2);
    assert_eq!(duration_to_millis(d.as_millis()), 2000);
}

#[test]
fn multi_click_ranges() {
    assert_eq!(multi_click_range(2, 5), (2, 5));
    assert_eq!(multi_click_range(0, 5), (2, 5));
    assert_eq!(multi_click_range(1, 1), (2, 0));
    assert_eq!(multi_click_range(4, 3), (4, 0));
    assert_eq!(multi_click_range(3, 3), (3, 3));
}

#[test]
fn click_config_registration() {
    let mut c: ClickConfig<&'static str> = ClickConfig::new();
    c.set_single(Button::Up, "up single");
    assert!(c.set_long(Button::Select, "start", "release"));
    assert!(!c.set_long(Button::Back, "start", "release"));
    c.set_multi(Button::Down, "down multi");
    assert_eq!(c.up.single, Some("up single"));
    assert_eq!(c.select.long_start, Some("start"));
    assert_eq!(c.select.long_release, Some("release"));
    assert_eq!(c.back.long_start, None);
    assert_eq!(c.down.multi, Some("down multi"));
    assert_eq!(c.down.single, None);
}

#[test]
fn compass_headings() {
    let data = |status: i8| CompassHeadingData {
        magnetic_heading: 1234,
        true_heading: 99,
        compass_status: status,
        is_declination_valid: true,
    };
    assert_eq!(CompassHeading::from(data(2)), CompassHeading::Calibrated(Angle { value: 1234 }));
    assert_eq!(CompassHeading::from(data(1)), CompassHeading::Calibrating(Angle { value: 1234 }));
    assert_eq!(CompassHeading::from(data(-1)), CompassHeading::Unavailable);
    assert_eq!(CompassHeading::from(data(0)), CompassHeading::Invalid);
    assert_eq!(CompassHeading::from(data(7)), CompassHeading::Invalid);
}

#[test]
fn compass_filter_is_at_most_half_a_turn() {
    assert_eq!(compass_heading_filter(Angle::from_degrees(10)), Angle::from_degrees(10));
    assert_eq!(compass_heading_filter(Angle::from_degrees(270)), Angle::from_degrees(180));
    assert_eq!(compass_heading_filter(Angle::from_degrees(180)).value, 0x8000);
    assert_eq!(compass_heading_filter(Angle::from_degrees(-10)).value, 0x8000);
    assert_eq!(compass_heading_filter(Angle::from_degrees(370)), Angle::from_degrees(10));
}

#[test]
fn accelerometer_taps_and_samples() {
    assert_eq!(AccelerometerAxis::from_tap(0, 1), Some(AccelerometerAxis::PosX));
    assert_eq!(AccelerometerAxis::from_tap(0, -1), Some(AccelerometerAxis::NegX));
    assert_eq!(AccelerometerAxis::from_tap(1, 1), Some(AccelerometerAxis::PosY));
    assert_eq!(AccelerometerAxis::from_tap(2, -1), Some(AccelerometerAxis::NegZ));
    assert_eq!(AccelerometerAxis::from_tap(3, 1), None);
    assert_eq!(AccelerometerAxis::from_tap(0, 2), None);
    assert_eq!(clamp_samples_per_update(0), 0);
    assert_eq!(clamp_samples_per_update(25), 25);
    assert_eq!(clamp_samples_per_update(26), 25);
    assert_eq!(AccelerometerSamplingRate::Hz50.raw(), 50);
}

#[test]
fn focus_events() {
    assert_eq!(AppFocus::will_focus_event(true), Some(true));
    assert_eq!(AppFocus::will_focus_event(false), None);
    assert_eq!(AppFocus::did_focus_event(false), Some(false));
    assert_eq!(AppFocus::did_focus_event(true), None);
}

#[test]
fn wakeup_errors_and_results() {
    assert!(WakeupSchedulingError::from(StatusError::InvalidArgument) == WakeupSchedulingError::InThePast);
    assert!(WakeupSchedulingError::from(StatusError::Range) == WakeupSchedulingError::TooCloseToExisting);
    assert!(WakeupSchedulingError::from(StatusError::OutOfResources) == WakeupSchedulingError::MaximumWakeupsReached);
    assert!(WakeupSchedulingError::from(StatusError::Busy) == WakeupSchedulingError::Internal);
    assert_eq!(WakeupSchedulingError::TooCloseToExisting.code(), -8);
    assert_eq!(WakeupSchedulingError::InThePast.code(), -4);
    let t = Time::from_epoch_seconds(1_700_000_000);
    let ok = PendingWakeup::from_schedule_result(t, 42).ok().unwrap();
    assert_eq!(ok.id(), 42);
    assert_eq!(ok.time, t);
    assert!(PendingWakeup::from_schedule_result(t, 0).is_ok());
    assert!(PendingWakeup::from_schedule_result(t, -8) == Err(WakeupSchedulingError::TooCloseToExisting));
    assert!(PendingWakeup::from_schedule_result(t, -7) == Err(WakeupSchedulingError::MaximumWakeupsReached));
    assert!(PendingWakeup::from_schedule_result(t, -500) == Err(WakeupSchedulingError::Internal));
}

#[test]
fn repeating_timer_decision() {
    let mut t = TimerMachine::repeating();
    assert_eq!(t.step(TimerEvent::Fired), TimerAction::ClearSlotAndRun);
    assert_eq!(t.step(TimerEvent::CallbackReturned(true)), TimerAction::Restart);
    assert_eq!(t.step(TimerEvent::Restarted(true)), TimerAction::StoreRestarted);
    assert_eq!(t.phase, TimerPhase::Armed);
    assert_eq!(t.step(TimerEvent::Fired), TimerAction::ClearSlotAndRun);
    assert_eq!(t.step(TimerEvent::CallbackReturned(true)), TimerAction::Restart);
    assert_eq!(t.step(TimerEvent::Restarted(false)), TimerAction::FreeContext);
    assert_eq!(t.phase, TimerPhase::Stopped);

    let mut r = TimerMachine::repeating();
    r.step(TimerEvent::Fired);
    assert_eq!(r.step(TimerEvent::CallbackReturned(false)), TimerAction::FreeContext);
    assert_eq!(r.phase, TimerPhase::Stopped);
}

#[test]
fn one_shot_timer_fires_once() {
    let mut t = TimerMachine::once();
    assert_eq!(t.step(TimerEvent::Fired), TimerAction::ClearSlotAndRun);
    assert_eq!(t.step(TimerEvent::CallbackReturned(true)), TimerAction::FreeContext);
    assert_eq!(t.phase, TimerPhase::Stopped);
    assert_eq!(t.step(TimerEvent::Fired), TimerAction::Nothing);
    assert_eq!(t.step(TimerEvent::Cancelled), TimerAction::Nothing);
}

#[test]
fn cancelled_timer_stops() {
    let mut t = TimerMachine::repeating();
    assert_eq!(t.step(TimerEvent::Cancelled), TimerAction::CancelAndFree);
    assert_eq!(t.phase, TimerPhase::Stopped);
    assert_eq!(t.step(TimerEvent::Fired), TimerAction::Nothing);
    let mut running = TimerMachine::once();
    running.step(TimerEvent::Fired);
    assert_eq!(running.step(TimerEvent::Cancelled), TimerAction::Nothing);
    assert_eq!(running.phase, TimerPhase::Running);
}

#[test]
fn heap_reservation_sizes() {
    assert_eq!(heap_reservation(100_000, 120 * 1024), 96_256);
    assert_eq!(heap_reservation(200_000, 120 * 1024), 120 * 1024);
    assert_eq!(heap_reservation(4096, 120 * 1024), 2048);
    assert_eq!(heap_reservation(5000, 120 * 1024), 2048);
}

#[test]
fn time_values() {
    let t = Time::from_epoch_seconds(86_400);
    assert_eq!(t.epoch_seconds(), 86_400);
    assert!(Time::from_mktime(-1).is_err());
    assert_eq!(Time::from_mktime(5), Ok(Time::from_epoch_seconds(5)));
    let lt = LocalTime {
        tm_sec: 1,
        tm_min: 2,
        tm_hour: 3,
        tm_mday: 4,
        tm_mon: 5,
        tm_year: 126,
        tm_wday: 0,
        tm_yday: 0,
        tm_isdst: 0,
        tm_gmtoff: 0,
        tm_zone: [0; 6],
    };
    assert_eq!((lt.second(), lt.minute(), lt.hour(), lt.day(), lt.month(), lt.year()), (1, 2, 3, 4, 5, 2026));
    assert_eq!(LocalTime::format_buffer_len(5), 15);
    assert_eq!(LocalTime::hh_mm_format(true), "%H:%M");
    assert_eq!(LocalTime::hh_mm_format(false), "%I:%M");
}

#[test]
fn time_unit_flags() {
    assert_eq!(TimeUnits::second().bits(), 1);
    assert_eq!(TimeUnits::minute().bits(), 2);
    assert_eq!(TimeUnits::year().bits(), 32);
    let u = TimeUnits::minute().union(TimeUnits::hour());
    assert_eq!(u.bits(), 6);
    assert!(u.contains(TimeUnits::hour()));
    assert!(!u.contains(TimeUnits::day()));
}

#[test]
fn graphics_enum_values() {
    assert_eq!(GAlign::Center.raw(), 0);
    assert_eq!(GAlign::BottomLeft.raw(), 8);
    assert_eq!(CompOp::SetBits.raw(), 5);
    assert_eq!(TextOverflowMode::WordWrap.raw(), 0);
    assert_eq!(TextOverflowMode::Fill.raw(), 2);
    assert_eq!(TextAlignment::Right.raw(), 2);
    assert_eq!(BitmapFormat::EightBitCircular.raw(), 5);
    assert_eq!(StatusBarSeparatorMode::Dotted.raw(), 1);
    assert_eq!(StatusBarSeparatorMode::NoSeparator.raw(), 0);
    assert_eq!(ContentIndicatorDirection::Down.raw(), 1);
    assert_eq!(CornerMask::all().bits(), 15);
    assert_eq!(CornerMask::from_bits_truncate(0xf5).bits(), 5);
    assert_eq!(CornerMask::none().union(CornerMask::from_bits_truncate(2)).bits(), 2);
}

#[test]
fn system_font_keys() {
    assert_eq!(SystemFont::Gothic14.key(), "RESOURCE_ID_GOTHIC_14");
    assert_eq!(SystemFont::Bitham42Bold.key(), "RESOURCE_ID_BITHAM_42_BOLD");
    assert_eq!(SystemFont::RobotoCondensed21.key(), "RESOURCE_ID_ROBOTO_CONDENSED_21");
}

#[test]
fn text_attributes_defaults() {
    let t: TextAttributes<&str, u8> = TextAttributes::new("font");
    assert!(t.overflow == TextOverflowMode::WordWrap);
    assert!(t.raw.is_none());
    let t = t.set_overflow(TextOverflowMode::TrailingEllipsis);
    assert!(t.overflow == TextOverflowMode::TrailingEllipsis);
    assert_eq!(t.font, "font");
}

#[test]
fn content_indicator_configuration() {
    let c = ContentIndicatorConfig::basic("layer");
    assert!(!c.times_out);
    assert!(c.alignment == GAlign::Center);
    assert_eq!(c.foreground.argb, 0b1100_0000);
    assert_eq!(c.background.argb, 0b1111_1111);
    let mut ind: ContentIndicator<&str> = ContentIndicator::new();
    assert!(ind.finish_configure(ContentIndicatorDirection::Up, true, "up").is_ok());
    let failed: Result<(), ConfigConflict> = ind.finish_configure(ContentIndicatorDirection::Down, false, "down");
    assert!(failed.is_err());
    assert_eq!(ind.up_layer, Some("up"));
    assert_eq!(ind.down_layer, None);
    ind.save_layer(ContentIndicatorDirection::Up, None);
    assert_eq!(ind.up_layer, None);
}

fn package(media: Option<Vec<&str>>, keys: Option<Vec<&str>>) -> Package {
    Package {
        pebble: Some(Pebble {
            message_keys: keys.map(|k| k.into_iter().map(String::from).collect()),
            resources: Some(Resources {
                media: media.map(|m| m.into_iter().map(|n| Resource { name: n.to_string() }).collect()),
            }),
        }),
    }
}

#[test]
fn manifest_names() {
    let p = package(Some(vec!["IMAGE", "FONT", "IMAGE", "ICON", "FONT"]), Some(vec!["A", "B"]));
    assert_eq!(resource_names(&p), vec!["IMAGE", "FONT", "ICON"]);
    assert_eq!(message_key_names(&p), vec!["A", "B"]);
    let empty = package(None, None);
    assert!(resource_names(&empty).is_empty());
    assert!(message_key_names(&empty).is_empty());
    assert!(resource_names(&Package { pebble: None }).is_empty());
}

#[test]
fn year_of_the_unix_epoch() {
    let epoch = LocalTime {
        tm_sec: 0,
        tm_min: 0,
        tm_hour: 0,
        tm_mday: 1,
        tm_mon: 0,
        tm_year: 70,
        tm_wday: 4,
        tm_yday: 0,
        tm_isdst: 0,
        tm_gmtoff: 0,
        tm_zone: [0; 6],
    };
    assert_eq!(epoch.year(), 1970);
    assert_eq!(epoch.month(), 0);
    assert_eq!(epoch.day(), 1);
}

#[test]
fn size_operators() {
    assert_eq!(GSize::new(7, -7) / 2, GSize::new(3, -3));
    assert_eq!(GSize::new(3, -4) * 5, GSize::new(15, -20));
    assert_eq!(GSize::new(3, -4) * 5, GSize::new(3, -4).multiply(5));
    assert_eq!(GSize::new(9, 10) / -3, GSize::new(9, 10).divide(-3));
}

#[test]
fn manifest_identifiers() {
    assert!(is_identifier("IMAGE_LOGO"));
    assert!(is_identifier("_x9"));
    assert!(is_identifier("messageKey"));
    assert!(!is_identifier(""));
    assert!(!is_identifier("9lives"));
    assert!(!is_identifier("with space"));
    assert!(!is_identifier("dash-name"));
}
