use beacn_mic::channel::{ReplyWait, POLL_INTERVAL_MS, QUEUE_DEPTH, REPLY_WINDOW_MS};
use beacn_mic::style::LightingStyle;

#[test]
fn each_mode_shows_its_style() {
    assert_eq!(LightingStyle::of_mode(0x00), Some(LightingStyle::Solid));
    assert_eq!(LightingStyle::of_mode(0x01), Some(LightingStyle::Spectrum));
    assert_eq!(LightingStyle::of_mode(0x02), None);
    assert_eq!(LightingStyle::of_mode(0x03), Some(LightingStyle::Gradient));
    assert_eq!(LightingStyle::of_mode(0x04), None);
    assert_eq!(LightingStyle::of_mode(0x05), Some(LightingStyle::Reactive));
    assert_eq!(LightingStyle::of_mode(0x06), Some(LightingStyle::Reactive));
    assert_eq!(LightingStyle::of_mode(0x07), Some(LightingStyle::Reactive));
    assert_eq!(LightingStyle::of_mode(0x08), None);
    assert_eq!(LightingStyle::of_mode(0x09), None);
    assert_eq!(LightingStyle::of_mode(0x0a), Some(LightingStyle::Sparkle));
    assert_eq!(LightingStyle::of_mode(0x0b), Some(LightingStyle::Sparkle));
    assert_eq!(LightingStyle::of_mode(0x0c), None);
    assert_eq!(LightingStyle::of_mode(0xff), None);
}

#[test]
fn only_the_low_byte_of_the_mode_counts() {
    assert_eq!(LightingStyle::of_mode(0x100), Some(LightingStyle::Solid));
    assert_eq!(LightingStyle::of_mode(0x0001_0203), Some(LightingStyle::Gradient));
    assert_eq!(LightingStyle::of_mode(0xffff_ff0a), Some(LightingStyle::Sparkle));
}

#[test]
fn a_style_sets_its_mode() {
    assert_eq!(LightingStyle::Solid.mode(7), 0x00);
    assert_eq!(LightingStyle::Gradient.mode(7), 0x03);
    assert_eq!(LightingStyle::Spectrum.mode(7), 0x01);
    assert_eq!(LightingStyle::Reactive.mode(0), 0x05);
    assert_eq!(LightingStyle::Reactive.mode(5), 0x05);
    assert_eq!(LightingStyle::Reactive.mode(6), 0x06);
    assert_eq!(LightingStyle::Reactive.mode(7), 0x07);
    assert_eq!(LightingStyle::Reactive.mode(8), 0x05);
    assert_eq!(LightingStyle::Reactive.mode(0x106), 0x05);
    assert_eq!(LightingStyle::Sparkle.mode(0), 0x0a);
    assert_eq!(LightingStyle::Sparkle.mode(0x0a), 0x0a);
    assert_eq!(LightingStyle::Sparkle.mode(0x0b), 0x0b);
    assert_eq!(LightingStyle::Sparkle.mode(0x0c), 0x0a);
}

#[test]
fn the_mode_of_a_style_shows_that_style() {
    let styles = [
        LightingStyle::Solid,
        LightingStyle::Gradient,
        LightingStyle::Reactive,
        LightingStyle::Sparkle,
        LightingStyle::Spectrum,
    ];
    for style in styles {
        for current in [0u32, 1, 3, 5, 6, 7, 0x0a, 0x0b, 0x0c, 0x105, u32::MAX] {
            assert_eq!(LightingStyle::of_mode(style.mode(current)), Some(style));
        }
    }
}

#[test]
fn a_caller_looks_two_hundred_times() {
    assert_eq!(QUEUE_DEPTH, 30);
    assert_eq!(REPLY_WINDOW_MS, 1000);
    assert_eq!(POLL_INTERVAL_MS, 5);
    let mut wait = ReplyWait::default();
    assert_eq!(wait.polls_left, 200);
    let mut looks = 0;
    while wait.open() {
        looks += 1;
        wait.missed();
    }
    assert_eq!(looks, 200);
    wait.missed();
    assert_eq!(wait.polls_left, 0);
    assert!(!wait.open());
}

#[test]
fn the_window_is_for_the_caller_to_choose() {
    assert_eq!(ReplyWait::new(1000, 5).polls_left, 200);
    assert_eq!(ReplyWait::new(3000, 7).polls_left, 428);
    assert_eq!(ReplyWait::new(4, 5).polls_left, 0);
    assert_eq!(ReplyWait::new(1000, 0).polls_left, 0);
    assert!(!ReplyWait::new(0, 5).open());
}
