use macos_term::effects::{EffectsEvent, EffectsState, INITIAL_OPACITY_HUNDREDTHS, MAX_OPACITY_HUNDREDTHS};
use macos_term::style::{Preset, Rgb};

#[test]
fn starts_at_seventy_percent_black() {
    let s = EffectsState::new();
    assert_eq!(s.opacity(), INITIAL_OPACITY_HUNDREDTHS);
    assert_eq!(s.opacity(), 70);
    assert_eq!(s.tint(), Rgb { red: 0, green: 0, blue: 0 });
}

#[test]
fn opacity_slider_sets_opacity_and_label() {
    let mut s = EffectsState::new();
    let r = s.apply(EffectsEvent::OpacitySlider(40));
    assert_eq!(s.opacity(), 40);
    assert_eq!(r.opacity_label.as_deref(), Some("40%"));
    assert_eq!(r.background_css, ".terminal-background { background: rgba(0, 0, 0, 0.4); }");
    assert_eq!(r.border_css, ".terminal-viewport { border: 1px solid rgba(0, 0, 0, 0.5); }");
    assert_eq!(r.color_button, None);
}

#[test]
fn full_opacity_is_held_below_one() {
    let mut s = EffectsState::new();
    let r = s.apply(EffectsEvent::OpacitySlider(100));
    assert_eq!(s.opacity(), MAX_OPACITY_HUNDREDTHS);
    assert_eq!(s.opacity(), 99);
    assert_eq!(r.opacity_label.as_deref(), Some("100%"));
    assert_eq!(r.background_css, ".terminal-background { background: rgba(0, 0, 0, 0.99); }");
}

#[test]
fn opacity_never_exceeds_maximum() {
    let mut s = EffectsState::new();
    for v in [0u32, 1, 50, 98, 99, 100, 1000, u32::MAX] {
        s.apply(EffectsEvent::OpacitySlider(v));
        assert!(s.opacity() <= 99);
        assert_eq!(s.opacity(), v.min(99));
    }
}

#[test]
fn opacity_is_monotone_in_slider() {
    let mut prev = 0;
    for v in 0u32..=100 {
        let mut s = EffectsState::new();
        s.apply(EffectsEvent::OpacitySlider(v));
        assert!(s.opacity() >= prev);
        prev = s.opacity();
    }
}

#[test]
fn tint_keeps_opacity() {
    let mut s = EffectsState::new();
    s.apply(EffectsEvent::OpacitySlider(25));
    let c = Rgb { red: 10, green: 20, blue: 30 };
    let r = s.apply(EffectsEvent::TintPicked(c));
    assert_eq!(s.opacity(), 25);
    assert_eq!(s.tint(), c);
    assert_eq!(r.opacity_label, None);
    assert_eq!(r.color_button, None);
    assert_eq!(r.background_css, ".terminal-background { background: rgba(10, 20, 30, 0.25); }");
    assert_eq!(r.border_css, ".terminal-viewport { border: 1px solid rgba(10, 20, 30, 0.5); }");
}

#[test]
fn preset_sets_tint_and_colour_button() {
    let mut s = EffectsState::new();
    let r = s.apply(EffectsEvent::PresetClicked(Preset::Purple));
    assert_eq!(s.tint(), Rgb { red: 153, green: 51, blue: 204 });
    assert_eq!(s.opacity(), 70);
    assert_eq!(r.color_button, Some(Preset::Purple));
    assert_eq!(r.background_css, ".terminal-background { background: rgba(153, 51, 204, 0.7); }");
}

#[test]
fn repeating_an_event_changes_nothing_more() {
    for e in [
        EffectsEvent::OpacitySlider(33),
        EffectsEvent::TintPicked(Rgb { red: 1, green: 2, blue: 3 }),
        EffectsEvent::PresetClicked(Preset::Green),
    ] {
        let mut s = EffectsState::new();
        let first = s.apply(e);
        let (o, t) = (s.opacity(), s.tint());
        let second = s.apply(e);
        assert_eq!((s.opacity(), s.tint()), (o, t));
        assert_eq!(first.background_css, second.background_css);
    }
}

#[test]
fn later_event_of_the_same_control_wins() {
    let mut s = EffectsState::new();
    s.apply(EffectsEvent::OpacitySlider(10));
    s.apply(EffectsEvent::OpacitySlider(60));
    assert_eq!(s.opacity(), 60);
    s.apply(EffectsEvent::PresetClicked(Preset::Red));
    s.apply(EffectsEvent::TintPicked(Rgb { red: 9, green: 9, blue: 9 }));
    assert_eq!(s.tint(), Rgb { red: 9, green: 9, blue: 9 });
}

#[test]
fn controls_are_independent_of_order() {
    let mut a = EffectsState::new();
    a.apply(EffectsEvent::OpacitySlider(15));
    let ra = a.apply(EffectsEvent::PresetClicked(Preset::Blue));
    let mut b = EffectsState::new();
    b.apply(EffectsEvent::PresetClicked(Preset::Blue));
    let rb = b.apply(EffectsEvent::OpacitySlider(15));
    assert_eq!((a.opacity(), a.tint()), (b.opacity(), b.tint()));
    assert_eq!(ra.background_css, rb.background_css);
}
