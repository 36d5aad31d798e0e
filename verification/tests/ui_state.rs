//! The front-end component state: text box editing, the wave animation, and
//! the root-level key decisions.

use civitai_tui::ui::control::{decide, may_refresh, AppDecision, AppEvent};
use civitai_tui::ui::loading::Wave;
use civitai_tui::ui::textbox::{KeyInput, TextBox};

#[test]
fn textbox_types_and_deletes() {
    let mut tb = TextBox::new("> ".to_string());
    assert_eq!(tb.value(), "");
    assert_eq!(tb.prefix().as_deref(), Some("> "));
    tb.input(KeyInput::Char('h'));
    tb.input(KeyInput::Char('i'));
    assert_eq!(tb.value(), "hi");
    tb.input(KeyInput::Other);
    assert_eq!(tb.value(), "hi");
    tb.input(KeyInput::Backspace);
    assert_eq!(tb.value(), "h");
    tb.input(KeyInput::Backspace);
    assert_eq!(tb.value(), "");
    // Deleting from an empty box is harmless.
    tb.input(KeyInput::Backspace);
    assert_eq!(tb.value(), "");
}

#[test]
fn textbox_focus_is_independent_of_the_value() {
    let mut tb = TextBox::new("s".to_string());
    assert!(!tb.focused());
    tb.focus();
    assert!(tb.focused());
    tb.input(KeyInput::Char('x'));
    assert!(tb.focused());
    tb.unfocus();
    assert!(!tb.focused());
    assert_eq!(tb.value(), "x");
}

#[test]
fn wave_rests_blank_and_advances_from_the_right() {
    let mut w = Wave::new(3);
    assert_eq!(w.line(), "   ");
    w.tick();
    assert_eq!(w.line(), "  \u{2581}");
    w.tick();
    assert_eq!(w.line(), " \u{2581}\u{2582}");
    w.tick();
    assert_eq!(w.line(), "\u{2581}\u{2582}\u{2583}");
    w.tick();
    assert_eq!(w.line(), "\u{2582}\u{2583}\u{2584}");
}

#[test]
fn wave_levels_wrap_around_the_cycle() {
    let mut w = Wave::new(1);
    // One bar cycles through all heights and returns to blank.
    let mut seen = Vec::new();
    for _ in 0..18 {
        w.tick();
        seen.push(w.line());
    }
    assert_eq!(seen[17], " ");
    assert_eq!(seen[0], "\u{2581}");
    assert_eq!(seen[7], "\u{2588}");
}

#[test]
fn decide_routes_keys() {
    assert_eq!(decide(false, AppEvent::EscKey), AppDecision::ToggleMenu);
    assert_eq!(decide(true, AppEvent::EscKey), AppDecision::ToggleMenu);
    assert_eq!(decide(true, AppEvent::CharKey('q')), AppDecision::Quit);
    assert_eq!(decide(true, AppEvent::CharKey('s')), AppDecision::OpenSearch);
    assert_eq!(decide(false, AppEvent::CharKey('q')), AppDecision::Forward);
    assert_eq!(decide(false, AppEvent::CharKey('s')), AppDecision::Forward);
    assert_eq!(decide(true, AppEvent::CharKey('x')), AppDecision::Forward);
    assert_eq!(decide(false, AppEvent::OtherKey), AppDecision::Forward);
    assert_eq!(decide(true, AppEvent::OtherKey), AppDecision::Forward);
}

#[test]
fn may_refresh_after_three_seconds() {
    assert!(!may_refresh(0));
    assert!(!may_refresh(2));
    assert!(may_refresh(3));
    assert!(may_refresh(100));
}
