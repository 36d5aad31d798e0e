//! The root-level decisions of the front end: what one key press does while
//! the escape menu is open or closed, and the request debounce of the search
//! page. The event loop performs the chosen action and hands the next event
//! back.

use vstd::prelude::*;

verus! {

/// A key press, as the root of the front end sees it.
#[derive(Debug, Clone, Copy)]
pub enum AppEvent {
    /// The escape key.
    EscKey,
    /// A character key.
    CharKey(char),
    /// Any other key.
    OtherKey,
}

/// What the root does with one key press.
#[derive(Debug, Clone, Copy, PartialEq, Eq)]
pub enum AppDecision {
    /// Leave the application.
    Quit,
    /// Open the search page.
    OpenSearch,
    /// Toggle the escape menu and move focus accordingly.
    ToggleMenu,
    /// Hand the event to the current page.
    Forward,
}

/// The decision for one key press: escape always toggles the menu; while the
/// menu is open, `q` quits and `s` opens the search page; everything else is
/// handed to the current page.
pub open spec fn spec_decide(menu_open: bool, ev: AppEvent) -> AppDecision {
    match ev {
        AppEvent::EscKey => AppDecision::ToggleMenu,
        AppEvent::CharKey(c) => if menu_open && c == 'q' {
            AppDecision::Quit
        } else if menu_open && c == 's' {
            AppDecision::OpenSearch
        } else {
            AppDecision::Forward
        },
        AppEvent::OtherKey => AppDecision::Forward,
    }
}

/// Decides what one key press does at the root of the front end.
pub fn decide(menu_open: bool, ev: AppEvent) -> (r: AppDecision)
    ensures
        r == spec_decide(menu_open, ev),
{
    match ev {
        AppEvent::EscKey => AppDecision::ToggleMenu,
        AppEvent::CharKey(c) => {
            if menu_open && c == 'q' {
                AppDecision::Quit
            } else if menu_open && c == 's' {
                AppDecision::OpenSearch
            } else {
                AppDecision::Forward
            }
        },
        AppEvent::OtherKey => AppDecision::Forward,
    }
}

/// Whether enough time has passed since the last request for the search page
/// to send another one: at least three seconds.
pub fn may_refresh(elapsed_secs: u64) -> (r: bool)
    ensures
        r == (elapsed_secs >= 3),
{
    elapsed_secs >= 3
}

} // verus!
