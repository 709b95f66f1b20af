//! Tests of the nested browsing reducer on its own.

use player_core::BrowserAction;
use player_core::BrowserEvent;
use player_core::BrowserState;

fn stack_of(pages: &[&str]) -> BrowserState {
    BrowserState { navigation: pages.iter().map(|page| page.to_string()).collect() }
}

#[test]
fn push_stacks_the_page_and_reports_it() {
    let mut browser = BrowserState::new();
    let events = browser.update_with(BrowserAction::NavigationPush("home".to_string()));
    assert_eq!(events, vec![BrowserEvent::NavigationPushed("home".to_string())]);
    assert_eq!(browser.navigation, vec!["home".to_string()]);
}

#[test]
fn pop_removes_the_top_page() {
    let mut browser = stack_of(&["home", "details"]);
    let events = browser.update_with(BrowserAction::NavigationPop);
    assert_eq!(events, vec![BrowserEvent::NavigationPopped]);
    assert_eq!(browser.navigation, vec!["home".to_string()]);
}

#[test]
fn pop_on_an_empty_stack_is_a_noop() {
    let mut browser = BrowserState::new();
    let events = browser.update_with(BrowserAction::NavigationPop);
    assert_eq!(events, Vec::new());
    assert_eq!(browser.navigation, Vec::<String>::new());
}

#[test]
fn pop_to_unwinds_to_the_topmost_occurrence() {
    let mut browser = stack_of(&["home", "search", "artist", "album"]);
    let events = browser.update_with(BrowserAction::NavigationPopTo("search".to_string()));
    assert_eq!(
        events,
        vec![
            BrowserEvent::NavigationPopped,
            BrowserEvent::NavigationPopped,
            BrowserEvent::NavigationPoppedTo("search".to_string()),
        ]
    );
    assert_eq!(browser.navigation, vec!["home".to_string(), "search".to_string()]);
}

#[test]
fn pop_to_the_top_page_pops_nothing() {
    let mut browser = stack_of(&["home", "search"]);
    let events = browser.update_with(BrowserAction::NavigationPopTo("search".to_string()));
    assert_eq!(events, vec![BrowserEvent::NavigationPoppedTo("search".to_string())]);
    assert_eq!(browser.navigation, vec!["home".to_string(), "search".to_string()]);
}

#[test]
fn pop_to_a_missing_page_is_a_noop() {
    let mut browser = stack_of(&["home", "search"]);
    let events = browser.update_with(BrowserAction::NavigationPopTo("nowhere".to_string()));
    assert_eq!(events, Vec::new());
    assert_eq!(browser.navigation, vec!["home".to_string(), "search".to_string()]);
}

#[test]
fn pop_to_resolves_duplicates_to_the_topmost() {
    let mut browser = stack_of(&["home", "search", "home", "album"]);
    let events = browser.update_with(BrowserAction::NavigationPopTo("home".to_string()));
    assert_eq!(
        events,
        vec![
            BrowserEvent::NavigationPopped,
            BrowserEvent::NavigationPoppedTo("home".to_string()),
        ]
    );
    assert_eq!(
        browser.navigation,
        vec!["home".to_string(), "search".to_string(), "home".to_string()]
    );
}
