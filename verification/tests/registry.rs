//! The mode registry: add, remove, activate, lookups, and their errors.

use rust_rider::application::Application;
use rust_rider::error::CoreError;
use rust_rider::rust_rider::GameMode;

#[test]
fn activate_on_empty_registry_is_not_found() {
    let mut app: Application<GameMode> = Application::new();
    assert_eq!(app.set_active_application_mode("x"), Err(CoreError::NotFound));
}

#[test]
fn activate_twice_is_already_active() {
    let mut app: Application<GameMode> = Application::new();
    assert_eq!(app.add_application_mode("x", GameMode::new()), Ok(()));
    assert_eq!(app.set_active_application_mode("x"), Ok(()));
    assert_eq!(app.set_active_application_mode("x"), Err(CoreError::AlreadyActive));
}

#[test]
fn add_duplicate_name_is_refused_and_keeps_the_first_mode() {
    let mut app: Application<GameMode> = Application::new();
    let mut first = GameMode::new();
    first.state.mouse_position = rust_rider::geometry::Point::new(7, 9);
    assert_eq!(app.add_application_mode("x", first), Ok(()));
    let mut second = GameMode::new();
    second.state.mouse_position = rust_rider::geometry::Point::new(1, 2);
    assert_eq!(
        app.add_application_mode("x", second),
        Err(CoreError::DuplicateName)
    );
    let kept = app.get_application_mode("x").unwrap();
    assert_eq!(kept.state.mouse_position, rust_rider::geometry::Point::new(7, 9));
}

#[test]
fn remove_active_mode_is_refused_and_changes_nothing() {
    let mut app: Application<GameMode> = Application::new();
    assert_eq!(app.add_application_mode("x", GameMode::new()), Ok(()));
    assert_eq!(app.set_active_application_mode("x"), Ok(()));
    match app.remove_application_mode("x") {
        Err(e) => assert_eq!(e, CoreError::ActiveModeInUse),
        Ok(_) => panic!("removing the active mode must be refused"),
    }
    assert!(app.get_application_mode("x").is_some());
    assert!(app.get_active_application_mode().is_some());
    assert_eq!(app.set_active_application_mode("x"), Err(CoreError::AlreadyActive));
}

#[test]
fn remove_unknown_name_is_not_found() {
    let mut app: Application<GameMode> = Application::new();
    assert_eq!(app.add_application_mode("x", GameMode::new()), Ok(()));
    match app.remove_application_mode("y") {
        Err(e) => assert_eq!(e, CoreError::NotFound),
        Ok(_) => panic!("removing an unknown name must be refused"),
    }
}

#[test]
fn remove_inactive_mode_returns_ownership() {
    let mut app: Application<GameMode> = Application::new();
    let mut mode = GameMode::new();
    mode.state.mouse_position = rust_rider::geometry::Point::new(3, 4);
    assert_eq!(app.add_application_mode("x", mode), Ok(()));
    assert_eq!(app.add_application_mode("y", GameMode::new()), Ok(()));
    assert_eq!(app.set_active_application_mode("y"), Ok(()));
    let removed = app.remove_application_mode("x").ok().unwrap();
    assert_eq!(removed.state.mouse_position, rust_rider::geometry::Point::new(3, 4));
    assert!(app.get_application_mode("x").is_none());
    assert!(app.get_application_mode("y").is_some());
}

#[test]
fn get_active_resolves_through_the_active_name() {
    let mut app: Application<GameMode> = Application::new();
    assert!(app.get_active_application_mode().is_none());
    let mut mode = GameMode::new();
    mode.state.mouse_position = rust_rider::geometry::Point::new(5, 6);
    assert_eq!(app.add_application_mode("x", mode), Ok(()));
    assert!(app.get_active_application_mode().is_none());
    assert_eq!(app.set_active_application_mode("x"), Ok(()));
    let active = app.get_active_application_mode().unwrap();
    assert_eq!(active.state.mouse_position, rust_rider::geometry::Point::new(5, 6));
}

#[test]
fn get_unknown_name_is_none() {
    let app: Application<GameMode> = Application::new();
    assert!(app.get_application_mode("anything").is_none());
}
