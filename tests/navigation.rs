use win_tool::navigator::{Action, App, AppState};

#[test]
fn new_app_starts_on_main_menu() {
    let app = App::new(true);
    assert_eq!(app.state, AppState::MainMenu);
    assert_eq!(app.selected, 0);
    assert!(app.is_admin);
    assert_eq!(app.get_menu_items().len(), 5);
}

#[test]
fn up_from_first_entry_wraps_and_restarts_shell() {
    let mut app = App::new(false);
    app.move_selection(-1);
    assert_eq!(app.selected, 4);
    assert_eq!(app.handle_enter(), Some(Action::RestartExplorer));
    assert_eq!(app.state, AppState::MainMenu);
    assert_eq!(app.selected, 4);
}

#[test]
fn first_entry_opens_packages_menu() {
    let mut app = App::new(false);
    assert_eq!(app.handle_enter(), None);
    assert_eq!(app.state, AppState::PackagesMenu);
    assert_eq!(app.selected, 0);
    assert_eq!(app.get_menu_items().len(), 3);
}

#[test]
fn full_cycle_returns_cursor_on_every_menu() {
    let states = [
        AppState::MainMenu,
        AppState::PackagesMenu,
        AppState::PersonalizationMenu,
        AppState::UwpApps,
    ];
    for state in states {
        let n = App { state, selected: 0, is_admin: false }.get_menu_items().len();
        for start in 0..n.max(1) {
            let mut app = App { state, selected: start, is_admin: false };
            for _ in 0..n {
                app.move_selection(1);
            }
            assert_eq!(app.selected, start);
            assert_eq!(app.state, state);
        }
    }
}

#[test]
fn cursor_stays_at_zero_on_content_screens() {
    for delta in [-7isize, -1, 0, 1, 3, isize::MIN, isize::MAX] {
        let mut app = App { state: AppState::SystemSettings, selected: 0, is_admin: false };
        app.move_selection(delta);
        assert_eq!(app.selected, 0);
        assert_eq!(app.state, AppState::SystemSettings);
    }
}

#[test]
fn back_from_main_menu_changes_nothing() {
    let mut app = App { state: AppState::MainMenu, selected: 3, is_admin: false };
    app.handle_escape();
    assert_eq!(app.state, AppState::MainMenu);
    assert_eq!(app.selected, 3);
}

#[test]
fn back_goes_to_parent_and_resets_cursor() {
    let cases = [
        (AppState::PackagesMenu, AppState::MainMenu),
        (AppState::ExplorerSettings, AppState::MainMenu),
        (AppState::SystemSettings, AppState::MainMenu),
        (AppState::PersonalizationMenu, AppState::MainMenu),
        (AppState::WingetPackages, AppState::PackagesMenu),
        (AppState::UwpApps, AppState::PackagesMenu),
        (AppState::OtherInstallers, AppState::PackagesMenu),
        (AppState::PersonalizationBasic, AppState::PersonalizationMenu),
        (AppState::PersonalizationContext, AppState::PersonalizationMenu),
    ];
    for (from, to) in cases {
        let mut app = App { state: from, selected: 1, is_admin: false };
        app.handle_escape();
        assert_eq!(app.state, to);
        assert_eq!(app.selected, 0);
    }
}

#[test]
fn activation_follows_the_transition_table() {
    let cases = [
        (AppState::MainMenu, 1, AppState::ExplorerSettings),
        (AppState::MainMenu, 2, AppState::SystemSettings),
        (AppState::MainMenu, 3, AppState::PersonalizationMenu),
        (AppState::PackagesMenu, 0, AppState::WingetPackages),
        (AppState::PackagesMenu, 1, AppState::UwpApps),
        (AppState::PackagesMenu, 2, AppState::OtherInstallers),
        (AppState::PersonalizationMenu, 0, AppState::PersonalizationBasic),
        (AppState::PersonalizationMenu, 1, AppState::PersonalizationContext),
    ];
    for (from, at, to) in cases {
        let mut app = App { state: from, selected: at, is_admin: false };
        assert_eq!(app.handle_enter(), None);
        assert_eq!(app.state, to);
        assert_eq!(app.selected, 0);
    }
}

#[test]
fn activation_without_table_entry_is_a_no_op() {
    let mut app = App { state: AppState::WingetPackages, selected: 0, is_admin: true };
    assert_eq!(app.handle_enter(), None);
    assert_eq!(app.state, AppState::WingetPackages);
    let mut app = App { state: AppState::PackagesMenu, selected: 9, is_admin: true };
    assert_eq!(app.handle_enter(), None);
    assert_eq!(app.state, AppState::PackagesMenu);
    assert_eq!(app.selected, 9);
}

#[test]
fn cursor_wraps_by_large_deltas() {
    let mut app = App { state: AppState::MainMenu, selected: 2, is_admin: false };
    app.move_selection(13);
    assert_eq!(app.selected, 0);
    app.move_selection(-6);
    assert_eq!(app.selected, 4);
    app.move_selection(isize::MIN);
    // isize::MIN = -9223372036854775808, which is 2 modulo 5
    assert_eq!(app.selected, 1);
    app.move_selection(isize::MAX);
    // isize::MAX is 2 modulo 5
    assert_eq!(app.selected, 3);
}

#[test]
fn menu_labels_of_personalization() {
    let app = App { state: AppState::PersonalizationMenu, selected: 0, is_admin: false };
    assert_eq!(app.get_menu_items(), vec!["✨ Основное", "🖱️  Контекстное меню"]);
    assert_eq!(app.menu_len(), 2);
}

#[test]
fn repeated_equal_steps_return_cursor() {
    for delta in [2isize, -3, 7] {
        let mut app = App { state: AppState::MainMenu, selected: 1, is_admin: false };
        for _ in 0..5 {
            app.move_selection(delta);
        }
        assert_eq!(app.selected, 1);
    }
}
