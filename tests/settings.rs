use win_tool::settings::{
    basic_personalization_tweaks, context_menu_tweaks, explorer_settings_from, explorer_tweaks,
    system_tweaks, ExplorerSettings, PersonalizationSettings, SystemSettings, Tweak,
};

#[test]
fn explorer_settings_read_back() {
    let s = explorer_settings_from(Some(1), Some(0));
    assert!(s.show_hidden_files && s.show_file_extensions);
    assert!(!s.open_this_pc && !s.remove_shortcut_suffix);
    let s = explorer_settings_from(Some(2), Some(1));
    assert!(!s.show_hidden_files && !s.show_file_extensions);
    let s = explorer_settings_from(None, None);
    assert_eq!(s, ExplorerSettings::default());
}

#[test]
fn explorer_tweaks_in_order() {
    let s = ExplorerSettings {
        show_hidden_files: true,
        show_file_extensions: false,
        open_this_pc: true,
        remove_shortcut_suffix: false,
    };
    assert_eq!(
        explorer_tweaks(&s),
        vec![
            Tweak::ShowHiddenFiles(true),
            Tweak::ShowFileExtensions(false),
            Tweak::OpenThisPc(true),
            Tweak::RemoveShortcutSuffix(false),
        ]
    );
}

#[test]
fn personalization_tweaks_in_order() {
    let s = PersonalizationSettings {
        add_end_task_button: true,
        enable_dark_theme: false,
        enable_verbose_status: true,
        enable_old_context_menu: true,
        remove_context_delay: false,
    };
    assert_eq!(
        basic_personalization_tweaks(&s),
        vec![
            Tweak::AddEndTaskButton(true),
            Tweak::EnableDarkTheme(false),
            Tweak::EnableVerboseStatus(true),
        ]
    );
    assert_eq!(
        context_menu_tweaks(&s),
        vec![Tweak::EnableOldContextMenu(true), Tweak::RemoveContextDelay(false)]
    );
}

#[test]
fn system_tweaks_in_order() {
    let mut s = SystemSettings::default();
    s.disable_uac = true;
    s.disable_telemetry = true;
    assert_eq!(
        system_tweaks(&s),
        vec![
            Tweak::DisableStickyKeys(false),
            Tweak::EnableClipboard(false),
            Tweak::DisableUac(true),
            Tweak::DisableSmartscreen(false),
            Tweak::DisableHibernation(false),
            Tweak::DisableBingSearch(false),
            Tweak::DisableBitlocker(false),
            Tweak::DisableTelemetry(true),
        ]
    );
}

#[test]
fn defaults_are_all_off() {
    let p = PersonalizationSettings::default();
    assert!(!p.add_end_task_button && !p.enable_dark_theme && !p.enable_verbose_status);
    assert!(!p.enable_old_context_menu && !p.remove_context_delay);
    let e = ExplorerSettings::default();
    assert!(!e.show_hidden_files && !e.open_this_pc);
}
