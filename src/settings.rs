//! Groups of operating-system settings and the order in which each group is
//! applied. The library decides which setting is applied with which value; the
//! host performs each one.
use vstd::prelude::*;

verus! {

/// One setting to apply, with the choice made for it.
#[derive(Debug, Clone, Copy, PartialEq, Eq, Structural)]
pub enum Tweak {
    ShowHiddenFiles(bool),
    ShowFileExtensions(bool),
    OpenThisPc(bool),
    RemoveShortcutSuffix(bool),
    AddEndTaskButton(bool),
    EnableDarkTheme(bool),
    EnableVerboseStatus(bool),
    EnableOldContextMenu(bool),
    RemoveContextDelay(bool),
    DisableStickyKeys(bool),
    EnableClipboard(bool),
    DisableUac(bool),
    DisableSmartscreen(bool),
    DisableHibernation(bool),
    DisableBingSearch(bool),
    DisableBitlocker(bool),
    DisableTelemetry(bool),
}

/// File explorer settings.
#[derive(Debug, Clone, Copy, PartialEq, Eq, Structural)]
pub struct ExplorerSettings {
    pub show_hidden_files: bool,
    pub show_file_extensions: bool,
    pub open_this_pc: bool,
    pub remove_shortcut_suffix: bool,
}

/// Personalization settings: the basic group and the context-menu group.
#[derive(Debug, Clone, Copy, PartialEq, Eq, Structural)]
pub struct PersonalizationSettings {
    pub add_end_task_button: bool,
    pub enable_dark_theme: bool,
    pub enable_verbose_status: bool,
    pub enable_old_context_menu: bool,
    pub remove_context_delay: bool,
}

/// System-wide settings and policies.
#[derive(Debug, Clone, Copy, PartialEq, Eq, Structural)]
pub struct SystemSettings {
    pub disable_sticky_keys: bool,
    pub enable_clipboard: bool,
    pub disable_uac: bool,
    pub disable_smartscreen: bool,
    pub disable_hibernation: bool,
    pub disable_bing_search: bool,
    pub disable_bitlocker: bool,
    pub disable_telemetry: bool,
}

impl Default for ExplorerSettings {
    /// Every setting off.
    fn default() -> (r: Self)
        ensures
            r == (ExplorerSettings {
                show_hidden_files: false,
                show_file_extensions: false,
                open_this_pc: false,
                remove_shortcut_suffix: false,
            }),
    {
        ExplorerSettings {
            show_hidden_files: false,
            show_file_extensions: false,
            open_this_pc: false,
            remove_shortcut_suffix: false,
        }
    }
}

impl Default for PersonalizationSettings {
    /// Every setting off.
    fn default() -> (r: Self)
        ensures
            r == (PersonalizationSettings {
                add_end_task_button: false,
                enable_dark_theme: false,
                enable_verbose_status: false,
                enable_old_context_menu: false,
                remove_context_delay: false,
            }),
    {
        PersonalizationSettings {
            add_end_task_button: false,
            enable_dark_theme: false,
            enable_verbose_status: false,
            enable_old_context_menu: false,
            remove_context_delay: false,
        }
    }
}

impl Default for SystemSettings {
    /// Every setting off.
    fn default() -> (r: Self)
        ensures
            r == (SystemSettings {
                disable_sticky_keys: false,
                enable_clipboard: false,
                disable_uac: false,
                disable_smartscreen: false,
                disable_hibernation: false,
                disable_bing_search: false,
                disable_bitlocker: false,
                disable_telemetry: false,
            }),
    {
        SystemSettings {
            disable_sticky_keys: false,
            enable_clipboard: false,
            disable_uac: false,
            disable_smartscreen: false,
            disable_hibernation: false,
            disable_bing_search: false,
            disable_bitlocker: false,
            disable_telemetry: false,
        }
    }
}

/// The explorer settings read back from the stored values: hidden files are
/// shown when `Hidden` is `1`, extensions when `HideFileExt` is `0`; a missing
/// `Hidden` counts as `0`, a missing `HideFileExt` as `1`. The other two
/// settings are not read back and stay off.
pub fn explorer_settings_from(hidden: Option<u32>, hide_file_ext: Option<u32>) -> (r: ExplorerSettings)
    ensures
        r.show_hidden_files == (hidden == Some(1u32)),
        r.show_file_extensions == (hide_file_ext == Some(0u32)),
        !r.open_this_pc,
        !r.remove_shortcut_suffix,
{
    let mut r = ExplorerSettings::default();
    r.show_hidden_files = match hidden {
        Some(v) => v == 1,
        None => false,
    };
    r.show_file_extensions = match hide_file_ext {
        Some(v) => v == 0,
        None => false,
    };
    r
}

/// The explorer settings, in the order in which they are applied.
pub fn explorer_tweaks(s: &ExplorerSettings) -> (r: Vec<Tweak>)
    ensures
        r@ == seq![
            Tweak::ShowHiddenFiles(s.show_hidden_files),
            Tweak::ShowFileExtensions(s.show_file_extensions),
            Tweak::OpenThisPc(s.open_this_pc),
            Tweak::RemoveShortcutSuffix(s.remove_shortcut_suffix),
        ],
{
    vec![
        Tweak::ShowHiddenFiles(s.show_hidden_files),
        Tweak::ShowFileExtensions(s.show_file_extensions),
        Tweak::OpenThisPc(s.open_this_pc),
        Tweak::RemoveShortcutSuffix(s.remove_shortcut_suffix),
    ]
}

/// The basic personalization settings, in the order in which they are applied.
pub fn basic_personalization_tweaks(s: &PersonalizationSettings) -> (r: Vec<Tweak>)
    ensures
        r@ == seq![
            Tweak::AddEndTaskButton(s.add_end_task_button),
            Tweak::EnableDarkTheme(s.enable_dark_theme),
            Tweak::EnableVerboseStatus(s.enable_verbose_status),
        ],
{
    vec![
        Tweak::AddEndTaskButton(s.add_end_task_button),
        Tweak::EnableDarkTheme(s.enable_dark_theme),
        Tweak::EnableVerboseStatus(s.enable_verbose_status),
    ]
}

/// The context-menu settings, in the order in which they are applied.
pub fn context_menu_tweaks(s: &PersonalizationSettings) -> (r: Vec<Tweak>)
    ensures
        r@ == seq![
            Tweak::EnableOldContextMenu(s.enable_old_context_menu),
            Tweak::RemoveContextDelay(s.remove_context_delay),
        ],
{
    vec![
        Tweak::EnableOldContextMenu(s.enable_old_context_menu),
        Tweak::RemoveContextDelay(s.remove_context_delay),
    ]
}

/// The system settings, in the order in which they are applied.
pub fn system_tweaks(s: &SystemSettings) -> (r: Vec<Tweak>)
    ensures
        r@ == seq![
            Tweak::DisableStickyKeys(s.disable_sticky_keys),
            Tweak::EnableClipboard(s.enable_clipboard),
            Tweak::DisableUac(s.disable_uac),
            Tweak::DisableSmartscreen(s.disable_smartscreen),
            Tweak::DisableHibernation(s.disable_hibernation),
            Tweak::DisableBingSearch(s.disable_bing_search),
            Tweak::DisableBitlocker(s.disable_bitlocker),
            Tweak::DisableTelemetry(s.disable_telemetry),
        ],
{
    vec![
        Tweak::DisableStickyKeys(s.disable_sticky_keys),
        Tweak::EnableClipboard(s.enable_clipboard),
        Tweak::DisableUac(s.disable_uac),
        Tweak::DisableSmartscreen(s.disable_smartscreen),
        Tweak::DisableHibernation(s.disable_hibernation),
        Tweak::DisableBingSearch(s.disable_bing_search),
        Tweak::DisableBitlocker(s.disable_bitlocker),
        Tweak::DisableTelemetry(s.disable_telemetry),
    ]
}

} // verus!
