//! The menu navigation state machine: which screen is shown, where the cursor
//! stands, and what activating or leaving an entry does.
use vstd::prelude::*;
use crate::cursor::{cursor_valid, lemma_full_turn, lemma_stepped_offset, stepped, wrap_cursor, wrapped};

verus! {

/// One navigable view of the menu tree.
#[derive(Debug, Clone, Copy, PartialEq, Eq, Structural)]
pub enum AppState {
    MainMenu,
    PackagesMenu,
    WingetPackages,
    UwpApps,
    OtherInstallers,
    ExplorerSettings,
    SystemSettings,
    PersonalizationMenu,
    PersonalizationBasic,
    PersonalizationContext,
}

/// A signal handed to the caller instead of a screen change.
#[derive(Debug, Clone, Copy, PartialEq, Eq, Structural)]
pub enum Action {
    RestartExplorer,
}

/// What activating one menu entry does.
#[derive(Debug, Clone, Copy, PartialEq, Eq, Structural)]
pub enum Transition {
    Goto(AppState),
    Leaf(Action),
}

/// The labels of a screen's menu; content screens have none.
pub open spec fn menu_items_of(s: AppState) -> Seq<&'static str> {
    match s {
        AppState::MainMenu => seq![
            "📦 Управление пакетами",
            "📁 Проводник и рабочий стол",
            "⚙️  Система",
            "🎨 Персонализация",
            "🔄 Перезагрузить проводник",
        ],
        AppState::PackagesMenu => seq![
            "🌐 Winget-пакеты",
            "📱 UWP-приложения",
            "💾 Другое (.exe / DISM)",
        ],
        AppState::PersonalizationMenu => seq!["✨ Основное", "🖱️  Контекстное меню"],
        _ => seq![],
    }
}

/// The number of entries on a screen's menu.
pub open spec fn entry_count(s: AppState) -> nat {
    match s {
        AppState::MainMenu => 5,
        AppState::PackagesMenu => 3,
        AppState::PersonalizationMenu => 2,
        _ => 0,
    }
}

/// The transition table: what activating entry `i` of screen `s` does, if anything.
pub open spec fn transition_of(s: AppState, i: int) -> Option<Transition> {
    match s {
        AppState::MainMenu => if i == 0 {
            Some(Transition::Goto(AppState::PackagesMenu))
        } else if i == 1 {
            Some(Transition::Goto(AppState::ExplorerSettings))
        } else if i == 2 {
            Some(Transition::Goto(AppState::SystemSettings))
        } else if i == 3 {
            Some(Transition::Goto(AppState::PersonalizationMenu))
        } else if i == 4 {
            Some(Transition::Leaf(Action::RestartExplorer))
        } else {
            None
        },
        AppState::PackagesMenu => if i == 0 {
            Some(Transition::Goto(AppState::WingetPackages))
        } else if i == 1 {
            Some(Transition::Goto(AppState::UwpApps))
        } else if i == 2 {
            Some(Transition::Goto(AppState::OtherInstallers))
        } else {
            None
        },
        AppState::PersonalizationMenu => if i == 0 {
            Some(Transition::Goto(AppState::PersonalizationBasic))
        } else if i == 1 {
            Some(Transition::Goto(AppState::PersonalizationContext))
        } else {
            None
        },
        _ => None,
    }
}

/// The screen that going back leads to; the main menu is its own parent.
pub open spec fn parent_of(s: AppState) -> AppState {
    match s {
        AppState::PackagesMenu
        | AppState::ExplorerSettings
        | AppState::SystemSettings
        | AppState::PersonalizationMenu => AppState::MainMenu,
        AppState::WingetPackages | AppState::UwpApps | AppState::OtherInstallers => AppState::PackagesMenu,
        AppState::PersonalizationBasic | AppState::PersonalizationContext => AppState::PersonalizationMenu,
        AppState::MainMenu => AppState::MainMenu,
    }
}

/// Looks up the transition table.
pub fn transition(s: AppState, i: usize) -> (r: Option<Transition>)
    ensures
        r == transition_of(s, i as int),
{
    match s {
        AppState::MainMenu => match i {
            0 => Some(Transition::Goto(AppState::PackagesMenu)),
            1 => Some(Transition::Goto(AppState::ExplorerSettings)),
            2 => Some(Transition::Goto(AppState::SystemSettings)),
            3 => Some(Transition::Goto(AppState::PersonalizationMenu)),
            4 => Some(Transition::Leaf(Action::RestartExplorer)),
            _ => None,
        },
        AppState::PackagesMenu => match i {
            0 => Some(Transition::Goto(AppState::WingetPackages)),
            1 => Some(Transition::Goto(AppState::UwpApps)),
            2 => Some(Transition::Goto(AppState::OtherInstallers)),
            _ => None,
        },
        AppState::PersonalizationMenu => match i {
            0 => Some(Transition::Goto(AppState::PersonalizationBasic)),
            1 => Some(Transition::Goto(AppState::PersonalizationContext)),
            _ => None,
        },
        _ => None,
    }
}

/// The parent screen, as `parent_of` states it.
pub fn parent(s: AppState) -> (r: AppState)
    ensures
        r == parent_of(s),
{
    match s {
        AppState::PackagesMenu
        | AppState::ExplorerSettings
        | AppState::SystemSettings
        | AppState::PersonalizationMenu => AppState::MainMenu,
        AppState::WingetPackages | AppState::UwpApps | AppState::OtherInstallers => AppState::PackagesMenu,
        AppState::PersonalizationBasic | AppState::PersonalizationContext => AppState::PersonalizationMenu,
        AppState::MainMenu => AppState::MainMenu,
    }
}

/// The navigator: the screen shown, the cursor on its menu, and whether the
/// process runs elevated (probed once at startup and only displayed).
#[derive(Debug, Clone, Copy, PartialEq, Eq, Structural)]
pub struct App {
    pub state: AppState,
    pub selected: usize,
    pub is_admin: bool,
}

/// The navigator after activating the entry under the cursor, and the action
/// handed back, if any.
pub open spec fn activated(app: App) -> (App, Option<Action>) {
    match transition_of(app.state, app.selected as int) {
        Some(Transition::Goto(t)) => (App { state: t, selected: 0, ..app }, None),
        Some(Transition::Leaf(a)) => (app, Some(a)),
        None => (app, None),
    }
}

/// The navigator after going back: the parent screen with the cursor at `0`,
/// and no change at all on the main menu.
pub open spec fn went_back(app: App) -> App {
    if app.state == AppState::MainMenu {
        app
    } else {
        App { state: parent_of(app.state), selected: 0, ..app }
    }
}

/// The navigator after moving the cursor by `delta`.
pub open spec fn moved(app: App, delta: int) -> App {
    App { selected: wrapped(app.selected as int, delta, entry_count(app.state) as int) as usize, ..app }
}

impl App {
    /// The cursor points at an entry of the current menu, or is `0` on a screen without one.
    pub open spec fn wf(self) -> bool {
        cursor_valid(self.selected as int, entry_count(self.state) as int)
    }

    /// The main menu with the cursor on its first entry.
    pub fn new(is_admin: bool) -> (r: Self)
        ensures
            r.state == AppState::MainMenu,
            r.selected == 0,
            r.is_admin == is_admin,
            r.wf(),
    {
        App { state: AppState::MainMenu, selected: 0, is_admin }
    }

    /// The labels of the current screen's menu.
    pub fn get_menu_items(&self) -> (r: Vec<&'static str>)
        ensures
            r@ == menu_items_of(self.state),
            r@.len() == entry_count(self.state),
    {
        match self.state {
            AppState::MainMenu => vec![
                "📦 Управление пакетами",
                "📁 Проводник и рабочий стол",
                "⚙️  Система",
                "🎨 Персонализация",
                "🔄 Перезагрузить проводник",
            ],
            AppState::PackagesMenu => vec![
                "🌐 Winget-пакеты",
                "📱 UWP-приложения",
                "💾 Другое (.exe / DISM)",
            ],
            AppState::PersonalizationMenu => vec!["✨ Основное", "🖱️  Контекстное меню"],
            _ => vec![],
        }
    }

    /// The number of entries on the current screen's menu.
    pub fn menu_len(&self) -> (r: usize)
        ensures
            r == entry_count(self.state),
    {
        match self.state {
            AppState::MainMenu => 5,
            AppState::PackagesMenu => 3,
            AppState::PersonalizationMenu => 2,
            _ => 0,
        }
    }

    /// Activates the entry under the cursor: a screen change resets the cursor,
    /// a leaf action is returned with the navigator unchanged.
    pub fn handle_enter(&mut self) -> (r: Option<Action>)
        ensures
            (*final(self), r) == activated(*old(self)),
            old(self).wf() ==> final(self).wf(),
    {
        match transition(self.state, self.selected) {
            Some(Transition::Goto(target)) => {
                self.state = target;
                self.selected = 0;
                None
            },
            Some(Transition::Leaf(action)) => Some(action),
            None => None,
        }
    }

    /// Goes back to the parent screen with the cursor at `0`; a no-op on the main menu.
    pub fn handle_escape(&mut self)
        ensures
            *final(self) == went_back(*old(self)),
            old(self).wf() ==> final(self).wf(),
    {
        if self.state != AppState::MainMenu {
            self.state = parent(self.state);
            self.selected = 0;
        }
    }

    /// Moves the cursor by `delta`, wrapping around; a no-op on a screen without entries.
    pub fn move_selection(&mut self, delta: isize)
        ensures
            *final(self) == moved(*old(self), delta as int),
            entry_count(old(self).state) > 0 ==> final(self).wf(),
            old(self).wf() ==> final(self).wf(),
    {
        let n: usize = self.menu_len();
        if n == 0 {
            return;
        }
        self.selected = wrap_cursor(self.selected, delta, n);
    }
}

/// The navigator after `k` moves of the cursor by `delta` each.
pub open spec fn moved_times(app: App, delta: int, k: nat) -> App
    decreases k,
{
    if k == 0 {
        app
    } else {
        moved(moved_times(app, delta, (k - 1) as nat), delta)
    }
}

proof fn lemma_moved_times_steps(app: App, delta: int, k: nat)
    requires
        app.wf(),
    ensures
        moved_times(app, delta, k) == (App {
            selected: stepped(app.selected as int, delta, entry_count(app.state) as int, k) as usize,
            ..app
        }),
        cursor_valid(
            stepped(app.selected as int, delta, entry_count(app.state) as int, k),
            entry_count(app.state) as int,
        ),
    decreases k,
{
    let n = entry_count(app.state) as int;
    if n > 0 {
        lemma_stepped_offset(app.selected as int, delta, n, k);
    }
    if k > 0 {
        lemma_moved_times_steps(app, delta, (k - 1) as nat);
    }
}

/// On every screen, moving the cursor by the same step as many times as the
/// menu has entries brings the cursor back to where it started; in particular
/// so does moving it one entry down that many times.
pub proof fn lemma_full_cycle_restores_cursor(app: App, delta: int)
    requires
        app.wf(),
    ensures
        moved_times(app, delta, entry_count(app.state)) == app,
{
    lemma_moved_times_steps(app, delta, entry_count(app.state));
    lemma_full_turn(app.selected as int, delta, entry_count(app.state));
}

/// On a screen without entries, moving the cursor by any amount leaves it at `0`.
pub proof fn lemma_empty_menu_keeps_cursor(app: App, delta: int)
    requires
        app.wf(),
        entry_count(app.state) == 0,
    ensures
        moved(app, delta) == app,
        moved(app, delta).selected == 0,
{
}

/// Going back from the main menu changes neither the screen nor the cursor.
pub proof fn lemma_back_from_main_menu(app: App)
    requires
        app.state == AppState::MainMenu,
    ensures
        went_back(app) == app,
{
}

} // verus!
