//! The tray-menu controller: the fixed menu, the events it receives, and
//! the dispatch of each event to an action. The dispatcher is purely
//! reactive; its only state is whether quit has been selected, after which
//! no further event produces an action.

use vstd::prelude::*;
use vstd::string::StringExecFns;

verus! {

/// One entry of the tray menu: its stable identifier, the label shown to
/// the user, and whether the entry can be selected.
pub struct TrayMenuItem {
    pub identifier: String,
    pub label: String,
    pub enabled: bool,
}

/// A menu selection, decoded from the selected entry's stable identifier.
#[derive(Clone, Copy, Debug, PartialEq, Eq)]
pub enum MenuEvent {
    Quit,
    Show,
    Start,
    Stop,
    Other,
}

/// A pointer button, as the tray icon reports it.
#[derive(Clone, Copy, Debug, PartialEq, Eq)]
pub enum MouseButton {
    Left,
    Right,
    Middle,
}

/// Whether a pointer button was pressed or released.
#[derive(Clone, Copy, Debug, PartialEq, Eq)]
pub enum MouseButtonState {
    Up,
    Down,
}

/// A pointer event on the tray icon itself.
#[derive(Clone, Copy, Debug, PartialEq, Eq)]
pub enum TrayEvent {
    Click { button: MouseButton, state: MouseButtonState },
    Other,
}

/// What the event thread must do next. Service runs are handed to a
/// fire-and-forget background task so the event thread never blocks on the
/// external CLI; `Idle` means the event is ignored.
#[derive(Clone, Copy, Debug, PartialEq, Eq)]
pub enum Action {
    Exit,
    ShowMainWindow,
    RunStart,
    RunStop,
    Idle,
}

/// What the show action does once the main window has been looked up:
/// reveal and focus the window when it exists, otherwise touch nothing.
#[derive(Clone, Copy, Debug, PartialEq, Eq)]
pub enum WindowDirective {
    ShowAndFocus,
    LeaveAlone,
}

/// Whether an action launches the orchestration CLI against the stack.
pub open spec fn runs_cli(a: Action) -> bool {
    a == Action::RunStart || a == Action::RunStop
}

/// The menu selection carried by a stable identifier string.
pub open spec fn spec_menu_event(id: Seq<char>) -> MenuEvent {
    if id == "quit"@ {
        MenuEvent::Quit
    } else if id == "show"@ {
        MenuEvent::Show
    } else if id == "start"@ {
        MenuEvent::Start
    } else if id == "stop"@ {
        MenuEvent::Stop
    } else {
        MenuEvent::Other
    }
}

/// The action a menu selection asks for.
pub open spec fn menu_action(e: MenuEvent) -> Action {
    match e {
        MenuEvent::Quit => Action::Exit,
        MenuEvent::Show => Action::ShowMainWindow,
        MenuEvent::Start => Action::RunStart,
        MenuEvent::Stop => Action::RunStop,
        MenuEvent::Other => Action::Idle,
    }
}

/// The action a tray-icon pointer event asks for: only releasing the left
/// button restores the main window.
pub open spec fn tray_action(e: TrayEvent) -> Action {
    if e matches TrayEvent::Click { button: MouseButton::Left, state: MouseButtonState::Up } {
        Action::ShowMainWindow
    } else {
        Action::Idle
    }
}

/// The dispatcher's whole state: whether quit has been selected.
#[derive(Clone, Copy, Debug, PartialEq, Eq)]
pub struct Dispatcher {
    pub terminated: bool,
}

/// One step of the dispatcher on a menu selection: the state after the
/// event, and the action the event asks for. A terminated dispatcher
/// ignores every event and stays terminated.
pub open spec fn menu_step(s: Dispatcher, e: MenuEvent) -> (Dispatcher, Action) {
    if s.terminated {
        (s, Action::Idle)
    } else {
        (Dispatcher { terminated: e == MenuEvent::Quit }, menu_action(e))
    }
}

/// One step of the dispatcher on a tray-icon pointer event; such an event
/// never changes the state.
pub open spec fn tray_step(s: Dispatcher, e: TrayEvent) -> (Dispatcher, Action) {
    if s.terminated {
        (s, Action::Idle)
    } else {
        (s, tray_action(e))
    }
}

impl Dispatcher {
    /// A fresh dispatcher, ready to dispatch events.
    pub fn new() -> (d: Dispatcher)
        ensures
            !d.terminated,
    {
        Dispatcher { terminated: false }
    }

    /// Dispatches one menu selection, following `menu_step`.
    pub fn handle_menu(&mut self, e: MenuEvent) -> (a: Action)
        ensures
            (*final(self), a) == menu_step(*old(self), e),
    {
        if self.terminated {
            Action::Idle
        } else {
            match e {
                MenuEvent::Quit => {
                    self.terminated = true;
                    Action::Exit
                },
                MenuEvent::Show => Action::ShowMainWindow,
                MenuEvent::Start => Action::RunStart,
                MenuEvent::Stop => Action::RunStop,
                MenuEvent::Other => Action::Idle,
            }
        }
    }

    /// Dispatches one tray-icon pointer event, following `tray_step`.
    pub fn handle_tray(&mut self, e: TrayEvent) -> (a: Action)
        ensures
            (*final(self), a) == tray_step(*old(self), e),
    {
        if self.terminated {
            Action::Idle
        } else {
            match e {
                TrayEvent::Click { button: MouseButton::Left, state: MouseButtonState::Up } => {
                    Action::ShowMainWindow
                },
                _ => Action::Idle,
            }
        }
    }
}

/// Decodes a menu entry's stable identifier into the selection it carries.
pub fn menu_event_for_id(id: &str) -> (e: MenuEvent)
    ensures
        e == spec_menu_event(id@),
{
    let owned: String = id.to_owned();
    if owned == "quit".to_owned() {
        MenuEvent::Quit
    } else if owned == "show".to_owned() {
        MenuEvent::Show
    } else if owned == "start".to_owned() {
        MenuEvent::Start
    } else if owned == "stop".to_owned() {
        MenuEvent::Stop
    } else {
        MenuEvent::Other
    }
}

/// The stable identifier of the main window that the show action reveals.
pub fn main_window_label() -> (l: String)
    ensures
        l@ == "main"@,
{
    "main".to_owned()
}

/// The four entries of the tray menu, in display order, all enabled.
pub fn tray_menu_items() -> (items: Vec<TrayMenuItem>)
    ensures
        items@.len() == 4,
        items@[0].identifier@ == "show"@ && items@[0].label@ == "Show Dashboard"@
            && items@[0].enabled,
        items@[1].identifier@ == "start"@ && items@[1].label@ == "Start Services"@
            && items@[1].enabled,
        items@[2].identifier@ == "stop"@ && items@[2].label@ == "Stop Services"@
            && items@[2].enabled,
        items@[3].identifier@ == "quit"@ && items@[3].label@ == "Quit"@ && items@[3].enabled,
{
    let mut items: Vec<TrayMenuItem> = Vec::new();
    items.push(
        TrayMenuItem {
            identifier: "show".to_owned(),
            label: "Show Dashboard".to_owned(),
            enabled: true,
        },
    );
    items.push(
        TrayMenuItem {
            identifier: "start".to_owned(),
            label: "Start Services".to_owned(),
            enabled: true,
        },
    );
    items.push(
        TrayMenuItem {
            identifier: "stop".to_owned(),
            label: "Stop Services".to_owned(),
            enabled: true,
        },
    );
    items.push(
        TrayMenuItem { identifier: "quit".to_owned(), label: "Quit".to_owned(), enabled: true },
    );
    items
}

/// Resolves the show action after the main-window lookup: the window is
/// revealed and focused only when it exists; a missing window is left as a
/// silent no-op, never an error.
pub fn show_window_directive(window_present: bool) -> (d: WindowDirective)
    ensures
        d == (if window_present {
            WindowDirective::ShowAndFocus
        } else {
            WindowDirective::LeaveAlone
        }),
{
    if window_present {
        WindowDirective::ShowAndFocus
    } else {
        WindowDirective::LeaveAlone
    }
}

/// The diagnostic line logged when a background start run finishes: a
/// fixed success note, or a failure note carrying the failure message.
pub fn start_log_line(outcome: &Result<String, String>) -> (l: String)
    ensures
        outcome is Ok ==> l@ == "Services started successfully"@,
        outcome is Err ==> l@ == "Failed to start services: "@ + outcome->Err_0@,
{
    match outcome {
        Ok(_) => "Services started successfully".to_owned(),
        Err(e) => "Failed to start services: ".to_owned().concat(e.as_str()),
    }
}

/// The diagnostic line logged when a background stop run finishes: a
/// fixed success note, or a failure note carrying the failure message.
pub fn stop_log_line(outcome: &Result<String, String>) -> (l: String)
    ensures
        outcome is Ok ==> l@ == "Services stopped successfully"@,
        outcome is Err ==> l@ == "Failed to stop services: "@ + outcome->Err_0@,
{
    match outcome {
        Ok(_) => "Services stopped successfully".to_owned(),
        Err(e) => "Failed to stop services: ".to_owned().concat(e.as_str()),
    }
}

/// Law: with the dispatcher live, a start selection followed at once by a
/// stop selection (or the reverse) is dispatched step by step: each
/// selection yields its own service action, neither terminates the
/// dispatcher, and a show selection right after the pair is still
/// dispatched to the window action.
pub proof fn lemma_start_stop_independent(s: Dispatcher)
    requires
        !s.terminated,
    ensures
        menu_step(s, MenuEvent::Start).1 == Action::RunStart,
        menu_step(menu_step(s, MenuEvent::Start).0, MenuEvent::Stop).1 == Action::RunStop,
        menu_step(
            menu_step(menu_step(s, MenuEvent::Start).0, MenuEvent::Stop).0,
            MenuEvent::Show,
        ).1 == Action::ShowMainWindow,
        menu_step(s, MenuEvent::Stop).1 == Action::RunStop,
        menu_step(menu_step(s, MenuEvent::Stop).0, MenuEvent::Start).1 == Action::RunStart,
        menu_step(
            menu_step(menu_step(s, MenuEvent::Stop).0, MenuEvent::Start).0,
            MenuEvent::Show,
        ).1 == Action::ShowMainWindow,
{
}

/// Law: once quit is selected the dispatcher is terminated, and from a
/// terminated dispatcher no event — menu selection or tray click — yields
/// an action or changes the state again.
pub proof fn lemma_quit_halts_dispatch(s: Dispatcher)
    ensures
        menu_step(s, MenuEvent::Quit).0.terminated,
        forall|t: Dispatcher, e: MenuEvent|
            t.terminated ==> #[trigger] menu_step(t, e) == (t, Action::Idle),
        forall|t: Dispatcher, e: TrayEvent|
            t.terminated ==> #[trigger] tray_step(t, e) == (t, Action::Idle),
{
}

/// Law: a show selection is dispatched to the window action alone, which
/// never launches the orchestration CLI, and it leaves the dispatcher
/// exactly as it was.
pub proof fn lemma_show_touches_no_services(s: Dispatcher)
    requires
        !s.terminated,
    ensures
        menu_step(s, MenuEvent::Show).1 == Action::ShowMainWindow,
        menu_step(s, MenuEvent::Show).0 == s,
        !runs_cli(Action::ShowMainWindow),
{
}

} // verus!
