//! The control surface: the tray menu the host renders, the mapping from tray
//! and window events to effects the host carries out, and what each effect
//! asks of the supervisor.
//!
//! The host owns the event loop and the window; this module owns the policy:
//! which named action an id denotes, what a click dispatches, and that a
//! window close request hides the window without touching the worker.

use vstd::prelude::*;
use crate::supervisor::SupervisorModel;
use crate::supervisor::SupervisorOp;
use crate::supervisor::run_from;

verus! {

/// The named actions of the tray menu.
#[derive(Clone, Copy, PartialEq, Eq, Debug, Structural)]
pub enum TrayAction {
    Open,
    Start,
    Stop,
    Logs,
    Quit,
}

/// Which action a menu-item id denotes, if any.
pub open spec fn spec_parse_action(id: Seq<char>) -> Option<TrayAction> {
    if id == "open"@ {
        Some(TrayAction::Open)
    } else if id == "start"@ {
        Some(TrayAction::Start)
    } else if id == "stop"@ {
        Some(TrayAction::Stop)
    } else if id == "logs"@ {
        Some(TrayAction::Logs)
    } else if id == "quit"@ {
        Some(TrayAction::Quit)
    } else {
        None
    }
}

/// Parse a menu-item id into its action; an unknown id is no action.
pub fn parse_action(id: &str) -> (r: Option<TrayAction>)
    ensures
        r == spec_parse_action(id@),
{
    let owned = id.to_owned();
    if owned == "open".to_owned() {
        Some(TrayAction::Open)
    } else if owned == "start".to_owned() {
        Some(TrayAction::Start)
    } else if owned == "stop".to_owned() {
        Some(TrayAction::Stop)
    } else if owned == "logs".to_owned() {
        Some(TrayAction::Logs)
    } else if owned == "quit".to_owned() {
        Some(TrayAction::Quit)
    } else {
        None
    }
}

/// A tray event as the host reports it: a left click on the icon, a click on
/// a menu item carrying its id, or anything else.
pub enum TrayEventKind {
    LeftClick,
    MenuItemClick(String),
    Other,
}

/// What the control surface does in reaction to a tray event. The dispatched
/// effects run as independent tasks whose failures are logged, never raised
/// back to the event loop.
#[derive(Clone, Copy, PartialEq, Eq, Debug, Structural)]
pub enum ControlEffect {
    ShowMainWindow,
    DispatchStart,
    DispatchStop,
    DispatchOpenLogs,
    DispatchQuit,
    Ignore,
}

/// The reaction to each tray event: a left click and the open item show the
/// window; start, stop, logs and quit dispatch their operation; anything
/// else is ignored.
pub open spec fn spec_control_effect(e: TrayEventKind) -> ControlEffect {
    match e {
        TrayEventKind::LeftClick => ControlEffect::ShowMainWindow,
        TrayEventKind::MenuItemClick(id) => match spec_parse_action(id@) {
            Some(TrayAction::Open) => ControlEffect::ShowMainWindow,
            Some(TrayAction::Start) => ControlEffect::DispatchStart,
            Some(TrayAction::Stop) => ControlEffect::DispatchStop,
            Some(TrayAction::Logs) => ControlEffect::DispatchOpenLogs,
            Some(TrayAction::Quit) => ControlEffect::DispatchQuit,
            None => ControlEffect::Ignore,
        },
        TrayEventKind::Other => ControlEffect::Ignore,
    }
}

/// Map a tray event to the effect the host must carry out.
pub fn control_effect(e: &TrayEventKind) -> (r: ControlEffect)
    ensures
        r == spec_control_effect(*e),
{
    match e {
        TrayEventKind::LeftClick => ControlEffect::ShowMainWindow,
        TrayEventKind::MenuItemClick(id) => match parse_action(id.as_str()) {
            Some(TrayAction::Open) => ControlEffect::ShowMainWindow,
            Some(TrayAction::Start) => ControlEffect::DispatchStart,
            Some(TrayAction::Stop) => ControlEffect::DispatchStop,
            Some(TrayAction::Logs) => ControlEffect::DispatchOpenLogs,
            Some(TrayAction::Quit) => ControlEffect::DispatchQuit,
            None => ControlEffect::Ignore,
        },
        TrayEventKind::Other => ControlEffect::Ignore,
    }
}

/// A supervisor operation an effect asks the host to dispatch.
#[derive(Clone, Copy, PartialEq, Eq, Debug, Structural)]
pub enum SupervisorCall {
    Start,
    Stop,
}

/// The supervisor calls each effect dispatches, in order: start and stop
/// dispatch theirs, quit attempts one stop before the host exits, and the
/// window- and logs-effects touch the supervisor not at all.
pub open spec fn effect_supervisor_calls(e: ControlEffect) -> Seq<SupervisorCall> {
    match e {
        ControlEffect::DispatchStart => seq![SupervisorCall::Start],
        ControlEffect::DispatchStop => seq![SupervisorCall::Stop],
        ControlEffect::DispatchQuit => seq![SupervisorCall::Stop],
        _ => Seq::empty(),
    }
}

/// Whether an effect ends the host process once its supervisor calls ran.
pub open spec fn effect_exits_host(e: ControlEffect) -> bool {
    e is DispatchQuit
}

/// Law: the quit effect attempts exactly one stop before the host exits,
/// whatever that stop returns, and quit is the only effect that exits the
/// host.
pub proof fn lemma_quit_stops_exactly_once()
    ensures
        effect_supervisor_calls(ControlEffect::DispatchQuit) =~= seq![SupervisorCall::Stop],
        forall|e: ControlEffect| #[trigger] effect_exits_host(e) ==> e == ControlEffect::DispatchQuit,
{
}

/// A window event as the host reports it: the user asked to close the window,
/// or anything else.
#[derive(Clone, Copy, PartialEq, Eq, Debug, Structural)]
pub enum WindowEventKind {
    CloseRequested,
    Other,
}

/// What the host does with a window event: hide the window and suppress the
/// close, or nothing.
#[derive(Clone, Copy, PartialEq, Eq, Debug, Structural)]
pub enum WindowReaction {
    HidePreventClose,
    Ignore,
}

/// The reaction to each window event: a close request hides the window
/// instead of closing it; everything else is left to the host's defaults.
pub open spec fn spec_window_reaction(e: WindowEventKind) -> WindowReaction {
    match e {
        WindowEventKind::CloseRequested => WindowReaction::HidePreventClose,
        WindowEventKind::Other => WindowReaction::Ignore,
    }
}

/// Map a window event to its reaction.
pub fn window_reaction(e: &WindowEventKind) -> (r: WindowReaction)
    ensures
        r == spec_window_reaction(*e),
{
    match e {
        WindowEventKind::CloseRequested => WindowReaction::HidePreventClose,
        WindowEventKind::Other => WindowReaction::Ignore,
    }
}

/// The supervisor transitions window handling performs: none — no window
/// event ever touches the worker.
pub open spec fn window_event_ops(e: WindowEventKind) -> Seq<SupervisorOp> {
    Seq::empty()
}

/// Law: a close request is answered by hiding the window alone; it performs
/// no supervisor transition, so the recorded handle and flag after handling
/// it are exactly what they were before — a close never reduces the recorded
/// running state.
pub proof fn lemma_close_request_keeps_state(m: SupervisorModel)
    ensures
        spec_window_reaction(WindowEventKind::CloseRequested) == WindowReaction::HidePreventClose,
        run_from(m, window_event_ops(WindowEventKind::CloseRequested)) == m,
{
}

/// One entry of the tray menu: a clickable item carrying its action id and
/// its label, or a separator.
pub enum MenuEntry {
    Item(String, String),
    Separator,
}

/// The tray menu the host renders: open, then start and stop, then logs,
/// then quit, the groups divided by separators.
pub fn tray_menu() -> (m: Vec<MenuEntry>)
    ensures
        m@.len() == 8,
        m@[0] matches MenuEntry::Item(id, l) && id@ == "open"@ && l@ == "Open Runner"@,
        m@[1] is Separator,
        m@[2] matches MenuEntry::Item(id, l) && id@ == "start"@ && l@ == "Start Runner"@,
        m@[3] matches MenuEntry::Item(id, l) && id@ == "stop"@ && l@ == "Stop Runner"@,
        m@[4] is Separator,
        m@[5] matches MenuEntry::Item(id, l) && id@ == "logs"@ && l@ == "View Logs"@,
        m@[6] is Separator,
        m@[7] matches MenuEntry::Item(id, l) && id@ == "quit"@ && l@ == "Quit"@,
{
    let mut m: Vec<MenuEntry> = Vec::new();
    m.push(MenuEntry::Item("open".to_owned(), "Open Runner".to_owned()));
    m.push(MenuEntry::Separator);
    m.push(MenuEntry::Item("start".to_owned(), "Start Runner".to_owned()));
    m.push(MenuEntry::Item("stop".to_owned(), "Stop Runner".to_owned()));
    m.push(MenuEntry::Separator);
    m.push(MenuEntry::Item("logs".to_owned(), "View Logs".to_owned()));
    m.push(MenuEntry::Separator);
    m.push(MenuEntry::Item("quit".to_owned(), "Quit".to_owned()));
    m
}

} // verus!
