use oriphim_runner::control::control_effect;
use oriphim_runner::control::parse_action;
use oriphim_runner::control::window_reaction;
use oriphim_runner::control::tray_menu;
use oriphim_runner::control::ControlEffect;
use oriphim_runner::control::MenuEntry;
use oriphim_runner::control::TrayAction;
use oriphim_runner::control::TrayEventKind;
use oriphim_runner::control::WindowEventKind;
use oriphim_runner::control::WindowReaction;
use oriphim_runner::logs::logs_folder_target;
use oriphim_runner::supervisor::KillOutcome;
use oriphim_runner::supervisor::SpawnOutcome;
use oriphim_runner::supervisor::Supervisor;

#[test]
fn known_action_ids_parse() {
    assert_eq!(parse_action("open"), Some(TrayAction::Open));
    assert_eq!(parse_action("start"), Some(TrayAction::Start));
    assert_eq!(parse_action("stop"), Some(TrayAction::Stop));
    assert_eq!(parse_action("logs"), Some(TrayAction::Logs));
    assert_eq!(parse_action("quit"), Some(TrayAction::Quit));
}

#[test]
fn unknown_action_ids_parse_to_nothing() {
    assert_eq!(parse_action(""), None);
    assert_eq!(parse_action("restart"), None);
    assert_eq!(parse_action("OPEN"), None);
    assert_eq!(parse_action("quit "), None);
}

#[test]
fn left_click_shows_the_window() {
    assert_eq!(
        control_effect(&TrayEventKind::LeftClick),
        ControlEffect::ShowMainWindow
    );
}

#[test]
fn menu_clicks_map_to_their_effects() {
    let cases = [
        ("open", ControlEffect::ShowMainWindow),
        ("start", ControlEffect::DispatchStart),
        ("stop", ControlEffect::DispatchStop),
        ("logs", ControlEffect::DispatchOpenLogs),
        ("quit", ControlEffect::DispatchQuit),
    ];
    for (id, expected) in cases {
        let e = control_effect(&TrayEventKind::MenuItemClick(id.to_string()));
        assert_eq!(e, expected);
    }
    assert_eq!(
        control_effect(&TrayEventKind::MenuItemClick("unknown".to_string())),
        ControlEffect::Ignore
    );
    assert_eq!(control_effect(&TrayEventKind::Other), ControlEffect::Ignore);
}

#[test]
fn close_request_hides_instead_of_closing() {
    assert_eq!(
        window_reaction(&WindowEventKind::CloseRequested),
        WindowReaction::HidePreventClose
    );
    assert_eq!(
        window_reaction(&WindowEventKind::Other),
        WindowReaction::Ignore
    );
}

#[test]
fn close_request_leaves_running_state_untouched() {
    let mut sup = Supervisor::new();
    let _ = sup.begin_start();
    let _ = sup.finish_start(SpawnOutcome::Spawned(9));
    assert_eq!(sup.status(), Ok(true));

    let reaction = window_reaction(&WindowEventKind::CloseRequested);
    assert_eq!(reaction, WindowReaction::HidePreventClose);

    assert_eq!(sup.status(), Ok(true));
    assert_eq!(sup.stop_target(), Some(9));
}

#[test]
fn quit_attempts_stop_exactly_once_even_when_stop_fails() {
    let mut sup = Supervisor::new();
    let _ = sup.begin_start();
    let _ = sup.finish_start(SpawnOutcome::Spawned(9));

    let effect = control_effect(&TrayEventKind::MenuItemClick("quit".to_string()));
    assert_eq!(effect, ControlEffect::DispatchQuit);

    let mut stop_attempts: u32 = 0;
    let mut exited = false;
    if effect == ControlEffect::DispatchQuit {
        stop_attempts += 1;
        let target = sup.stop_target();
        let outcome = target.map(|_| KillOutcome::KillFailed("busy".to_string()));
        let _ = sup.stop(outcome);
        exited = true;
    }
    assert_eq!(stop_attempts, 1);
    assert!(exited);
}

#[test]
fn tray_menu_has_the_fixed_layout() {
    let menu = tray_menu();
    assert_eq!(menu.len(), 8);
    let expected = [
        Some(("open", "Open Runner")),
        None,
        Some(("start", "Start Runner")),
        Some(("stop", "Stop Runner")),
        None,
        Some(("logs", "View Logs")),
        None,
        Some(("quit", "Quit")),
    ];
    for (entry, want) in menu.iter().zip(expected.iter()) {
        match (entry, want) {
            (MenuEntry::Item(id, label), Some((wid, wlabel))) => {
                assert_eq!(id, wid);
                assert_eq!(label, wlabel);
            }
            (MenuEntry::Separator, None) => {}
            _ => panic!("menu entry does not match the fixed layout"),
        }
    }
}

#[test]
fn every_menu_item_id_is_recognized() {
    for entry in tray_menu() {
        if let MenuEntry::Item(id, _) = entry {
            assert!(parse_action(&id).is_some());
        }
    }
}

#[test]
fn logs_folder_is_fixed_path_under_home() {
    let r = logs_folder_target(Some("/home/u".to_string()));
    assert_eq!(r, Ok("/home/u/.oriphim/logs".to_string()));
}

#[test]
fn logs_folder_without_home_is_an_error() {
    let r = logs_folder_target(None);
    assert_eq!(r, Err("Could not find home directory".to_string()));
}
