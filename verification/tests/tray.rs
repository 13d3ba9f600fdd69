use keepawake::tray::{command_for_id, menu_layout, MenuEntryKind, TrayCommand};
use keepawake::Duration;

#[test]
fn ids_translate_to_commands() {
    assert_eq!(command_for_id("indefinite"), Some(TrayCommand::StartIndefinite));
    assert_eq!(command_for_id("t15"), Some(TrayCommand::StartTimed(Duration::from_secs(15 * 60))));
    assert_eq!(command_for_id("t30"), Some(TrayCommand::StartTimed(Duration::from_secs(30 * 60))));
    assert_eq!(command_for_id("t60"), Some(TrayCommand::StartTimed(Duration::from_secs(60 * 60))));
    assert_eq!(command_for_id("t120"), Some(TrayCommand::StartTimed(Duration::from_secs(2 * 60 * 60))));
    assert_eq!(command_for_id("stop"), Some(TrayCommand::Stop));
    assert_eq!(command_for_id("display"), Some(TrayCommand::ToggleDisplayAwake));
    assert_eq!(command_for_id("quit"), Some(TrayCommand::Quit));
}

#[test]
fn unknown_ids_have_no_command() {
    assert_eq!(command_for_id("status"), None);
    assert_eq!(command_for_id(""), None);
    assert_eq!(command_for_id("t1"), None);
    assert_eq!(command_for_id("quit "), None);
    assert_eq!(command_for_id("Quit"), None);
}

#[test]
fn menu_layout_matches_the_plan() {
    let menu = menu_layout();
    let ids: Vec<&str> = menu.iter().map(|e| e.id).collect();
    assert_eq!(
        ids,
        vec!["status", "", "indefinite", "t15", "t30", "t60", "t120", "stop", "", "display", "", "quit"]
    );
    assert_eq!(menu[0].label, "KeepAwake: inaktív");
    assert!(!menu[0].enabled);
    assert!(!menu[7].enabled);
    assert_eq!(menu[9].kind, MenuEntryKind::Check);
    assert!(!menu[9].checked);
    assert_eq!(menu[1].kind, MenuEntryKind::Separator);
    assert_eq!(menu[11].label, "Kilépés");
}

#[test]
fn menu_entries_have_commands() {
    for entry in menu_layout() {
        let clickable = entry.kind != MenuEntryKind::Separator && entry.id != "status";
        assert_eq!(command_for_id(entry.id).is_some(), clickable, "{}", entry.id);
    }
}
