//! The commands of the tray menu: the layout of the menu and the
//! translation of a menu item's id into a command.

use vstd::prelude::*;

use crate::duration::{Duration, NANOS_PER_SEC};

verus! {

/// A command from the menu.
#[derive(Debug, Clone, Copy, PartialEq, Eq, Structural)]
pub enum TrayCommand {
    /// Keep awake with no time limit.
    StartIndefinite,
    /// Keep awake for the given length.
    StartTimed(Duration),
    /// Release and become inactive.
    Stop,
    /// Flip the option that keeps the display awake too.
    ToggleDisplayAwake,
    /// Release and leave the event loop.
    Quit,
}

/// The model of a command: a timed start by its length in nanoseconds.
pub enum CommandModel {
    StartIndefinite,
    StartTimed(nat),
    Stop,
    ToggleDisplayAwake,
    Quit,
}

impl View for TrayCommand {
    type V = CommandModel;

    open spec fn view(&self) -> CommandModel {
        match self {
            TrayCommand::StartIndefinite => CommandModel::StartIndefinite,
            TrayCommand::StartTimed(d) => CommandModel::StartTimed(d@),
            TrayCommand::Stop => CommandModel::Stop,
            TrayCommand::ToggleDisplayAwake => CommandModel::ToggleDisplayAwake,
            TrayCommand::Quit => CommandModel::Quit,
        }
    }
}

/// `minutes` minutes in nanoseconds.
pub open spec fn minutes(minutes: nat) -> nat {
    minutes * 60 * (NANOS_PER_SEC as nat)
}

/// The command of a menu item id; the status line, the separators and any
/// other id give none.
pub open spec fn command_for(id: Seq<char>) -> Option<CommandModel> {
    if id == "indefinite"@ {
        Some(CommandModel::StartIndefinite)
    } else if id == "t15"@ {
        Some(CommandModel::StartTimed(minutes(15)))
    } else if id == "t30"@ {
        Some(CommandModel::StartTimed(minutes(30)))
    } else if id == "t60"@ {
        Some(CommandModel::StartTimed(minutes(60)))
    } else if id == "t120"@ {
        Some(CommandModel::StartTimed(minutes(120)))
    } else if id == "stop"@ {
        Some(CommandModel::Stop)
    } else if id == "display"@ {
        Some(CommandModel::ToggleDisplayAwake)
    } else if id == "quit"@ {
        Some(CommandModel::Quit)
    } else {
        None
    }
}

/// True when the two strings hold the same characters.
fn same_text(a: &str, b: &str) -> (same: bool)
    ensures
        same == (a@ == b@),
{
    let n = a.unicode_len();
    if n != b.unicode_len() {
        return false;
    }
    let mut i: usize = 0;
    while i < n
        invariant
            n == a@.len(),
            n == b@.len(),
            i <= n,
            forall|j: int| 0 <= j < i ==> a@[j] == b@[j],
        decreases n - i,
    {
        if a.get_char(i) != b.get_char(i) {
            return false;
        }
        i = i + 1;
    }
    assert(a@ =~= b@);
    true
}

/// Translates the id of a menu item into its command; an unknown id gives
/// `None`.
pub fn command_for_id(id: &str) -> (cmd: Option<TrayCommand>)
    ensures
        match command_for(id@) {
            None => cmd is None,
            Some(m) => cmd matches Some(c) && c@ == m,
        },
{
    if same_text(id, "indefinite") {
        Some(TrayCommand::StartIndefinite)
    } else if same_text(id, "t15") {
        Some(TrayCommand::StartTimed(Duration::from_secs(15 * 60)))
    } else if same_text(id, "t30") {
        Some(TrayCommand::StartTimed(Duration::from_secs(30 * 60)))
    } else if same_text(id, "t60") {
        Some(TrayCommand::StartTimed(Duration::from_secs(60 * 60)))
    } else if same_text(id, "t120") {
        Some(TrayCommand::StartTimed(Duration::from_secs(2 * 60 * 60)))
    } else if same_text(id, "stop") {
        Some(TrayCommand::Stop)
    } else if same_text(id, "display") {
        Some(TrayCommand::ToggleDisplayAwake)
    } else if same_text(id, "quit") {
        Some(TrayCommand::Quit)
    } else {
        None
    }
}

/// The kinds of entry in the menu.
#[derive(Debug, Clone, Copy, PartialEq, Eq, Structural)]
pub enum MenuEntryKind {
    /// A plain item.
    Item,
    /// An item with a check mark.
    Check,
    /// A separator line; its id and label are empty.
    Separator,
}

/// One entry of the menu: its id, its label, whether it can be chosen, and
/// for a check item whether it starts checked.
#[derive(Debug, Clone, Copy)]
pub struct MenuEntry {
    pub kind: MenuEntryKind,
    pub id: &'static str,
    pub label: &'static str,
    pub enabled: bool,
    pub checked: bool,
}

/// The model of a menu entry.
pub struct MenuEntryModel {
    pub kind: MenuEntryKind,
    pub id: Seq<char>,
    pub label: Seq<char>,
    pub enabled: bool,
    pub checked: bool,
}

impl View for MenuEntry {
    type V = MenuEntryModel;

    open spec fn view(&self) -> MenuEntryModel {
        MenuEntryModel {
            kind: self.kind,
            id: self.id@,
            label: self.label@,
            enabled: self.enabled,
            checked: self.checked,
        }
    }
}

/// A plain menu item, never checked.
pub open spec fn item(id: Seq<char>, label: Seq<char>, enabled: bool) -> MenuEntryModel {
    MenuEntryModel { kind: MenuEntryKind::Item, id, label, enabled, checked: false }
}

/// A separator line.
pub open spec fn separator() -> MenuEntryModel {
    MenuEntryModel { kind: MenuEntryKind::Separator, id: ""@, label: ""@, enabled: true, checked: false }
}

/// The menu, top to bottom: a disabled status line, the ways to keep the
/// machine awake, the stop item (disabled until a session runs), the
/// display option (unchecked), and quit, with separators between the groups.
pub open spec fn menu_spec() -> Seq<MenuEntryModel> {
    seq![
        item("status"@, "KeepAwake: inaktív"@, false),
        separator(),
        item("indefinite"@, "Ébren tartás bekapcsolása"@, true),
        item("t15"@, "Ébren tartás 15 percig"@, true),
        item("t30"@, "Ébren tartás 30 percig"@, true),
        item("t60"@, "Ébren tartás 1 óráig"@, true),
        item("t120"@, "Ébren tartás 2 óráig"@, true),
        item("stop"@, "Leállítás"@, false),
        separator(),
        MenuEntryModel {
            kind: MenuEntryKind::Check,
            id: "display"@,
            label: "Kijelzõt is ébren tartsa"@,
            enabled: true,
            checked: false,
        },
        separator(),
        item("quit"@, "Kilépés"@, true),
    ]
}

fn entry(kind: MenuEntryKind, id: &'static str, label: &'static str, enabled: bool) -> (e: MenuEntry)
    ensures
        e@ == (MenuEntryModel { kind, id: id@, label: label@, enabled, checked: false }),
{
    MenuEntry { kind, id, label, enabled, checked: false }
}

/// The entries of the tray menu, top to bottom.
pub fn menu_layout() -> (entries: Vec<MenuEntry>)
    ensures
        entries@.len() == menu_spec().len(),
        forall|i: int| 0 <= i < entries@.len() ==> #[trigger] entries@[i]@ == menu_spec()[i],
{
    let mut v: Vec<MenuEntry> = Vec::new();
    v.push(entry(MenuEntryKind::Item, "status", "KeepAwake: inaktív", false));
    v.push(entry(MenuEntryKind::Separator, "", "", true));
    v.push(entry(MenuEntryKind::Item, "indefinite", "Ébren tartás bekapcsolása", true));
    v.push(entry(MenuEntryKind::Item, "t15", "Ébren tartás 15 percig", true));
    v.push(entry(MenuEntryKind::Item, "t30", "Ébren tartás 30 percig", true));
    v.push(entry(MenuEntryKind::Item, "t60", "Ébren tartás 1 óráig", true));
    v.push(entry(MenuEntryKind::Item, "t120", "Ébren tartás 2 óráig", true));
    v.push(entry(MenuEntryKind::Item, "stop", "Leállítás", false));
    v.push(entry(MenuEntryKind::Separator, "", "", true));
    v.push(entry(MenuEntryKind::Check, "display", "Kijelzõt is ébren tartsa", true));
    v.push(entry(MenuEntryKind::Separator, "", "", true));
    v.push(entry(MenuEntryKind::Item, "quit", "Kilépés", true));
    v
}

/// Every entry of the menu that a click can reach has a command, and the
/// status line and the separators have none: each menu id and the command
/// it names agree.
pub proof fn law_menu_entries_have_commands()
    ensures
        forall|i: int|
            0 <= i < menu_spec().len() ==> (command_for(#[trigger] menu_spec()[i].id) is Some <==> (
            menu_spec()[i].kind != MenuEntryKind::Separator && menu_spec()[i].id != "status"@)),
{
    reveal_strlit("");
    reveal_strlit("status");
    reveal_strlit("indefinite");
    reveal_strlit("t15");
    reveal_strlit("t30");
    reveal_strlit("t60");
    reveal_strlit("t120");
    reveal_strlit("stop");
    reveal_strlit("display");
    reveal_strlit("quit");
    let m = menu_spec();
    assert(m[0].id == "status"@);
    assert(m[1].id == ""@);
    assert("status"@.len() == 6 && ""@.len() == 0);
    assert(command_for(m[0].id) is None);
    assert(command_for(m[1].id) is None);
    assert(command_for(m[2].id) is Some);
    assert(command_for(m[3].id) is Some);
    assert(command_for(m[4].id) is Some);
    assert(command_for(m[5].id) is Some);
    assert(command_for(m[6].id) is Some);
    assert(command_for(m[7].id) is Some);
    assert(command_for(m[8].id) is None);
    assert(command_for(m[9].id) is Some);
    assert(command_for(m[10].id) is None);
    assert(command_for(m[11].id) is Some);
}

} // verus!
