//! System-tray (notification-area) icon: its popup menu and how window
//! messages sent to the tray window are answered.
//!
//! The tray window, its message loop and the icon itself belong to the window
//! system and are driven by the caller from these decisions.

use vstd::prelude::*;

use crate::text::{chars_of, utf16_encode, utf16_of};

verus! {

/// Commands that the tray menu can emit.
#[derive(Debug, Clone, Copy, PartialEq, Eq, Structural)]
pub enum TrayCommand {
    OpenSettings,
    NextScene,
    ToggleAutostart,
    Quit,
}

pub const WM_DESTROY: u32 = 0x0002;

pub const WM_NCCREATE: u32 = 0x0081;

pub const WM_NCDESTROY: u32 = 0x0082;

pub const WM_COMMAND: u32 = 0x0111;

pub const WM_LBUTTONUP: u32 = 0x0202;

pub const WM_RBUTTONUP: u32 = 0x0205;

/// Tray-icon callback message (`WM_APP + 1`).
pub const WM_TRAY: u32 = 0x8001;

/// Id of the notification icon within the tray window.
pub const TRAY_ICON_ID: u32 = 1;

/// `NIF_MESSAGE`: the icon data carries a callback message.
pub const NIF_MESSAGE: u32 = 0x1;

/// `NIF_ICON`: the icon data carries an icon.
pub const NIF_ICON: u32 = 0x2;

/// `NIF_TIP`: the icon data carries a tooltip.
pub const NIF_TIP: u32 = 0x4;

/// Tooltip of the notification icon.
pub const TRAY_TOOLTIP: &'static str = "real_live_wall";

pub const MENU_OPEN_SETTINGS: u32 = 1;

pub const MENU_NEXT_SCENE: u32 = 2;

pub const MENU_AUTOSTART: u32 = 3;

pub const MENU_QUIT: u32 = 9;

/// The command bound to a menu item id, if any.
pub open spec fn spec_menu_command(id: u32) -> Option<TrayCommand> {
    if id == MENU_OPEN_SETTINGS {
        Some(TrayCommand::OpenSettings)
    } else if id == MENU_NEXT_SCENE {
        Some(TrayCommand::NextScene)
    } else if id == MENU_AUTOSTART {
        Some(TrayCommand::ToggleAutostart)
    } else if id == MENU_QUIT {
        Some(TrayCommand::Quit)
    } else {
        None
    }
}

/// The command bound to a menu item id.
pub fn menu_command(id: u32) -> (r: Option<TrayCommand>)
    ensures
        r == spec_menu_command(id),
{
    match id {
        1 => Some(TrayCommand::OpenSettings),
        2 => Some(TrayCommand::NextScene),
        3 => Some(TrayCommand::ToggleAutostart),
        9 => Some(TrayCommand::Quit),
        _ => None,
    }
}

/// One line of the popup menu.
#[derive(Debug)]
pub enum MenuEntry {
    Item { id: u32, label: String, checked: bool },
    Separator,
}

pub open spec fn is_item(e: MenuEntry, id: u32, label: Seq<char>, checked: bool) -> bool {
    e matches MenuEntry::Item { id: i, label: l, checked: c } && i == id && l@ == label && c
        == checked
}

/// The popup menu, top to bottom: open settings, next scene, auto-start
/// (checked when `autostart_on`), a separator, quit.
pub fn tray_menu(autostart_on: bool) -> (r: Vec<MenuEntry>)
    ensures
        r@.len() == 5,
        is_item(r@[0], MENU_OPEN_SETTINGS, "설정 열기"@, false),
        is_item(r@[1], MENU_NEXT_SCENE, "다음 씬"@, false),
        is_item(r@[2], MENU_AUTOSTART, "자동 시작"@, autostart_on),
        r@[3] is Separator,
        is_item(r@[4], MENU_QUIT, "종료"@, false),
{
    let mut m: Vec<MenuEntry> = Vec::new();
    m.push(
        MenuEntry::Item {
            id: MENU_OPEN_SETTINGS,
            label: String::from_str("설정 열기"),
            checked: false,
        },
    );
    m.push(
        MenuEntry::Item { id: MENU_NEXT_SCENE, label: String::from_str("다음 씬"), checked: false },
    );
    m.push(
        MenuEntry::Item {
            id: MENU_AUTOSTART,
            label: String::from_str("자동 시작"),
            checked: autostart_on,
        },
    );
    m.push(MenuEntry::Separator);
    m.push(MenuEntry::Item { id: MENU_QUIT, label: String::from_str("종료"), checked: false });
    m
}

/// Every item of the menu carries a command, each a different one.
pub proof fn lemma_menu_ids_bound()
    ensures
        spec_menu_command(MENU_OPEN_SETTINGS) == Some(TrayCommand::OpenSettings),
        spec_menu_command(MENU_NEXT_SCENE) == Some(TrayCommand::NextScene),
        spec_menu_command(MENU_AUTOSTART) == Some(TrayCommand::ToggleAutostart),
        spec_menu_command(MENU_QUIT) == Some(TrayCommand::Quit),
        spec_menu_command(0) is None,
{
}

/// How the tray window answers a message.
#[derive(Debug, Clone, Copy, PartialEq, Eq, Structural)]
pub enum TrayReaction {
    /// Remember the state passed at creation, then default processing.
    StoreState,
    /// Click on the icon: bring the tray window to the foreground and, when
    /// its state is present, show the popup menu; answer 0.
    Popup { show_menu: bool },
    /// Run a menu command; answer 0.
    Command(TrayCommand),
    /// Nothing to do; answer 0.
    Handled,
    /// Remove the tray icon and quit the message loop; answer 0.
    RemoveIconAndQuit,
    /// Last message: free the stored state (if any), then default processing.
    FreeState { had_state: bool },
    /// Default processing.
    Default,
}

/// The low 16 bits of a message parameter.
pub open spec fn low_word(x: u32) -> u32 {
    x & 0xFFFF
}

pub open spec fn spec_tray_reaction(msg: u32, wparam: usize, lparam: isize, has_state: bool) -> TrayReaction {
    if msg == WM_NCCREATE {
        TrayReaction::StoreState
    } else if msg == WM_TRAY {
        let ev = low_word(lparam as u32);
        if ev == WM_RBUTTONUP || ev == WM_LBUTTONUP {
            TrayReaction::Popup { show_menu: has_state }
        } else {
            TrayReaction::Handled
        }
    } else if msg == WM_COMMAND {
        match (has_state, spec_menu_command(low_word(wparam as u32))) {
            (true, Some(c)) => TrayReaction::Command(c),
            _ => TrayReaction::Handled,
        }
    } else if msg == WM_DESTROY {
        TrayReaction::RemoveIconAndQuit
    } else if msg == WM_NCDESTROY {
        TrayReaction::FreeState { had_state: has_state }
    } else {
        TrayReaction::Default
    }
}

/// Decide how the tray window answers message `msg` with parameters
/// `wparam`/`lparam`; `has_state` tells whether the creation state has been
/// stored on the window.
pub fn tray_reaction(msg: u32, wparam: usize, lparam: isize, has_state: bool) -> (r: TrayReaction)
    ensures
        r == spec_tray_reaction(msg, wparam, lparam, has_state),
        msg == WM_TRAY && (low_word(lparam as u32) == WM_LBUTTONUP || low_word(lparam as u32)
            == WM_RBUTTONUP) ==> r == (TrayReaction::Popup { show_menu: has_state }),
        msg == WM_COMMAND && has_state && low_word(wparam as u32) == MENU_OPEN_SETTINGS ==> r
            == TrayReaction::Command(TrayCommand::OpenSettings),
        msg == WM_COMMAND && has_state && low_word(wparam as u32) == MENU_NEXT_SCENE ==> r
            == TrayReaction::Command(TrayCommand::NextScene),
        msg == WM_COMMAND && has_state && low_word(wparam as u32) == MENU_AUTOSTART ==> r
            == TrayReaction::Command(TrayCommand::ToggleAutostart),
        msg == WM_COMMAND && has_state && low_word(wparam as u32) == MENU_QUIT ==> r
            == TrayReaction::Command(TrayCommand::Quit),
        msg == WM_COMMAND && !has_state ==> r == TrayReaction::Handled,
{
    if msg == WM_NCCREATE {
        TrayReaction::StoreState
    } else if msg == WM_TRAY {
        let ev = #[verifier::truncate] (lparam as u32) & 0xFFFF;
        if ev == WM_RBUTTONUP || ev == WM_LBUTTONUP {
            TrayReaction::Popup { show_menu: has_state }
        } else {
            TrayReaction::Handled
        }
    } else if msg == WM_COMMAND {
        let id = #[verifier::truncate] (wparam as u32) & 0xFFFF;
        match (has_state, menu_command(id)) {
            (true, Some(c)) => TrayReaction::Command(c),
            _ => TrayReaction::Handled,
        }
    } else if msg == WM_DESTROY {
        TrayReaction::RemoveIconAndQuit
    } else if msg == WM_NCDESTROY {
        TrayReaction::FreeState { had_state: has_state }
    } else {
        TrayReaction::Default
    }
}

/// A left and a right button-up on the icon are answered alike: the tray
/// window comes forward, with the popup menu whenever its state is stored.
pub proof fn lemma_clicks_alike(wparam: usize, left: isize, right: isize, has_state: bool)
    requires
        low_word(left as u32) == WM_LBUTTONUP,
        low_word(right as u32) == WM_RBUTTONUP,
    ensures
        spec_tray_reaction(WM_TRAY, wparam, left, has_state) == spec_tray_reaction(
            WM_TRAY,
            wparam,
            right,
            has_state,
        ),
        spec_tray_reaction(WM_TRAY, wparam, left, has_state) == (TrayReaction::Popup {
            show_menu: has_state,
        }),
{
}

/// Once the tray state is stored, choosing a menu item runs exactly the
/// command its id is bound to, so every item of the menu (quit included)
/// acts; an id bound to nothing does nothing.
pub proof fn lemma_menu_choice_runs_its_command(wparam: usize, lparam: isize)
    ensures
        low_word(wparam as u32) == MENU_QUIT ==> spec_tray_reaction(WM_COMMAND, wparam, lparam, true)
            == TrayReaction::Command(TrayCommand::Quit),
        low_word(wparam as u32) == MENU_OPEN_SETTINGS ==> spec_tray_reaction(WM_COMMAND, wparam, lparam, true)
            == TrayReaction::Command(TrayCommand::OpenSettings),
        low_word(wparam as u32) == MENU_NEXT_SCENE ==> spec_tray_reaction(WM_COMMAND, wparam, lparam, true)
            == TrayReaction::Command(TrayCommand::NextScene),
        low_word(wparam as u32) == MENU_AUTOSTART ==> spec_tray_reaction(WM_COMMAND, wparam, lparam, true)
            == TrayReaction::Command(TrayCommand::ToggleAutostart),
        (spec_tray_reaction(WM_COMMAND, wparam, lparam, true) is Command) <==> (low_word(
            wparam as u32,
        ) == MENU_QUIT || low_word(wparam as u32) == MENU_OPEN_SETTINGS || low_word(wparam as u32)
            == MENU_NEXT_SCENE || low_word(wparam as u32) == MENU_AUTOSTART),
{
}

/// Copy up to `N - 1` UTF-16 units of `s` into a fixed, zero-filled buffer,
/// so the result is always NUL-terminated.
pub fn wide_arr<const N: usize>(s: &str) -> (r: [u16; N])
    requires
        N >= 1,
    ensures
        forall|i: int|
            0 <= i < N ==> #[trigger] r@[i] == (if i < N - 1 && i < utf16_encode(s@).len() {
                utf16_encode(s@)[i]
            } else {
                0
            }),
{
    let cs = chars_of(s);
    let units = utf16_of(&cs);
    let mut buf: [u16; N] = [0u16; N];
    let mut i: usize = 0;
    while i < N - 1 && i < units.len()
        invariant
            N >= 1,
            units@ == utf16_encode(s@),
            i <= N - 1,
            i <= units@.len(),
            forall|k: int|
                0 <= k < N ==> #[trigger] buf@[k] == (if k < i {
                    units@[k]
                } else {
                    0
                }),
        decreases N - i,
    {
        buf[i] = units[i];
        i = i + 1;
    }
    assert forall|k: int| 0 <= k < N implies #[trigger] buf@[k] == (if k < N - 1 && k
        < utf16_encode(s@).len() {
        utf16_encode(s@)[k]
    } else {
        0
    }) by {
        if k < N - 1 && k < units@.len() {
            assert(k < i);
        }
    }
    buf
}

/// What the tray hands the shell when it adds its notification icon (besides
/// the window and icon handles).
pub struct TrayIconData {
    pub id: u32,
    pub flags: u32,
    pub callback_message: u32,
    /// [`TRAY_TOOLTIP`] as NUL-terminated UTF-16 in the shell's 128-unit field.
    pub tip: [u16; 128],
}

/// The notification icon's data: id [`TRAY_ICON_ID`], with an icon, a
/// callback message ([`WM_TRAY`]) and the tooltip [`TRAY_TOOLTIP`] (up to 127
/// UTF-16 units, zero-filled).
pub fn tray_icon_data() -> (r: TrayIconData)
    ensures
        r.id == TRAY_ICON_ID,
        r.flags == NIF_ICON | NIF_MESSAGE | NIF_TIP,
        r.callback_message == WM_TRAY,
        forall|i: int|
            0 <= i < 128 ==> #[trigger] r.tip@[i] == (if i < 127 && i < utf16_encode(
                TRAY_TOOLTIP@,
            ).len() {
                utf16_encode(TRAY_TOOLTIP@)[i]
            } else {
                0
            }),
{
    TrayIconData {
        id: TRAY_ICON_ID,
        flags: NIF_ICON | NIF_MESSAGE | NIF_TIP,
        callback_message: WM_TRAY,
        tip: wide_arr::<128>(TRAY_TOOLTIP),
    }
}

} // verus!
