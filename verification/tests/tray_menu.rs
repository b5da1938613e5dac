use real_live_wall::tray::{
    menu_command, tray_menu, tray_reaction, wide_arr, MenuEntry, TrayCommand, TrayReaction,
};

#[test]
fn menu_lines_and_commands() {
    let m = tray_menu(true);
    assert_eq!(m.len(), 5);
    match &m[2] {
        MenuEntry::Item { id, label, checked } => {
            assert_eq!(*id, 3);
            assert_eq!(label, "자동 시작");
            assert!(*checked);
        }
        MenuEntry::Separator => panic!("expected item"),
    }
    assert!(matches!(m[3], MenuEntry::Separator));
    match &tray_menu(false)[2] {
        MenuEntry::Item { checked, .. } => assert!(!*checked),
        MenuEntry::Separator => panic!("expected item"),
    }
    for entry in &m {
        if let MenuEntry::Item { id, .. } = entry {
            assert!(menu_command(*id).is_some());
        }
    }
    assert_eq!(menu_command(9), Some(TrayCommand::Quit));
    assert_eq!(menu_command(4), None);
}

#[test]
fn window_messages() {
    assert_eq!(tray_reaction(0x0081, 0, 0, false), TrayReaction::StoreState);
    assert_eq!(tray_reaction(0x8001, 0, 0x0205, true), TrayReaction::Popup { show_menu: true });
    assert_eq!(tray_reaction(0x8001, 0, 0x7_0202, false), TrayReaction::Popup { show_menu: false });
    assert_eq!(tray_reaction(0x8001, 0, 0x0200, true), TrayReaction::Handled);
    assert_eq!(tray_reaction(0x0111, 0x1_0002, 0, true), TrayReaction::Command(TrayCommand::NextScene));
    assert_eq!(tray_reaction(0x0111, 2, 0, false), TrayReaction::Handled);
    assert_eq!(tray_reaction(0x0111, 7, 0, true), TrayReaction::Handled);
    assert_eq!(tray_reaction(0x0002, 0, 0, true), TrayReaction::RemoveIconAndQuit);
    assert_eq!(tray_reaction(0x0082, 0, 0, true), TrayReaction::FreeState { had_state: true });
    assert_eq!(tray_reaction(0x000F, 0, 0, true), TrayReaction::Default);
}

#[test]
fn fixed_wide_buffers() {
    let a: [u16; 4] = wide_arr("real_live_wall");
    assert_eq!(a, [0x72, 0x65, 0x61, 0]);
    let b: [u16; 6] = wide_arr("ab");
    assert_eq!(b, [0x61, 0x62, 0, 0, 0, 0]);
    let c: [u16; 1] = wide_arr("x");
    assert_eq!(c, [0]);
}

#[test]
fn tray_icon_data_matches_the_shell_fields() {
    let d = real_live_wall::tray::tray_icon_data();
    assert_eq!(d.id, 1);
    assert_eq!(d.flags, 0x1 | 0x2 | 0x4);
    assert_eq!(d.callback_message, 0x8001);
    let mut want = [0u16; 128];
    for (i, u) in "real_live_wall".encode_utf16().enumerate() {
        want[i] = u;
    }
    assert_eq!(d.tip, want);
}
