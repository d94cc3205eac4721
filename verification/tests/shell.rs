use sidegate::shell::{
    icon_click, menu_quits, on_msg, popup_origin, quit_waits, tip_buffer, tray, wm_tray, ClickAction, MessageAction,
    Point, Rect, HIDDEN_AT_START, MENU_EXIT, MENU_EXIT_LABEL, QUIT_PATIENCE, QUIT_POLL, REOPEN_DELAY,
};
use windows_sys::Win32::UI::WindowsAndMessaging::{
    WM_APP, WM_ENDSESSION, WM_LBUTTONDOWN, WM_LBUTTONUP, WM_PAINT, WM_RBUTTONUP,
};

const TASKBAR: u32 = 0xC123;

fn rect(left: i32, top: i32, right: i32, bottom: i32) -> Rect {
    Rect { left, top, right, bottom }
}

#[test]
fn popup_above_the_taskbar() {
    let p = popup_origin(rect(0, 0, 1920, 1040), rect(100, 50, 420, 510));
    assert_eq!(p, Point { x: 1920 - 320 - 12, y: 1040 - 460 - 12 });
    // A second screen to the left of the first.
    let p = popup_origin(rect(-1280, 0, 0, 984), rect(0, 0, 320, 460));
    assert_eq!(p, Point { x: -332, y: 512 });
}

#[test]
fn popup_out_of_range_wraps() {
    let p = popup_origin(rect(0, 0, i32::MIN, 0), rect(0, 0, 0, 0));
    assert_eq!(p, Point { x: i32::MIN.wrapping_sub(12), y: -12 });
    let p = popup_origin(rect(0, 0, 0, i32::MAX), rect(i32::MIN, i32::MAX, i32::MAX, i32::MIN));
    let w = i32::MAX.wrapping_sub(i32::MIN);
    let h = i32::MIN.wrapping_sub(i32::MAX);
    assert_eq!(p.x, 0i32.wrapping_sub(w).wrapping_sub(12));
    assert_eq!(p.y, i32::MAX.wrapping_sub(h).wrapping_sub(12));
}

#[test]
fn messages() {
    let tray_msg = WM_APP + 1;
    assert_eq!(wm_tray(), tray_msg);
    assert_eq!(on_msg(WM_ENDSESSION, 1, 0, TASKBAR), MessageAction::Quit);
    assert_eq!(on_msg(WM_ENDSESSION, 0, 0, TASKBAR), MessageAction::Pass);
    assert_eq!(on_msg(TASKBAR, 0, 0, TASKBAR), MessageAction::RestoreIcon);
    assert_eq!(on_msg(tray_msg, 1, WM_LBUTTONUP as isize, TASKBAR), MessageAction::IconClick);
    assert_eq!(on_msg(tray_msg, 1, WM_RBUTTONUP as isize, TASKBAR), MessageAction::IconMenu);
    assert_eq!(on_msg(tray_msg, 1, WM_LBUTTONDOWN as isize, TASKBAR), MessageAction::Pass);
    assert_eq!(on_msg(WM_APP, 1, WM_LBUTTONUP as isize, TASKBAR), MessageAction::Pass);
    assert_eq!(on_msg(WM_PAINT, 0, 0, TASKBAR), MessageAction::Pass);
}

#[test]
fn only_the_low_word_counts() {
    let lp = WM_LBUTTONUP as isize;
    assert_eq!(on_msg(wm_tray(), 0, lp + 0x7_0000, TASKBAR), MessageAction::IconClick);
    assert_eq!(on_msg(wm_tray(), 0, lp - 0x1_0000, TASKBAR), MessageAction::IconClick);
    assert_eq!(on_msg(wm_tray(), 0, -1, TASKBAR), MessageAction::Pass);
}

#[test]
fn taskbar_message_goes_before_the_tray() {
    // The end of the session goes before both.
    assert_eq!(on_msg(wm_tray(), 0, WM_LBUTTONUP as isize, wm_tray()), MessageAction::RestoreIcon);
    assert_eq!(on_msg(WM_ENDSESSION, 1, 0, WM_ENDSESSION), MessageAction::Quit);
    assert_eq!(on_msg(WM_ENDSESSION, 0, 0, WM_ENDSESSION), MessageAction::RestoreIcon);
}

#[test]
fn icon_clicks() {
    assert_eq!(icon_click(true, 0), ClickAction::Hide);
    assert_eq!(icon_click(true, u128::MAX), ClickAction::Hide);
    assert_eq!(icon_click(false, 0), ClickAction::Nothing);
    assert_eq!(icon_click(false, 400_000_000), ClickAction::Nothing);
    assert_eq!(icon_click(false, 400_000_001), ClickAction::Show);
    assert_eq!(icon_click(false, HIDDEN_AT_START), ClickAction::Show);
    assert_eq!(REOPEN_DELAY, std::time::Duration::from_millis(400).as_nanos());
    assert_eq!(HIDDEN_AT_START, std::time::Duration::from_secs(10).as_nanos());
}

#[test]
fn tray_menu_choice() {
    assert!(menu_quits(1));
    assert!(!menu_quits(0));
    assert!(!menu_quits(2));
    assert_eq!(MENU_EXIT, 1);
    assert_eq!(MENU_EXIT_LABEL, "退出");
}

#[test]
fn tray_icon_and_tip() {
    for (on, text) in [(false, "Sidegate: 未连接"), (true, "Sidegate: 已连接")] {
        let t = tray(on);
        assert_eq!(t.icon, on as usize);
        let n = t.tip.iter().position(|&u| u == 0).unwrap();
        assert_eq!(String::from_utf16(&t.tip[..n]).unwrap(), text);
        assert!(t.tip[n..].iter().all(|&u| u == 0));
    }
}

#[test]
fn long_tip_is_cut_off() {
    let tip = tip_buffer(&"x".repeat(200));
    assert_eq!(tip, ['x' as u16; 128]);
    assert_eq!(tip_buffer(""), [0u16; 128]);
}

#[test]
fn quitting() {
    assert!(quit_waits(false, 0));
    assert!(quit_waits(false, 4_999_999_999));
    assert!(!quit_waits(false, 5_000_000_000));
    assert!(!quit_waits(true, 0));
    assert_eq!(QUIT_PATIENCE, std::time::Duration::from_secs(5).as_nanos());
    // A core that never exits is given up on.
    let mut looks = 0;
    while quit_waits(false, looks * (QUIT_POLL as u128) * 1_000_000) {
        looks += 1;
    }
    assert_eq!(looks, 100);
}
