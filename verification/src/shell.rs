//! The popup among the windows and tray icons of the desktop: where it appears, and what clicks,
//! window messages and the end of the session lead to.
use crate::utf16::{encode, encode_utf16, law_terminator_is_first_zero, lemma_encode_len};
use vstd::prelude::*;

verus! {

// ---------- placing the popup ----------

/// Pixels left free between the popup and the edges of the work area.
pub const MARGIN: i32 = 12;

/// A rectangle of screen pixels.
#[derive(Clone, Copy, Debug, PartialEq, Eq, Structural)]
pub struct Rect {
    pub left: i32,
    pub top: i32,
    pub right: i32,
    pub bottom: i32,
}

/// A screen pixel.
#[derive(Clone, Copy, Debug, PartialEq, Eq, Structural)]
pub struct Point {
    pub x: i32,
    pub y: i32,
}

/// A number taken into the range of `i32` by adding or subtracting multiples of 2^32.
pub open spec fn wrap(v: int) -> int {
    (v + 0x8000_0000) % 0x1_0000_0000 - 0x8000_0000
}

/// The upper left corner that puts the window just above the taskbar, at the bottom right of the
/// work area. Coordinates out of range wrap around.
pub fn popup_origin(work: Rect, window: Rect) -> (p: Point)
    ensures
        p.x == wrap(work.right - (window.right - window.left) - MARGIN),
        p.y == wrap(work.bottom - (window.bottom - window.top) - MARGIN),
{
    let w: i32 = window.right.wrapping_sub(window.left);
    let h: i32 = window.bottom.wrapping_sub(window.top);
    Point {
        x: work.right.wrapping_sub(w).wrapping_sub(MARGIN),
        y: work.bottom.wrapping_sub(h).wrapping_sub(MARGIN),
    }
}

/// Placed there, the window ends `MARGIN` pixels before the right and the bottom edge of the
/// work area; and it lies inside the work area whenever it fits there with its margin.
pub proof fn law_popup_in_corner(work: Rect, window: Rect)
    requires
        i32::MIN <= work.right - (window.right - window.left) - MARGIN <= i32::MAX,
        i32::MIN <= work.bottom - (window.bottom - window.top) - MARGIN <= i32::MAX,
    ensures
        ({
            let (w, h) = (window.right - window.left, window.bottom - window.top);
            let (x, y) = (wrap(work.right - w - MARGIN), wrap(work.bottom - h - MARGIN));
            &&& x + w + MARGIN == work.right
            &&& y + h + MARGIN == work.bottom
            &&& w + MARGIN <= work.right - work.left ==> work.left <= x
            &&& h + MARGIN <= work.bottom - work.top ==> work.top <= y
        }),
{
}

// ---------- window messages ----------

/// The session is ending.
pub const ENDSESSION: u32 = 0x0016;

/// The first message number free for an application's own use.
pub const APP: u32 = 0x8000;

/// The left mouse button was released.
pub const LBUTTONUP: u32 = 0x0202;

/// The right mouse button was released.
pub const RBUTTONUP: u32 = 0x0205;

/// The message by which the tray icon reports the mouse.
pub const TRAY: u32 = 0x8001;

/// `windows_sys`'s constant `WM_ENDSESSION`, whose value is 0x0016.
#[verifier::external_body]
fn wm_endsession() -> (m: u32)
    ensures
        m == ENDSESSION,
{
    windows_sys::Win32::UI::WindowsAndMessaging::WM_ENDSESSION
}

/// `windows_sys`'s constant `WM_APP`, whose value is 0x8000.
#[verifier::external_body]
fn wm_app() -> (m: u32)
    ensures
        m == APP,
{
    windows_sys::Win32::UI::WindowsAndMessaging::WM_APP
}

/// `windows_sys`'s constant `WM_LBUTTONUP`, whose value is 0x0202.
#[verifier::external_body]
fn wm_lbuttonup() -> (m: u32)
    ensures
        m == LBUTTONUP,
{
    windows_sys::Win32::UI::WindowsAndMessaging::WM_LBUTTONUP
}

/// `windows_sys`'s constant `WM_RBUTTONUP`, whose value is 0x0205.
#[verifier::external_body]
fn wm_rbuttonup() -> (m: u32)
    ensures
        m == RBUTTONUP,
{
    windows_sys::Win32::UI::WindowsAndMessaging::WM_RBUTTONUP
}

/// What a window message asks for, before the default handler sees it.
#[derive(Clone, Copy, Debug, PartialEq, Eq, Structural)]
pub enum MessageAction {
    /// The user is logging off: quit while there is time.
    Quit,
    /// The taskbar was made anew and has lost our icon: add it again.
    RestoreIcon,
    /// The tray icon was clicked.
    IconClick,
    /// The tray icon was clicked with the right button: open its menu.
    IconMenu,
    /// Nothing.
    Pass,
}

/// The low word of a message parameter.
pub open spec fn low_word(lp: isize) -> int {
    lp as int % 0x1_0000
}

/// What the message `msg` with parameters `wp` and `lp` asks for, where `taskbar_created` is the
/// number that the desktop gave to the message of that name.
pub open spec fn message_action(
    msg: u32,
    wp: usize,
    lp: isize,
    taskbar_created: u32,
) -> MessageAction {
    if msg == ENDSESSION && wp != 0 {
        MessageAction::Quit
    } else if msg == taskbar_created {
        MessageAction::RestoreIcon
    } else if msg == TRAY && low_word(lp) == LBUTTONUP {
        MessageAction::IconClick
    } else if msg == TRAY && low_word(lp) == RBUTTONUP {
        MessageAction::IconMenu
    } else {
        MessageAction::Pass
    }
}

/// The message by which the tray icon is to report the mouse.
pub fn wm_tray() -> (m: u32)
    ensures
        m == TRAY,
{
    wm_app() + 1
}

/// Decides what a window message asks for.
pub fn on_msg(msg: u32, wp: usize, lp: isize, taskbar_created: u32) -> (a: MessageAction)
    ensures
        a == message_action(msg, wp, lp, taskbar_created),
{
    if msg == wm_endsession() && wp != 0 {
        MessageAction::Quit
    } else if msg == taskbar_created {
        MessageAction::RestoreIcon
    } else if msg == wm_tray() {
        let code: u32 = #[verifier::truncate] (lp as u32) & 0xFFFF;
        assert(code == lp as int % 0x1_0000) by {
            assert((lp as u32) & 0xFFFF == lp % 0x1_0000isize) by (bit_vector);
        }
        if code == wm_lbuttonup() {
            MessageAction::IconClick
        } else if code == wm_rbuttonup() {
            MessageAction::IconMenu
        } else {
            MessageAction::Pass
        }
    } else {
        MessageAction::Pass
    }
}

/// Logging off always quits, whatever number the taskbar's message has, and no other message
/// does; the tray icon's clicks come by its own message alone.
pub proof fn law_messages(msg: u32, wp: usize, lp: isize, taskbar_created: u32)
    ensures
        message_action(msg, wp, lp, taskbar_created) is Quit <==> msg == ENDSESSION && wp != 0,
        message_action(msg, wp, lp, taskbar_created) is IconClick || message_action(
            msg,
            wp,
            lp,
            taskbar_created,
        ) is IconMenu ==> msg == TRAY,
{
}

// ---------- clicks on the tray icon ----------

/// Nanoseconds after hiding in which a click on the tray icon does not show the popup again.
pub const REOPEN_DELAY: u128 = 400_000_000;

/// How long ago, in nanoseconds, the popup counts as hidden when the program starts.
pub const HIDDEN_AT_START: u128 = 10_000_000_000;

/// What a click on the tray icon leads to.
#[derive(Clone, Copy, Debug, PartialEq, Eq, Structural)]
pub enum ClickAction {
    Hide,
    /// Show the popup and draw it.
    Show,
    Nothing,
}

/// A click hides a visible popup and shows a hidden one, unless the popup was hidden only just
/// now: the click itself takes the focus away, which hides it.
pub open spec fn click_action(visible: bool, since_hide: int) -> ClickAction {
    if visible {
        ClickAction::Hide
    } else if since_hide > REOPEN_DELAY {
        ClickAction::Show
    } else {
        ClickAction::Nothing
    }
}

/// Decides what a click on the tray icon leads to, `since_hide` nanoseconds after the popup last
/// lost the focus and was hidden.
pub fn icon_click(visible: bool, since_hide: u128) -> (a: ClickAction)
    ensures
        a == click_action(visible, since_hide as int),
{
    if visible {
        ClickAction::Hide
    } else if since_hide > REOPEN_DELAY {
        ClickAction::Show
    } else {
        ClickAction::Nothing
    }
}

/// From the first moment on, a click on the icon of a hidden popup shows it; afterwards the popup
/// stays hidden for clicks up to `REOPEN_DELAY` after it was hidden, and shows for later ones.
pub proof fn law_reopening(since_start: nat, hidden_at: int, clicked_at: int)
    ensures
        click_action(false, HIDDEN_AT_START + since_start) is Show,
        click_action(false, clicked_at - hidden_at) is Nothing <==> clicked_at <= hidden_at
            + REOPEN_DELAY,
        click_action(false, clicked_at - hidden_at) is Show <==> clicked_at > hidden_at
            + REOPEN_DELAY,
{
}

/// The number of the only item of the tray icon's menu.
pub const MENU_EXIT: i32 = 1;

/// The label of the only item of the tray icon's menu.
pub const MENU_EXIT_LABEL: &'static str = "退出";

/// Whether the choice from the tray icon's menu is to quit; 0 means that nothing was chosen.
pub fn menu_quits(choice: i32) -> (quit: bool)
    ensures
        quit == (choice == MENU_EXIT),
{
    choice == MENU_EXIT
}

// ---------- the tray icon ----------

/// Code units in the tray icon's tooltip.
pub const TIP_UNITS: usize = 128;

/// What the tray icon looks like.
pub struct TrayIcon {
    /// Which of the two icons: 0 for off, 1 for on.
    pub icon: usize,
    /// The tooltip, filled up with zeros.
    pub tip: [u16; 128],
}

/// The text of the tooltip.
pub open spec fn tip_text(on: bool) -> Seq<char> {
    if on {
        "Sidegate: 已连接"@
    } else {
        "Sidegate: 未连接"@
    }
}

/// A text in a fixed number of code units: cut off or filled up with zeros.
pub open spec fn tip_units(text: Seq<char>) -> Seq<u16> {
    let w = encode(text);
    Seq::new(
        TIP_UNITS as nat,
        |i: int|
            if i < w.len() {
                w[i]
            } else {
                0
            },
    )
}

/// Puts a text into a tooltip.
pub fn tip_buffer(text: &str) -> (tip: [u16; 128])
    ensures
        tip@ == tip_units(text@),
{
    let w: Vec<u16> = encode_utf16(text);
    let mut tip: [u16; 128] = [0;128];
    let mut i: usize = 0;
    while i < TIP_UNITS && i < w.len()
        invariant
            i <= TIP_UNITS,
            i <= w@.len(),
            tip@.len() == TIP_UNITS,
            forall|j: int| 0 <= j < i ==> tip@[j] == w@[j],
            forall|j: int| i <= j < TIP_UNITS ==> tip@[j] == 0,
        decreases TIP_UNITS - i,
    {
        tip[i] = w[i];
        i = i + 1;
    }
    assert(tip@ == tip_units(text@));
    tip
}

/// The tray icon for a connection that is up or not.
pub fn tray(on: bool) -> (t: TrayIcon)
    ensures
        t.icon == (if on {
            1int
        } else {
            0int
        }),
        t.tip@ == tip_units(tip_text(on)),
{
    if on {
        TrayIcon { icon: 1, tip: tip_buffer("Sidegate: 已连接") }
    } else {
        TrayIcon { icon: 0, tip: tip_buffer("Sidegate: 未连接") }
    }
}

/// The tooltip fits: it holds the whole text, then zeros, and no zero before.
pub proof fn law_tip_fits(on: bool)
    ensures
        ({
            let n = encode(tip_text(on)).len() as int;
            &&& 0 < n < TIP_UNITS
            &&& tip_units(tip_text(on)).take(n) == encode(tip_text(on))
            &&& !tip_units(tip_text(on)).take(n).contains(0)
            &&& forall|i: int| n <= i < TIP_UNITS ==> #[trigger] tip_units(tip_text(on))[i] == 0
        }),
{
    reveal_strlit("Sidegate: 已连接");
    reveal_strlit("Sidegate: 未连接");
    let text = tip_text(on);
    lemma_encode_len(text);
    law_terminator_is_first_zero(text);
    assert(tip_units(text).take(encode(text).len() as int) == encode(text));
}

// ---------- quitting ----------

/// Nanoseconds that the program waits for the core to tear down.
pub const QUIT_PATIENCE: u128 = 5_000_000_000;

/// Milliseconds between two looks at whether the core is done.
pub const QUIT_POLL: u64 = 50;

/// Whether to go on waiting for the core: as long as it has not exited and the time is not up.
pub open spec fn still_waiting(exited: bool, waited: int) -> bool {
    !exited && waited < QUIT_PATIENCE
}

/// Decides whether to wait another `QUIT_POLL` for the core, `waited` nanoseconds after it was
/// told to quit.
pub fn quit_waits(exited: bool, waited: u128) -> (wait: bool)
    ensures
        wait == still_waiting(exited, waited as int),
{
    !exited && waited < QUIT_PATIENCE
}

/// Quitting never hangs: with at least `QUIT_POLL` between two looks, a core that does not exit
/// is waited for at most a hundred times.
pub proof fn law_quit_ends(looks: nat, waited: int)
    requires
        waited >= looks * QUIT_POLL * 1_000_000,
        still_waiting(false, waited),
    ensures
        looks < 100,
{
}

// ---------- what the functions give, for every input ----------

/// The popup's corner is 12 pixels and the window's size away from the lower right corner of the
/// work area, wherever the window was before; beyond the range of `i32` it differs from that by a
/// multiple of 2^32.
pub proof fn law_popup_position(work: Rect, window: Rect, p: Point)
    requires
        call_ensures(popup_origin, (work, window), p),
    ensures
        ({
            let x = work.right - (window.right - window.left) - 12;
            let y = work.bottom - (window.bottom - window.top) - 12;
            &&& -0x8000_0000 <= x <= 0x7FFF_FFFF ==> p.x == x
            &&& -0x8000_0000 <= y <= 0x7FFF_FFFF ==> p.y == y
            &&& (p.x - x) % 0x1_0000_0000 == 0
            &&& (p.y - y) % 0x1_0000_0000 == 0
        }),
{
}

/// Each message leads to what its number and its parameters say: logging off, the taskbar's new
/// start, and the tray icon's clicks by the low word of the second parameter.
pub proof fn law_message_meaning(
    msg: u32,
    wp: usize,
    lp: isize,
    taskbar_created: u32,
    a: MessageAction,
)
    requires
        call_ensures(on_msg, (msg, wp, lp, taskbar_created), a),
    ensures
        ({
            let logging_off = msg == 0x16 && wp != 0;
            let taskbar = !logging_off && msg == taskbar_created;
            let tray = !taskbar && msg == 0x8001;
            let code = lp as int % 0x1_0000;
            &&& a is Quit <==> logging_off
            &&& a is RestoreIcon <==> taskbar
            &&& a is IconClick <==> tray && code == 0x202
            &&& a is IconMenu <==> tray && code == 0x205
        }),
{
}

/// A click always hides a visible popup; a hidden one it shows from 400 ms after the hiding on,
/// not counting that very moment.
pub proof fn law_click_meaning(visible: bool, since_hide: u128, a: ClickAction)
    requires
        call_ensures(icon_click, (visible, since_hide), a),
    ensures
        a is Hide <==> visible,
        a is Show <==> !visible && since_hide > 400_000_000,
        a is Nothing <==> !visible && since_hide <= 400_000_000,
{
}

/// Of all choices from the tray icon's menu only its one item quits.
pub proof fn law_menu_choice(choice: i32, quit: bool)
    requires
        call_ensures(menu_quits, (choice,), quit),
    ensures
        quit <==> choice == 1,
{
}

/// The program waits exactly while the core has not exited and five seconds are not over.
pub proof fn law_quit_waits(exited: bool, waited: u128, wait: bool)
    requires
        call_ensures(quit_waits, (exited, waited), wait),
    ensures
        wait <==> !exited && waited < 5_000_000_000,
{
}

/// A tooltip starts with the code units of its text, as many as it has room for, and is zero
/// from there on.
pub proof fn law_tip_holds_text(text: &str, units: Vec<u16>, tip: [u16; 128], i: int)
    requires
        call_ensures(encode_utf16, (text,), units),
        call_ensures(tip_buffer, (text,), tip),
        0 <= i < 128,
    ensures
        tip@.len() == 128,
        i < units@.len() ==> tip@[i] == units@[i],
        i >= units@.len() ==> tip@[i] == 0,
{
}

/// The tray icon is the second one with the tooltip of a connection, or the first with that of
/// none.
pub proof fn law_tray_look(
    on: bool,
    t: TrayIcon,
    connected: [u16; 128],
    not_connected: [u16; 128],
)
    requires
        call_ensures(tray, (on,), t),
        call_ensures(tip_buffer, ("Sidegate: 已连接",), connected),
        call_ensures(tip_buffer, ("Sidegate: 未连接",), not_connected),
    ensures
        on ==> t.icon == 1 && t.tip@ == connected@,
        !on ==> t.icon == 0 && t.tip@ == not_connected@,
{
}

} // verus!
