//! What the popup shows and does in each state of the connection.
use crate::protocol::{Command, St, StView};
use crate::text::{same, trim, trimmed};
use vstd::prelude::*;

verus! {

// ---------- which page ----------

/// The pages of the popup.
#[derive(Clone, Copy, Debug, PartialEq, Eq, Structural)]
pub enum Page {
    /// Asks for the portal address.
    Setup,
    /// Waits for the login in the browser, or for the first connection.
    Auth,
    /// A spinner, until the core reports.
    Starting,
    /// The switch.
    Main,
}

/// The page for a status. A first login has no account yet: it stays on the authentication page
/// until the tunnel is up.
pub open spec fn page_of(st: StView) -> Page {
    if st.state == "setup"@ {
        Page::Setup
    } else if st.state == "login"@ {
        Page::Auth
    } else if st.state == "connecting"@ && st.user.len() == 0 {
        Page::Auth
    } else if st.state == "starting"@ {
        Page::Starting
    } else {
        Page::Main
    }
}

/// Chooses the page for a status.
pub fn page(st: &St) -> (p: Page)
    ensures
        p == page_of(st@),
{
    if same(&st.state, "setup") {
        Page::Setup
    } else if same(&st.state, "login") {
        Page::Auth
    } else if same(&st.state, "connecting") && st.user.as_str().is_empty() {
        Page::Auth
    } else if same(&st.state, "starting") {
        Page::Starting
    } else {
        Page::Main
    }
}

// ---------- header ----------

/// An item of the menu in the header.
#[derive(Clone, Copy, Debug, PartialEq, Eq, Structural)]
pub enum MenuItem {
    Logout,
    Exit,
}

/// The items of the menu: logging out is offered once there is an account.
pub open spec fn menu_of(st: StView) -> Seq<MenuItem> {
    if st.user.len() == 0 {
        seq![MenuItem::Exit]
    } else {
        seq![MenuItem::Logout, MenuItem::Exit]
    }
}

/// Lists the items of the menu, top to bottom.
pub fn header_menu(st: &St) -> (items: Vec<MenuItem>)
    ensures
        items@ == menu_of(st@),
{
    let mut items: Vec<MenuItem> = Vec::new();
    if !st.user.as_str().is_empty() {
        items.push(MenuItem::Logout);
    }
    items.push(MenuItem::Exit);
    items
}

impl MenuItem {
    /// The text of an item.
    pub open spec fn text(self) -> Seq<char> {
        match self {
            MenuItem::Logout => "退出登录"@,
            MenuItem::Exit => "退出程序"@,
        }
    }

    /// Gives the text of the item.
    pub fn label(&self) -> (text: String)
        ensures
            text@ == self.text(),
    {
        match self {
            MenuItem::Logout => "退出登录".to_owned(),
            MenuItem::Exit => "退出程序".to_owned(),
        }
    }

    /// What a click on the item sends to the core.
    pub fn command(&self) -> (c: Command)
        ensures
            c == (match *self {
                MenuItem::Logout => Command::Logout,
                MenuItem::Exit => Command::Quit,
            }),
    {
        match self {
            MenuItem::Logout => Command::Logout,
            MenuItem::Exit => Command::Quit,
        }
    }
}

// ---------- the window's own state ----------

/// What the popup remembers from frame to frame.
pub struct App {
    /// Whether the window had the focus in the last frame.
    pub was_focused: bool,
    /// The text in the address field.
    pub input: String,
    /// Whether the glyphs of the status texts are prepared.
    pub warmed: bool,
}

/// What to do outside the popup after a frame.
#[derive(Clone, Copy, Debug, PartialEq, Eq, Structural)]
pub struct LogicStep {
    /// Hide the popup and note the time.
    pub hide: bool,
    /// Whether the tray icon is to show a connection.
    pub on: bool,
    /// Whether the tray icon has to change for that.
    pub modify: bool,
}

/// Whether the connection is up.
pub open spec fn is_on(st: StView) -> bool {
    st.state == "on"@
}

/// Whether the window has the focus, where `None` stands for unknown.
pub open spec fn has_focus(focused: Option<bool>) -> bool {
    focused == Some(true)
}

/// The popup hides when the window had the focus and has it no more.
pub open spec fn hides(was_focused: bool, focused: Option<bool>) -> bool {
    was_focused && !has_focus(focused)
}

/// What one frame leads to, for a popup that remembers `was_focused` and a tray icon that shows
/// `shown_on`.
pub open spec fn logic_step(
    was_focused: bool,
    focused: Option<bool>,
    st: StView,
    shown_on: bool,
) -> LogicStep {
    LogicStep {
        hide: hides(was_focused, focused),
        on: is_on(st),
        modify: shown_on != is_on(st),
    }
}

impl App {
    /// A popup that was not drawn yet.
    pub fn new() -> (app: App)
        ensures
            !app.was_focused,
            app.input@ == ""@,
            !app.warmed,
    {
        proof {
            reveal_strlit("");
        }
        App { was_focused: false, input: String::new(), warmed: false }
    }

    /// Runs once a frame, even while the popup is hidden: the popup hides when it loses the
    /// focus, and the tray icon, which shows `shown_on`, follows the connection.
    pub fn logic(&mut self, focused: Option<bool>, st: &St, shown_on: bool) -> (step: LogicStep)
        ensures
            final(self).was_focused == has_focus(focused),
            final(self).input == old(self).input,
            final(self).warmed == old(self).warmed,
            step == logic_step(old(self).was_focused, focused, st@, shown_on),
    {
        let focused: bool = match focused {
            Some(f) => f,
            None => false,
        };
        let hide: bool = self.was_focused && !focused;
        self.was_focused = focused;
        let on: bool = same(&st.state, "on");
        LogicStep { hide, on, modify: shown_on != on }
    }

    /// Whether this frame is to prepare the glyphs of `WARM_TEXT`: the first one only.
    pub fn warm_up(&mut self) -> (now: bool)
        ensures
            now == !old(self).warmed,
            final(self).warmed,
            final(self).was_focused == old(self).was_focused,
            final(self).input == old(self).input,
    {
        let now: bool = !self.warmed;
        self.warmed = true;
        now
    }

    // ---------- setup page ----------

    /// Fills an empty address field with the address that the core knows.
    pub fn prefill(&mut self, st: &St)
        ensures
            final(self).input@ == (if old(self).input@.len() == 0 {
                st@.endpoint
            } else {
                old(self).input@
            }),
            final(self).was_focused == old(self).was_focused,
            final(self).warmed == old(self).warmed,
    {
        if self.input.as_str().is_empty() {
            self.input = st.endpoint.clone();
        }
    }

    /// What the setup page sends: the trimmed address, on a click of its button or when the
    /// address field is left with the enter key.
    pub fn submit(&self, clicked: bool, lost_focus: bool, enter: bool) -> (c: Option<Command>)
        ensures
            c is Some <==> clicked || (lost_focus && enter),
            c is Some ==> c->0 is Setup && c->0->Setup_0@ == trimmed(self.input@),
    {
        if clicked || (lost_focus && enter) {
            Some(Command::Setup(trim(self.input.as_str())))
        } else {
            None
        }
    }
}

/// The headline of the setup page.
pub const SETUP_TITLE: &'static str = "连接到 GlobalProtect";

/// The line below the headline of the setup page.
pub const SETUP_SUB: &'static str = "输入学校或公司提供的门户地址";

/// What an empty address field shows.
pub const SETUP_HINT: &'static str = "vpn.example.edu";

/// The label of the setup page's button.
pub const CONTINUE_LABEL: &'static str = "继续";

/// A message, if there is one.
pub open spec fn note(msg: Seq<char>) -> Option<Seq<char>> {
    if msg.len() == 0 {
        None
    } else {
        Some(msg)
    }
}

/// The banner under the address field: the core's message, if there is one.
pub fn setup_banner(st: &St) -> (b: Option<String>)
    ensures
        b.deep_view() == note(st@.msg),
{
    if st.msg.as_str().is_empty() {
        None
    } else {
        Some(st.msg.clone())
    }
}

// ---------- authentication page ----------

/// The texts of the authentication page.
pub struct AuthPage {
    pub title: String,
    pub sub: String,
    pub endpoint: String,
}

/// The headline of the authentication page.
pub open spec fn auth_title(st: StView) -> Seq<char> {
    if st.state == "login"@ {
        "等待认证"@
    } else {
        "正在连接"@
    }
}

/// The line below the headline of the authentication page.
pub open spec fn auth_sub(st: StView) -> Seq<char> {
    if st.state == "login"@ {
        "已在浏览器中打开登录页面\n完成登录后将自动连接"@
    } else {
        "正在建立安全连接…"@
    }
}

/// The authentication page: the browser has the login page, or the first connection is under
/// way.
pub fn auth_page(st: &St) -> (p: AuthPage)
    ensures
        p.title@ == auth_title(st@),
        p.sub@ == auth_sub(st@),
        p.endpoint@ == st@.endpoint,
{
    if same(&st.state, "login") {
        AuthPage {
            title: "等待认证".to_owned(),
            sub: "已在浏览器中打开登录页面\n完成登录后将自动连接".to_owned(),
            endpoint: st.endpoint.clone(),
        }
    } else {
        AuthPage {
            title: "正在连接".to_owned(),
            sub: "正在建立安全连接…".to_owned(),
            endpoint: st.endpoint.clone(),
        }
    }
}

/// The label of the authentication page's button.
pub const CANCEL_LABEL: &'static str = "取消";

/// What the cancel button of the authentication page sends.
pub fn cancel() -> (c: Command)
    ensures
        c == Command::Disconnect,
{
    Command::Disconnect
}

// ---------- main page ----------

/// A labelled value on the main page.
pub struct InfoRow {
    pub label: String,
    pub value: String,
}

/// The main page.
pub struct MainPage {
    /// Whether the switch is on.
    pub on: bool,
    /// Whether a connection is being made.
    pub busy: bool,
    pub title: String,
    pub sub: String,
    /// Whether the headline stands out.
    pub accent: bool,
    /// The error banner.
    pub banner: Option<String>,
    pub rows: Vec<InfoRow>,
}

/// The switch is on in every state but `off`.
pub open spec fn switch_on(st: StView) -> bool {
    st.state != "off"@
}

/// A login or a connection is under way.
pub open spec fn is_busy(st: StView) -> bool {
    st.state == "login"@ || st.state == "connecting"@
}

/// The headline of the main page.
pub open spec fn main_title(st: StView) -> Seq<char> {
    if st.state == "on"@ {
        "已连接"@
    } else if st.state == "connecting"@ {
        "正在连接"@
    } else {
        "未连接"@
    }
}

/// The line below the headline of the main page; while connecting, the core's message.
pub open spec fn main_sub(st: StView) -> Seq<char> {
    if st.state == "on"@ {
        "流量正经由安全隧道传输"@
    } else if st.state == "connecting"@ {
        if st.msg.len() == 0 {
            "请稍候…"@
        } else {
            st.msg
        }
    } else {
        "点击开关以连接"@
    }
}

/// The error banner: the core's message while the connection is off.
pub open spec fn main_banner(st: StView) -> Option<Seq<char>> {
    if st.state == "off"@ {
        note(st.msg)
    } else {
        None
    }
}

/// A value as shown: a dash for an empty one.
pub open spec fn shown(value: Seq<char>) -> Seq<char> {
    if value.len() == 0 {
        "—"@
    } else {
        value
    }
}

/// The labels and values at the bottom of the main page.
pub open spec fn info_of(st: StView) -> Seq<(Seq<char>, Seq<char>)> {
    seq![
        ("账户"@, shown(st.user)),
        ("网关"@, shown(st.endpoint)),
        ("内网 IP"@, shown(st.ip)),
        ("代理"@, "HTTP :10809 · SOCKS5 :10808"@),
    ]
}

/// The texts of rows.
pub open spec fn row_texts(rows: Seq<InfoRow>) -> Seq<(Seq<char>, Seq<char>)> {
    rows.map_values(|r: InfoRow| (r.label@, r.value@))
}

/// A row with a dash in place of an empty value.
pub fn info_row(label: &str, value: &str) -> (r: InfoRow)
    ensures
        r.label@ == label@,
        r.value@ == shown(value@),
{
    if value.is_empty() {
        InfoRow { label: label.to_owned(), value: "—".to_owned() }
    } else {
        InfoRow { label: label.to_owned(), value: value.to_owned() }
    }
}

/// The rows at the bottom of the main page.
pub fn info_rows(st: &St) -> (rows: Vec<InfoRow>)
    ensures
        row_texts(rows@) == info_of(st@),
{
    proof {
        reveal_strlit("HTTP :10809 · SOCKS5 :10808");
    }
    let mut rows: Vec<InfoRow> = Vec::new();
    rows.push(info_row("账户", st.user.as_str()));
    rows.push(info_row("网关", st.endpoint.as_str()));
    rows.push(info_row("内网 IP", st.ip.as_str()));
    rows.push(info_row("代理", "HTTP :10809 · SOCKS5 :10808"));
    assert(row_texts(rows@) == info_of(st@));
    rows
}

/// The main page for a status.
pub fn main_page(st: &St) -> (p: MainPage)
    ensures
        p.on == switch_on(st@),
        p.busy == is_busy(st@),
        p.title@ == main_title(st@),
        p.sub@ == main_sub(st@),
        p.accent == is_on(st@),
        p.banner.deep_view() == main_banner(st@),
        row_texts(p.rows@) == info_of(st@),
{
    let on: bool = same(&st.state, "on");
    let off: bool = same(&st.state, "off");
    let connecting: bool = same(&st.state, "connecting");
    let busy: bool = connecting || same(&st.state, "login");
    let (title, sub): (String, String) = if on {
        ("已连接".to_owned(), "流量正经由安全隧道传输".to_owned())
    } else if connecting {
        (
            "正在连接".to_owned(),
            if st.msg.as_str().is_empty() {
                "请稍候…".to_owned()
            } else {
                st.msg.clone()
            },
        )
    } else {
        ("未连接".to_owned(), "点击开关以连接".to_owned())
    };
    let banner: Option<String> = if off && !st.msg.as_str().is_empty() {
        Some(st.msg.clone())
    } else {
        None
    };
    MainPage { on: !off, busy, title, sub, accent: on, banner, rows: info_rows(st) }
}

/// What a click on the switch sends.
pub fn toggle(st: &St) -> (c: Command)
    ensures
        c == (if switch_on(st@) {
            Command::Disconnect
        } else {
            Command::Connect
        }),
{
    if same(&st.state, "off") {
        Command::Connect
    } else {
        Command::Disconnect
    }
}

// ---------- glyphs ----------

/// The characters whose glyphs are prepared in the first frame, so that a change of state does
/// not have to wait for them.
pub const WARM_TEXT: &'static str = "已连接未正在连接等待认证准备登录点击开关以流量经由安全隧道传输请稍候…在浏览器中完成已打开页面后将自动建立                        会话过期重新退出程序账户网关内网代理取消继续输入学校或公司提供的门户地址到";

/// Whether the glyph of every character beyond ASCII is prepared.
pub open spec fn is_warm(text: Seq<char>) -> bool {
    forall|i: int|
        0 <= i < text.len() && text[i] as u32 >= 0x80 ==> WARM_TEXT@.contains(#[trigger] text[i])
}

/// Every headline and every line below one on the authentication and the main page, but for
/// messages of the core, is made of prepared glyphs.
pub proof fn law_status_texts_are_warm(st: StView)
    ensures
        is_warm(auth_title(st)),
        is_warm(auth_sub(st)),
        is_warm(main_title(st)),
        st.state == "connecting"@ && st.msg.len() > 0 || is_warm(main_sub(st)),
{
    reveal_strlit("已连接未正在连接等待认证准备登录点击开关以流量经由安全隧道传输请稍候…在浏览器中完成已打开页面后将自动建立                        会话过期重新退出程序账户网关内网代理取消继续输入学校或公司提供的门户地址到");
    reveal_strlit("等待认证");
    reveal_strlit("正在连接");
    reveal_strlit("已在浏览器中打开登录页面\n完成登录后将自动连接");
    reveal_strlit("正在建立安全连接…");
    reveal_strlit("已连接");
    reveal_strlit("未连接");
    reveal_strlit("流量正经由安全隧道传输");
    reveal_strlit("请稍候…");
    reveal_strlit("点击开关以连接");
    let w = WARM_TEXT@;
    assert(w[8] == '等');
    assert(w[9] == '待');
    assert(w[10] == '认');
    assert(w[11] == '证');
    assert(w[4] == '正');
    assert(w[5] == '在');
    assert(w[1] == '连');
    assert(w[2] == '接');
    assert(w[0] == '已');
    assert(w[36] == '浏');
    assert(w[37] == '览');
    assert(w[38] == '器');
    assert(w[39] == '中');
    assert(w[43] == '打');
    assert(w[18] == '开');
    assert(w[14] == '登');
    assert(w[15] == '录');
    assert(w[45] == '页');
    assert(w[46] == '面');
    assert(w[40] == '完');
    assert(w[41] == '成');
    assert(w[47] == '后');
    assert(w[48] == '将');
    assert(w[49] == '自');
    assert(w[50] == '动');
    assert(w[51] == '建');
    assert(w[52] == '立');
    assert(w[25] == '安');
    assert(w[26] == '全');
    assert(w[34] == '…');
    assert(w[3] == '未');
    assert(w[21] == '流');
    assert(w[22] == '量');
    assert(w[23] == '经');
    assert(w[24] == '由');
    assert(w[27] == '隧');
    assert(w[28] == '道');
    assert(w[29] == '传');
    assert(w[30] == '输');
    assert(w[31] == '请');
    assert(w[32] == '稍');
    assert(w[33] == '候');
    assert(w[16] == '点');
    assert(w[17] == '击');
    assert(w[19] == '关');
    assert(w[20] == '以');
}

/// The texts of the setup page, the labels of buttons and menu items and the labels on the main
/// page are made of prepared glyphs, too.
pub proof fn law_fixed_texts_are_warm(item: MenuItem, st: StView, row: int)
    requires
        0 <= row < info_of(st).len(),
    ensures
        is_warm(SETUP_TITLE@),
        is_warm(SETUP_SUB@),
        is_warm(SETUP_HINT@),
        is_warm(CONTINUE_LABEL@),
        is_warm(CANCEL_LABEL@),
        is_warm(item.text()),
        is_warm(info_of(st)[row].0),
{
    reveal_strlit("已连接未正在连接等待认证准备登录点击开关以流量经由安全隧道传输请稍候…在浏览器中完成已打开页面后将自动建立                        会话过期重新退出程序账户网关内网代理取消继续输入学校或公司提供的门户地址到");
    reveal_strlit("vpn.example.edu");
    reveal_strlit("连接到 GlobalProtect");
    reveal_strlit("输入学校或公司提供的门户地址");
    reveal_strlit("继续");
    reveal_strlit("取消");
    reveal_strlit("退出登录");
    reveal_strlit("退出程序");
    reveal_strlit("账户");
    reveal_strlit("网关");
    reveal_strlit("内网 IP");
    reveal_strlit("代理");
    let w = WARM_TEXT@;
    assert(w[1] == '连');
    assert(w[2] == '接');
    assert(w[113] == '到');
    assert(w[30] == '输');
    assert(w[100] == '入');
    assert(w[101] == '学');
    assert(w[102] == '校');
    assert(w[103] == '或');
    assert(w[104] == '公');
    assert(w[105] == '司');
    assert(w[106] == '提');
    assert(w[107] == '供');
    assert(w[108] == '的');
    assert(w[109] == '门');
    assert(w[88] == '户');
    assert(w[111] == '地');
    assert(w[112] == '址');
    assert(w[97] == '继');
    assert(w[98] == '续');
    assert(w[95] == '取');
    assert(w[96] == '消');
    assert(w[83] == '退');
    assert(w[84] == '出');
    assert(w[14] == '登');
    assert(w[15] == '录');
    assert(w[85] == '程');
    assert(w[86] == '序');
    assert(w[87] == '账');
    assert(w[89] == '网');
    assert(w[19] == '关');
    assert(w[91] == '内');
    assert(w[93] == '代');
    assert(w[94] == '理');
}

// ---------- laws ----------

/// Without an account, neither a login nor a connection under way ever leaves the authentication
/// page; and with or without one, a login is always there.
pub proof fn law_first_login_stays(st: StView)
    ensures
        is_busy(st) && st.user.len() == 0 ==> page_of(st) is Auth,
        st.state == "login"@ ==> page_of(st) is Auth,
{
    reveal_strlit("setup");
    reveal_strlit("login");
    reveal_strlit("connecting");
    assert("setup"@[0] != "login"@[0]);
    assert("setup"@.len() != "connecting"@.len());
}

/// On the main page the switch is busy exactly while an account is connecting, and the headline
/// then says so; it stands out and says connected exactly while the connection is up, which is
/// also when the tray icon shows a connection. No error banner stands beside a switch that is on.
pub proof fn law_main_page_agrees(st: StView)
    requires
        page_of(st) is Main,
    ensures
        is_busy(st) <==> main_title(st) == "正在连接"@,
        is_busy(st) ==> st.user.len() > 0,
        is_on(st) <==> main_title(st) == "已连接"@,
        is_on(st) ==> switch_on(st),
        switch_on(st) ==> main_banner(st) is None,
{
    reveal_strlit("on");
    reveal_strlit("off");
    reveal_strlit("connecting");
    reveal_strlit("已连接");
    reveal_strlit("正在连接");
    reveal_strlit("未连接");
    assert("on"@.len() != "off"@.len());
    assert("on"@.len() != "connecting"@.len());
    assert("已连接"@.len() != "正在连接"@.len());
    assert("未连接"@.len() != "正在连接"@.len());
    assert("未连接"@[0] != "已连接"@[0]);
}

/// Leaving the program is always on offer, as the last item; logging out exactly when there is
/// an account.
pub proof fn law_menu(st: StView)
    ensures
        menu_of(st).last() is Exit,
        menu_of(st).contains(MenuItem::Logout) <==> st.user.len() > 0,
{
    if st.user.len() > 0 {
        assert(menu_of(st)[0] is Logout);
    }
}

/// Whether the popup remembers the focus after these frames.
pub open spec fn remembered(frames: Seq<Option<bool>>) -> bool {
    frames.len() > 0 && has_focus(frames.last())
}

/// The popup hides in exactly those frames in which the focus is gone that was there in the frame
/// before: once for each loss.
pub proof fn law_hides_on_focus_loss(frames: Seq<Option<bool>>, k: int)
    requires
        0 <= k < frames.len(),
    ensures
        hides(remembered(frames.take(k)), frames[k]) <==> k > 0 && has_focus(frames[k - 1])
            && !has_focus(frames[k]),
        remembered(frames.take(k + 1)) == has_focus(frames[k]),
{
    assert(frames.take(k + 1).last() == frames[k]);
    if k > 0 {
        assert(frames.take(k).last() == frames[k - 1]);
    }
}

/// What the tray icon shows after a step: it changes in those steps that say so, and in no
/// others.
pub open spec fn shown_after(shown_on: bool, step: LogicStep) -> bool {
    if step.modify {
        step.on
    } else {
        shown_on
    }
}

/// After every frame the tray icon shows whether the connection is up, whatever it showed before.
pub proof fn law_icon_follows(
    was_focused: bool,
    focused: Option<bool>,
    st: StView,
    shown_on: bool,
)
    ensures
        shown_after(shown_on, logic_step(was_focused, focused, st, shown_on)) == is_on(st),
{
}

/// From one frame to the next the tray icon changes exactly when the connection went up or down.
pub proof fn law_icon_changes_with_connection(
    first: (bool, Option<bool>, StView),
    second: (bool, Option<bool>, StView),
    shown_on: bool,
)
    ensures
        ({
            let step = logic_step(first.0, first.1, first.2, shown_on);
            let next = logic_step(second.0, second.1, second.2, shown_after(shown_on, step));
            next.modify <==> is_on(first.2) != is_on(second.2)
        }),
{
}

// ---------- what the functions give, for every input ----------

/// The page depends on the state alone, and while connecting on whether there is an account.
pub proof fn law_page_of_every_status(st: St, p: Page)
    requires
        call_ensures(page, (&st,), p),
    ensures
        p is Setup <==> st.state@ == "setup"@,
        p is Auth <==> st.state@ == "login"@ || (st.state@ == "connecting"@ && st.user@.len()
            == 0),
        p is Starting <==> st.state@ == "starting"@,
        p is Main <==> !(p is Setup) && !(p is Auth) && !(p is Starting),
{
    reveal_strlit("setup");
    reveal_strlit("login");
    reveal_strlit("connecting");
    reveal_strlit("starting");
    assert("setup"@[0] != "login"@[0]);
    assert("setup"@.len() != "connecting"@.len());
    assert("setup"@.len() != "starting"@.len());
    assert("login"@.len() != "starting"@.len());
    assert("connecting"@.len() != "starting"@.len());
}

/// The menu offers logging out and leaving with an account, and leaving alone without one,
/// whatever else the status holds.
pub proof fn law_menu_of_every_status(st: St, items: Vec<MenuItem>)
    requires
        call_ensures(header_menu, (&st,), items),
    ensures
        st.user@.len() > 0 ==> items@ == seq![MenuItem::Logout, MenuItem::Exit],
        st.user@.len() == 0 ==> items@ == seq![MenuItem::Exit],
{
}

/// Each item of the menu has its text and sends its command.
pub proof fn law_menu_items(item: MenuItem, text: String, c: Command)
    requires
        call_ensures(MenuItem::label, (&item,), text),
        call_ensures(MenuItem::command, (&item,), c),
    ensures
        item is Logout ==> text@ == "退出登录"@ && c is Logout,
        item is Exit ==> text@ == "退出程序"@ && c is Quit,
{
}

/// A frame hides the popup exactly when the popup remembers the focus and the frame is without
/// it, whatever the status; it then remembers the focus of this frame, and nothing else of the
/// popup changes.
pub proof fn law_frame_hides(
    app: &mut App,
    focused: Option<bool>,
    st: St,
    shown_on: bool,
    step: LogicStep,
)
    requires
        call_ensures(App::logic, (app, focused, &st, shown_on), step),
    ensures
        step.hide <==> old(app).was_focused && focused != Some(true),
        final(app).was_focused <==> focused == Some(true),
        final(app).input@ == old(app).input@,
        final(app).warmed == old(app).warmed,
        logic_step(old(app).was_focused, focused, st@, shown_on).hide <==> old(app).was_focused
            && focused != Some(true),
{
}

/// Over two frames in a row, with any statuses: the second hides the popup exactly when the first
/// had the focus and the second has not.
pub proof fn law_focus_loss_hides(
    first: &mut App,
    second: &mut App,
    focused: (Option<bool>, Option<bool>),
    statuses: (St, St),
    shown: (bool, bool),
    steps: (LogicStep, LogicStep),
)
    requires
        call_ensures(App::logic, (first, focused.0, &statuses.0, shown.0), steps.0),
        call_ensures(App::logic, (second, focused.1, &statuses.1, shown.1), steps.1),
        *second == *final(first),
    ensures
        steps.1.hide <==> focused.0 == Some(true) && focused.1 != Some(true),
{
}

/// A frame shows a connection on the tray icon exactly in the state `on`, whatever else the
/// status holds, and changes the icon exactly when it shows the other.
pub proof fn law_frame_follows_connection(
    app: &mut App,
    focused: Option<bool>,
    st: St,
    shown_on: bool,
    step: LogicStep,
)
    requires
        call_ensures(App::logic, (app, focused, &st, shown_on), step),
    ensures
        step.on <==> st.state@ == "on"@,
        step.modify <==> (shown_on != (st.state@ == "on"@)),
{
}

/// The glyphs are prepared in the first frame that asks and in none after it.
pub proof fn law_warm_up_once(first: &mut App, second: &mut App, now: bool, again: bool)
    requires
        call_ensures(App::warm_up, (first,), now),
        call_ensures(App::warm_up, (second,), again),
        *second == *final(first),
    ensures
        now <==> !old(first).warmed,
        !again,
        final(second).input@ == old(first).input@,
        final(second).was_focused == old(first).was_focused,
{
}

/// An empty address field takes the known address as it is; a text that was typed stays.
pub proof fn law_prefill_keeps_typed_text(app: &mut App, st: St, nothing: ())
    requires
        call_ensures(App::prefill, (app, &st), nothing),
    ensures
        old(app).input@.len() == 0 ==> final(app).input@ == st.endpoint@,
        old(app).input@.len() > 0 ==> final(app).input@ == old(app).input@,
        final(app).was_focused == old(app).was_focused,
        final(app).warmed == old(app).warmed,
{
}

/// A click, or leaving the field with the enter key, sends the typed address without the white
/// space around it, whatever it is; nothing else sends anything.
pub proof fn law_submit_sends_typed_address(
    app: App,
    typed: &str,
    clicked: bool,
    lost_focus: bool,
    enter: bool,
    c: Option<Command>,
    address: String,
)
    requires
        call_ensures(App::submit, (&app, clicked, lost_focus, enter), c),
        typed@ == app.input@,
        call_ensures(trim, (typed,), address),
    ensures
        clicked || (lost_focus && enter) ==> (c matches Some(Command::Setup(sent)) && sent@
            == address@),
        !clicked && !(lost_focus && enter) ==> c is None,
{
}

/// The setup page shows the message as it is, and no banner for none, in every state.
pub proof fn law_setup_banner(st: St, b: Option<String>)
    requires
        call_ensures(setup_banner, (&st,), b),
    ensures
        st.msg@.len() == 0 ==> b is None,
        st.msg@.len() > 0 ==> (b matches Some(text) && text@ == st.msg@),
{
    assert(b.deep_view() == note(st.msg@));
    if let Some(text) = b {
        assert(b.deep_view() == Some(text@));
    }
}

/// The authentication page speaks of the browser exactly in the state `login`, and of connecting
/// in every other; the address is the known one.
pub proof fn law_auth_page_texts(st: St, p: AuthPage)
    requires
        call_ensures(auth_page, (&st,), p),
    ensures
        st.state@ == "login"@ ==> p.title@ == "等待认证"@ && p.sub@
            == "已在浏览器中打开登录页面\n完成登录后将自动连接"@,
        st.state@ != "login"@ ==> p.title@ == "正在连接"@ && p.sub@ == "正在建立安全连接…"@,
        p.endpoint@ == st.endpoint@,
{
}

/// Cancelling disconnects.
pub proof fn law_cancel_disconnects(c: Command)
    requires
        call_ensures(cancel, (), c),
    ensures
        c is Disconnect,
{
}

/// In the state `on` the main page says that the connection is up, in the colour that stands out,
/// with the switch on and no banner, whatever endpoint, account, address and message are; and
/// the tray icon shows the same. In no other state does any of this hold.
pub proof fn law_connected_page(
    st: St,
    p: MainPage,
    app: &mut App,
    focused: Option<bool>,
    shown_on: bool,
    step: LogicStep,
)
    requires
        call_ensures(main_page, (&st,), p),
        call_ensures(App::logic, (app, focused, &st, shown_on), step),
    ensures
        st.state@ == "on"@ ==> {
            &&& p.title@ == "已连接"@
            &&& p.sub@ == "流量正经由安全隧道传输"@
            &&& p.accent
            &&& p.on
            &&& !p.busy
            &&& p.banner is None
            &&& step.on
        },
        st.state@ != "on"@ ==> {
            &&& p.title@ != "已连接"@
            &&& !p.accent
            &&& !step.on
            &&& p.sub@ == "流量正经由安全隧道传输"@ ==> st.state@ == "connecting"@ && st.msg@
                == p.sub@
        },
{
    reveal_strlit("on");
    reveal_strlit("off");
    reveal_strlit("login");
    reveal_strlit("connecting");
    reveal_strlit("已连接");
    reveal_strlit("正在连接");
    reveal_strlit("未连接");
    reveal_strlit("流量正经由安全隧道传输");
    reveal_strlit("请稍候…");
    reveal_strlit("点击开关以连接");
    assert("on"@.len() != "off"@.len());
    assert("on"@.len() != "login"@.len());
    assert("on"@.len() != "connecting"@.len());
    assert("已连接"@.len() != "正在连接"@.len());
    assert("未连接"@[0] != "已连接"@[0]);
    assert("流量正经由安全隧道传输"@.len() != "请稍候…"@.len());
    assert("流量正经由安全隧道传输"@.len() != "点击开关以连接"@.len());
    assert(p.banner.deep_view() is None ==> p.banner is None);
}

/// In the state `connecting` the main page says so, with a busy switch that is on, and shows the
/// message of the core below, or asks to wait if there is none.
pub proof fn law_connecting_page(st: St, p: MainPage)
    requires
        call_ensures(main_page, (&st,), p),
        st.state@ == "connecting"@,
    ensures
        p.title@ == "正在连接"@,
        st.msg@.len() == 0 ==> p.sub@ == "请稍候…"@,
        st.msg@.len() > 0 ==> p.sub@ == st.msg@,
        p.on,
        p.busy,
        !p.accent,
        p.banner is None,
{
    reveal_strlit("on");
    reveal_strlit("off");
    reveal_strlit("connecting");
    assert("on"@.len() != "connecting"@.len());
    assert("off"@.len() != "connecting"@.len());
    assert(p.banner.deep_view() is None);
}

/// In the state `off` the main page says that there is no connection and how to make one, with
/// the switch off and the message of the core, if there is one, in a banner.
pub proof fn law_off_page(st: St, p: MainPage)
    requires
        call_ensures(main_page, (&st,), p),
        st.state@ == "off"@,
    ensures
        p.title@ == "未连接"@,
        p.sub@ == "点击开关以连接"@,
        !p.on,
        !p.busy,
        !p.accent,
        st.msg@.len() == 0 ==> p.banner is None,
        st.msg@.len() > 0 ==> (p.banner matches Some(text) && text@ == st.msg@),
{
    reveal_strlit("on");
    reveal_strlit("off");
    reveal_strlit("login");
    reveal_strlit("connecting");
    assert("on"@.len() != "off"@.len());
    assert("off"@.len() != "login"@.len());
    assert("off"@.len() != "connecting"@.len());
    assert(p.banner.deep_view() == note(st.msg@));
    if let Some(text) = p.banner {
        assert(p.banner.deep_view() == Some(text@));
    }
}

/// In any other state the main page says that there is no connection, with the switch on and no
/// banner; it is busy only in the state `login`.
pub proof fn law_other_page(st: St, p: MainPage)
    requires
        call_ensures(main_page, (&st,), p),
        st.state@ != "on"@ && st.state@ != "connecting"@ && st.state@ != "off"@,
    ensures
        p.title@ == "未连接"@,
        p.sub@ == "点击开关以连接"@,
        p.on,
        p.busy <==> st.state@ == "login"@,
        !p.accent,
        p.banner is None,
{
    assert(p.banner.deep_view() is None);
}

/// A row has its label, and its value as it is, or a dash for an empty one.
pub proof fn law_info_row(label: &str, value: &str, r: InfoRow)
    requires
        call_ensures(info_row, (label, value), r),
    ensures
        r.label@ == label@,
        value@.len() > 0 ==> r.value@ == value@,
        value@.len() == 0 ==> r.value@ == "—"@,
{
}

/// There are four rows: account, gateway and inner address as the status has them, each a dash
/// if empty, and the local proxies.
pub proof fn law_rows_of_every_status(st: St, rows: Vec<InfoRow>)
    requires
        call_ensures(info_rows, (&st,), rows),
    ensures
        rows@.len() == 4,
        rows@[0].label@ == "账户"@,
        st.user@.len() > 0 ==> rows@[0].value@ == st.user@,
        st.user@.len() == 0 ==> rows@[0].value@ == "—"@,
        rows@[1].label@ == "网关"@,
        st.endpoint@.len() > 0 ==> rows@[1].value@ == st.endpoint@,
        st.endpoint@.len() == 0 ==> rows@[1].value@ == "—"@,
        rows@[2].label@ == "内网 IP"@,
        st.ip@.len() > 0 ==> rows@[2].value@ == st.ip@,
        st.ip@.len() == 0 ==> rows@[2].value@ == "—"@,
        rows@[3].label@ == "代理"@,
        rows@[3].value@ == "HTTP :10809 · SOCKS5 :10808"@,
{
    let texts = row_texts(rows@);
    assert(info_of(st@).len() == 4);
    assert(texts.len() == rows@.len());
    assert(texts[0] == (rows@[0].label@, rows@[0].value@));
    assert(texts[1] == (rows@[1].label@, rows@[1].value@));
    assert(texts[2] == (rows@[2].label@, rows@[2].value@));
    assert(texts[3] == (rows@[3].label@, rows@[3].value@));
}

/// The main page has these rows in every state.
pub proof fn law_main_page_has_rows(st: St, p: MainPage, rows: Vec<InfoRow>, i: int)
    requires
        call_ensures(main_page, (&st,), p),
        call_ensures(info_rows, (&st,), rows),
        0 <= i < rows@.len(),
    ensures
        p.rows@.len() == rows@.len(),
        p.rows@[i].label@ == rows@[i].label@,
        p.rows@[i].value@ == rows@[i].value@,
{
    let (of_page, alone) = (row_texts(p.rows@), row_texts(rows@));
    assert(of_page.len() == p.rows@.len() && alone.len() == rows@.len());
    assert(of_page[i] == (p.rows@[i].label@, p.rows@[i].value@));
    assert(alone[i] == (rows@[i].label@, rows@[i].value@));
}

/// The switch connects exactly in the state `off`, and disconnects in every other.
pub proof fn law_toggle(st: St, c: Command)
    requires
        call_ensures(toggle, (&st,), c),
    ensures
        st.state@ == "off"@ ==> c is Connect,
        st.state@ != "off"@ ==> c is Disconnect,
{
}

} // verus!
