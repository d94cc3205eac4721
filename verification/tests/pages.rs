use sidegate::pages::{
    auth_page, cancel, header_menu, info_row, info_rows, main_page, page, setup_banner, toggle, App, LogicStep,
    MenuItem, Page, CANCEL_LABEL, CONTINUE_LABEL, SETUP_HINT, SETUP_SUB, SETUP_TITLE, WARM_TEXT,
};
use sidegate::protocol::{Command, St};

const STATES: [&str; 8] = ["starting", "setup", "login", "connecting", "on", "off", "", "other"];

fn status(state: &str, user: &str, msg: &str) -> St {
    St {
        state: state.to_string(),
        endpoint: "vpn.example.edu".to_string(),
        user: user.to_string(),
        ip: "".to_string(),
        msg: msg.to_string(),
    }
}

#[test]
fn page_for_each_state() {
    assert_eq!(page(&status("setup", "", "")), Page::Setup);
    assert_eq!(page(&status("setup", "me", "")), Page::Setup);
    assert_eq!(page(&status("login", "", "")), Page::Auth);
    assert_eq!(page(&status("login", "me", "")), Page::Auth);
    assert_eq!(page(&status("connecting", "", "")), Page::Auth);
    assert_eq!(page(&status("connecting", "me", "")), Page::Main);
    assert_eq!(page(&status("starting", "", "")), Page::Starting);
    assert_eq!(page(&status("on", "me", "")), Page::Main);
    assert_eq!(page(&status("off", "", "")), Page::Main);
    assert_eq!(page(&status("other", "", "")), Page::Main);
}

#[test]
fn menu_items() {
    assert_eq!(header_menu(&status("off", "", "")), vec![MenuItem::Exit]);
    assert_eq!(header_menu(&status("on", "me", "")), vec![MenuItem::Logout, MenuItem::Exit]);
    assert_eq!(MenuItem::Logout.label(), "退出登录");
    assert_eq!(MenuItem::Exit.label(), "退出程序");
    assert_eq!(MenuItem::Logout.command(), Command::Logout);
    assert_eq!(MenuItem::Exit.command(), Command::Quit);
}

#[test]
fn address_is_prefilled_once() {
    let mut app = App::new();
    assert_eq!(app.input, "");
    app.prefill(&status("setup", "", ""));
    assert_eq!(app.input, "vpn.example.edu");
    app.input = "other".to_string();
    app.prefill(&status("setup", "", ""));
    assert_eq!(app.input, "other");
}

#[test]
fn address_is_submitted_trimmed() {
    let mut app = App::new();
    app.input = "  vpn.example.edu\t".to_string();
    let want = Some(Command::Setup("vpn.example.edu".to_string()));
    assert_eq!(app.submit(true, false, false), want);
    assert_eq!(app.submit(false, true, true), want);
    assert_eq!(app.submit(true, true, true), want);
    assert_eq!(app.submit(false, true, false), None);
    assert_eq!(app.submit(false, false, true), None);
    assert_eq!(app.submit(false, false, false), None);
    assert_eq!(app.submit(true, false, false).unwrap().line(), "setup\tvpn.example.edu");
}

#[test]
fn setup_banner_shows_the_message() {
    assert_eq!(setup_banner(&status("setup", "", "")), None);
    assert_eq!(setup_banner(&status("setup", "", "oops")), Some("oops".to_string()));
}

#[test]
fn auth_texts() {
    let p = auth_page(&status("login", "", ""));
    assert_eq!(p.title, "等待认证");
    assert_eq!(p.sub, "已在浏览器中打开登录页面\n完成登录后将自动连接");
    assert_eq!(p.endpoint, "vpn.example.edu");
    let p = auth_page(&status("connecting", "", ""));
    assert_eq!(p.title, "正在连接");
    assert_eq!(p.sub, "正在建立安全连接…");
    assert_eq!(cancel(), Command::Disconnect);
}

#[test]
fn main_page_when_on() {
    let p = main_page(&status("on", "me", "note"));
    assert!(p.on && !p.busy && p.accent);
    assert_eq!((p.title.as_str(), p.sub.as_str()), ("已连接", "流量正经由安全隧道传输"));
    assert_eq!(p.banner, None);
    assert_eq!(toggle(&status("on", "me", "")), Command::Disconnect);
}

#[test]
fn main_page_when_connecting() {
    let p = main_page(&status("connecting", "me", ""));
    assert!(p.on && p.busy && !p.accent);
    assert_eq!((p.title.as_str(), p.sub.as_str()), ("正在连接", "请稍候…"));
    let p = main_page(&status("connecting", "me", "会话过期"));
    assert_eq!(p.sub, "会话过期");
    assert_eq!(p.banner, None);
    assert_eq!(toggle(&status("connecting", "me", "")), Command::Disconnect);
}

#[test]
fn main_page_when_off() {
    let p = main_page(&status("off", "me", ""));
    assert!(!p.on && !p.busy && !p.accent);
    assert_eq!((p.title.as_str(), p.sub.as_str()), ("未连接", "点击开关以连接"));
    assert_eq!(p.banner, None);
    assert_eq!(main_page(&status("off", "me", "failed")).banner, Some("failed".to_string()));
    assert_eq!(toggle(&status("off", "me", "")), Command::Connect);
}

#[test]
fn main_page_in_an_unknown_state() {
    let p = main_page(&status("other", "me", "x"));
    assert!(p.on && !p.busy && !p.accent);
    assert_eq!(p.title, "未连接");
    assert_eq!(p.banner, None);
    assert_eq!(toggle(&status("other", "", "")), Command::Disconnect);
    assert!(main_page(&status("login", "me", "")).busy);
}

#[test]
fn info_rows_of_a_status() {
    let mut st = status("on", "me", "");
    let rows = info_rows(&st);
    let texts: Vec<(&str, &str)> = rows.iter().map(|r| (r.label.as_str(), r.value.as_str())).collect();
    assert_eq!(
        texts,
        vec![
            ("账户", "me"),
            ("网关", "vpn.example.edu"),
            ("内网 IP", "—"),
            ("代理", "HTTP :10809 · SOCKS5 :10808"),
        ]
    );
    st.ip = "10.0.0.2".to_string();
    assert_eq!(main_page(&st).rows[2].value, "10.0.0.2");
    assert_eq!(info_row("k", "").value, "—");
    assert_eq!(info_row("k", "v").value, "v");
}

#[test]
fn popup_hides_on_focus_loss() {
    let st = status("off", "", "");
    let mut app = App::new();
    let frames = [None, Some(true), Some(true), Some(false), Some(false), Some(true), None];
    let hides: Vec<bool> = frames.iter().map(|&f| app.logic(f, &st, false).hide).collect();
    assert_eq!(hides, vec![false, false, false, true, false, false, true]);
    assert!(!app.was_focused);
}

#[test]
fn icon_follows_the_connection() {
    let mut app = App::new();
    let mut shown = false;
    let mut changes = 0;
    for state in ["starting", "off", "connecting", "on", "on", "off", "on"] {
        let step = app.logic(Some(true), &status(state, "me", ""), shown);
        if step.modify {
            changes += 1;
        }
        shown = step.on;
        assert_eq!(shown, state == "on");
    }
    assert_eq!(changes, 3);
    let step = app.logic(Some(true), &status("on", "", ""), false);
    assert_eq!(step, LogicStep { hide: false, on: true, modify: true });
}

#[test]
fn glyphs_are_prepared_in_the_first_frame() {
    let mut app = App::new();
    assert!(app.warm_up());
    assert!(!app.warm_up());
    for state in STATES {
        let st = status(state, "me", "");
        let (a, m) = (auth_page(&st), main_page(&st));
        for text in [a.title, a.sub, m.title, m.sub] {
            assert!(text.chars().all(|c| c == '\n' || WARM_TEXT.contains(c)), "{text}");
        }
    }
}

#[test]
fn pages_agree_with_each_other() {
    for state in STATES {
        for user in ["", "me"] {
            let st = status(state, user, "x");
            let m = main_page(&st);
            if page(&st) == Page::Main {
                assert_eq!(m.busy, m.title == "正在连接");
                assert_eq!(m.accent, m.title == "已连接");
                assert!(!m.on || m.banner.is_none());
            }
            if m.busy && user.is_empty() {
                assert_eq!(page(&st), Page::Auth);
            }
        }
    }
}

#[test]
fn fixed_texts() {
    assert_eq!(SETUP_TITLE, "连接到 GlobalProtect");
    assert_eq!(SETUP_SUB, "输入学校或公司提供的门户地址");
    assert_eq!(SETUP_HINT, "vpn.example.edu");
    assert_eq!(CONTINUE_LABEL, "继续");
    assert_eq!(CANCEL_LABEL, "取消");
    let mut texts = vec![SETUP_TITLE.to_string(), SETUP_SUB.to_string(), SETUP_HINT.to_string()];
    texts.push(CONTINUE_LABEL.to_string());
    texts.push(CANCEL_LABEL.to_string());
    texts.push(MenuItem::Logout.label());
    texts.push(MenuItem::Exit.label());
    texts.extend(info_rows(&status("on", "", "")).into_iter().map(|r| r.label));
    for text in texts {
        assert!(text.chars().all(|c| c.is_ascii() || WARM_TEXT.contains(c)), "{text}");
    }
}

#[test]
fn icon_changes_only_with_the_connection() {
    let mut app = App::new();
    let mut shown = true;
    let mut changes = vec![];
    for state in ["off", "connecting", "on", "on", "off", "login"] {
        let step = app.logic(None, &status(state, "me", ""), shown);
        if step.modify {
            shown = step.on;
        }
        changes.push(step.modify);
        assert_eq!(shown, state == "on");
    }
    assert_eq!(changes, vec![true, false, true, false, true, false]);
}
