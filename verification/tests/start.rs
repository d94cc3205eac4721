use sidegate::fonts::{family_names, font_files, windows_dir, Family, FontFile};
use sidegate::launch::{already_running, launch, Launch, TITLE};
use windows_sys::Win32::Foundation::{ERROR_ACCESS_DENIED, ERROR_ALREADY_EXISTS};

fn args(a: &[&str]) -> Vec<String> {
    a.iter().map(|s| s.to_string()).collect()
}

#[test]
fn callback_arguments() {
    let link = "globalprotectcallback:abc";
    assert_eq!(launch(&args(&["Sidegate.exe", "--callback", link])), Launch::Callback(link.to_string()));
    assert_eq!(launch(&args(&["Sidegate.exe", "--callback", ""])), Launch::Callback("".to_string()));
    assert_eq!(launch(&args(&["Sidegate.exe", "--callback", "a\0b"])), Launch::BadCallback);
}

#[test]
fn other_arguments_open_the_popup() {
    assert_eq!(launch(&args(&[])), Launch::Popup);
    assert_eq!(launch(&args(&["Sidegate.exe"])), Launch::Popup);
    assert_eq!(launch(&args(&["Sidegate.exe", "--callback"])), Launch::Popup);
    assert_eq!(launch(&args(&["Sidegate.exe", "--other", "x"])), Launch::Popup);
    assert_eq!(launch(&args(&["Sidegate.exe", "--callback", "x", "y"])), Launch::Popup);
    assert_eq!(TITLE, "Sidegate VPN");
}

#[test]
fn second_instance() {
    assert!(already_running(ERROR_ALREADY_EXISTS));
    assert!(!already_running(0));
    assert!(!already_running(ERROR_ACCESS_DENIED));
}

#[test]
fn font_files_of_families() {
    assert_eq!(font_files(Family::Proportional), args(&["msyh.ttc", "segoeui.ttf", "seguisym.ttf"]));
    assert_eq!(font_files(Family::Monospace), args(&["msyh.ttc", "segoeui.ttf"]));
    assert_eq!(font_files(Family::Bold), args(&["msyhbd.ttc", "segoeuib.ttf", "msyh.ttc"]));
}

#[test]
fn unreadable_fonts_are_left_out() {
    let files: Vec<FontFile> = font_files(Family::Proportional)
        .into_iter()
        .map(|name| FontFile { readable: name != "segoeui.ttf", name })
        .collect();
    assert_eq!(family_names(&files), args(&["msyh.ttc", "seguisym.ttf"]));
    assert_eq!(family_names(&vec![]), args(&[]));
}

#[test]
fn windows_directory() {
    assert_eq!(windows_dir(Some("D:\\Win".to_string())), "D:\\Win");
    assert_eq!(windows_dir(None), r"C:\Windows");
}
