use sidegate::text::{char_vec, same, split, strip, trim, white_space};
use sidegate::utf16::{encode_utf16, wide};

const SAMPLES: [&str; 8] = ["", "a", "已连接", "\t", "a\tb", "\ta\t\tb\t", "😀 \u{10FFFF}", " x\n"];

#[test]
fn split_like_std() {
    for s in SAMPLES {
        let want: Vec<String> = s.split('\t').map(|p| p.to_string()).collect();
        assert_eq!(split(s, '\t'), want);
        assert_eq!(split(s, '\t').join("\t"), s);
    }
    assert_eq!(split("a\tb", '\t'), vec!["a".to_string(), "b".to_string()]);
    assert_eq!(split("", '\t'), vec!["".to_string()]);
}

#[test]
fn joined_pieces_split_again() {
    let pieces = vec!["".to_string(), "x y".to_string(), "".to_string(), "网关".to_string()];
    assert_eq!(split(&pieces.join("\t"), '\t'), pieces);
}

#[test]
fn strip_drops_nul_and_line_feed() {
    assert_eq!(strip("a\0b\nc\r\td"), "abc\r\td");
    assert_eq!(strip("\0\n"), "");
    for s in SAMPLES {
        assert_eq!(strip(s), s.replace(['\0', '\n'], ""));
    }
}

#[test]
fn white_space_like_std() {
    for v in 0..=0x10FFFFu32 {
        if let Some(c) = char::from_u32(v) {
            assert_eq!(white_space(c), c.is_whitespace(), "U+{v:X}");
        }
    }
}

#[test]
fn trim_both_ends() {
    assert_eq!(trim("  vpn.example.edu\t\n"), "vpn.example.edu");
    assert_eq!(trim("\u{3000}a b\u{a0}"), "a b");
    assert_eq!(trim(" \t "), "");
    assert_eq!(trim(""), "");
    for s in SAMPLES {
        assert_eq!(trim(s), s.trim());
        assert_eq!(trim(&trim(s)), trim(s));
    }
}

#[test]
fn same_text() {
    assert!(same(&"on".to_string(), "on"));
    assert!(!same(&"on".to_string(), "off"));
    assert!(!same(&"".to_string(), "on"));
}

#[test]
fn chars_in_order() {
    for s in SAMPLES {
        assert_eq!(char_vec(s), s.chars().collect::<Vec<char>>());
    }
}

#[test]
fn utf16_like_std() {
    for s in SAMPLES {
        let want: Vec<u16> = s.encode_utf16().collect();
        assert_eq!(encode_utf16(s), want);
        assert_eq!(String::from_utf16(&encode_utf16(s)).unwrap(), s);
        let terminated: Vec<u16> = s.encode_utf16().chain(Some(0)).collect();
        assert_eq!(wide(s), terminated);
    }
    assert_eq!(encode_utf16("😀"), vec![0xD83D, 0xDE00]);
}

#[test]
fn terminator_is_first_zero() {
    let w = wide("TaskbarCreated");
    assert_eq!(w.iter().position(|&u| u == 0), Some(w.len() - 1));
    assert_eq!(wide(""), vec![0]);
}
