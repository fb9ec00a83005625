use game_overlay::memory::{GameProcess, ModuleInfo, RawModule};

fn c_chars(s: &[u8]) -> Vec<i8> {
    s.iter().map(|&b| b as i8).collect()
}

#[test]
fn recognises_the_game_executable() {
    assert!(GameProcess::is_game_process(&c_chars(b"cs2.exe\0\0\0")));
    assert!(GameProcess::is_game_process(&c_chars(b"CS2.EXE\0")));
    assert!(GameProcess::is_game_process(&c_chars(b"myCs2tool")));
    assert!(!GameProcess::is_game_process(&c_chars(b"csgo.exe\0")));
    assert!(!GameProcess::is_game_process(&c_chars(b"cs\0cs2.exe")));
    assert!(!GameProcess::is_game_process(&c_chars(b"")));
    assert!(!GameProcess::is_game_process(&c_chars(b"c\xffs2")));
}

#[test]
fn find_takes_the_first_game_process() {
    let names = vec![
        c_chars(b"explorer.exe\0"),
        c_chars(b"Cs2.exe\0"),
        c_chars(b"cs2.exe\0"),
    ];
    assert_eq!(GameProcess::find(&names), Some(1));
    assert_eq!(GameProcess::find(&names[..1].to_vec()), None);
    assert_eq!(GameProcess::find(&Vec::new()), None);
}

#[test]
fn module_names_stop_at_nul_and_decode_leniently() {
    let raw = RawModule { name: c_chars(b"client.dll\0junk"), base: 0x1000, size: 42 };
    let m = ModuleInfo::from_raw(&raw);
    assert_eq!(m.name, "client.dll");
    assert_eq!(m.base, 0x1000);
    assert_eq!(m.size, 42);

    let raw = RawModule { name: c_chars(b"a\xffb"), base: 1, size: 2 };
    assert_eq!(ModuleInfo::from_raw(&raw).name, "a\u{FFFD}b");
}

#[test]
fn load_modules_appends_in_order() {
    let mut game = GameProcess { pid: 77, modules: Vec::new() };
    game.load_modules(&vec![
        RawModule { name: c_chars(b"cs2.exe\0"), base: 0x400000, size: 10 },
        RawModule { name: c_chars(b"client.dll\0"), base: 0x7000000, size: 20 },
    ]);
    game.load_modules(&vec![RawModule { name: c_chars(b"engine2.dll\0"), base: 0x8000000, size: 30 }]);
    assert_eq!(game.pid, 77);
    let names: Vec<&str> = game.modules.iter().map(|m| m.name.as_str()).collect();
    assert_eq!(names, vec!["cs2.exe", "client.dll", "engine2.dll"]);
}

#[test]
fn module_base_lookup_ignores_case() {
    let game = GameProcess {
        pid: 1,
        modules: vec![
            ModuleInfo { name: "engine2.dll".to_string(), base: 0x10, size: 1 },
            ModuleInfo { name: "Client.DLL".to_string(), base: 0x20, size: 1 },
            ModuleInfo { name: "client.dll".to_string(), base: 0x30, size: 1 },
        ],
    };
    assert_eq!(game.get_module_base("client.dll"), Some(0x20));
    assert_eq!(game.get_module_base("CLIENT.DLL"), Some(0x20));
    assert_eq!(game.get_module_base("ENGINE2.dll"), Some(0x10));
    assert_eq!(game.get_module_base("server.dll"), None);
    assert_eq!(GameProcess { pid: 1, modules: Vec::new() }.get_module_base("client.dll"), None);
}

#[test]
fn strings_stop_at_the_first_nul() {
    assert_eq!(GameProcess::read_string(b"bob\0xyz"), Some("bob".to_string()));
    assert_eq!(GameProcess::read_string(b"no terminator"), Some("no terminator".to_string()));
    assert_eq!(GameProcess::read_string(b"\0abc"), Some(String::new()));
    assert_eq!(GameProcess::read_string(b""), Some(String::new()));
    assert_eq!(GameProcess::read_string("j\u{00F6}rg\0".as_bytes()), Some("j\u{00F6}rg".to_string()));
}

#[test]
fn invalid_utf8_gives_no_string() {
    assert_eq!(GameProcess::read_string(b"a\xffb\0"), None);
    // Bytes after the terminator do not count.
    assert_eq!(GameProcess::read_string(b"ab\0\xff"), Some("ab".to_string()));
}

#[test]
fn still_active_means_running() {
    assert!(GameProcess::is_running(true, 259));
    assert!(!GameProcess::is_running(true, 0));
    assert!(!GameProcess::is_running(false, 259));
}

#[test]
fn view_matrix_is_row_major() {
    assert_eq!(GameProcess::view_matrix_cell(0x1000, 0, 0), 0x1000 + 0x2346B30);
    assert_eq!(GameProcess::view_matrix_cell(0x1000, 1, 2), 0x1000 + 0x2346B30 + 24);
    assert_eq!(GameProcess::view_matrix_cell(0x1000, 3, 3), 0x1000 + 0x2346B30 + 60);
}
