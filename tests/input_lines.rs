use colormusic::color::Color;
use colormusic::engine::Command;
use colormusic::input::{parse_input, plain_commands, static_color, Input};
use colormusic::shared::Mode;

#[test]
fn named_colors() {
    assert_eq!(parse_input(b"white"), Input::Named(Color::new(1_000_000, 0, 0)));
    assert_eq!(parse_input(b"  off \n"), Input::Named(Color::new(0, 0, 0)));
    assert_eq!(parse_input(b"red\r\n"), Input::Named(Color::new(628_000, 257_683, 29_233_885)));
    assert_eq!(parse_input(b"green"), Input::Named(Color::new(866_400, 294_755, 142_495_339)));
    assert_eq!(parse_input(b"blue"), Input::Named(Color::new(452_000, 313_136, 264_053_008)));
    assert_eq!(parse_input(b"pink"), Input::Named(Color::new(612_200, 241_500, 22_940_000)));
    assert_eq!(parse_input(b"\tyellow"), Input::Named(Color::new(968_000, 210_954, 109_769_232)));
    assert_eq!(parse_input(b"Red"), Input::Ignored);
    assert_eq!(parse_input(b"re d"), Input::Ignored);
}

#[test]
fn music_and_noise() {
    assert_eq!(parse_input(b"music\n"), Input::Music);
    assert_eq!(parse_input(b""), Input::Ignored);
    assert_eq!(parse_input(b"   \n"), Input::Ignored);
    assert_eq!(parse_input(b"hello"), Input::Ignored);
}

#[test]
fn hex_colors() {
    assert_eq!(parse_input(b"#ff0080\n"), Input::Hex(255, 0, 128));
    assert_eq!(parse_input(b"#A0b1C2"), Input::Hex(0xA0, 0xB1, 0xC2));
    assert_eq!(parse_input(b"#zz1010"), Input::Ignored);
    assert_eq!(parse_input(b"#GG0000"), Input::Ignored);
    assert_eq!(parse_input(b"#12"), Input::Ignored);
    assert_eq!(parse_input(b"#10101g"), Input::Ignored);
    assert_eq!(parse_input(b"#+f0000"), Input::Ignored);
    assert_eq!(parse_input("#a\u{e9}bbb".as_bytes()), Input::Ignored);
    assert_eq!(parse_input(b"#fff"), Input::Ignored);
    assert_eq!(parse_input(b"#ff00800"), Input::Ignored);
}

#[test]
fn opacity_and_scale_arguments() {
    assert_eq!(parse_input(b"op0.2\n"), Input::Opacity(b"0.2".to_vec()));
    assert_eq!(parse_input(b"op  0.5 "), Input::Opacity(b"0.5".to_vec()));
    assert_eq!(parse_input(b"sc70.5"), Input::Scale(b"70.5".to_vec()));
    assert_eq!(parse_input(b"sc"), Input::Scale(Vec::new()));
}

#[test]
fn unicode_whitespace_is_trimmed() {
    let red = Input::Named(Color::new(628_000, 257_683, 29_233_885));
    assert_eq!(parse_input("red\u{a0}".as_bytes()), red);
    assert_eq!(parse_input("\u{3000}red\u{2009}\u{85}\n".as_bytes()), red);
    assert_eq!(parse_input("\u{1680}music\u{202f}".as_bytes()), Input::Music);
    assert_eq!(parse_input("op\u{2003}0.5".as_bytes()), Input::Opacity(b"0.5".to_vec()));
    // not whitespace: zero-width space
    assert_eq!(parse_input("red\u{200b}".as_bytes()), Input::Ignored);
    assert_eq!(parse_input("\u{a0}".as_bytes()), Input::Ignored);
}

#[test]
fn malformed_lines_give_no_commands() {
    for line in ["hello", "#12", "#GG0000", ""] {
        let cmds = plain_commands(&parse_input(line.as_bytes()));
        assert_eq!(cmds.map(|v| v.len()), Some(0));
    }
    assert!(plain_commands(&parse_input(b"opx")).is_none());
}

#[test]
fn plain_commands_for_words() {
    let cmds = plain_commands(&Input::Music).unwrap();
    assert_eq!(cmds.len(), 1);
    assert!(matches!(cmds[0], Command::SetMode(Mode::Reactive)));
    let c = Color::new(0, 0, 0);
    let cmds = plain_commands(&Input::Named(c)).unwrap();
    assert_eq!(cmds.len(), 2);
    assert!(matches!(cmds[0], Command::SetMode(Mode::Static)));
    assert!(matches!(cmds[1], Command::SetColor(x) if x == c));
    assert!(plain_commands(&Input::Hex(1, 2, 3)).is_none());
    assert!(plain_commands(&Input::Scale(b"2".to_vec())).is_none());
}

#[test]
fn static_color_commands() {
    let c = Color::new(1, 2, 3);
    let cmds = static_color(c);
    assert_eq!(cmds.len(), 2);
    assert!(matches!(cmds[0], Command::SetMode(Mode::Static)));
    assert!(matches!(cmds[1], Command::SetColor(x) if x == c));
}
