use logdoc::args::Arg;
use logdoc::args::Language;
use logdoc::args::SaveType;
use logdoc::files::form_file_name;
use logdoc::files::search_in_file_dyn;
use logdoc::meta::Level;
use logdoc::meta::Pos;
use logdoc::meta::Typo;

fn arg_for(save_path: &str) -> Arg {
    Arg {
        project_name: String::from("project"),
        directories: None,
        recurse: false,
        files: None,
        language: Language::Golang,
        save_path: String::from(save_path),
        save_type: SaveType::MD,
        info_desc: None,
        debug_desc: None,
        trace_desc: None,
        warn_desc: None,
        fatal_desc: None,
        message_table_header: None,
        subject_table_header: None,
        description_table_header: None,
    }
}

#[test]
fn test_walk_file_dyn() {
    let data = r#"Hello,
December is a last month in the year
 When January comes
All gifts are gone
"#;
    let pos = Pos {
        typo: Typo::Level,
        start: (2, 1),
        end: (2, 4),
    };
    let result = search_in_file_dyn(data.as_bytes(), &pos);
    assert_eq!(vec![87u8, 104, 101, 110], result);
}

#[test]
fn locator_full_line_keeps_terminator() {
    // A span over one whole row, columns 0 to the row's last byte
    // inclusive, is exactly that line with its line feed.
    let data = b"first\nsecond\nthird\n";
    let pos = Pos { typo: Typo::Level, start: (1, 0), end: (1, 6) };
    assert_eq!(search_in_file_dyn(data, &pos), b"second\n".to_vec());
}

#[test]
fn locator_columns_inclusive_on_both_ends() {
    let data = b"abcdef\n";
    let pos = Pos { typo: Typo::Level, start: (0, 1), end: (0, 3) };
    // Inclusive on both ends: one byte wider than a half-open slice.
    assert_eq!(search_in_file_dyn(data, &pos), b"bcd".to_vec());
}

#[test]
fn locator_multi_line_span() {
    let data = b"abc\ndef\nghi\n";
    let pos = Pos { typo: Typo::Level, start: (0, 1), end: (2, 1) };
    // Tail of the start line from column 1, the middle line in full, and
    // the end line through column 1 inclusive.
    assert_eq!(search_in_file_dyn(data, &pos), b"bc\ndef\ngh".to_vec());
}

#[test]
fn locator_multi_line_span_end_before_start_column() {
    let data = b"abc\ndef\n";
    let pos = Pos { typo: Typo::Level, start: (0, 2), end: (1, 0) };
    // A span ending at a smaller column than it starts still keeps the
    // start line's tail and the end line's head.
    assert_eq!(search_in_file_dyn(data, &pos), b"c\nd".to_vec());
}

#[test]
fn locator_out_of_range_is_empty_or_truncated() {
    let data = b"ab\ncd\n";
    let beyond = Pos { typo: Typo::Level, start: (5, 0), end: (6, 2) };
    assert_eq!(search_in_file_dyn(data, &beyond), Vec::<u8>::new());
    let wide = Pos { typo: Typo::Level, start: (0, 1), end: (0, 99) };
    assert_eq!(search_in_file_dyn(data, &wide), b"b\n".to_vec());
    let empty = Pos { typo: Typo::Level, start: (0, 2), end: (0, 1) };
    assert_eq!(search_in_file_dyn(data, &empty), Vec::<u8>::new());
}

#[test]
fn locator_drops_bytes_after_last_newline() {
    let data = b"ab\ncd";
    let pos = Pos { typo: Typo::Level, start: (1, 0), end: (1, 4) };
    // "cd" ends no line, so row 1 does not exist.
    assert_eq!(search_in_file_dyn(data, &pos), Vec::<u8>::new());
}

#[test]
fn file_name_per_level() {
    let arg = arg_for("docs");
    let dir = String::from("docs");
    assert_eq!(form_file_name(&dir, &arg, &Level::Info), "docs/info.md");
    assert_eq!(form_file_name(&dir, &arg, &Level::Fatal), "docs/fatal.md");
    let slashed = String::from("docs/");
    assert_eq!(form_file_name(&slashed, &arg_for("docs/"), &Level::Warn), "docs/warn.md");
    let empty = String::from("");
    assert_eq!(form_file_name(&empty, &arg_for(""), &Level::Debug), "debug.md");
}

#[test]
fn arg_accessors() {
    let mut arg = arg_for(".");
    assert_eq!(arg.directories(), Vec::<String>::new());
    assert_eq!(arg.directories_ref(), Vec::<&String>::new());
    assert_eq!(arg.file_suffix(), "md");
    arg.directories = Some(vec![String::from("a"), String::from("b")]);
    assert_eq!(arg.directories(), vec![String::from("a"), String::from("b")]);
    let refs = arg.directories_ref();
    assert_eq!(refs.len(), 2);
    assert_eq!(refs[0], "a");
    assert_eq!(refs[1], "b");
}
