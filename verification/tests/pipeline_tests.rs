use logdoc::app::meta_from_match;
use logdoc::app::Application;
use logdoc::app::Buckets;
use logdoc::args::Arg;
use logdoc::args::Language;
use logdoc::args::SaveType;
use logdoc::extract::RawCapture;
use logdoc::language::Comment;
use logdoc::meta::Level;
use logdoc::template::TemplateMeta;

fn arg_for(language: Language) -> Arg {
    Arg {
        project_name: String::from("project"),
        directories: None,
        recurse: false,
        files: None,
        language,
        save_path: String::from("."),
        save_type: SaveType::MD,
        info_desc: Some(String::from("info docs")),
        debug_desc: None,
        trace_desc: None,
        warn_desc: None,
        fatal_desc: None,
        message_table_header: None,
        subject_table_header: None,
        description_table_header: None,
    }
}

/// Captures covering whole single lines, with the engine's inclusive end
/// convention (the end column one past the line text grabs the line feed).
fn line_captures(src: &str, roles_and_rows: &[(u32, u32)]) -> Vec<RawCapture> {
    let lines: Vec<&str> = src.lines().collect();
    roles_and_rows
        .iter()
        .map(|&(index, row)| RawCapture {
            index,
            start_row: row,
            start_col: 0,
            end_row: row,
            end_col: lines[row as usize].len() as u32,
        })
        .collect()
}

#[test]
fn normalizer_scenario_line_comment_block() {
    // A severity comment, a subject comment and one description comment in
    // front of a logging call: severity comes from the annotation, not
    // from the call's name.
    let src = "// info: failed to connect\n// connection refused by peer\n// retry attempted 3 times\nlogger.Error(\"failed\")\n";
    let caps = line_captures(src, &[(0, 0), (1, 1), (2, 2)]);
    let meta = meta_from_match(src.as_bytes(), &caps, &Comment::Slash);
    assert_eq!(meta.level, Level::Info);
    let row = TemplateMeta::from_meta(&meta);
    assert_eq!(row.message, "failed to connect");
    assert_eq!(row.subject, "connection refused by peer");
    assert_eq!(row.description, "retry attempted 3 times");
}

#[test]
fn normalizer_scenario_concatenates_description_fragments() {
    let src = "# WARN: disk almost full\n# check the volume\n# second fragment\n# third fragment\nlog.warn(\"disk\")\n";
    let caps = line_captures(src, &[(0, 0), (1, 1), (2, 2), (2, 3)]);
    let meta = meta_from_match(src.as_bytes(), &caps, &Comment::Dash);
    assert_eq!(meta.level, Level::Warn);
    let row = TemplateMeta::from_meta(&meta);
    assert_eq!(row.message, "disk almost full");
    assert_eq!(row.subject, "check the volume");
    // Fragments concatenate in capture order; the line feeds between them
    // become explicit break tags at format time.
    assert_eq!(row.description, "second fragment<br/>third fragment");
}

#[test]
fn description_fragments_are_normalized_once() {
    // Each fragment loses one leading marker when it is normalized; the
    // concatenation is not normalized again, so a marker surviving the
    // first pass stays.
    let src = "// info: m\n// subj\n//// a\nx\n";
    let caps = line_captures(src, &[(0, 0), (1, 1), (2, 2)]);
    let meta = meta_from_match(src.as_bytes(), &caps, &Comment::Slash);
    let row = TemplateMeta::from_meta(&meta);
    assert_eq!(row.description, "// a");
}

#[test]
fn normalizer_decodes_text_beyond_ascii() {
    let src = "// info: caf\u{e9} gr\u{f6}\u{df}e\n// r\u{e9}sum\u{e9}\nlog.Info(\"x\")\n";
    let lines: Vec<&str> = src.lines().collect();
    let caps = vec![
        RawCapture {
            index: 0,
            start_row: 0,
            start_col: 0,
            end_row: 0,
            end_col: lines[0].len() as u32,
        },
        RawCapture {
            index: 1,
            start_row: 1,
            start_col: 0,
            end_row: 1,
            end_col: lines[1].len() as u32,
        },
    ];
    let meta = meta_from_match(src.as_bytes(), &caps, &Comment::Slash);
    let row = TemplateMeta::from_meta(&meta);
    assert_eq!(row.message, "caf\u{e9} gr\u{f6}\u{df}e");
    assert_eq!(row.subject, "r\u{e9}sum\u{e9}");
}

#[test]
fn unmapped_capture_index_falls_back_to_severity_role() {
    let src = "// debug: first\n// fallback overwrites\nx\n";
    let caps = line_captures(src, &[(0, 0), (9, 1)]);
    let meta = meta_from_match(src.as_bytes(), &caps, &Comment::Slash);
    // The unmapped index 9 is treated as another severity capture and
    // overwrites level and message.
    assert_eq!(meta.level, Level::Info);
    assert_eq!(TemplateMeta::from_meta(&meta).message, "fallback overwrites");
}

fn go_app() -> Application {
    Application::new(&Language::Golang).expect("configuring the Go engine")
}

const GO_ONE_BLOCK: &str = r#"package main

func main() {
	// info: failed to connect
	// connection refused by peer
	logger.Error("failed")
}
"#;

#[test]
fn go_file_yields_one_info_record() {
    let mut app = go_app();
    let mut buckets = Buckets::new(&arg_for(Language::Golang));
    app.process_file(GO_ONE_BLOCK.as_bytes(), &mut buckets)
        .expect("processing");
    assert_eq!(buckets.info.metas.len(), 1);
    assert_eq!(buckets.info.metas[0].message, "failed to connect");
    assert_eq!(buckets.info.metas[0].subject, "connection refused by peer");
    assert_eq!(buckets.debug.metas.len(), 0);
    assert_eq!(buckets.trace.metas.len(), 0);
    assert_eq!(buckets.warn.metas.len(), 0);
    assert_eq!(buckets.fatal.metas.len(), 0);
}

#[test]
fn extraction_is_idempotent() {
    // Unchanged input processed twice yields identical buckets.
    let mut app = go_app();
    let arg = arg_for(Language::Golang);
    let mut first = Buckets::new(&arg);
    let mut second = Buckets::new(&arg);
    app.process_file(GO_ONE_BLOCK.as_bytes(), &mut first).expect("first run");
    app.process_file(GO_ONE_BLOCK.as_bytes(), &mut second).expect("second run");
    assert_eq!(first.info.metas, second.info.metas);
    assert_eq!(first.debug.metas, second.debug.metas);
    assert_eq!(first.trace.metas, second.trace.metas);
    assert_eq!(first.warn.metas, second.warn.metas);
    assert_eq!(first.fatal.metas, second.fatal.metas);
}

#[test]
fn bucket_order_follows_file_then_match_order() {
    // Two files, two matches each: the bucket holds A's records then B's,
    // each file's in source order.
    let file_a = r#"package main

func a() {
	// info: first message
	// subject one
	logger.Info("x")
	x := 1
	// info: second message
	// subject two
	logger.Info("y")
	_ = x
}
"#;
    let file_b = r#"package main

func b() {
	// info: third message
	// subject three
	logger.Info("x")
	y := 2
	// info: fourth message
	// subject four
	logger.Info("y")
	_ = y
}
"#;
    let mut app = go_app();
    let mut buckets = Buckets::new(&arg_for(Language::Golang));
    app.process_file(file_a.as_bytes(), &mut buckets).expect("file a");
    app.process_file(file_b.as_bytes(), &mut buckets).expect("file b");
    let messages: Vec<&str> = buckets.info.metas.iter().map(|m| m.message.as_str()).collect();
    assert_eq!(
        messages,
        vec!["first message", "second message", "third message", "fourth message"]
    );
}

#[test]
fn two_files_two_levels_fill_both_buckets() {
    // Each file contributes one Warn and one Fatal record: both buckets
    // end with two records, whatever the order of levels within a file.
    let file_a = r#"package main

func a() {
	// warn: low disk
	// volume nearly full
	logger.Warn("disk")
	x := 1
	// fatal: corrupt state
	// cannot continue
	logger.Error("state")
	_ = x
}
"#;
    let file_b = r#"package main

func b() {
	// fatal: lost quorum
	// no majority
	logger.Error("quorum")
	y := 2
	// warn: high latency
	// responses slow
	logger.Warn("latency")
	_ = y
}
"#;
    let mut app = go_app();
    let mut buckets = Buckets::new(&arg_for(Language::Golang));
    app.process_file(file_a.as_bytes(), &mut buckets).expect("file a");
    app.process_file(file_b.as_bytes(), &mut buckets).expect("file b");
    assert_eq!(buckets.warn.metas.len(), 2);
    assert_eq!(buckets.fatal.metas.len(), 2);
    assert_eq!(buckets.info.metas.len(), 0);
    let warn_messages: Vec<&str> = buckets.warn.metas.iter().map(|m| m.message.as_str()).collect();
    assert_eq!(warn_messages, vec!["low disk", "high latency"]);
    let fatal_messages: Vec<&str> =
        buckets.fatal.metas.iter().map(|m| m.message.as_str()).collect();
    assert_eq!(fatal_messages, vec!["corrupt state", "lost quorum"]);
}

#[test]
fn python_file_uses_dash_marker() {
    let src = r#"def main():
    # TRACE: entering loop
    # loop over records
    log.trace("enter")
"#;
    let mut app = Application::new(&Language::Python).expect("configuring the Python engine");
    let mut buckets = Buckets::new(&arg_for(Language::Python));
    app.process_file(src.as_bytes(), &mut buckets).expect("processing");
    assert_eq!(buckets.trace.metas.len(), 1);
    assert_eq!(buckets.trace.metas[0].message, "entering loop");
    assert_eq!(buckets.trace.metas[0].subject, "loop over records");
}

#[test]
fn buckets_carry_project_and_level_metadata() {
    let arg = arg_for(Language::Golang);
    let buckets = Buckets::new(&arg);
    assert_eq!(buckets.info.project, "project");
    assert_eq!(buckets.info.level, "info");
    assert_eq!(buckets.info.description, Some(String::from("info docs")));
    assert_eq!(buckets.fatal.level, "fatal");
    assert_eq!(buckets.fatal.description, None);
}
