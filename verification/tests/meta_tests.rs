use logdoc::language::Comment;
use logdoc::meta::Description;
use logdoc::meta::Level;
use logdoc::meta::Message;
use logdoc::meta::Subject;
use logdoc::meta::Typo;

#[test]
fn check_level_from_string() {
    let comments = vec![Comment::Slash, Comment::Dash];
    let variants: Vec<(Level, Vec<&'static str>)> = vec![
        (Level::Info, Level::Info.variants()),
        (Level::Debug, Level::Debug.variants()),
        (Level::Trace, Level::Trace.variants()),
        (Level::Warn, Level::Warn.variants()),
        (Level::Fatal, Level::Fatal.variants()),
    ];
    for (l, vs) in variants {
        for comment in &comments {
            for v in &vs {
                let st = format!("{} {} message", comment.marker(), v);
                let cur_level = Level::from_line(&st, comment);
                assert_eq!(l, cur_level);
            }
        }
    }
}

#[test]
fn check_from() {
    let comments = Comment::variants();
    let variants: Vec<&'static str> = vec![
        Level::Info.variants(),
        Level::Debug.variants(),
        Level::Trace.variants(),
        Level::Warn.variants(),
        Level::Fatal.variants(),
    ]
    .into_iter()
    .flatten()
    .collect();

    let relevant_str = "test message";
    let relevant_message = Message(String::from(relevant_str));
    let relevant_subject = Subject(String::from(relevant_str));
    let relevant_desc = Description(String::from(relevant_str));

    for variant in variants {
        for comment in &comments {
            let s = format!("{} {} {}", comment.marker(), variant, relevant_str);
            let m = Message::try_from_line(&s, comment).unwrap();
            assert_eq!(relevant_message, m);
        }
    }
    for comment in &comments {
        let txt = format!("{} {}", comment.marker(), relevant_str);
        let s = Subject::from_line(&txt, comment);
        let d = Description::from_line(&txt, comment);
        assert_eq!(relevant_subject, s);
        assert_eq!(relevant_desc, d);
    }
}

#[test]
fn check_message_from_string() {
    let relevant = "test Message";
    let msgrelevant = Message(relevant.to_owned());

    {
        let i1 = format!("// info: {}", relevant);
        let m1 = Message::try_from_line(&i1, &Comment::Slash).unwrap();
        assert_eq!(msgrelevant, m1);
    }
    {
        let d1 = format!("//debug: {}", relevant);
        let d2 = format!("// Debug: {}", relevant);
        let m1 = Message::try_from_line(&d1, &Comment::Slash).unwrap();
        let m2 = Message::try_from_line(&d2, &Comment::Slash).unwrap();
        assert_eq!(msgrelevant, m1);
        assert_eq!(msgrelevant, m2);
    }
    {
        let t2 = format!("//trace: {}", relevant);
        let m2 = Message::try_from_line(&t2, &Comment::Slash).unwrap();
        assert_eq!(msgrelevant, m2);
    }
    {
        let w2 = format!("//warn:{}", relevant);
        let m2 = Message::try_from_line(&w2, &Comment::Slash).unwrap();
        assert_eq!(msgrelevant, m2);
    }
    {
        let w1 = format!("# TRACE: {}", relevant);
        let m1 = Message::try_from_line(&w1, &Comment::Dash).unwrap();
        assert_eq!(msgrelevant, m1);
    }
    {
        let f1 = format!("# FATAL: {}", relevant);
        let m1 = Message::try_from_line(&f1, &Comment::Dash).unwrap();
        assert_eq!(msgrelevant, m1);
    }
    {
        let e1 = format!("# info : {}", relevant);
        let m = Message::try_from_line(&e1, &Comment::Dash);
        assert_eq!(Err("unexpected"), m);
    }
}

#[test]
fn level_keyword_any_casing_with_or_without_colon() {
    // Recognition does not depend on the keyword's casing nor on a colon
    // following it.
    assert_eq!(Level::from_line("// WARN something", &Comment::Slash), Level::Warn);
    assert_eq!(Level::from_line("// wArN: something", &Comment::Slash), Level::Warn);
    assert_eq!(Level::from_line("# FATAL", &Comment::Dash), Level::Fatal);
    assert_eq!(Level::from_line("# fatal: x", &Comment::Dash), Level::Fatal);
    assert_eq!(Level::from_line("//DEBUG tail", &Comment::Slash), Level::Debug);
    assert_eq!(Level::from_line("#   TrAcE: y", &Comment::Dash), Level::Trace);
    assert_eq!(Level::from_line("// INFO", &Comment::Slash), Level::Info);
}

#[test]
fn level_defaults_to_info_without_keyword() {
    assert_eq!(Level::from_line("// oops: something", &Comment::Slash), Level::Info);
    assert_eq!(Level::from_line("# no level here", &Comment::Dash), Level::Info);
    assert_eq!(Level::from_line("", &Comment::Slash), Level::Info);
    assert_eq!(Level::from_line("//", &Comment::Slash), Level::Info);
}

#[test]
fn message_keeps_unrecognized_keyword_verbatim() {
    // Default policy: nothing beyond the marker is consumed when no
    // keyword is recognized.
    let m = Message::from_line("// oops: something", &Comment::Slash);
    assert_eq!(m, Message(String::from("oops: something")));
    let l = Level::from_line("// oops: something", &Comment::Slash);
    assert_eq!(l, Level::Info);
}

#[test]
fn message_strips_keyword_and_separator() {
    let m = Message::from_line("// info: failed to connect", &Comment::Slash);
    assert_eq!(m, Message(String::from("failed to connect")));
    let m = Message::from_line("# WARN:   spaced out", &Comment::Dash);
    assert_eq!(m, Message(String::from("spaced out")));
    let m = Message::from_line("// debug no colon", &Comment::Slash);
    assert_eq!(m, Message(String::from("no colon")));
}

#[test]
fn strict_message_rejects_spaced_colon() {
    let m = Message::try_from_line("# info : spaced", &Comment::Dash);
    assert_eq!(Err("unexpected"), m);
    let m = Message::try_from_line("no marker info: x", &Comment::Slash);
    assert_eq!(Err("unexpected"), m);
    let m = Message::try_from_line("// warn without colon", &Comment::Slash);
    assert_eq!(Err("unexpected"), m);
}

#[test]
fn subject_strips_marker_and_spaces_only() {
    let s = Subject::from_line("//   kept text  ", &Comment::Slash);
    assert_eq!(s, Subject(String::from("kept text  ")));
    let s = Subject::from_line("no marker", &Comment::Slash);
    assert_eq!(s, Subject(String::from("no marker")));
}

#[test]
fn format_drops_one_trailing_newline() {
    let m = Message(String::from("hello\n"));
    assert_eq!(m.format(), "hello");
    let m = Message(String::from("hello"));
    assert_eq!(m.format(), "hello");
    let s = Subject(String::from("subj\n\n"));
    assert_eq!(s.format(), "subj\n");
}

#[test]
fn description_format_replaces_newlines_with_breaks() {
    let d = Description(String::from("one\ntwo\nthree\n"));
    assert_eq!(d.format(), "one<br/>two<br/>three");
    let d = Description(String::from("plain"));
    assert_eq!(d.format(), "plain");
    let d = Description(String::from(""));
    assert_eq!(d.format(), "");
}

#[test]
fn typo_mapping_and_fallback() {
    assert_eq!(Typo::from_index(0), Typo::Level);
    assert_eq!(Typo::from_index(1), Typo::Subject);
    assert_eq!(Typo::from_index(2), Typo::Description);
    assert_eq!(Typo::from_index(7), Typo::Level);
    assert_eq!(Typo::try_from_index(2), Some(Typo::Description));
    assert_eq!(Typo::try_from_index(3), None);
}
