//! Typed documentation fields extracted from annotation comments, and the
//! normalization rules that produce them.
//!
//! Normalization of a captured comment follows a fixed order of trim rules:
//! comment marker, leading spaces, severity keyword, separator run, spaces.

use vstd::prelude::*;
use vstd::string::*;

use crate::language::Comment;
use crate::language::marker_spec;

verus! {

/// ASCII lower-casing of one character; everything else is untouched.
pub open spec fn lower_char(c: char) -> char {
    if 65 <= c as u32 && c as u32 <= 90 {
        (((c as u32 + 32) as u8) as char)
    } else {
        c
    }
}

/// `p` is a case-insensitive prefix of `s`.
pub open spec fn starts_with_ci(s: Seq<char>, p: Seq<char>) -> bool {
    p.len() <= s.len() && (forall|i: int| 0 <= i < p.len() ==> lower_char(s[i]) == lower_char(p[i]))
}

/// The text with its first `n` characters removed; empty when `n` exceeds it.
pub open spec fn crop(s: Seq<char>, n: int) -> Seq<char> {
    if 0 <= n <= s.len() {
        s.skip(n)
    } else {
        Seq::empty()
    }
}

/// The text with its leading run of spaces removed.
pub open spec fn trim_spaces(s: Seq<char>) -> Seq<char>
    decreases s.len(),
{
    if s.len() > 0 && s[0] == ' ' {
        trim_spaces(s.skip(1))
    } else {
        s
    }
}

/// The text with its leading run of spaces and colons removed.
pub open spec fn trim_spaces_colons(s: Seq<char>) -> Seq<char>
    decreases s.len(),
{
    if s.len() > 0 && (s[0] == ' ' || s[0] == ':') {
        trim_spaces_colons(s.skip(1))
    } else {
        s
    }
}

fn lower_char_exec(c: char) -> (r: char)
    ensures
        r == lower_char(c),
{
    let u = c as u32;
    if 65 <= u && u <= 90 {
        ((u + 32) as u8) as char
    } else {
        c
    }
}

/// Whether `p` is a case-insensitive prefix of `s`.
pub fn starts_with_ci_exec(s: &str, p: &str) -> (b: bool)
    ensures
        b == starts_with_ci(s@, p@),
{
    let slen = s.unicode_len();
    let plen = p.unicode_len();
    if plen > slen {
        return false;
    }
    let mut i: usize = 0;
    while i < plen
        invariant
            i <= plen,
            plen == p@.len(),
            plen <= s@.len(),
            forall|j: int| 0 <= j < i ==> lower_char(s@[j]) == lower_char(p@[j]),
        decreases plen - i,
    {
        if lower_char_exec(s.get_char(i)) != lower_char_exec(p.get_char(i)) {
            return false;
        }
        i += 1;
    }
    true
}

/// Removes the first `pos` characters of `s`; clears it when `pos` exceeds
/// its length.
pub fn crop_letters(s: &mut String, pos: usize)
    ensures
        final(s)@ == crop(old(s)@, pos as int),
{
    let len = s.as_str().unicode_len();
    if pos <= len {
        let r = s.as_str().substring_char(pos, len).to_owned();
        proof {
            assert(old(s)@.subrange(pos as int, len as int) =~= old(s)@.skip(pos as int));
        }
        *s = r;
    } else {
        *s = String::new();
        proof {
            assert(crop(old(s)@, pos as int) =~= Seq::<char>::empty());
        }
    }
}

/// Removes the leading run of spaces of `line`.
pub fn delete_spaces(line: &mut String)
    ensures
        final(line)@ == trim_spaces(old(line)@),
{
    loop
        invariant
            trim_spaces(line@) == trim_spaces(old(line)@),
        ensures
            line@.len() == 0 || line@[0] != ' ',
        decreases line@.len(),
    {
        if line.as_str().unicode_len() > 0 && line.as_str().get_char(0) == ' ' {
            crop_letters(line, 1);
        } else {
            break;
        }
    }
}

/// Removes the leading run of spaces and colons of `line`.
pub fn delete_spaces_dotes(line: &mut String)
    ensures
        final(line)@ == trim_spaces_colons(old(line)@),
{
    loop
        invariant
            trim_spaces_colons(line@) == trim_spaces_colons(old(line)@),
        ensures
            line@.len() == 0 || (line@[0] != ' ' && line@[0] != ':'),
        decreases line@.len(),
    {
        if line.as_str().unicode_len() > 0 {
            let c = line.as_str().get_char(0);
            if c == ' ' || c == ':' {
                crop_letters(line, 1);
            } else {
                break;
            }
        } else {
            break;
        }
    }
}

/// The severity level of one documentation record.  `Info` is the fallback
/// when no keyword is recognized.
#[derive(Debug, PartialEq, Eq, Clone, Copy, Structural)]
pub enum Level {
    Info,
    Debug,
    Trace,
    Warn,
    Fatal,
}

impl Default for Level {
    fn default() -> (r: Level)
        ensures
            r == Level::Info,
    {
        Level::Info
    }
}

/// The keyword announcing a level at the start of an annotation comment.
/// It doubles as the level's human-readable name.
pub open spec fn keyword(l: Level) -> Seq<char> {
    match l {
        Level::Info => "info"@,
        Level::Debug => "debug"@,
        Level::Trace => "trace"@,
        Level::Warn => "warn"@,
        Level::Fatal => "fatal"@,
    }
}

/// The keyword of a level followed by its separating colon, as required by
/// the strict normalizer variant.
pub open spec fn variant_spec(l: Level) -> Seq<char> {
    match l {
        Level::Info => "info:"@,
        Level::Debug => "debug:"@,
        Level::Trace => "trace:"@,
        Level::Warn => "warn:"@,
        Level::Fatal => "fatal:"@,
    }
}

/// The annotation text behind its comment marker, leading spaces dropped.
pub open spec fn severity_body(s: Seq<char>, m: Seq<char>) -> Seq<char> {
    if starts_with_ci(s, m) {
        trim_spaces(crop(s, m.len() as int))
    } else {
        trim_spaces(s)
    }
}

/// The first level, in priority order, whose keyword opens the text.
pub open spec fn matched_keyword(b: Seq<char>) -> Option<Level> {
    if starts_with_ci(b, keyword(Level::Info)) {
        Some(Level::Info)
    } else if starts_with_ci(b, keyword(Level::Debug)) {
        Some(Level::Debug)
    } else if starts_with_ci(b, keyword(Level::Trace)) {
        Some(Level::Trace)
    } else if starts_with_ci(b, keyword(Level::Warn)) {
        Some(Level::Warn)
    } else if starts_with_ci(b, keyword(Level::Fatal)) {
        Some(Level::Fatal)
    } else {
        None
    }
}

/// The level of an annotation line: the first recognized keyword, or `Info`.
pub open spec fn level_of(s: Seq<char>, m: Seq<char>) -> Level {
    match matched_keyword(severity_body(s, m)) {
        Some(l) => l,
        None => Level::Info,
    }
}

/// The message of an annotation line under the default policy: the text
/// behind the keyword and its separator run, or, when no keyword is
/// recognized, the whole text behind the marker.
pub open spec fn message_of(s: Seq<char>, m: Seq<char>) -> Seq<char> {
    let b = severity_body(s, m);
    match matched_keyword(b) {
        Some(l) => trim_spaces_colons(crop(b, keyword(l).len() as int)),
        None => b,
    }
}

impl Level {
    /// The level's keyword-plus-colon forms recognized by the strict
    /// normalizer variant.
    pub fn variants(&self) -> (r: Vec<&'static str>)
        ensures
            r@.len() == 1,
            r@[0]@ == variant_spec(*self),
    {
        match self {
            Level::Info => vec!["info:"],
            Level::Debug => vec!["debug:"],
            Level::Trace => vec!["trace:"],
            Level::Warn => vec!["warn:"],
            Level::Fatal => vec!["fatal:"],
        }
    }

    /// The level's human-readable name.
    pub fn name(&self) -> (r: &'static str)
        ensures
            r@ == keyword(*self),
    {
        match self {
            Level::Info => "info",
            Level::Debug => "debug",
            Level::Trace => "trace",
            Level::Warn => "warn",
            Level::Fatal => "fatal",
        }
    }

    /// Reads the severity level out of one annotation line.
    pub fn from_line(line: &str, comment: &Comment) -> (l: Level)
        ensures
            l == level_of(line@, marker_spec(*comment)),
    {
        let marker = comment.marker();
        let mut b = line.to_owned();
        if starts_with_ci_exec(line, marker) {
            crop_letters(&mut b, marker.unicode_len());
        }
        delete_spaces(&mut b);
        if starts_with_ci_exec(b.as_str(), "info") {
            Level::Info
        } else if starts_with_ci_exec(b.as_str(), "debug") {
            Level::Debug
        } else if starts_with_ci_exec(b.as_str(), "trace") {
            Level::Trace
        } else if starts_with_ci_exec(b.as_str(), "warn") {
            Level::Warn
        } else if starts_with_ci_exec(b.as_str(), "fatal") {
            Level::Fatal
        } else {
            Level::Info
        }
    }
}

proof fn lemma_trim_spaces_prepend(n: nat, x: Seq<char>)
    ensures
        trim_spaces(Seq::new(n, |i: int| ' ') + x) == trim_spaces(x),
    decreases n,
{
    let sp = Seq::new(n, |i: int| ' ');
    if n == 0 {
        assert(sp + x =~= x);
    } else {
        assert((sp + x)[0] == ' ');
        assert((sp + x).skip(1) =~= Seq::new((n - 1) as nat, |i: int| ' ') + x);
        lemma_trim_spaces_prepend((n - 1) as nat, x);
    }
}

/// Law: an annotation line made of a comment marker, a run of spaces, any
/// casing of a level's keyword and an arbitrary tail resolves to that
/// level, whatever the casing and whether or not a colon follows the
/// keyword.
pub proof fn lemma_severity_recognized(c: Comment, l: Level, v: Seq<char>, n: nat, t: Seq<char>)
    requires
        v.len() == keyword(l).len(),
        forall|i: int| 0 <= i < v.len() ==> lower_char(#[trigger] v[i]) == keyword(l)[i],
    ensures
        level_of(marker_spec(c) + Seq::new(n, |i: int| ' ') + v + t, marker_spec(c)) == l,
{
    reveal_strlit("info");
    reveal_strlit("debug");
    reveal_strlit("trace");
    reveal_strlit("warn");
    reveal_strlit("fatal");
    let m = marker_spec(c);
    let sp = Seq::new(n, |i: int| ' ');
    let s = m + sp + v + t;
    let b = v + t;
    assert forall|i: int| 0 <= i < m.len() implies lower_char(#[trigger] s[i]) == lower_char(
        m[i],
    ) by {
        assert(s[i] == m[i]);
    }
    assert(starts_with_ci(s, m));
    assert(crop(s, m.len() as int) =~= sp + b);
    lemma_trim_spaces_prepend(n, b);
    assert(v.len() > 0);
    assert(lower_char(v[0]) == keyword(l)[0]);
    assert(keyword(l)[0] != ' ');
    assert(b[0] == v[0]);
    assert(b[0] != ' ');
    assert(trim_spaces(b) == b);
    assert(severity_body(s, m) == b);
    assert forall|i: int| 0 <= i < keyword(l).len() implies lower_char(#[trigger] b[i])
        == lower_char(keyword(l)[i]) by {
        assert(b[i] == v[i]);
    }
    assert(starts_with_ci(b, keyword(l)));
    assert(lower_char(b[0]) == keyword(l)[0]);
    match l {
        Level::Info => {},
        Level::Debug => {
            assert(!starts_with_ci(b, keyword(Level::Info)));
        },
        Level::Trace => {
            assert(!starts_with_ci(b, keyword(Level::Info)));
            assert(!starts_with_ci(b, keyword(Level::Debug)));
        },
        Level::Warn => {
            assert(!starts_with_ci(b, keyword(Level::Info)));
            assert(!starts_with_ci(b, keyword(Level::Debug)));
            assert(!starts_with_ci(b, keyword(Level::Trace)));
        },
        Level::Fatal => {
            assert(!starts_with_ci(b, keyword(Level::Info)));
            assert(!starts_with_ci(b, keyword(Level::Debug)));
            assert(!starts_with_ci(b, keyword(Level::Trace)));
            assert(!starts_with_ci(b, keyword(Level::Warn)));
        },
    }
    assert(matched_keyword(b) == Some(l));
}

/// Law: a line in which no severity keyword follows the marker resolves to
/// the fallback level, and its message keeps the unrecognized text behind
/// the marker verbatim, nothing consumed.
pub proof fn lemma_default_info(s: Seq<char>, c: Comment)
    requires
        matched_keyword(severity_body(s, marker_spec(c))) is None,
    ensures
        level_of(s, marker_spec(c)) == Level::Info,
        message_of(s, marker_spec(c)) == severity_body(s, marker_spec(c)),
{
}

/// The subject (or description) text of an annotation line: the text behind
/// the comment marker, leading spaces dropped; a line without the marker is
/// kept whole.
pub open spec fn subject_of(s: Seq<char>, m: Seq<char>) -> Seq<char> {
    if starts_with_ci(s, m) {
        trim_spaces(crop(s, m.len() as int))
    } else {
        s
    }
}

/// The message under the strict normalizer variant: the marker must open the
/// line and the level's keyword-plus-colon must follow the separator run,
/// else the annotation is rejected.
pub open spec fn strict_message_of(s: Seq<char>, m: Seq<char>) -> Option<Seq<char>> {
    if starts_with_ci(s, m) {
        let a = trim_spaces_colons(crop(s, m.len() as int));
        let v = variant_spec(level_of(s, m));
        if starts_with_ci(a, v) {
            Some(trim_spaces_colons(crop(a, v.len() as int)))
        } else {
            None
        }
    } else {
        None
    }
}

/// The text with one trailing line feed dropped.
pub open spec fn chop_newline(s: Seq<char>) -> Seq<char> {
    if s.len() > 0 && s[s.len() - 1] == '\n' {
        s.take(s.len() - 1)
    } else {
        s
    }
}

/// The text with every line feed replaced by an explicit line-break tag, so
/// that it can stand inside a single table cell.
pub open spec fn br_escaped(s: Seq<char>) -> Seq<char>
    decreases s.len(),
{
    if s.len() == 0 {
        Seq::empty()
    } else {
        br_escaped(s.drop_last()) + (if s.last() == '\n' {
            "<br/>"@
        } else {
            seq![s.last()]
        })
    }
}

/// The message field of a record: what remains of the severity-bearing
/// comment once marker, keyword and separators are stripped.
#[derive(Debug, PartialEq, Eq, Clone)]
pub struct Message(pub String);

/// The subject field of a record: the one-line summary comment.
#[derive(Debug, PartialEq, Eq, Clone)]
pub struct Subject(pub String);

/// The description field of a record: the concatenated elaboration comments.
#[derive(Debug, PartialEq, Eq, Clone)]
pub struct Description(pub String);

impl Default for Message {
    fn default() -> (r: Message)
        ensures
            r.0@ == Seq::<char>::empty(),
    {
        Message(String::new())
    }
}

impl Default for Subject {
    fn default() -> (r: Subject)
        ensures
            r.0@ == Seq::<char>::empty(),
    {
        Subject(String::new())
    }
}

impl Default for Description {
    fn default() -> (r: Description)
        ensures
            r.0@ == Seq::<char>::empty(),
    {
        Description(String::new())
    }
}

impl Message {
    /// Normalizes the severity-bearing comment into a message under the
    /// default policy: an unrecognized keyword is kept verbatim.
    pub fn from_line(line: &str, comment: &Comment) -> (r: Message)
        ensures
            r.0@ == message_of(line@, marker_spec(*comment)),
    {
        let marker = comment.marker();
        let mut b = line.to_owned();
        if starts_with_ci_exec(line, marker) {
            crop_letters(&mut b, marker.unicode_len());
        }
        delete_spaces(&mut b);
        let kw: Option<&'static str> = if starts_with_ci_exec(b.as_str(), "info") {
            Some("info")
        } else if starts_with_ci_exec(b.as_str(), "debug") {
            Some("debug")
        } else if starts_with_ci_exec(b.as_str(), "trace") {
            Some("trace")
        } else if starts_with_ci_exec(b.as_str(), "warn") {
            Some("warn")
        } else if starts_with_ci_exec(b.as_str(), "fatal") {
            Some("fatal")
        } else {
            None
        };
        match kw {
            Some(k) => {
                crop_letters(&mut b, k.unicode_len());
                delete_spaces_dotes(&mut b);
                Message(b)
            },
            None => Message(b),
        }
    }

    /// Normalizes the severity-bearing comment under the strict variant,
    /// rejecting an annotation whose keyword-plus-colon form is missing.
    pub fn try_from_line(line: &str, comment: &Comment) -> (r: Result<Message, &'static str>)
        ensures
            match strict_message_of(line@, marker_spec(*comment)) {
                Some(t) => r is Ok && r->Ok_0.0@ == t,
                None => r is Err && r->Err_0@ == "unexpected"@,
            },
    {
        let marker = comment.marker();
        if !starts_with_ci_exec(line, marker) {
            return Err("unexpected");
        }
        let mut b = line.to_owned();
        crop_letters(&mut b, marker.unicode_len());
        delete_spaces_dotes(&mut b);
        let level = Level::from_line(line, comment);
        let vars = level.variants();
        let v = vars[0];
        if starts_with_ci_exec(b.as_str(), v) {
            crop_letters(&mut b, v.unicode_len());
            delete_spaces_dotes(&mut b);
            Ok(Message(b))
        } else {
            Err("unexpected")
        }
    }

    /// The message as rendered: one trailing line feed dropped.
    pub fn format(&self) -> (r: String)
        ensures
            r@ == chop_newline(self.0@),
    {
        chop_newline_exec(&self.0)
    }
}

impl Subject {
    /// Normalizes a subject comment: the marker and the leading spaces are
    /// stripped, the rest is kept verbatim.
    pub fn from_line(line: &str, comment: &Comment) -> (r: Subject)
        ensures
            r.0@ == subject_of(line@, marker_spec(*comment)),
    {
        Subject(strip_marker(line, comment))
    }

    /// The subject as rendered: one trailing line feed dropped.
    pub fn format(&self) -> (r: String)
        ensures
            r@ == chop_newline(self.0@),
    {
        chop_newline_exec(&self.0)
    }
}

impl Description {
    /// Normalizes a description comment: the marker and the leading spaces
    /// are stripped, the rest is kept verbatim.
    pub fn from_line(line: &str, comment: &Comment) -> (r: Description)
        ensures
            r.0@ == subject_of(line@, marker_spec(*comment)),
    {
        Description(strip_marker(line, comment))
    }

    /// The description as rendered: one trailing line feed dropped, every
    /// remaining line feed replaced by a line-break tag.
    pub fn format(&self) -> (r: String)
        ensures
            r@ == br_escaped(chop_newline(self.0@)),
    {
        let chopped = chop_newline_exec(&self.0);
        let s = chopped.as_str();
        let len = s.unicode_len();
        let mut out = String::new();
        let mut i: usize = 0;
        while i < len
            invariant
                i <= len,
                len == s@.len(),
                out@ == br_escaped(s@.take(i as int)),
        decreases len - i,
        {
            let c = s.get_char(i);
            if c == '\n' {
                out.append("<br/>");
            } else {
                out.append(s.substring_char(i, i + 1));
            }
            proof {
                assert(s@.take(i + 1).drop_last() =~= s@.take(i as int));
                assert(s@.take(i + 1).last() == s@[i as int]);
                assert(s@.subrange(i as int, i + 1) =~= seq![s@[i as int]]);
            }
            i += 1;
        }
        proof {
            assert(s@.take(len as int) =~= s@);
        }
        out
    }
}

/// The semantic role of one captured span within a match.
#[derive(Debug, Clone, Copy, PartialEq, Eq, Structural)]
pub enum Typo {
    Level,
    Subject,
    Description,
}

impl Default for Typo {
    fn default() -> (r: Typo)
        ensures
            r == Typo::Level,
    {
        Typo::Level
    }
}

/// The role assigned to a raw capture index, falling back to the severity
/// role on an unexpected index.
pub open spec fn typo_of(value: u32) -> Typo {
    if value == 1 {
        Typo::Subject
    } else if value == 2 {
        Typo::Description
    } else {
        Typo::Level
    }
}

impl Typo {
    /// Maps the pattern engine's capture index to a role; an unmapped index
    /// falls back to the severity role.
    pub fn from_index(value: u32) -> (t: Typo)
        ensures
            t == typo_of(value),
    {
        match value {
            0 => Typo::Level,
            1 => Typo::Subject,
            2 => Typo::Description,
            _ => Typo::Level,
        }
    }

    /// Maps a capture index to a role, failing loudly on an unmapped index
    /// instead of defaulting.
    pub fn try_from_index(value: u32) -> (r: Option<Typo>)
        ensures
            value <= 2 ==> r == Some(typo_of(value)),
            value > 2 ==> r is None,
    {
        match value {
            0 => Some(Typo::Level),
            1 => Some(Typo::Subject),
            2 => Some(Typo::Description),
            _ => None,
        }
    }
}

/// One captured span: its role and its zero-based (row, column) start and
/// end coordinates, the end column inclusive by the engine's convention.
#[derive(Debug, Clone, Copy)]
pub struct Pos {
    pub typo: Typo,
    pub start: (u32, u32),
    pub end: (u32, u32),
}

impl crate::files::WalkInPosition for Pos {
    open spec fn line_start_spec(&self) -> usize {
        self.start.0 as usize
    }

    open spec fn line_end_spec(&self) -> usize {
        self.end.0 as usize
    }

    open spec fn pos_start_spec(&self) -> usize {
        self.start.1 as usize
    }

    open spec fn pos_end_spec(&self) -> usize {
        self.end.1 as usize
    }

    fn line_start(&self) -> usize {
        self.start.0 as usize
    }

    fn line_end(&self) -> usize {
        self.end.0 as usize
    }

    fn pos_start(&self) -> usize {
        self.start.1 as usize
    }

    fn pos_end(&self) -> usize {
        self.end.1 as usize
    }
}

/// The coordinates a raw capture stands for, with its index mapped to a
/// role.
pub open spec fn capture_pos(c: crate::extract::RawCapture) -> Pos {
    Pos { typo: typo_of(c.index), start: (c.start_row, c.start_col), end: (c.end_row, c.end_col) }
}

impl Pos {
    /// Reads one raw capture of the pattern engine into a span.
    pub fn from_capture(c: &crate::extract::RawCapture) -> (r: Pos)
        ensures
            r == capture_pos(*c),
    {
        Pos {
            typo: Typo::from_index(c.index),
            start: (c.start_row, c.start_col),
            end: (c.end_row, c.end_col),
        }
    }
}

/// One normalized documentation record, assembled from a single match.
#[derive(Debug)]
pub struct Meta {
    pub level: Level,
    pub message: Message,
    pub subject: Subject,
    pub description: Description,
}

/// The mathematical value of one record.
pub ghost struct MetaV {
    pub level: Level,
    pub message: Seq<char>,
    pub subject: Seq<char>,
    pub description: Seq<char>,
}

impl View for Meta {
    type V = MetaV;

    open spec fn view(&self) -> MetaV {
        MetaV {
            level: self.level,
            message: self.message.0@,
            subject: self.subject.0@,
            description: self.description.0@,
        }
    }
}

impl Default for Meta {
    fn default() -> (r: Meta)
        ensures
            r.level == Level::Info,
            r.message.0@ == Seq::<char>::empty(),
            r.subject.0@ == Seq::<char>::empty(),
            r.description.0@ == Seq::<char>::empty(),
    {
        Meta {
            level: Level::Info,
            message: Message(String::new()),
            subject: Subject(String::new()),
            description: Description(String::new()),
        }
    }
}

/// Strips the comment marker and the leading spaces off one captured line.
fn strip_marker(line: &str, comment: &Comment) -> (r: String)
    ensures
        r@ == subject_of(line@, marker_spec(*comment)),
{
    let marker = comment.marker();
    let mut b = line.to_owned();
    if starts_with_ci_exec(line, marker) {
        crop_letters(&mut b, marker.unicode_len());
        delete_spaces(&mut b);
    }
    b
}

/// Drops one trailing line feed off the text.
fn chop_newline_exec(s: &String) -> (r: String)
    ensures
        r@ == chop_newline(s@),
{
    let len = s.as_str().unicode_len();
    if len > 0 && s.as_str().get_char(len - 1) == '\n' {
        s.as_str().substring_char(0, len - 1).to_owned()
    } else {
        s.clone()
    }
}

} // verus!
