//! The pipeline: for each file, run the structural pattern, resolve every
//! capture, normalize it into a record, and route the record into the
//! bucket of its severity level.
//!
//! Everything from the engine's raw captures onward is a function of the
//! file's bytes and those captures alone; the per-level buckets only ever
//! grow at the end, in encounter order.

use vstd::prelude::*;
use vstd::string::*;

use crate::args::Arg;
use crate::extract::ConfigError;
use crate::extract::FileError;
use crate::extract::RawCapture;
use crate::extract::ts_parser_new;
use crate::extract::ts_parser_parse;
use crate::extract::ts_parser_set_language;
use crate::extract::ts_query_new;
use crate::extract::ts_run_query;
use crate::files::locate_spec;
use crate::files::lossy_decode;
use crate::files::search_in_file_dyn;
use crate::files::utf8_lossy;
use crate::language::Comment;
use crate::language::Language;
use crate::language::comment_spec;
use crate::language::marker_spec;
use crate::language::selected_spec;
use crate::meta::Description;
use crate::meta::Level;
use crate::meta::Message;
use crate::meta::Meta;
use crate::meta::MetaV;
use crate::meta::Pos;
use crate::meta::Subject;
use crate::meta::Typo;
use crate::meta::capture_pos;
use crate::meta::level_of;
use crate::meta::message_of;
use crate::meta::subject_of;
use crate::meta::typo_of;
use crate::template::Row;
use crate::template::TemplateData;
use crate::template::TemplateMeta;
use crate::template::row_of_meta;
use crate::template::rows;

verus! {

/// The text one capture resolves to: the located bytes, decoded.
pub open spec fn capture_text(bytes: Seq<u8>, c: RawCapture) -> Seq<char> {
    lossy_decode(
        locate_spec(
            bytes,
            c.start_row as int,
            c.end_row as int,
            c.start_col as int,
            c.end_col as int,
        ),
    )
}

/// One capture folded into a record under construction: the severity
/// capture sets level and message, the subject capture the subject, and
/// each description capture is normalized once and appended to the
/// description with no added separator, in capture order.
pub open spec fn meta_step(m: MetaV, bytes: Seq<u8>, c: RawCapture, marker: Seq<char>) -> MetaV {
    let text = capture_text(bytes, c);
    match typo_of(c.index) {
        Typo::Level => MetaV {
            level: level_of(text, marker),
            message: message_of(text, marker),
            ..m
        },
        Typo::Subject => MetaV { subject: subject_of(text, marker), ..m },
        Typo::Description => MetaV { description: m.description + subject_of(text, marker), ..m },
    }
}

/// The record one match's captures normalize to, folded in capture order
/// over a default record.
pub open spec fn meta_fold(bytes: Seq<u8>, caps: Seq<RawCapture>, marker: Seq<char>) -> MetaV
    decreases caps.len(),
{
    if caps.len() == 0 {
        MetaV {
            level: Level::Info,
            message: Seq::<char>::empty(),
            subject: Seq::<char>::empty(),
            description: Seq::<char>::empty(),
        }
    } else {
        meta_step(meta_fold(bytes, caps.drop_last(), marker), bytes, caps.last(), marker)
    }
}

/// The records of a whole file, one per match, in match order.
pub open spec fn metas_spec(bytes: Seq<u8>, ms: Seq<Seq<RawCapture>>, marker: Seq<char>) -> Seq<
    MetaV,
> {
    ms.map(|i: int, caps: Seq<RawCapture>| meta_fold(bytes, caps, marker))
}

/// Normalizes one match: resolves each captured span against the raw bytes
/// and folds it into the record by its role.
pub fn meta_from_match(bytes: &[u8], caps: &Vec<RawCapture>, comment: &Comment) -> (r: Meta)
    ensures
        r@ == meta_fold(bytes@, caps@, marker_spec(*comment)),
{
    let mut m = Meta::default();
    let mut i: usize = 0;
    while i < caps.len()
        invariant
            i <= caps@.len(),
            m@ == meta_fold(bytes@, caps@.take(i as int), marker_spec(*comment)),
        decreases caps@.len() - i,
    {
        let cap = caps[i];
        let pos = Pos::from_capture(&cap);
        let text_bytes = search_in_file_dyn(bytes, &pos);
        let data = utf8_lossy(text_bytes.as_slice());
        match pos.typo {
            Typo::Level => {
                m.level = Level::from_line(data.as_str(), comment);
                m.message = Message::from_line(data.as_str(), comment);
            },
            Typo::Subject => {
                m.subject = Subject::from_line(data.as_str(), comment);
            },
            Typo::Description => {
                let d = Description::from_line(data.as_str(), comment);
                m.description.0.append(d.0.as_str());
            },
        }
        proof {
            assert(caps@.take(i + 1).drop_last() =~= caps@.take(i as int));
            assert(caps@.take(i + 1).last() == caps@[i as int]);
        }
        i += 1;
    }
    proof {
        assert(caps@.take(caps@.len() as int) =~= caps@);
    }
    m
}

/// Normalizes every match of one file, in match order.
pub fn metas_from_file(bytes: &[u8], matches: &Vec<Vec<RawCapture>>, comment: &Comment) -> (r: Vec<
    Meta,
>)
    ensures
        r@.len() == matches@.len(),
        forall|i: int|
            0 <= i < r@.len() ==> (#[trigger] r@[i])@ == meta_fold(
                bytes@,
                matches@[i]@,
                marker_spec(*comment),
            ),
{
    let mut out: Vec<Meta> = Vec::new();
    let mut i: usize = 0;
    while i < matches.len()
        invariant
            i <= matches@.len(),
            out@.len() == i,
            forall|j: int|
                0 <= j < i ==> (#[trigger] out@[j])@ == meta_fold(
                    bytes@,
                    matches@[j]@,
                    marker_spec(*comment),
                ),
        decreases matches@.len() - i,
    {
        let m = meta_from_match(bytes, &matches[i], comment);
        out.push(m);
        i += 1;
    }
    out
}

/// The row a record's mathematical value renders to.
pub open spec fn row_of_v(m: MetaV) -> Row {
    Row {
        message: crate::meta::chop_newline(m.message),
        subject: crate::meta::chop_newline(m.subject),
        description: crate::meta::br_escaped(crate::meta::chop_newline(m.description)),
    }
}

/// The rows that records of level `l` contribute, in record order.
pub open spec fn routed_rows(ms: Seq<MetaV>, l: Level) -> Seq<Row>
    decreases ms.len(),
{
    if ms.len() == 0 {
        Seq::empty()
    } else {
        routed_rows(ms.drop_last(), l) + (if ms.last().level == l {
            seq![row_of_v(ms.last())]
        } else {
            Seq::empty()
        })
    }
}

/// Law: records route independently match by match, so the rows of a
/// concatenation are the rows of its parts, in order.  In particular, with
/// one file's records appended after another's, every level's bucket holds
/// the first file's rows, in order, then the second's.
pub proof fn lemma_routed_rows_concat(a: Seq<MetaV>, b: Seq<MetaV>, l: Level)
    ensures
        routed_rows(a + b, l) == routed_rows(a, l) + routed_rows(b, l),
    decreases b.len(),
{
    if b.len() == 0 {
        assert(a + b =~= a);
        assert(routed_rows(a, l) + routed_rows(b, l) =~= routed_rows(a, l));
    } else {
        lemma_routed_rows_concat(a, b.drop_last(), l);
        assert((a + b).drop_last() =~= a + b.drop_last());
        assert((a + b).last() == b.last());
        assert(routed_rows(a, l) + (routed_rows(b.drop_last(), l) + (if b.last().level == l {
            seq![row_of_v(b.last())]
        } else {
            Seq::<Row>::empty()
        })) =~= (routed_rows(a, l) + routed_rows(b.drop_last(), l)) + (if b.last().level == l {
            seq![row_of_v(b.last())]
        } else {
            Seq::<Row>::empty()
        }));
    }
}

/// One bucket per severity level, each holding its document's metadata and
/// its ordered rows.
#[derive(Debug)]
pub struct Buckets {
    pub info: TemplateData,
    pub debug: TemplateData,
    pub trace: TemplateData,
    pub warn: TemplateData,
    pub fatal: TemplateData,
}

/// The bucket a level's records are collected in.
pub open spec fn bucket_of(b: Buckets, l: Level) -> TemplateData {
    match l {
        Level::Info => b.info,
        Level::Debug => b.debug,
        Level::Trace => b.trace,
        Level::Warn => b.warn,
        Level::Fatal => b.fatal,
    }
}

/// The ordered rows a level's bucket holds.
pub open spec fn bucket_rows(b: Buckets, l: Level) -> Seq<Row> {
    rows(bucket_of(b, l))
}

/// The static description configured for a level's document.
pub open spec fn desc_of(arg: Arg, l: Level) -> Option<String> {
    match l {
        Level::Info => arg.info_desc,
        Level::Debug => arg.debug_desc,
        Level::Trace => arg.trace_desc,
        Level::Warn => arg.warn_desc,
        Level::Fatal => arg.fatal_desc,
    }
}

/// The per-document metadata of two bucket collections agrees level by
/// level.
pub open spec fn same_metadata(b1: Buckets, b2: Buckets) -> bool {
    forall|l: Level|
        #![auto]
        bucket_of(b1, l).project == bucket_of(b2, l).project && bucket_of(b1, l).level == bucket_of(
            b2,
            l,
        ).level && bucket_of(b1, l).description == bucket_of(b2, l).description && bucket_of(
            b1,
            l,
        ).msg_tbl_header == bucket_of(b2, l).msg_tbl_header && bucket_of(b1, l).subj_tbl_header
            == bucket_of(b2, l).subj_tbl_header && bucket_of(b1, l).desc_tbl_header == bucket_of(
            b2,
            l,
        ).desc_tbl_header
}

impl Buckets {
    /// One empty bucket per level, carrying the configured project name and
    /// the level's static description.
    pub fn new(arg: &Arg) -> (r: Buckets)
        ensures
            forall|l: Level| #![auto] bucket_rows(r, l) == Seq::<Row>::empty(),
            forall|l: Level|
                #![auto]
                bucket_of(r, l).project@ == arg.project_name@ && bucket_of(r, l).level@
                    == crate::meta::keyword(l) && bucket_of(r, l).description == desc_of(*arg, l),
    {
        Buckets {
            info: TemplateData::new(arg.project_name.as_str(), Level::Info, &arg.info_desc),
            debug: TemplateData::new(arg.project_name.as_str(), Level::Debug, &arg.debug_desc),
            trace: TemplateData::new(arg.project_name.as_str(), Level::Trace, &arg.trace_desc),
            warn: TemplateData::new(arg.project_name.as_str(), Level::Warn, &arg.warn_desc),
            fatal: TemplateData::new(arg.project_name.as_str(), Level::Fatal, &arg.fatal_desc),
        }
    }

    /// Routes one record into the bucket of its level: that bucket gains
    /// the record's row at its end, every other bucket is untouched.
    pub fn route(&mut self, m: &Meta)
        ensures
            forall|l: Level|
                #![auto]
                bucket_rows(*final(self), l) == if l == m.level {
                    bucket_rows(*old(self), l).push(row_of_meta(*m))
                } else {
                    bucket_rows(*old(self), l)
                },
            same_metadata(*final(self), *old(self)),
    {
        let tm = TemplateMeta::from_meta(m);
        match m.level {
            Level::Info => self.info.add_meta(tm),
            Level::Debug => self.debug.add_meta(tm),
            Level::Trace => self.trace.add_meta(tm),
            Level::Warn => self.warn.add_meta(tm),
            Level::Fatal => self.fatal.add_meta(tm),
        }
    }
}

/// Every level's bucket of `new_b` extends its bucket of `old_b` by exactly
/// the rows that the matches `ms` of a file with bytes `bytes` contribute,
/// in match order.
pub open spec fn file_appended(
    old_b: Buckets,
    new_b: Buckets,
    bytes: Seq<u8>,
    ms: Seq<Seq<RawCapture>>,
    marker: Seq<char>,
) -> bool {
    forall|l: Level|
        #![auto]
        bucket_rows(new_b, l) == bucket_rows(old_b, l) + routed_rows(
            metas_spec(bytes, ms, marker),
            l,
        )
}

/// Law: the pipeline downstream of the pattern engine is deterministic.
/// Two runs over the same starting buckets, bytes, matches and marker
/// leave every level's bucket with identical rows: no ordering or content
/// may differ between runs.
pub proof fn lemma_pipeline_deterministic(
    b0: Buckets,
    b1: Buckets,
    b2: Buckets,
    bytes: Seq<u8>,
    ms: Seq<Seq<RawCapture>>,
    marker: Seq<char>,
)
    requires
        file_appended(b0, b1, bytes, ms, marker),
        file_appended(b0, b2, bytes, ms, marker),
    ensures
        forall|l: Level| #![auto] bucket_rows(b1, l) == bucket_rows(b2, l),
{
}

/// Law: processing file A and then file B leaves, in every level's bucket,
/// exactly A's rows of that level, in A's match order, followed by B's, in
/// B's match order.
pub proof fn lemma_file_order(
    b0: Buckets,
    b1: Buckets,
    b2: Buckets,
    bytes_a: Seq<u8>,
    ms_a: Seq<Seq<RawCapture>>,
    bytes_b: Seq<u8>,
    ms_b: Seq<Seq<RawCapture>>,
    marker: Seq<char>,
)
    requires
        forall|l: Level| #![auto] bucket_rows(b0, l) == Seq::<Row>::empty(),
        file_appended(b0, b1, bytes_a, ms_a, marker),
        file_appended(b1, b2, bytes_b, ms_b, marker),
    ensures
        forall|l: Level|
            #![auto]
            bucket_rows(b2, l) == routed_rows(metas_spec(bytes_a, ms_a, marker), l) + routed_rows(
                metas_spec(bytes_b, ms_b, marker),
                l,
            ),
{
    assert forall|l: Level|
        #![auto]
        bucket_rows(b2, l) == routed_rows(metas_spec(bytes_a, ms_a, marker), l) + routed_rows(
            metas_spec(bytes_b, ms_b, marker),
            l,
        ) by {
        assert((Seq::<Row>::empty() + routed_rows(metas_spec(bytes_a, ms_a, marker), l))
            =~= routed_rows(metas_spec(bytes_a, ms_a, marker), l));
    }
}

/// The configured extraction engine: a parser loaded with the selected
/// language's grammar, the compiled structural pattern, and the language's
/// comment marker.
pub struct Application {
    /// The engine's parser, loaded with the selected grammar.
    pub parser: tree_sitter::Parser,
    /// The compiled structural pattern.
    pub query: tree_sitter::Query,
    /// The comment marker every captured line is normalized against.
    pub comment: Comment,
}

impl Application {
    /// Configures the engine for one language.  A grammar or pattern that
    /// cannot be loaded is a fatal configuration error, reported before any
    /// file is read.
    pub fn new(selection: &crate::args::Language) -> (r: Result<Application, ConfigError>)
        ensures
            r matches Ok(a) ==> a.comment == comment_spec(selected_spec(*selection)),
    {
        let lang = Language::from_selection(selection);
        let sitter = lang.sitter_language();
        let mut parser = ts_parser_new();
        match ts_parser_set_language(&mut parser, &sitter) {
            Ok(_) => (),
            Err(_) => {
                return Err(ConfigError::Language);
            },
        }
        let query = match ts_query_new(&sitter, lang.query()) {
            Ok(q) => q,
            Err(_) => {
                return Err(ConfigError::Query);
            },
        };
        Ok(Application { parser, query, comment: lang.comment() })
    }

    /// Processes one file: parses its bytes, runs the pattern, normalizes
    /// every match and routes each record into the bucket of its level.
    ///
    /// Whatever matches the engine reports, each bucket only grows at its
    /// end, by that file's records of its level, in match order; a file
    /// that fails to parse changes nothing and is reported, so the caller
    /// can skip it and continue.
    pub fn process_file(&mut self, bytes: &[u8], buckets: &mut Buckets) -> (r: Result<
        usize,
        FileError,
    >)
        ensures
            final(self).comment == old(self).comment,
            same_metadata(*final(buckets), *old(buckets)),
            r is Err ==> *final(buckets) == *old(buckets),
            r matches Ok(n) ==> exists|ms: Seq<Seq<RawCapture>>|
                #![auto]
                n == ms.len() && file_appended(
                    *old(buckets),
                    *final(buckets),
                    bytes@,
                    ms,
                    marker_spec(old(self).comment),
                ),
    {
        let tree = match ts_parser_parse(&mut self.parser, bytes) {
            Some(t) => t,
            None => {
                return Err(FileError::Parse);
            },
        };
        let matches = ts_run_query(&tree, &self.query, bytes);
        let metas = metas_from_file(bytes, &matches, &self.comment);
        let ghost marker = marker_spec(self.comment);
        let ghost mv = Seq::new(metas@.len(), |j: int| metas@[j]@);
        let mut i: usize = 0;
        while i < metas.len()
            invariant
                i <= metas@.len(),
                mv == Seq::new(metas@.len(), |j: int| metas@[j]@),
                same_metadata(*buckets, *old(buckets)),
                forall|l: Level|
                    #![auto]
                    bucket_rows(*buckets, l) == bucket_rows(*old(buckets), l) + routed_rows(
                        mv.take(i as int),
                        l,
                    ),
            decreases metas@.len() - i,
        {
            buckets.route(&metas[i]);
            proof {
                assert(mv.take(i + 1).drop_last() =~= mv.take(i as int));
                assert(mv.take(i + 1).last() == metas@[i as int]@);
                assert forall|l: Level| #![auto]
                    bucket_rows(*buckets, l) == bucket_rows(*old(buckets), l) + routed_rows(
                        mv.take(i + 1),
                        l,
                    ) by {
                    if l == metas@[i as int]@.level {
                        assert(bucket_rows(*old(buckets), l) + (routed_rows(mv.take(i as int), l)
                            + seq![row_of_v(metas@[i as int]@)]) =~= (bucket_rows(*old(buckets), l)
                            + routed_rows(mv.take(i as int), l)).push(
                            row_of_v(metas@[i as int]@),
                        ));
                    } else {
                        assert(routed_rows(mv.take(i + 1), l) =~= routed_rows(
                            mv.take(i as int),
                            l,
                        ));
                    }
                }
            }
            i += 1;
        }
        proof {
            assert(mv.take(metas@.len() as int) =~= mv);
            assert(mv =~= metas_spec(
                bytes@,
                Seq::new(matches@.len(), |j: int| matches@[j]@),
                marker,
            ));
        }
        Ok(metas.len())
    }
}

} // verus!
