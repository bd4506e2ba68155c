//! The data handed to the document renderer: per level, the page metadata
//! and the ordered rows of normalized records.
//!
//! Rendering itself is an external collaborator; the library only fixes the
//! template text and the exact row contents and order.

use vstd::prelude::*;
use vstd::string::*;

use crate::args::SaveType;
use crate::meta::Level;
use crate::meta::Meta;
use crate::meta::br_escaped;
use crate::meta::chop_newline;
use crate::meta::keyword;

verus! {

/// One rendered table row: the three formatted fields of a record.
#[derive(Debug, PartialEq, Eq, Clone)]
pub struct TemplateMeta {
    pub message: String,
    pub subject: String,
    pub description: String,
}

/// The mathematical value of one table row.
pub ghost struct Row {
    pub message: Seq<char>,
    pub subject: Seq<char>,
    pub description: Seq<char>,
}

/// The row a normalized record renders to.
pub open spec fn row_of_meta(m: Meta) -> Row {
    Row {
        message: chop_newline(m.message.0@),
        subject: chop_newline(m.subject.0@),
        description: br_escaped(chop_newline(m.description.0@)),
    }
}

/// The row a formatted record holds.
pub open spec fn row_of(tm: TemplateMeta) -> Row {
    Row { message: tm.message@, subject: tm.subject@, description: tm.description@ }
}

impl TemplateMeta {
    /// Formats one record into its table row.
    pub fn from_meta(m: &Meta) -> (r: TemplateMeta)
        ensures
            row_of(r) == row_of_meta(*m),
    {
        TemplateMeta {
            message: m.message.format(),
            subject: m.subject.format(),
            description: m.description.format(),
        }
    }
}

/// Everything the renderer needs for one severity level's document: page
/// metadata and the rows, in the order the records were encountered.
#[derive(Debug)]
pub struct TemplateData {
    pub project: String,
    pub level: String,
    pub description: Option<String>,
    pub msg_tbl_header: Option<String>,
    pub subj_tbl_header: Option<String>,
    pub desc_tbl_header: Option<String>,
    pub metas: Vec<TemplateMeta>,
}

/// The ordered rows a level's collection holds.
pub open spec fn rows(td: TemplateData) -> Seq<Row> {
    td.metas@.map(|i: int, tm: TemplateMeta| row_of(tm))
}

impl TemplateData {
    /// An empty collection for one level's document.
    pub fn new(project: &str, level: Level, description: &Option<String>) -> (r: TemplateData)
        ensures
            r.project@ == project@,
            r.level@ == keyword(level),
            r.description == *description,
            r.msg_tbl_header matches Some(h) && h@ == "message"@,
            r.subj_tbl_header matches Some(h) && h@ == "subject"@,
            r.desc_tbl_header matches Some(h) && h@ == "description"@,
            rows(r) == Seq::<Row>::empty(),
    {
        let description: Option<String> = match description {
            Some(d) => Some(d.clone()),
            None => None,
        };
        let r = TemplateData {
            project: project.to_owned(),
            level: level.name().to_owned(),
            msg_tbl_header: Some("message".to_owned()),
            subj_tbl_header: Some("subject".to_owned()),
            desc_tbl_header: Some("description".to_owned()),
            description,
            metas: Vec::new(),
        };
        proof {
            assert(rows(r) =~= Seq::<Row>::empty());
        }
        r
    }

    /// Appends one formatted record; every earlier row keeps its place.
    pub fn add_meta(&mut self, tm: TemplateMeta)
        ensures
            rows(*final(self)) == rows(*old(self)).push(row_of(tm)),
            final(self).project == old(self).project,
            final(self).level == old(self).level,
            final(self).description == old(self).description,
            final(self).msg_tbl_header == old(self).msg_tbl_header,
            final(self).subj_tbl_header == old(self).subj_tbl_header,
            final(self).desc_tbl_header == old(self).desc_tbl_header,
    {
        let ghost tmv = tm;
        self.metas.push(tm);
        proof {
            assert(rows(*self) =~= rows(*old(self)).push(row_of(tmv)));
        }
    }
}

/// The document template of the selected output format, with placeholders
/// for the page metadata and one table row per record.
pub fn template(save_type: &SaveType) -> (r: String)
    ensures
        r@ == MD_TEMPLATE@,
{
    match save_type {
        SaveType::MD => MD_TEMPLATE.to_owned(),
    }
}

pub const MD_TEMPLATE: &'static str = r#"# {{ project }} - {{ level }} logs

{{ description }}

|{{msg_table_header}}|{{subj_table_header}}|{{desc_table_header}}|
|---|---|---|
{{#each metas as |meta|}}
| {{meta.message}} | {{meta.subject}} |{{{meta.description}}} |
{{/each}}
"#;

} // verus!
