//! The run configuration handed to the pipeline: project naming, the file
//! set, the selected language, and per-level static descriptions.
//!
//! Command-line parsing itself stays outside the library; the caller fills
//! this structure with plain values.

use vstd::prelude::*;
use vstd::string::*;

verus! {

/// The language selected on the command line.
#[derive(Debug, Clone, Copy, PartialEq, Eq, Structural)]
pub enum Language {
    Golang,
    C,
    Cpp,
    Python,
    Java,
    JavaScript,
    Ruby,
    Rust,
}

/// The output format selected for the rendered documents.
#[derive(Debug, Clone, Copy, PartialEq, Eq, Structural)]
pub enum SaveType {
    MD,
}

impl Default for SaveType {
    fn default() -> (r: SaveType)
        ensures
            r == SaveType::MD,
    {
        SaveType::MD
    }
}

/// One run's configuration.
#[derive(Debug, Clone)]
pub struct Arg {
    /// Project name, used in generated files.
    pub project_name: String,
    /// Directories in which files are searched for processing.
    pub directories: Option<Vec<String>>,
    /// Recursively search files in directories.
    pub recurse: bool,
    /// Additionally passed files.
    pub files: Option<Vec<String>>,
    /// The language whose sources are processed.
    pub language: Language,
    /// The directory the rendered documents are saved in.
    pub save_path: String,
    /// The format the documents are rendered in.
    pub save_type: SaveType,
    /// Static description for the Info document.
    pub info_desc: Option<String>,
    /// Static description for the Debug document.
    pub debug_desc: Option<String>,
    /// Static description for the Trace document.
    pub trace_desc: Option<String>,
    /// Static description for the Warn document.
    pub warn_desc: Option<String>,
    /// Static description for the Fatal document.
    pub fatal_desc: Option<String>,
    /// Message column header of the rendered table.
    pub message_table_header: Option<String>,
    /// Subject column header of the rendered table.
    pub subject_table_header: Option<String>,
    /// Description column header of the rendered table.
    pub description_table_header: Option<String>,
}

impl Arg {
    /// The directories to search, or none when the option was not given.
    pub fn directories(&self) -> (r: Vec<String>)
        ensures
            match self.directories {
                Some(d) => r@ == d@,
                None => r@ == Seq::<String>::empty(),
            },
    {
        match &self.directories {
            Some(dirs) => {
                let mut v: Vec<String> = Vec::new();
                let mut i: usize = 0;
                while i < dirs.len()
                    invariant
                        i <= dirs@.len(),
                        v@ =~= dirs@.take(i as int),
                    decreases dirs@.len() - i,
                {
                    v.push(dirs[i].clone());
                    proof {
                        assert(dirs@.take(i + 1) =~= dirs@.take(i as int).push(dirs@[i as int]));
                    }
                    i += 1;
                }
                proof {
                    assert(dirs@.take(dirs@.len() as int) =~= dirs@);
                }
                v
            },
            None => Vec::new(),
        }
    }

    /// The directories to search, borrowed instead of cloned.
    pub fn directories_ref(&self) -> (r: Vec<&String>)
        ensures
            match self.directories {
                Some(d) => r@.len() == d@.len() && (forall|i: int|
                    0 <= i < d@.len() ==> *(#[trigger] r@[i]) == d@[i]),
                None => r@ == Seq::<&String>::empty(),
            },
    {
        match &self.directories {
            Some(dirs) => {
                let mut v: Vec<&String> = Vec::new();
                let mut i: usize = 0;
                while i < dirs.len()
                    invariant
                        i <= dirs@.len(),
                        v@.len() == i,
                        forall|j: int| 0 <= j < i ==> *(#[trigger] v@[j]) == dirs@[j],
                    decreases dirs@.len() - i,
                {
                    v.push(&dirs[i]);
                    i += 1;
                }
                v
            },
            None => Vec::new(),
        }
    }

    /// The file-name suffix of the selected output format.
    pub fn file_suffix(&self) -> (r: String)
        ensures
            r@ == "md"@,
    {
        match self.save_type {
            SaveType::MD => "md".to_owned(),
        }
    }
}

} // verus!
