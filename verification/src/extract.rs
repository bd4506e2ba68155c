//! The match extraction engine's boundary: the structural-pattern engine is
//! a black box that parses a file and hands back, per match, a small set of
//! (capture index, start position, end position) triples.
//!
//! Everything the engine returns is carried as plain values; the verified
//! pipeline takes those values as arguments and is proved for every one of
//! them.

use vstd::prelude::*;

use tree_sitter::Language as TsLanguage;
use tree_sitter::StreamingIterator;

verus! {

#[verifier::external_type_specification]
#[verifier::external_body]
pub struct ExTsLanguage(TsLanguage);

#[verifier::external_type_specification]
#[verifier::external_body]
pub struct ExTsParser(tree_sitter::Parser);

#[verifier::external_type_specification]
#[verifier::external_body]
pub struct ExTsTree(tree_sitter::Tree);

#[verifier::external_type_specification]
#[verifier::external_body]
pub struct ExTsQuery(tree_sitter::Query);

#[verifier::external_type_specification]
#[verifier::external_body]
pub struct ExTsQueryError(tree_sitter::QueryError);

#[verifier::external_type_specification]
#[verifier::external_body]
pub struct ExTsLanguageError(tree_sitter::LanguageError);

/// One raw capture as the engine reports it: the capture's index within the
/// pattern and the zero-based (row, column) start and end of its node.
#[derive(Debug, Clone, Copy, PartialEq, Eq, Structural)]
pub struct RawCapture {
    pub index: u32,
    pub start_row: u32,
    pub start_col: u32,
    pub end_row: u32,
    pub end_col: u32,
}

/// A fatal configuration error: the run aborts before any file is read.
#[derive(Debug, Clone, Copy, PartialEq, Eq, Structural)]
pub enum ConfigError {
    /// The grammar could not be loaded into the parser.
    Language,
    /// The structural pattern failed to compile against the grammar.
    Query,
}

/// A per-file error: the file is skipped and the run continues.
#[derive(Debug, Clone, Copy, PartialEq, Eq, Structural)]
pub enum FileError {
    /// The engine could not parse the file's bytes.
    Parse,
}

/// Relies on `tree_sitter_go::LANGUAGE`: the Go grammar.
#[verifier::external_body]
pub(crate) fn ts_language_go() -> TsLanguage {
    TsLanguage::new(tree_sitter_go::LANGUAGE)
}

/// Relies on `tree_sitter_c::LANGUAGE`: the C grammar.
#[verifier::external_body]
pub(crate) fn ts_language_c() -> TsLanguage {
    TsLanguage::new(tree_sitter_c::LANGUAGE)
}

/// Relies on `tree_sitter_cpp::LANGUAGE`: the C++ grammar.
#[verifier::external_body]
pub(crate) fn ts_language_cpp() -> TsLanguage {
    TsLanguage::new(tree_sitter_cpp::LANGUAGE)
}

/// Relies on `tree_sitter_python::LANGUAGE`: the Python grammar.
#[verifier::external_body]
pub(crate) fn ts_language_python() -> TsLanguage {
    TsLanguage::new(tree_sitter_python::LANGUAGE)
}

/// Relies on `tree_sitter_java::LANGUAGE`: the Java grammar.
#[verifier::external_body]
pub(crate) fn ts_language_java() -> TsLanguage {
    TsLanguage::new(tree_sitter_java::LANGUAGE)
}

/// Relies on `tree_sitter_javascript::LANGUAGE`: the JavaScript grammar.
#[verifier::external_body]
pub(crate) fn ts_language_javascript() -> TsLanguage {
    TsLanguage::new(tree_sitter_javascript::LANGUAGE)
}

/// Relies on `tree_sitter_ruby::LANGUAGE`: the Ruby grammar.
#[verifier::external_body]
pub(crate) fn ts_language_ruby() -> TsLanguage {
    TsLanguage::new(tree_sitter_ruby::LANGUAGE)
}

/// Relies on `tree_sitter_rust::LANGUAGE`: the Rust grammar.
#[verifier::external_body]
pub(crate) fn ts_language_rust() -> TsLanguage {
    TsLanguage::new(tree_sitter_rust::LANGUAGE)
}

/// Relies on `tree_sitter::Parser::new`: a parser with no language set.
#[verifier::external_body]
pub(crate) fn ts_parser_new() -> tree_sitter::Parser {
    tree_sitter::Parser::new()
}

/// Relies on `tree_sitter::Parser::set_language`: loads a grammar into the
/// parser, failing on an incompatible grammar version.
#[verifier::external_body]
pub(crate) fn ts_parser_set_language(
    parser: &mut tree_sitter::Parser,
    language: &TsLanguage,
) -> Result<(), tree_sitter::LanguageError> {
    parser.set_language(language)
}

/// Relies on `tree_sitter::Parser::parse`: parses the bytes with the
/// parser's language, returning no tree only if no language was set or
/// parsing was cancelled.
#[verifier::external_body]
pub(crate) fn ts_parser_parse(
    parser: &mut tree_sitter::Parser,
    bytes: &[u8],
) -> Option<tree_sitter::Tree> {
    parser.parse(bytes, None)
}

/// Relies on `tree_sitter::Query::new`: compiles the pattern text against
/// the grammar, reporting malformed patterns as an error.
#[verifier::external_body]
pub(crate) fn ts_query_new(
    language: &TsLanguage,
    source: &str,
) -> Result<tree_sitter::Query, tree_sitter::QueryError> {
    tree_sitter::Query::new(language, source)
}

/// Relies on `tree_sitter::QueryCursor::matches`: yields the query's
/// matches over the tree's root in the order they were found, each with its
/// captures' indices and node positions.
#[verifier::external_body]
pub(crate) fn ts_run_query(
    tree: &tree_sitter::Tree,
    query: &tree_sitter::Query,
    bytes: &[u8],
) -> Vec<Vec<RawCapture>> {
    let mut cursor = tree_sitter::QueryCursor::new();
    let mut matches = cursor.matches(query, tree.root_node(), bytes);
    let mut out = Vec::new();
    while let Some(m) = matches.next() {
        out.push(m.captures().iter().map(|c| RawCapture {
            index: c.index,
            start_row: c.node.start_position().row as u32,
            start_col: c.node.start_position().column as u32,
            end_row: c.node.end_position().row as u32,
            end_col: c.node.end_position().column as u32,
        }).collect());
    }
    out
}

} // verus!
