//! Per-language configuration: the structural pattern run against a parsed
//! file and the comment-marker token stripped during normalization.

use vstd::prelude::*;

verus! {

/// A source language supported by the extraction pipeline.
#[derive(Debug, Clone, Copy, PartialEq, Eq, Structural)]
pub enum Language {
    Golang,
    C,
    Cpp,
    Python,
    Java,
    JavaScript,
    Ruby,
    Rust,
}

/// The line-comment marker of a language.
#[derive(Debug, Clone, Copy, PartialEq, Eq, Structural)]
pub enum Comment {
    Dash,
    Slash,
}

/// The marker token written at the start of a line comment.
pub open spec fn marker_spec(c: Comment) -> Seq<char> {
    match c {
        Comment::Dash => "#"@,
        Comment::Slash => "//"@,
    }
}

impl Comment {
    /// Every comment marker the pipeline knows, in a fixed order.
    pub fn variants() -> (r: Vec<Comment>)
        ensures
            r@ == seq![Comment::Dash, Comment::Slash],
    {
        let mut v: Vec<Comment> = Vec::new();
        v.push(Comment::Dash);
        v.push(Comment::Slash);
        proof {
            assert(v@ =~= seq![Comment::Dash, Comment::Slash]);
        }
        v
    }

    /// The marker token itself.
    pub fn marker(&self) -> (r: &'static str)
        ensures
            r@ == marker_spec(*self),
    {
        match self {
            Comment::Dash => "#",
            Comment::Slash => "//",
        }
    }
}

impl Language {
    /// The grammar-level language a command-line selection stands for.
    pub fn from_selection(value: &crate::args::Language) -> (r: Language)
        ensures
            r == selected_spec(*value),
    {
        match value {
            crate::args::Language::Golang => Language::Golang,
            crate::args::Language::C => Language::C,
            crate::args::Language::Cpp => Language::Cpp,
            crate::args::Language::Python => Language::Python,
            crate::args::Language::Java => Language::Java,
            crate::args::Language::JavaScript => Language::JavaScript,
            crate::args::Language::Ruby => Language::Ruby,
            crate::args::Language::Rust => Language::Rust,
        }
    }

    /// The structural pattern for this language: a run of comments whose
    /// first comment opens with a severity keyword.
    pub fn query(&self) -> (r: &str)
        ensures
            r@ == query_spec(*self),
    {
        match self {
            Language::Golang => query_go(),
            Language::Rust => query_rust(),
            Language::C => query_c(),
            Language::Cpp => query_cpp(),
            Language::Ruby => query_ruby(),
            Language::Python => query_python(),
            Language::Java => query_java(),
            Language::JavaScript => query_javascript(),
        }
    }

    /// The grammar the pattern engine parses this language with.  The
    /// grammar value is opaque; which grammar a language maps to is the
    /// engine's affair.
    pub fn sitter_language(&self) -> tree_sitter::Language {
        match self {
            Language::Golang => crate::extract::ts_language_go(),
            Language::C => crate::extract::ts_language_c(),
            Language::Cpp => crate::extract::ts_language_cpp(),
            Language::Python => crate::extract::ts_language_python(),
            Language::Java => crate::extract::ts_language_java(),
            Language::JavaScript => crate::extract::ts_language_javascript(),
            Language::Ruby => crate::extract::ts_language_ruby(),
            Language::Rust => crate::extract::ts_language_rust(),
        }
    }

    /// The comment marker used by this language.
    pub fn comment(&self) -> (r: Comment)
        ensures
            r == comment_spec(*self),
    {
        match self {
            Language::Golang
            | Language::C
            | Language::Cpp
            | Language::Java
            | Language::JavaScript
            | Language::Rust => Comment::Slash,
            Language::Python | Language::Ruby => Comment::Dash,
        }
    }
}

/// The grammar-level language of each command-line selection.
pub open spec fn selected_spec(value: crate::args::Language) -> Language {
    match value {
        crate::args::Language::Golang => Language::Golang,
        crate::args::Language::C => Language::C,
        crate::args::Language::Cpp => Language::Cpp,
        crate::args::Language::Python => Language::Python,
        crate::args::Language::Java => Language::Java,
        crate::args::Language::JavaScript => Language::JavaScript,
        crate::args::Language::Ruby => Language::Ruby,
        crate::args::Language::Rust => Language::Rust,
    }
}

/// The comment marker of each language.
pub open spec fn comment_spec(l: Language) -> Comment {
    match l {
        Language::Python | Language::Ruby => Comment::Dash,
        _ => Comment::Slash,
    }
}

/// The pattern text of each language.
pub open spec fn query_spec(l: Language) -> Seq<char> {
    match l {
        Language::Golang => QUERY_GO@,
        Language::Rust => QUERY_RUST@,
        Language::C => QUERY_C@,
        Language::Cpp => QUERY_CPP@,
        Language::Ruby => QUERY_RUBY@,
        Language::Python => QUERY_PYTHON@,
        Language::Java => QUERY_JAVA@,
        Language::JavaScript => QUERY_JAVASCRIPT@,
    }
}

pub fn query_go() -> (r: &'static str)
    ensures
        r@ == QUERY_GO@,
{
    QUERY_GO
}

pub const QUERY_GO: &'static str = r#"(
	(
    	(
    		(comment) @severity
    	)
        (#match? @severity "^//(\\s)*([Ii][Nn][Ff][Oo]|[Dd][Ee][Bb][Uu][Gg]|[Tt][Rr][Aa][Cc][Ee]|[Ww][Aa][Rr][Nn]|[Ff][Aa][Tt][Aa][Ll])")
    )
   	.
    (comment) @subject
    .
    (comment)*? @description
    )"#;

pub fn query_rust() -> (r: &'static str)
    ensures
        r@ == QUERY_RUST@,
{
    QUERY_RUST
}

pub const QUERY_RUST: &'static str = r#"(
	(
    	(
    		(line_comment) @level
    	)
        (#match? @level "^//(\\s)*([Ii][Nn][Ff][Oo]|[Dd][Ee][Bb][Uu][Gg]|[Ww][Aa][Rr][Nn]|[Tt][Rr][Aa][Cc][Ee]|[Ff][Aa][Tt][Aa][Ll])")
    )
   	.
    (line_comment) @subject
    .
    (line_comment)*? @description
    )"#;

pub fn query_c() -> (r: &'static str)
    ensures
        r@ == QUERY_C@,
{
    QUERY_C
}

pub const QUERY_C: &'static str = r#"(
	(
    	(
    		(comment) @level
    	)
        (#match? @level "^//(\\s)*([Ii][Nn][Ff][Oo]|[Dd][Ee][Bb][Uu][Gg]|[Ww][Aa][Rr][Nn]|[Tt][Rr][Aa][Cc][Ee]|[Ff][Aa][Tt][Aa][Ll])")
    )
   	.
    (comment) @subject
    .
    (comment)*? @description
    )"#;

pub fn query_cpp() -> (r: &'static str)
    ensures
        r@ == QUERY_CPP@,
{
    QUERY_CPP
}

pub const QUERY_CPP: &'static str = r#"(
	(
    	(
    		(comment) @level
    	)
        (#match? @level "^//(\\s)*([Ii][Nn][Ff][Oo]|[Dd][Ee][Bb][Uu][Gg]|[Ww][Aa][Rr][Nn]|[Tt][Rr][Aa][Cc][Ee]|[Ff][Aa][Tt][Aa][Ll])")
    )
   	.
    (comment) @subject
    .
    (comment)*? @description
    )"#;

pub fn query_ruby() -> (r: &'static str)
    ensures
        r@ == QUERY_RUBY@,
{
    QUERY_RUBY
}

pub const QUERY_RUBY: &'static str = r#"(
	(
    	(
    		(comment) @level
    	)
        (#match? @level "^#(\\s)*([Ii][Nn][Ff][Oo]|[Dd][Ee][Bb][Uu][Gg]|[Ww][Aa][Rr][Nn]|[Tt][Rr][Aa][Cc][Ee]|[Ff][Aa][Tt][Aa][Ll])")
    )
   	.
    (comment) @subject
    .
    (comment)*? @description
    )"#;

pub fn query_python() -> (r: &'static str)
    ensures
        r@ == QUERY_PYTHON@,
{
    QUERY_PYTHON
}

pub const QUERY_PYTHON: &'static str = r#"(
	(
    	(
    		(comment) @level
    	)
        (#match? @level "^#(\\s)*([Ii][Nn][Ff][Oo]|[Dd][Ee][Bb][Uu][Gg]|[Ww][Aa][Rr][Nn]|[Tt][Rr][Aa][Cc][Ee]|[Ff][Aa][Tt][Aa][Ll])")
    )
   	.
    (comment) @subject
    .
    (comment)*? @description
    )"#;

pub fn query_java() -> (r: &'static str)
    ensures
        r@ == QUERY_JAVA@,
{
    QUERY_JAVA
}

pub const QUERY_JAVA: &'static str = r#"(
	(
    	(
    		(line_comment) @level
    	)
        (#match? @level "^//(\\s)*([Ii][Nn][Ff][Oo]|[Dd][Ee][Bb][Uu][Gg]|[Ww][Aa][Rr][Nn]|[Tt][Rr][Aa][Cc][Ee]|[Ff][Aa][Tt][Aa][Ll])")
    )
   	.
    (line_comment) @subject
    .
    (line_comment)*? @description
    )"#;

pub fn query_javascript() -> (r: &'static str)
    ensures
        r@ == QUERY_JAVASCRIPT@,
{
    QUERY_JAVASCRIPT
}

pub const QUERY_JAVASCRIPT: &'static str = r#"(
	(
    	(
    		(comment) @level
    	)
        (#match? @level "^//(\\s)*([Ii][Nn][Ff][Oo]|[Dd][Ee][Bb][Uu][Gg]|[Ww][Aa][Rr][Nn]|[Tt][Rr][Aa][Cc][Ee]|[Ff][Aa][Tt][Aa][Ll])")
    )
   	.
    (comment) @subject
    .
    (comment)*? @description
    )"#;

} // verus!
