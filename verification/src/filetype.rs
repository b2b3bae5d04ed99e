//! The kinds of file that the editor knows: by the ending of a file's name
//! it picks the language, the language server to start and the grammar to
//! highlight with.

use vstd::prelude::*;
use vstd::string::*;
use crate::text::to_chars;

verus! {

/// A language that the editor highlights.
#[derive(Clone, Copy, Debug, PartialEq, Eq, Structural)]
pub enum Syntax {
    Rust,
    Go,
    Cpp,
    C,
    Python,
}

/// Whether `text` ends with `suffix`.
pub open spec fn ends_with(text: Seq<char>, suffix: Seq<char>) -> bool {
    text.len() >= suffix.len() && text.subrange(text.len() - suffix.len(), text.len() as int)
        == suffix
}

/// The language of the file named `file_name`, by the ending of the name.
pub open spec fn syntax_of(file_name: Seq<char>) -> Option<Syntax> {
    if ends_with(file_name, ".rs"@) {
        Some(Syntax::Rust)
    } else if ends_with(file_name, ".go"@) {
        Some(Syntax::Go)
    } else if ends_with(file_name, ".cpp"@) {
        Some(Syntax::Cpp)
    } else if ends_with(file_name, ".c"@) {
        Some(Syntax::C)
    } else if ends_with(file_name, ".py"@) {
        Some(Syntax::Python)
    } else {
        None
    }
}

/// The name that a language is shown and announced by.
pub open spec fn syntax_name(syntax: Syntax) -> Seq<char> {
    match syntax {
        Syntax::Rust => "Rust"@,
        Syntax::Go => "Go"@,
        Syntax::Cpp => "Cpp"@,
        Syntax::C => "C"@,
        Syntax::Python => "Python"@,
    }
}

/// The program that serves a language.
pub open spec fn server_of(syntax: Syntax) -> Seq<char> {
    match syntax {
        Syntax::Rust => "rust-analyzer"@,
        Syntax::Go => "gopls"@,
        Syntax::Cpp => "clangd"@,
        Syntax::C => "clangd"@,
        Syntax::Python => "pyright"@,
    }
}

/// The arguments that a language's server is started with, where it needs
/// any.
pub open spec fn server_args_of(syntax: Syntax) -> Option<Seq<Seq<char>>> {
    match syntax {
        Syntax::Python => Some(seq!["--stdio"@]),
        _ => None,
    }
}

/// The views of a list of string slices, in order.
pub open spec fn slices(v: Seq<&'static str>) -> Seq<Seq<char>> {
    Seq::new(v.len(), |i: int| v[i]@)
}

/// `tree_sitter_rust::language` and `tree_sitter_rust::HIGHLIGHT_QUERY`:
/// the grammar of Rust and its highlight query.
#[verifier::external_body]
pub(crate) fn rust_grammar() -> (tree_sitter::Language, &'static str) {
    (tree_sitter_rust::language(), tree_sitter_rust::HIGHLIGHT_QUERY)
}

/// `tree_sitter_go::language` and `tree_sitter_go::HIGHLIGHT_QUERY`: the
/// grammar of Go and its highlight query.
#[verifier::external_body]
pub(crate) fn go_grammar() -> (tree_sitter::Language, &'static str) {
    (tree_sitter_go::language(), tree_sitter_go::HIGHLIGHT_QUERY)
}

/// `tree_sitter_cpp::language` and `tree_sitter_cpp::HIGHLIGHT_QUERY`: the
/// grammar of C++ and its highlight query.
#[verifier::external_body]
pub(crate) fn cpp_grammar() -> (tree_sitter::Language, &'static str) {
    (tree_sitter_cpp::language(), tree_sitter_cpp::HIGHLIGHT_QUERY)
}

/// `tree_sitter_c::language` and `tree_sitter_c::HIGHLIGHT_QUERY`: the
/// grammar of C and its highlight query.
#[verifier::external_body]
pub(crate) fn c_grammar() -> (tree_sitter::Language, &'static str) {
    (tree_sitter_c::language(), tree_sitter_c::HIGHLIGHT_QUERY)
}

/// `tree_sitter_python::language` and `tree_sitter_python::HIGHLIGHT_QUERY`:
/// the grammar of Python and its highlight query.
#[verifier::external_body]
pub(crate) fn python_grammar() -> (tree_sitter::Language, &'static str) {
    (tree_sitter_python::language(), tree_sitter_python::HIGHLIGHT_QUERY)
}

/// What the highlighter of a kind of file is made from.
#[derive(Clone, Copy)]
pub struct HighlightingOptions {
    hl_query: Option<&'static str>,
    inj_query: Option<&'static str>,
    lang: Option<tree_sitter::Language>,
}

impl Default for HighlightingOptions {
    /// Options that hold nothing.
    fn default() -> (options: HighlightingOptions)
        ensures
            options.empty(),
    {
        HighlightingOptions { hl_query: None, inj_query: None, lang: None }
    }
}

impl HighlightingOptions {
    /// The highlight query, where the options hold one.
    pub closed spec fn hl_query_text(&self) -> Option<Seq<char>> {
        match self.hl_query {
            Some(query) => Some(query@),
            None => None,
        }
    }

    /// The injection query, where the options hold one.
    pub closed spec fn inj_query_text(&self) -> Option<Seq<char>> {
        match self.inj_query {
            Some(query) => Some(query@),
            None => None,
        }
    }

    /// Whether the options hold a grammar.
    pub closed spec fn has_lang(&self) -> bool {
        self.lang is Some
    }

    /// Whether the options hold both queries.
    pub open spec fn has_queries(&self) -> bool {
        self.hl_query_text() is Some && self.inj_query_text() is Some
    }

    /// Whether the options hold all that a highlighter is made from.
    pub open spec fn complete(&self) -> bool {
        self.has_queries() && self.has_lang()
    }

    /// Whether the options hold nothing.
    pub open spec fn empty(&self) -> bool {
        self.hl_query_text() is None && self.inj_query_text() is None && !self.has_lang()
    }

    /// The highlight query.
    pub fn get_hl_query(&self) -> (query: Option<&str>)
        ensures
            match query {
                Some(text) => self.hl_query_text() == Some(text@),
                None => self.hl_query_text() is None,
            },
    {
        self.hl_query
    }

    /// The injection query.
    pub fn get_inj_query(&self) -> (query: Option<&str>)
        ensures
            match query {
                Some(text) => self.inj_query_text() == Some(text@),
                None => self.inj_query_text() is None,
            },
    {
        self.inj_query
    }

    /// The grammar.
    pub fn get_lang(&self) -> (lang: Option<tree_sitter::Language>)
        ensures
            lang is Some <==> self.has_lang(),
    {
        self.lang
    }
}

/// A kind of file.
pub struct FileType {
    name: String,
    syntax: Option<Syntax>,
    lsp_name: Option<&'static str>,
    lsp_args: Option<Vec<&'static str>>,
    hl_opts: HighlightingOptions,
}

/// The state of a [`FileType`].
pub ghost struct FileTypeView {
    /// The name that the kind is shown and announced by.
    pub name: Seq<char>,
    /// The language, where the editor knows it.
    pub syntax: Option<Syntax>,
    /// The program that serves the language.
    pub lsp_name: Option<Seq<char>>,
    /// The arguments that the server is started with.
    pub lsp_args: Option<Seq<Seq<char>>>,
}

impl View for FileType {
    type V = FileTypeView;

    closed spec fn view(&self) -> FileTypeView {
        FileTypeView {
            name: self.name@,
            syntax: self.syntax,
            lsp_name: match self.lsp_name {
                Some(name) => Some(name@),
                None => None,
            },
            lsp_args: match self.lsp_args {
                Some(args) => Some(slices(args@)),
                None => None,
            },
        }
    }
}

/// The kind of a file in a language that the editor knows.
pub open spec fn file_type_of(syntax: Syntax) -> FileTypeView {
    FileTypeView {
        name: syntax_name(syntax),
        syntax: Some(syntax),
        lsp_name: Some(server_of(syntax)),
        lsp_args: server_args_of(syntax),
    }
}

/// The kind of a file in a language that the editor does not know.
pub open spec fn unknown_file_type() -> FileTypeView {
    FileTypeView { name: "No filetype"@, syntax: None, lsp_name: None, lsp_args: None }
}

impl Default for FileType {
    /// The kind of a file in a language that the editor does not know.
    fn default() -> (kind: FileType)
        ensures
            kind@ == unknown_file_type(),
            kind.highlighting().empty(),
    {
        FileType {
            name: String::from_str("No filetype"),
            syntax: None,
            lsp_name: None,
            lsp_args: None,
            hl_opts: HighlightingOptions::default(),
        }
    }
}

/// Whether `text` ends with `suffix`.
fn has_ending(text: &Vec<char>, suffix: &str) -> (b: bool)
    ensures
        b == ends_with(text@, suffix@),
{
    let ending = to_chars(suffix);
    if text.len() < ending.len() {
        return false;
    }
    let skip: usize = text.len() - ending.len();
    let mut i: usize = 0;
    while i < ending.len()
        invariant
            i <= ending.len(),
            ending@ == suffix@,
            skip + ending.len() == text.len(),
            forall|k: int| 0 <= k < i ==> text@[skip + k] == ending@[k],
        decreases ending.len() - i,
    {
        if text[skip + i] != ending[i] {
            assert(text@.subrange(skip as int, text.len() as int)[i as int] != ending@[i as int]);
            return false;
        }
        i += 1;
    }
    assert(text@.subrange(skip as int, text.len() as int) =~= ending@);
    true
}

impl Syntax {
    /// The language of the file named `file_name`; see [`syntax_of`].
    pub fn of(file_name: &str) -> (syntax: Option<Syntax>)
        ensures
            syntax == syntax_of(file_name@),
    {
        let name = to_chars(file_name);
        if has_ending(&name, ".rs") {
            Some(Syntax::Rust)
        } else if has_ending(&name, ".go") {
            Some(Syntax::Go)
        } else if has_ending(&name, ".cpp") {
            Some(Syntax::Cpp)
        } else if has_ending(&name, ".c") {
            Some(Syntax::C)
        } else if has_ending(&name, ".py") {
            Some(Syntax::Python)
        } else {
            None
        }
    }
}

impl FileType {
    /// What the highlighter of this kind of file is made from.
    pub closed spec fn highlighting(&self) -> HighlightingOptions {
        self.hl_opts
    }

    /// The name that the kind is shown and announced by.
    pub fn name(&self) -> (name: String)
        ensures
            name@ == self@.name,
    {
        self.name.clone()
    }

    /// What the highlighter of this kind of file is made from.
    pub fn highlighting_options(&self) -> (options: HighlightingOptions)
        ensures
            options == self.highlighting(),
    {
        HighlightingOptions {
            hl_query: self.hl_opts.hl_query,
            inj_query: self.hl_opts.inj_query,
            lang: self.hl_opts.lang,
        }
    }

    /// The program that serves the language.
    pub fn lsp_name(&self) -> (name: Option<&str>)
        ensures
            match name {
                Some(name) => self@.lsp_name == Some(name@),
                None => self@.lsp_name is None,
            },
    {
        self.lsp_name
    }

    /// The arguments that the server is started with.
    pub fn lsp_args(&self) -> (args: Option<Vec<&str>>)
        ensures
            match args {
                Some(args) => self@.lsp_args == Some(slices(args@)),
                None => self@.lsp_args is None,
            },
    {
        match &self.lsp_args {
            Some(args) => {
                let mut copy: Vec<&str> = Vec::new();
                let mut i: usize = 0;
                while i < args.len()
                    invariant
                        i <= args.len(),
                        copy@ == args@.subrange(0, i as int),
                    decreases args.len() - i,
                {
                    copy.push(args[i]);
                    i += 1;
                    assert(copy@ =~= args@.subrange(0, i as int));
                }
                assert(copy@ =~= args@);
                Some(copy)
            },
            None => None,
        }
    }

    /// The kind of the file named `file_name`, where the editor knows its
    /// language; see [`syntax_of`] and [`file_type_of`].
    pub fn from(file_name: &str) -> (kind: Option<FileType>)
        ensures
            match kind {
                Some(kind) => syntax_of(file_name@) matches Some(syntax) && kind@ == file_type_of(
                    syntax,
                ) && kind.highlighting().complete(),
                None => syntax_of(file_name@) is None,
            },
    {
        match Syntax::of(file_name) {
            Some(syntax) => {
                let (lang, query) = match syntax {
                    Syntax::Rust => rust_grammar(),
                    Syntax::Go => go_grammar(),
                    Syntax::Cpp => cpp_grammar(),
                    Syntax::C => c_grammar(),
                    Syntax::Python => python_grammar(),
                };
                let hl_opts = HighlightingOptions {
                    hl_query: Some(query),
                    inj_query: Some(""),
                    lang: Some(lang),
                };
                let (name, server, args): (&'static str, &'static str, Option<Vec<&'static str>>) =
                    match syntax {
                    Syntax::Rust => ("Rust", "rust-analyzer", None),
                    Syntax::Go => ("Go", "gopls", None),
                    Syntax::Cpp => ("Cpp", "clangd", None),
                    Syntax::C => ("C", "clangd", None),
                    Syntax::Python => {
                        let mut args: Vec<&'static str> = Vec::new();
                        args.push("--stdio");
                        assert(slices(args@) =~= seq!["--stdio"@]);
                        ("Python", "pyright", Some(args))
                    },
                };
                Some(
                    FileType {
                        name: String::from_str(name),
                        syntax: Some(syntax),
                        lsp_name: Some(server),
                        lsp_args: args,
                        hl_opts,
                    },
                )
            },
            None => None,
        }
    }
}

} // verus!
