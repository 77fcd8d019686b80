//! The supported languages: their file extensions and comment syntax.

use crate::text::equals;
use vstd::prelude::*;

verus! {

/// A programming language whose comments can be scanned.
#[derive(Debug, Clone, Copy, PartialEq, Eq, Structural)]
pub enum Language {
    Rust,
    Python,
    TypeScript,
    JavaScript,
    Go,
    Java,
    C,
    Cpp,
}

/// How a language writes comments.
///
/// `doc_line` and `single_line` are tried in the order given, the
/// documentation prefixes first.
#[derive(Debug, Clone)]
pub struct CommentStyle {
    pub single_line: Vec<&'static str>,
    pub doc_line: Vec<&'static str>,
    pub block_start: Option<&'static str>,
    pub block_end: Option<&'static str>,
    pub block_line_prefix: Option<&'static str>,
}

/// A comment style as plain texts.
pub struct CommentStyleModel {
    pub single_line: Seq<Seq<char>>,
    pub doc_line: Seq<Seq<char>>,
    pub block_start: Option<Seq<char>>,
    pub block_end: Option<Seq<char>>,
    pub block_line_prefix: Option<Seq<char>>,
}

impl View for CommentStyle {
    type V = CommentStyleModel;

    open spec fn view(&self) -> CommentStyleModel {
        CommentStyleModel {
            single_line: self.single_line.deep_view(),
            doc_line: self.doc_line.deep_view(),
            block_start: self.block_start.deep_view(),
            block_end: self.block_end.deep_view(),
            block_line_prefix: self.block_line_prefix.deep_view(),
        }
    }
}

/// The comment style in which line comments start with `//` (or with one of
/// `doc`), and block comments are written `/* ... */` with `*` on the lines
/// in between.
pub open spec fn slash_style(doc: Seq<Seq<char>>) -> CommentStyleModel {
    CommentStyleModel {
        single_line: seq!["//"@],
        doc_line: doc,
        block_start: Some("/*"@),
        block_end: Some("*/"@),
        block_line_prefix: Some("*"@),
    }
}

/// The comment style of each language.
pub open spec fn style_of(lang: Language) -> CommentStyleModel {
    match lang {
        Language::Rust => slash_style(seq!["///"@, "//!"@]),
        Language::Python => CommentStyleModel {
            single_line: seq!["#"@],
            doc_line: seq!["#"@],
            block_start: Some("\"\"\""@),
            block_end: Some("\"\"\""@),
            block_line_prefix: None,
        },
        _ => slash_style(seq!["//"@]),
    }
}

/// The file extensions of each language.
pub open spec fn extensions_of(lang: Language) -> Seq<Seq<char>> {
    match lang {
        Language::Rust => seq!["rs"@],
        Language::Python => seq!["py"@, "pyi"@],
        Language::TypeScript => seq!["ts"@, "tsx"@],
        Language::JavaScript => seq!["js"@, "jsx"@, "mjs"@],
        Language::Go => seq!["go"@],
        Language::Java => seq!["java"@],
        Language::C => seq!["c"@, "h"@],
        Language::Cpp => seq!["cpp"@, "cc"@, "cxx"@, "hpp"@, "hh"@, "hxx"@],
    }
}

/// The lower-case name of each language.
pub open spec fn name_of(lang: Language) -> Seq<char> {
    match lang {
        Language::Rust => "rust"@,
        Language::Python => "python"@,
        Language::TypeScript => "typescript"@,
        Language::JavaScript => "javascript"@,
        Language::Go => "go"@,
        Language::Java => "java"@,
        Language::C => "c"@,
        Language::Cpp => "cpp"@,
    }
}

/// All languages, in the order in which they are tried.
pub open spec fn all_languages() -> Seq<Language> {
    seq![
        Language::Rust,
        Language::Python,
        Language::TypeScript,
        Language::JavaScript,
        Language::Go,
        Language::Java,
        Language::C,
        Language::Cpp,
    ]
}

/// The first of `langs[from..]` that lists `ext` among its extensions.
pub open spec fn first_with_extension(langs: Seq<Language>, ext: Seq<char>, from: int) -> Option<
    Language,
>
    decreases langs.len() - from,
{
    if from < 0 || from >= langs.len() {
        None
    } else if extensions_of(langs[from]).contains(ext) {
        Some(langs[from])
    } else {
        first_with_extension(langs, ext, from + 1)
    }
}

/// The language that an extension stands for. The match is exact: an
/// extension in other letter case stands for no language.
pub open spec fn language_of_extension(ext: Seq<char>) -> Option<Language> {
    first_with_extension(all_languages(), ext, 0)
}

/// The extension that `std::path::Path::extension` finds in a path, under the
/// path syntax of the platform the library is built for.
pub uninterp spec fn extension_of(path: Seq<char>) -> Option<Seq<char>>;

/// The language of the file at `path`, judged by its extension.
pub open spec fn language_of_path(path: Seq<char>) -> Option<Language> {
    match extension_of(path) {
        Some(ext) => language_of_extension(ext),
        None => None,
    }
}

/// Calls `std::path::Path::extension` on the path and copies the extension
/// out. The contract only gives the answer its name.
#[verifier::external_body]
fn path_extension(path: &str) -> (ext: Option<String>)
    ensures
        ext.deep_view() == extension_of(path@),
{
    std::path::Path::new(path).extension().and_then(|e| e.to_str()).map(|e| e.to_string())
}

impl Language {
    /// How this language writes comments.
    pub fn comment_style(&self) -> (style: CommentStyle)
        ensures
            style@ == style_of(*self),
    {
        let style = match self {
            Language::Rust => CommentStyle {
                single_line: vec!["//"],
                doc_line: vec!["///", "//!"],
                block_start: Some("/*"),
                block_end: Some("*/"),
                block_line_prefix: Some("*"),
            },
            Language::Python => CommentStyle {
                single_line: vec!["#"],
                doc_line: vec!["#"],
                block_start: Some("\"\"\""),
                block_end: Some("\"\"\""),
                block_line_prefix: None,
            },
            _ => CommentStyle {
                single_line: vec!["//"],
                doc_line: vec!["//"],
                block_start: Some("/*"),
                block_end: Some("*/"),
                block_line_prefix: Some("*"),
            },
        };
        assert(style@.single_line =~= style_of(*self).single_line);
        assert(style@.doc_line =~= style_of(*self).doc_line);
        style
    }

    /// The file extensions of this language.
    pub fn extensions(&self) -> (exts: Vec<&'static str>)
        ensures
            exts.deep_view() == extensions_of(*self),
    {
        let exts = match self {
            Language::Rust => vec!["rs"],
            Language::Python => vec!["py", "pyi"],
            Language::TypeScript => vec!["ts", "tsx"],
            Language::JavaScript => vec!["js", "jsx", "mjs"],
            Language::Go => vec!["go"],
            Language::Java => vec!["java"],
            Language::C => vec!["c", "h"],
            Language::Cpp => vec!["cpp", "cc", "cxx", "hpp", "hh", "hxx"],
        };
        assert(exts.deep_view() =~= extensions_of(*self));
        exts
    }

    /// The lower-case name of this language.
    pub fn name(&self) -> (name: &'static str)
        ensures
            name@ == name_of(*self),
    {
        match self {
            Language::Rust => "rust",
            Language::Python => "python",
            Language::TypeScript => "typescript",
            Language::JavaScript => "javascript",
            Language::Go => "go",
            Language::Java => "java",
            Language::C => "c",
            Language::Cpp => "cpp",
        }
    }

    /// All languages, in the order in which they are tried.
    pub fn all() -> (langs: Vec<Language>)
        ensures
            langs@ == all_languages(),
    {
        let langs = vec![
            Language::Rust,
            Language::Python,
            Language::TypeScript,
            Language::JavaScript,
            Language::Go,
            Language::Java,
            Language::C,
            Language::Cpp,
        ];
        assert(langs@ =~= all_languages());
        langs
    }
}

/// Whether `ext` is one of `exts`.
fn lists_extension(exts: &Vec<&'static str>, ext: &str) -> (found: bool)
    ensures
        found == exts.deep_view().contains(ext@),
{
    let mut i: usize = 0;
    while i < exts.len()
        invariant
            i <= exts@.len(),
            forall|j: int| 0 <= j < i ==> exts.deep_view()[j] != ext@,
        decreases exts@.len() - i,
    {
        if equals(exts[i], ext) {
            assert(exts.deep_view()[i as int] == ext@);
            return true;
        }
        i += 1;
    }
    false
}

/// The language that the extension `ext` stands for.
pub fn language_for_extension(ext: &str) -> (lang: Option<Language>)
    ensures
        lang == language_of_extension(ext@),
{
    let langs = Language::all();
    let mut i: usize = 0;
    while i < langs.len()
        invariant
            i <= langs@.len(),
            langs@ == all_languages(),
            language_of_extension(ext@) == first_with_extension(langs@, ext@, i as int),
        decreases langs@.len() - i,
    {
        let exts = langs[i].extensions();
        if lists_extension(&exts, ext) {
            return Some(langs[i]);
        }
        i += 1;
    }
    None
}

/// The extension of the file at `path`, without its dot, if it has one.
pub fn file_extension(path: &str) -> (ext: Option<String>)
    ensures
        ext.deep_view() == extension_of(path@),
{
    path_extension(path)
}

/// The language of the file at `path`, judged by its extension; `None` for a
/// path without an extension or with one that no language claims.
pub fn detect_language(path: &str) -> (lang: Option<Language>)
    ensures
        lang == language_of_path(path@),
{
    match file_extension(path) {
        Some(ext) => language_for_extension(ext.as_str()),
        None => None,
    }
}

/// Whether the file at `path` is written in a supported language.
pub fn is_supported_file(path: &str) -> (supported: bool)
    ensures
        supported == language_of_path(path@).is_some(),
{
    detect_language(path).is_some()
}

/// Makes the characters of every extension known to the verifier.
proof fn reveal_extensions()
    ensures
        "rs"@ == seq!['r', 's'],
        "py"@ == seq!['p', 'y'],
        "pyi"@ == seq!['p', 'y', 'i'],
        "ts"@ == seq!['t', 's'],
        "tsx"@ == seq!['t', 's', 'x'],
        "js"@ == seq!['j', 's'],
        "jsx"@ == seq!['j', 's', 'x'],
        "mjs"@ == seq!['m', 'j', 's'],
        "go"@ == seq!['g', 'o'],
        "java"@ == seq!['j', 'a', 'v', 'a'],
        "c"@ == seq!['c'],
        "h"@ == seq!['h'],
        "cpp"@ == seq!['c', 'p', 'p'],
        "cc"@ == seq!['c', 'c'],
        "cxx"@ == seq!['c', 'x', 'x'],
        "hpp"@ == seq!['h', 'p', 'p'],
        "hh"@ == seq!['h', 'h'],
        "hxx"@ == seq!['h', 'x', 'x'],
{
    reveal_strlit("rs");
    reveal_strlit("py");
    reveal_strlit("pyi");
    reveal_strlit("ts");
    reveal_strlit("tsx");
    reveal_strlit("js");
    reveal_strlit("jsx");
    reveal_strlit("mjs");
    reveal_strlit("go");
    reveal_strlit("java");
    reveal_strlit("c");
    reveal_strlit("h");
    reveal_strlit("cpp");
    reveal_strlit("cc");
    reveal_strlit("cxx");
    reveal_strlit("hpp");
    reveal_strlit("hh");
    reveal_strlit("hxx");
    assert("rs"@ =~= seq!['r', 's']);
    assert("py"@ =~= seq!['p', 'y']);
    assert("pyi"@ =~= seq!['p', 'y', 'i']);
    assert("ts"@ =~= seq!['t', 's']);
    assert("tsx"@ =~= seq!['t', 's', 'x']);
    assert("js"@ =~= seq!['j', 's']);
    assert("jsx"@ =~= seq!['j', 's', 'x']);
    assert("mjs"@ =~= seq!['m', 'j', 's']);
    assert("go"@ =~= seq!['g', 'o']);
    assert("java"@ =~= seq!['j', 'a', 'v', 'a']);
    assert("c"@ =~= seq!['c']);
    assert("h"@ =~= seq!['h']);
    assert("cpp"@ =~= seq!['c', 'p', 'p']);
    assert("cc"@ =~= seq!['c', 'c']);
    assert("cxx"@ =~= seq!['c', 'x', 'x']);
    assert("hpp"@ =~= seq!['h', 'p', 'p']);
    assert("hh"@ =~= seq!['h', 'h']);
    assert("hxx"@ =~= seq!['h', 'x', 'x']);
}

/// No extension belongs to two languages.
pub proof fn lemma_extensions_disjoint(a: Language, b: Language, ext: Seq<char>)
    requires
        extensions_of(a).contains(ext),
        extensions_of(b).contains(ext),
    ensures
        a == b,
{
    reveal_extensions();
    let i = choose|i: int| 0 <= i < extensions_of(a).len() && extensions_of(a)[i] == ext;
    let j = choose|j: int| 0 <= j < extensions_of(b).len() && extensions_of(b)[j] == ext;
    assert(extensions_of(a)[i] == extensions_of(b)[j]);
    assert(extensions_of(a)[i].len() == extensions_of(b)[j].len());
    assert(extensions_of(a)[i][0] == extensions_of(b)[j][0]);
    if ext.len() > 1 {
        assert(extensions_of(a)[i][1] == extensions_of(b)[j][1]);
    }
}

/// Detection is right for every supported extension: an extension that a
/// language lists stands for that language.
pub proof fn lemma_supported_extension_detected(lang: Language, ext: Seq<char>)
    requires
        extensions_of(lang).contains(ext),
    ensures
        language_of_extension(ext) == Some(lang),
{
    let langs = all_languages();
    assert forall|k: int| 0 <= k < langs.len() && extensions_of(langs[k]).contains(ext) implies langs[k] == lang by {
        lemma_extensions_disjoint(langs[k], lang, ext);
    }
    let at: int = match lang {
        Language::Rust => 0,
        Language::Python => 1,
        Language::TypeScript => 2,
        Language::JavaScript => 3,
        Language::Go => 4,
        Language::Java => 5,
        Language::C => 6,
        Language::Cpp => 7,
    };
    assert(langs[at] == lang);
    lemma_first_found(langs, ext, 0, at);
}

/// An extension that no language lists stands for no language.
pub proof fn lemma_unknown_extension_rejected(ext: Seq<char>)
    requires
        forall|lang: Language| !extensions_of(lang).contains(ext),
    ensures
        language_of_extension(ext).is_none(),
{
    lemma_first_absent(all_languages(), ext, 0);
}

/// The search from `from` stops at `at` when `at` is the first hit.
proof fn lemma_first_found(langs: Seq<Language>, ext: Seq<char>, from: int, at: int)
    requires
        0 <= from <= at < langs.len(),
        extensions_of(langs[at]).contains(ext),
        forall|k: int| from <= k < at ==> !extensions_of(#[trigger] langs[k]).contains(ext),
    ensures
        first_with_extension(langs, ext, from) == Some(langs[at]),
    decreases at - from,
{
    if from < at {
        lemma_first_found(langs, ext, from + 1, at);
    }
}

/// The search from `from` finds nothing when no language lists `ext`.
proof fn lemma_first_absent(langs: Seq<Language>, ext: Seq<char>, from: int)
    requires
        0 <= from <= langs.len(),
        forall|lang: Language| !extensions_of(lang).contains(ext),
    ensures
        first_with_extension(langs, ext, from).is_none(),
    decreases langs.len() - from,
{
    if from < langs.len() {
        lemma_first_absent(langs, ext, from + 1);
    }
}

} // verus!
