//! Finding code in an answer that is written as markdown: fenced code
//! blocks, with or without the path of the file they belong to.

use crate::bench::task::{language_extension, Language};
use crate::pattern::{
    all_captures_of, captures, captures_all, captures_of, group, group_of, group_or_empty, group_text,
};
use crate::text::{
    decimal, decimal_string, equals, join, joined, lines, lines_of, lowercase_of, to_lowercase, trim,
    trimmed,
};
use vstd::prelude::*;
use vstd::string::StringExecFns;

verus! {

/// A code block of an answer.
#[derive(Debug, Clone)]
pub struct ExtractedCode {
    pub code: String,
    pub language: Option<Language>,
}

/// A code block as plain values.
pub struct CodeModel {
    pub code: Seq<char>,
    pub language: Option<Language>,
}

impl View for ExtractedCode {
    type V = CodeModel;

    open spec fn view(&self) -> CodeModel {
        CodeModel { code: self.code@, language: self.language }
    }
}

impl DeepView for ExtractedCode {
    type V = CodeModel;

    open spec fn deep_view(&self) -> CodeModel {
        self@
    }
}

/// A file of an answer that holds several files.
#[derive(Debug, Clone)]
pub struct ExtractedFile {
    pub path: String,
    pub code: String,
    pub language: Option<Language>,
}

/// A file of an answer as plain values.
pub struct FileModel {
    pub path: Seq<char>,
    pub code: Seq<char>,
    pub language: Option<Language>,
}

impl View for ExtractedFile {
    type V = FileModel;

    open spec fn view(&self) -> FileModel {
        FileModel { path: self.path@, code: self.code@, language: self.language }
    }
}

impl DeepView for ExtractedFile {
    type V = FileModel;

    open spec fn deep_view(&self) -> FileModel {
        self@
    }
}

/// A source file: its path and its text.
#[derive(Debug, Clone)]
pub struct SourceFile {
    pub path: String,
    pub content: String,
}

/// Something that finds code in an answer.
pub trait CodeExtractorTrait {
    /// The code blocks of an answer that may be written in `expected_lang`.
    fn extract(&self, response: &str, expected_lang: Language) -> Vec<ExtractedCode>;

    /// The code block that counts as the answer.
    fn extract_primary(&self, response: &str, expected_lang: Language) -> Option<ExtractedCode>;

    /// The files of an answer that holds several files.
    fn extract_files(&self, response: &str, expected_lang: Language) -> Vec<ExtractedFile>;
}

/// Finds code in answers that are written as markdown.
#[derive(Debug, Clone, Copy)]
pub struct CodeExtractor;

/// The pattern of a fenced code block: the language, which may be missing,
/// and the code.
pub open spec fn code_block_pattern() -> Seq<char> {
    r"```(\w*)\n([\s\S]*?)```"@
}

/// The pattern of a fenced code block that names its file: the language,
/// the path and the code.
pub open spec fn file_block_pattern() -> Seq<char> {
    r"```(\w+):([^\n]+)\n([\s\S]*?)```"@
}

/// The pattern of a comment that names the file of a block: the path.
pub open spec fn file_marker_pattern() -> Seq<char> {
    r"^(?://|#)\s*file:\s*(.+)$"@
}

/// The language that the word on a code fence stands for, whatever its
/// letter case. JavaScript counts as TypeScript.
pub open spec fn fence_language(word: Seq<char>) -> Option<Language> {
    let lower = lowercase_of(word);
    if lower == "rust"@ || lower == "rs"@ {
        Some(Language::Rust)
    } else if lower == "python"@ || lower == "py"@ {
        Some(Language::Python)
    } else if lower == "typescript"@ || lower == "ts"@ || lower == "javascript"@ || lower
        == "js"@ {
        Some(Language::TypeScript)
    } else {
        None
    }
}

/// Whether a block in `language` is taken where `expected` is asked for:
/// it names no language, or the expected one.
pub open spec fn is_wanted(language: Option<Language>, expected: Language) -> bool {
    language.is_none() || language == Some(expected)
}

/// The code block that a match of the block pattern stands for.
pub open spec fn block_of(groups: Seq<Option<Seq<char>>>) -> CodeModel {
    CodeModel {
        code: trimmed(group_or_empty(groups, 2)),
        language: fence_language(group_or_empty(groups, 1)),
    }
}

/// The wanted blocks among the first `upto` matches of the block pattern.
pub open spec fn blocks_upto(
    matches: Seq<Seq<Option<Seq<char>>>>,
    expected: Language,
    upto: int,
) -> Seq<CodeModel>
    decreases upto,
{
    if upto <= 0 {
        seq![]
    } else if is_wanted(block_of(matches[upto - 1]).language, expected) {
        blocks_upto(matches, expected, upto - 1).push(block_of(matches[upto - 1]))
    } else {
        blocks_upto(matches, expected, upto - 1)
    }
}

/// The code blocks of an answer that may be written in `expected`.
pub open spec fn blocks_of(response: Seq<char>, expected: Language) -> Seq<CodeModel> {
    let matches = all_captures_of(code_block_pattern(), response);
    blocks_upto(matches, expected, matches.len() as int)
}

/// The first of `blocks[from..]` that names the language `expected`.
pub open spec fn first_in_language(blocks: Seq<CodeModel>, expected: Language, from: int) -> Option<
    CodeModel,
>
    decreases blocks.len() - from,
{
    if from < 0 || from >= blocks.len() {
        None
    } else if blocks[from].language == Some(expected) {
        Some(blocks[from])
    } else {
        first_in_language(blocks, expected, from + 1)
    }
}

/// The first of `blocks[from..]` that names no language and is not empty.
pub open spec fn first_unlabeled(blocks: Seq<CodeModel>, from: int) -> Option<CodeModel>
    decreases blocks.len() - from,
{
    if from < 0 || from >= blocks.len() {
        None
    } else if blocks[from].language.is_none() && blocks[from].code.len() > 0 {
        Some(blocks[from])
    } else {
        first_unlabeled(blocks, from + 1)
    }
}

/// The block that counts as the answer: the first in the expected
/// language, or else the first that names no language and is not empty.
pub open spec fn primary_of(blocks: Seq<CodeModel>, expected: Language) -> Option<CodeModel> {
    match first_in_language(blocks, expected, 0) {
        Some(block) => Some(block),
        None => first_unlabeled(blocks, 0),
    }
}

/// The path that a match of the marker pattern names.
pub open spec fn marker_of(groups: Option<Seq<Option<Seq<char>>>>) -> Option<Seq<char>> {
    match groups {
        Some(g) => match group_of(g, 1) {
            Some(path) => Some(trimmed(path)),
            None => None,
        },
        None => None,
    }
}

/// The path that the first line of a code names, if that line is a file
/// marker.
pub open spec fn file_marker_of(code: Seq<char>) -> Option<Seq<char>> {
    if lines_of(code).len() == 0 {
        None
    } else {
        marker_of(captures_of(file_marker_pattern(), lines_of(code)[0]))
    }
}

/// The code without its first line if that line is a file marker.
pub open spec fn without_marker(code: Seq<char>) -> Seq<char> {
    if file_marker_of(code).is_some() {
        joined(lines_of(code).drop_first(), "\n"@)
    } else {
        code
    }
}

/// The file that a match of the file-block pattern stands for.
pub open spec fn fenced_file_of(groups: Seq<Option<Seq<char>>>) -> FileModel {
    FileModel {
        path: trimmed(group_or_empty(groups, 2)),
        code: trimmed(group_or_empty(groups, 3)),
        language: fence_language(group_or_empty(groups, 1)),
    }
}

/// The wanted files among the first `upto` matches of the file-block
/// pattern.
pub open spec fn fenced_files_upto(
    matches: Seq<Seq<Option<Seq<char>>>>,
    expected: Language,
    upto: int,
) -> Seq<FileModel>
    decreases upto,
{
    if upto <= 0 {
        seq![]
    } else if is_wanted(fenced_file_of(matches[upto - 1]).language, expected) {
        fenced_files_upto(matches, expected, upto - 1).push(fenced_file_of(matches[upto - 1]))
    } else {
        fenced_files_upto(matches, expected, upto - 1)
    }
}

/// The files among the first `upto` matches of the block pattern: the
/// wanted blocks that begin with a file marker, without that marker.
pub open spec fn marked_files_upto(
    matches: Seq<Seq<Option<Seq<char>>>>,
    expected: Language,
    upto: int,
) -> Seq<FileModel>
    decreases upto,
{
    if upto <= 0 {
        seq![]
    } else {
        let block = block_of(matches[upto - 1]);
        let before = marked_files_upto(matches, expected, upto - 1);
        match file_marker_of(block.code) {
            Some(path) => if is_wanted(block.language, expected) {
                before.push(
                    FileModel { path, code: without_marker(block.code), language: block.language },
                )
            } else {
                before
            },
            None => before,
        }
    }
}

/// The path that a block gets when none is named: `main` for the first
/// block, `file` and its position for the others, with the extension of
/// the expected language.
pub open spec fn default_path(i: nat, expected: Language) -> Seq<char> {
    if i == 0 {
        "main."@ + language_extension(expected)
    } else {
        "file"@ + decimal(i) + "."@ + language_extension(expected)
    }
}

/// The first `upto` blocks as files with default paths.
pub open spec fn default_files_upto(blocks: Seq<CodeModel>, expected: Language, upto: int) -> Seq<
    FileModel,
>
    decreases upto,
{
    if upto <= 0 {
        seq![]
    } else {
        default_files_upto(blocks, expected, upto - 1).push(
            FileModel {
                path: default_path((upto - 1) as nat, expected),
                code: blocks[upto - 1].code,
                language: blocks[upto - 1].language,
            },
        )
    }
}

/// The files of an answer. Blocks that name their file on the fence come
/// first. If there is none, blocks that begin with a file marker count. If
/// there is none either, every block counts, under a default path.
pub open spec fn files_of(response: Seq<char>, expected: Language) -> Seq<FileModel> {
    let fenced = all_captures_of(file_block_pattern(), response);
    let blocks = all_captures_of(code_block_pattern(), response);
    let from_fences = fenced_files_upto(fenced, expected, fenced.len() as int);
    let from_markers = marked_files_upto(blocks, expected, blocks.len() as int);
    if from_fences.len() > 0 {
        from_fences
    } else if from_markers.len() > 0 {
        from_markers
    } else {
        default_files_upto(
            blocks_of(response, expected),
            expected,
            blocks_of(response, expected).len() as int,
        )
    }
}

/// Whether a language is the expected one, or none.
fn wanted(language: Option<Language>, expected: Language) -> (b: bool)
    ensures
        b == is_wanted(language, expected),
{
    match language {
        None => true,
        Some(l) => l == expected,
    }
}

impl CodeExtractor {
    /// A code extractor.
    pub fn new() -> (extractor: CodeExtractor) {
        CodeExtractor
    }

    /// The language that the word on a code fence stands for.
    pub fn parse_language(lang_str: &str) -> (language: Option<Language>)
        ensures
            language == fence_language(lang_str@),
    {
        let lower = to_lowercase(lang_str);
        let word = lower.as_str();
        if equals(word, "rust") || equals(word, "rs") {
            Some(Language::Rust)
        } else if equals(word, "python") || equals(word, "py") {
            Some(Language::Python)
        } else if equals(word, "typescript") || equals(word, "ts") || equals(word, "javascript")
            || equals(word, "js") {
            Some(Language::TypeScript)
        } else {
            None
        }
    }

    /// The code block that a match of the block pattern stands for.
    pub fn block_from(groups: &Vec<Option<String>>) -> (block: ExtractedCode)
        ensures
            block@ == block_of(groups.deep_view()),
    {
        let word = group_text(groups, 1);
        let code = group_text(groups, 2);
        ExtractedCode {
            code: trim(code.as_str()),
            language: CodeExtractor::parse_language(word.as_str()),
        }
    }

    /// The wanted blocks among the matches of the block pattern.
    pub fn blocks_from(matches: &Vec<Vec<Option<String>>>, expected_lang: Language) -> (blocks: Vec<
        ExtractedCode,
    >)
        ensures
            blocks.deep_view() == blocks_upto(matches.deep_view(), expected_lang, matches@.len() as int),
    {
        let mut blocks: Vec<ExtractedCode> = Vec::new();
        assert(blocks.deep_view() =~= Seq::<CodeModel>::empty());
        let mut i: usize = 0;
        while i < matches.len()
            invariant
                i <= matches@.len(),
                blocks.deep_view() == blocks_upto(matches.deep_view(), expected_lang, i as int),
            decreases matches@.len() - i,
        {
            assert(matches.deep_view()[i as int] == matches@[i as int].deep_view());
            let block = CodeExtractor::block_from(&matches[i]);
            if wanted(block.language, expected_lang) {
                let ghost before = blocks.deep_view();
                blocks.push(block);
                assert(blocks.deep_view() =~= before.push(block@));
            }
            i += 1;
        }
        blocks
    }

    /// The code blocks of an answer that may be written in
    /// `expected_lang`: those that name that language or none.
    pub fn extract_blocks(&self, response: &str, expected_lang: Language) -> (blocks: Vec<ExtractedCode>)
        ensures
            blocks.deep_view() == blocks_of(response@, expected_lang),
    {
        let matches = captures_all(r"```(\w*)\n([\s\S]*?)```", response);
        CodeExtractor::blocks_from(&matches, expected_lang)
    }

    /// The block that counts as the answer among `blocks`.
    pub fn primary_from(blocks: &Vec<ExtractedCode>, expected_lang: Language) -> (primary: Option<
        ExtractedCode,
    >)
        ensures
            primary.deep_view() == primary_of(blocks.deep_view(), expected_lang),
    {
        let mut i: usize = 0;
        while i < blocks.len()
            invariant
                i <= blocks@.len(),
                first_in_language(blocks.deep_view(), expected_lang, 0) == first_in_language(
                    blocks.deep_view(),
                    expected_lang,
                    i as int,
                ),
            decreases blocks@.len() - i,
        {
            assert(blocks.deep_view()[i as int] == blocks@[i as int]@);
            match blocks[i].language {
                Some(l) => {
                    if l == expected_lang {
                        return Some(
                            ExtractedCode { code: blocks[i].code.clone(), language: blocks[i].language },
                        );
                    }
                },
                None => {},
            }
            i += 1;
        }
        let mut k: usize = 0;
        while k < blocks.len()
            invariant
                k <= blocks@.len(),
                first_in_language(blocks.deep_view(), expected_lang, 0).is_none(),
                first_unlabeled(blocks.deep_view(), 0) == first_unlabeled(blocks.deep_view(), k as int),
            decreases blocks@.len() - k,
        {
            assert(blocks.deep_view()[k as int] == blocks@[k as int]@);
            if blocks[k].language.is_none() && !blocks[k].code.as_str().is_empty() {
                return Some(ExtractedCode { code: blocks[k].code.clone(), language: None });
            }
            k += 1;
        }
        None
    }

    /// The block that counts as the answer: the first in the expected
    /// language, or else the first that names no language and is not
    /// empty.
    pub fn primary_block(&self, response: &str, expected_lang: Language) -> (primary: Option<
        ExtractedCode,
    >)
        ensures
            primary.deep_view() == primary_of(blocks_of(response@, expected_lang), expected_lang),
    {
        let blocks = self.extract_blocks(response, expected_lang);
        CodeExtractor::primary_from(&blocks, expected_lang)
    }

    /// The path that a match of the marker pattern names.
    pub fn marker_from(groups: &Option<Vec<Option<String>>>) -> (path: Option<String>)
        ensures
            path.deep_view() == marker_of(groups.deep_view()),
    {
        match groups {
            Some(g) => match group(g, 1) {
                Some(path) => Some(trim(path.as_str())),
                None => None,
            },
            None => None,
        }
    }

    /// The path that the first line of a code names, if that line is a
    /// file marker: a comment of the form `// file: path` or
    /// `# file: path`.
    pub fn extract_file_marker(&self, code: &str) -> (path: Option<String>)
        ensures
            path.deep_view() == file_marker_of(code@),
    {
        let all = lines(code);
        if all.len() == 0 {
            return None;
        }
        assert(all.deep_view()[0] == all@[0]@);
        let found = captures(r"^(?://|#)\s*file:\s*(.+)$", all[0].as_str());
        CodeExtractor::marker_from(&found)
    }

    /// The code without its first line if that line is a file marker.
    pub fn strip_file_marker(&self, code: &str) -> (stripped: String)
        ensures
            stripped@ == without_marker(code@),
    {
        if self.extract_file_marker(code).is_some() {
            let all = lines(code);
            let mut rest: Vec<String> = Vec::new();
            let mut i: usize = 1;
            while i < all.len()
                invariant
                    1 <= i <= all@.len(),
                    rest@.len() == i - 1,
                    forall|k: int| 0 <= k < i - 1 ==> (#[trigger] rest@[k])@ == all@[k + 1]@,
                decreases all@.len() - i,
            {
                rest.push(all[i].clone());
                i += 1;
            }
            assert(rest.deep_view() =~= all.deep_view().drop_first());
            join(&rest, "\n")
        } else {
            String::from_str(code)
        }
    }

    /// The files as source files: the path and the code of each.
    pub fn to_source_files(&self, files: &Vec<ExtractedFile>) -> (sources: Vec<SourceFile>)
        ensures
            sources@.len() == files@.len(),
            forall|i: int|
                0 <= i < files@.len() ==> (#[trigger] sources@[i]).path@ == files@[i].path@
                    && sources@[i].content@ == files@[i].code@,
    {
        let mut sources: Vec<SourceFile> = Vec::new();
        let mut i: usize = 0;
        while i < files.len()
            invariant
                i <= files@.len(),
                sources@.len() == i,
                forall|k: int|
                    0 <= k < i ==> (#[trigger] sources@[k]).path@ == files@[k].path@
                        && sources@[k].content@ == files@[k].code@,
            decreases files@.len() - i,
        {
            sources.push(SourceFile { path: files[i].path.clone(), content: files[i].code.clone() });
            i += 1;
        }
        sources
    }

    /// The wanted files among the matches of the file-block pattern.
    pub fn files_from_fences(matches: &Vec<Vec<Option<String>>>, expected_lang: Language) -> (files: Vec<
        ExtractedFile,
    >)
        ensures
            files.deep_view() == fenced_files_upto(
                matches.deep_view(),
                expected_lang,
                matches@.len() as int,
            ),
    {
        let mut files: Vec<ExtractedFile> = Vec::new();
        assert(files.deep_view() =~= Seq::<FileModel>::empty());
        let mut i: usize = 0;
        while i < matches.len()
            invariant
                i <= matches@.len(),
                files.deep_view() == fenced_files_upto(matches.deep_view(), expected_lang, i as int),
            decreases matches@.len() - i,
        {
            assert(matches.deep_view()[i as int] == matches@[i as int].deep_view());
            let word = group_text(&matches[i], 1);
            let path = group_text(&matches[i], 2);
            let code = group_text(&matches[i], 3);
            let language = CodeExtractor::parse_language(word.as_str());
            if wanted(language, expected_lang) {
                let ghost before = files.deep_view();
                let file = ExtractedFile {
                    path: trim(path.as_str()),
                    code: trim(code.as_str()),
                    language,
                };
                files.push(file);
                assert(files.deep_view() =~= before.push(file@));
            }
            i += 1;
        }
        files
    }

    /// The files among the matches of the block pattern: the wanted blocks
    /// that begin with a file marker.
    pub fn files_from_markers(&self, matches: &Vec<Vec<Option<String>>>, expected_lang: Language) -> (files:
        Vec<ExtractedFile>)
        ensures
            files.deep_view() == marked_files_upto(
                matches.deep_view(),
                expected_lang,
                matches@.len() as int,
            ),
    {
        let mut files: Vec<ExtractedFile> = Vec::new();
        assert(files.deep_view() =~= Seq::<FileModel>::empty());
        let mut i: usize = 0;
        while i < matches.len()
            invariant
                i <= matches@.len(),
                files.deep_view() == marked_files_upto(matches.deep_view(), expected_lang, i as int),
            decreases matches@.len() - i,
        {
            assert(matches.deep_view()[i as int] == matches@[i as int].deep_view());
            let block = CodeExtractor::block_from(&matches[i]);
            if wanted(block.language, expected_lang) {
                match self.extract_file_marker(block.code.as_str()) {
                    Some(path) => {
                        let ghost before = files.deep_view();
                        let file = ExtractedFile {
                            path,
                            code: self.strip_file_marker(block.code.as_str()),
                            language: block.language,
                        };
                        files.push(file);
                        assert(files.deep_view() =~= before.push(file@));
                    },
                    None => {},
                }
            }
            i += 1;
        }
        files
    }

    /// The blocks as files with default paths.
    pub fn files_with_default_paths(blocks: Vec<ExtractedCode>, expected_lang: Language) -> (files: Vec<
        ExtractedFile,
    >)
        ensures
            files.deep_view() == default_files_upto(
                blocks.deep_view(),
                expected_lang,
                blocks@.len() as int,
            ),
    {
        let mut files: Vec<ExtractedFile> = Vec::new();
        assert(files.deep_view() =~= Seq::<FileModel>::empty());
        let ext = expected_lang.extension();
        let mut i: usize = 0;
        while i < blocks.len()
            invariant
                i <= blocks@.len(),
                ext@ == language_extension(expected_lang),
                files.deep_view() == default_files_upto(blocks.deep_view(), expected_lang, i as int),
            decreases blocks@.len() - i,
        {
            assert(blocks.deep_view()[i as int] == blocks@[i as int]@);
            let path = if i == 0 {
                String::from_str("main.").concat(ext)
            } else {
                let mut path = String::from_str("file");
                let number = decimal_string(i as u64);
                path.append(number.as_str());
                path.append(".");
                path.append(ext);
                path
            };
            let ghost before = files.deep_view();
            let file = ExtractedFile { path, code: blocks[i].code.clone(), language: blocks[i].language };
            files.push(file);
            assert(files.deep_view() =~= before.push(file@));
            i += 1;
        }
        files
    }

    /// The files of an answer that holds several files.
    pub fn files(&self, response: &str, expected_lang: Language) -> (files: Vec<ExtractedFile>)
        ensures
            files.deep_view() == files_of(response@, expected_lang),
    {
        let fenced = captures_all(r"```(\w+):([^\n]+)\n([\s\S]*?)```", response);
        let from_fences = CodeExtractor::files_from_fences(&fenced, expected_lang);
        if from_fences.len() > 0 {
            return from_fences;
        }
        let blocks = captures_all(r"```(\w*)\n([\s\S]*?)```", response);
        let from_markers = self.files_from_markers(&blocks, expected_lang);
        if from_markers.len() > 0 {
            return from_markers;
        }
        CodeExtractor::files_with_default_paths(
            CodeExtractor::blocks_from(&blocks, expected_lang),
            expected_lang,
        )
    }
}

impl Default for CodeExtractor {
    fn default() -> (extractor: CodeExtractor) {
        CodeExtractor
    }
}

impl CodeExtractorTrait for CodeExtractor {
    fn extract(&self, response: &str, expected_lang: Language) -> (blocks: Vec<ExtractedCode>)
        ensures
            blocks.deep_view() == blocks_of(response@, expected_lang),
    {
        self.extract_blocks(response, expected_lang)
    }

    fn extract_primary(&self, response: &str, expected_lang: Language) -> (primary: Option<
        ExtractedCode,
    >)
        ensures
            primary.deep_view() == primary_of(blocks_of(response@, expected_lang), expected_lang),
    {
        self.primary_block(response, expected_lang)
    }

    fn extract_files(&self, response: &str, expected_lang: Language) -> (files: Vec<ExtractedFile>)
        ensures
            files.deep_view() == files_of(response@, expected_lang),
    {
        self.files(response, expected_lang)
    }
}

} // verus!
