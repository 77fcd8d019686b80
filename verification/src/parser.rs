//! The comment scanner: from the text of a file to its comment blocks and
//! the places where functions are defined.
//!
//! The scan looks at one line at a time. No brackets are matched and no
//! signature is followed over several lines.

use crate::error::{Error, ErrorModel};
use crate::language::{
    extension_of, file_extension, language_for_extension, language_of_path, style_of, CommentStyle,
    CommentStyleModel, Language,
};
use crate::pattern::{captures_each, captures_of, group, group_of};
use crate::text::{
    chars_end_with, chars_start_with, contains, from_chars, has_infix, has_prefix, has_suffix,
    lines, lines_of, to_chars, trim, trim_range, trimmed, trimmed_start,
};
use vstd::prelude::*;
use vstd::string::StringExecFns;

verus! {

/// One line of a comment, without its comment marker.
#[derive(Debug, Clone)]
pub struct CommentLine {
    pub line_number: usize,
    pub content: String,
    pub is_doc_comment: bool,
}

/// A comment line as plain values.
pub struct CommentLineModel {
    pub line_number: nat,
    pub content: Seq<char>,
    pub is_doc_comment: bool,
}

impl View for CommentLine {
    type V = CommentLineModel;

    open spec fn view(&self) -> CommentLineModel {
        CommentLineModel {
            line_number: self.line_number as nat,
            content: self.content@,
            is_doc_comment: self.is_doc_comment,
        }
    }
}

impl DeepView for CommentLine {
    type V = CommentLineModel;

    open spec fn deep_view(&self) -> CommentLineModel {
        self@
    }
}

/// A run of comment lines with no line of code in between.
#[derive(Debug, Clone)]
pub struct CommentBlock {
    pub lines: Vec<CommentLine>,
    pub start_line: usize,
    pub end_line: usize,
}

/// A comment block as plain values.
pub struct CommentBlockModel {
    pub lines: Seq<CommentLineModel>,
    pub start_line: nat,
    pub end_line: nat,
}

impl View for CommentBlock {
    type V = CommentBlockModel;

    open spec fn view(&self) -> CommentBlockModel {
        CommentBlockModel {
            lines: self.lines.deep_view(),
            start_line: self.start_line as nat,
            end_line: self.end_line as nat,
        }
    }
}

impl DeepView for CommentBlock {
    type V = CommentBlockModel;

    open spec fn deep_view(&self) -> CommentBlockModel {
        self@
    }
}

/// Where a function is defined, and which comment block stands before it.
#[derive(Debug, Clone)]
pub struct FunctionLocation {
    pub name: String,
    pub line: usize,
    pub preceding_comment_block: Option<usize>,
}

/// A function location as plain values.
pub struct FunctionLocationModel {
    pub name: Seq<char>,
    pub line: nat,
    pub preceding_comment_block: Option<nat>,
}

impl View for FunctionLocation {
    type V = FunctionLocationModel;

    open spec fn view(&self) -> FunctionLocationModel {
        FunctionLocationModel {
            name: self.name@,
            line: self.line as nat,
            preceding_comment_block: match self.preceding_comment_block {
                Some(i) => Some(i as nat),
                None => None,
            },
        }
    }
}

impl DeepView for FunctionLocation {
    type V = FunctionLocationModel;

    open spec fn deep_view(&self) -> FunctionLocationModel {
        self@
    }
}

/// The comment blocks and function locations of one file.
#[derive(Debug)]
pub struct ParsedSource {
    pub language: Language,
    pub comment_blocks: Vec<CommentBlock>,
    pub function_locations: Vec<FunctionLocation>,
}

/// The marker that every annotation starts with.
pub open spec fn annotation_marker() -> Seq<char> {
    "@ai:"@
}

/// The first of `prefixes` that `line` begins with.
pub open spec fn first_prefix(prefixes: Seq<Seq<char>>, line: Seq<char>) -> Option<Seq<char>>
    decreases prefixes.len(),
{
    if prefixes.len() == 0 {
        None
    } else if has_prefix(line, prefixes[0]) {
        Some(prefixes[0])
    } else {
        first_prefix(prefixes.drop_first(), line)
    }
}

/// The line-comment marker that `line` begins with: a documentation marker
/// if one fits, else a plain one.
pub open spec fn line_marker(line: Seq<char>, style: CommentStyleModel) -> Option<Seq<char>> {
    match first_prefix(style.doc_line, line) {
        Some(p) => Some(p),
        None => first_prefix(style.single_line, line),
    }
}

/// Whether `line` is a whole block comment: it begins with `start`, ends
/// with `end`, and the two do not touch.
pub open spec fn is_closed_block(line: Seq<char>, start: Seq<char>, end: Seq<char>) -> bool {
    has_prefix(line, start) && has_suffix(line, end) && line.len() > start.len() + end.len()
}

/// The text of the comment that `line` holds, if it is a comment line.
///
/// Line-comment markers are tried first. Where the style has block
/// comments, a line that is a whole block comment counts next, and then a
/// line that begins, after white space, with the style's marker for the
/// lines inside a block.
pub open spec fn comment_text(line: Seq<char>, style: CommentStyleModel) -> Option<Seq<char>> {
    match line_marker(line, style) {
        Some(p) => Some(trimmed(line.skip(p.len() as int))),
        None => match (style.block_start, style.block_end) {
            (Some(start), Some(end)) => {
                if is_closed_block(line, start, end) {
                    Some(trimmed(line.subrange(start.len() as int, line.len() - end.len())))
                } else {
                    match style.block_line_prefix {
                        Some(p) => {
                            if has_prefix(trimmed_start(line), p) {
                                Some(trimmed(trimmed_start(line).skip(p.len() as int)))
                            } else {
                                None
                            }
                        },
                        None => None,
                    }
                }
            },
            _ => None,
        },
    }
}

/// Whether `line` begins with a documentation marker.
pub open spec fn is_doc_line(line: Seq<char>, style: CommentStyleModel) -> bool {
    first_prefix(style.doc_line, line).is_some()
}

/// The state of the scan for comment blocks: the blocks that are closed, and
/// the one that is still open.
pub struct ScanState {
    pub closed: Seq<CommentBlockModel>,
    pub open: Option<CommentBlockModel>,
}

/// The comment line that stands for line `number`, whose trimmed text is
/// `line` and whose comment text is `text`.
pub open spec fn comment_line(
    line: Seq<char>,
    text: Seq<char>,
    number: nat,
    style: CommentStyleModel,
) -> CommentLineModel {
    CommentLineModel { line_number: number, content: text, is_doc_comment: is_doc_line(line, style) }
}

/// The block that `open` becomes when the comment line `next` follows.
pub open spec fn extended(open: Option<CommentBlockModel>, next: CommentLineModel) -> CommentBlockModel {
    match open {
        Some(b) => CommentBlockModel {
            lines: b.lines.push(next),
            start_line: b.start_line,
            end_line: next.line_number,
        },
        None => CommentBlockModel {
            lines: seq![next],
            start_line: next.line_number,
            end_line: next.line_number,
        },
    }
}

/// The closed blocks once the open one, if any, is closed too.
pub open spec fn flushed(state: ScanState) -> Seq<CommentBlockModel> {
    match state.open {
        Some(b) => state.closed.push(b),
        None => state.closed,
    }
}

/// One step of the scan. A comment line joins the open block, or opens one.
/// A line of code closes the open block. A blank line changes nothing.
pub open spec fn scan_line(
    state: ScanState,
    line: Seq<char>,
    number: nat,
    style: CommentStyleModel,
) -> ScanState {
    let t = trimmed(line);
    match comment_text(t, style) {
        Some(text) => ScanState {
            closed: state.closed,
            open: Some(extended(state.open, comment_line(t, text, number, style))),
        },
        None => if t.len() > 0 {
            ScanState { closed: flushed(state), open: None }
        } else {
            state
        },
    }
}

/// The state of the scan after all of `lines`, which are numbered from 1.
pub open spec fn scan(lines: Seq<Seq<char>>, style: CommentStyleModel) -> ScanState
    decreases lines.len(),
{
    if lines.len() == 0 {
        ScanState { closed: seq![], open: None }
    } else {
        scan_line(scan(lines.drop_last(), style), lines.last(), lines.len(), style)
    }
}

/// The comment blocks of a file, given by its lines.
pub open spec fn comment_blocks_of(lines: Seq<Seq<char>>, style: CommentStyleModel) -> Seq<
    CommentBlockModel,
> {
    flushed(scan(lines, style))
}

/// Whether a block that ends at line `end_line` stands directly before
/// `line`: it ends one or two lines earlier.
pub open spec fn ends_just_before(end_line: nat, line: nat) -> bool {
    end_line + 1 == line || end_line + 2 == line
}

/// The index of the first of `blocks[from..]` that stands directly before
/// `line`.
pub open spec fn first_block_before(blocks: Seq<CommentBlockModel>, line: nat, from: int) -> Option<
    nat,
>
    decreases blocks.len() - from,
{
    if from < 0 || from >= blocks.len() {
        None
    } else if ends_just_before(blocks[from].end_line, line) {
        Some(from as nat)
    } else {
        first_block_before(blocks, line, from + 1)
    }
}

/// The index of the comment block that belongs to a function defined at
/// `line`: the first block that ends one or two lines before it.
pub open spec fn preceding_block(line: nat, blocks: Seq<CommentBlockModel>) -> Option<nat> {
    first_block_before(blocks, line, 0)
}

/// The pattern that recognises a function definition in each language. Its
/// first group is the function's name.
pub open spec fn function_pattern(lang: Language) -> Seq<char> {
    match lang {
        Language::Rust => r"^\s*(?:pub\s+)?(?:async\s+)?fn\s+(\w+)"@,
        Language::Python => r"^\s*(?:async\s+)?def\s+(\w+)"@,
        Language::TypeScript | Language::JavaScript => r"^\s*(?:export\s+)?(?:async\s+)?function\s+(\w+)"@,
        Language::Go => r"^\s*func\s+(?:\([^)]*\)\s+)?(\w+)"@,
        Language::Java => r"^\s*(?:public|private|protected)?\s*(?:static\s+)?(?:\w+\s+)+(\w+)\s*\("@,
        Language::C | Language::Cpp => r"^\s*(?:\w+\s+)+(\w+)\s*\("@,
    }
}

/// The name that a match of a function pattern gives: its first group, or
/// `unknown` where that group is missing.
pub open spec fn function_name(groups: Seq<Option<Seq<char>>>) -> Seq<char> {
    match group_of(groups, 1) {
        Some(name) => name,
        None => "unknown"@,
    }
}

/// The location of the function that a match on line `line` stands for.
pub open spec fn located(
    groups: Seq<Option<Seq<char>>>,
    line: nat,
    blocks: Seq<CommentBlockModel>,
) -> FunctionLocationModel {
    FunctionLocationModel {
        name: function_name(groups),
        line,
        preceding_comment_block: preceding_block(line, blocks),
    }
}

/// The function locations in `lines`, which are numbered from 1: one for
/// each line on which `pattern` matches.
pub open spec fn locations_of(
    lines: Seq<Seq<char>>,
    pattern: Seq<char>,
    blocks: Seq<CommentBlockModel>,
) -> Seq<FunctionLocationModel>
    decreases lines.len(),
{
    if lines.len() == 0 {
        seq![]
    } else {
        let before = locations_of(lines.drop_last(), pattern, blocks);
        match captures_of(pattern, lines.last()) {
            Some(groups) => before.push(located(groups, lines.len(), blocks)),
            None => before,
        }
    }
}

/// The length of the first of `prefixes` that the characters `v` begin with.
fn matching_prefix(v: &Vec<char>, prefixes: &Vec<&'static str>) -> (r: Option<usize>)
    ensures
        match r {
            Some(n) => first_prefix(prefixes.deep_view(), v@) matches Some(p) && p.len() == n
                && n <= v@.len(),
            None => first_prefix(prefixes.deep_view(), v@).is_none(),
        },
{
    let mut i: usize = 0;
    assert(prefixes.deep_view().skip(0) =~= prefixes.deep_view());
    while i < prefixes.len()
        invariant
            i <= prefixes@.len(),
            first_prefix(prefixes.deep_view(), v@) == first_prefix(
                prefixes.deep_view().skip(i as int),
                v@,
            ),
        decreases prefixes@.len() - i,
    {
        let p = to_chars(prefixes[i]);
        let ghost rest = prefixes.deep_view().skip(i as int);
        assert(rest[0] == p@);
        assert(rest.drop_first() =~= prefixes.deep_view().skip(i as int + 1));
        if chars_start_with(v, &p) {
            return Some(p.len());
        }
        i += 1;
    }
    None
}

/// The text `v[from..to]` without white space at either end.
fn trimmed_string(v: &Vec<char>, from: usize, to: usize) -> (s: String)
    requires
        from <= to <= v@.len(),
    ensures
        s@ == trimmed(v@.subrange(from as int, to as int)),
{
    let (i, j) = trim_range(v, from, to);
    from_chars(v, i, j)
}

/// The text of the comment that `line` holds, if it is a comment line.
pub fn extract_single_line_comment(line: &str, style: &CommentStyle) -> (r: Option<String>)
    ensures
        r.deep_view() == comment_text(line@, style@),
{
    let v = to_chars(line);
    let n = v.len();
    assert(v@.subrange(0, n as int) =~= v@);
    match matching_prefix(&v, &style.doc_line) {
        Some(k) => {
            assert(v@.skip(k as int) =~= v@.subrange(k as int, n as int));
            return Some(trimmed_string(&v, k, n));
        },
        None => {},
    }
    match matching_prefix(&v, &style.single_line) {
        Some(k) => {
            assert(v@.skip(k as int) =~= v@.subrange(k as int, n as int));
            return Some(trimmed_string(&v, k, n));
        },
        None => {},
    }
    match (style.block_start, style.block_end) {
        (Some(start), Some(end)) => {
            let s = to_chars(start);
            let e = to_chars(end);
            if chars_start_with(&v, &s) && chars_end_with(&v, &e) && s.len() <= n && e.len() <= n
                - s.len() && n - s.len() - e.len() > 0 {
                return Some(trimmed_string(&v, s.len(), n - e.len()));
            }
            match style.block_line_prefix {
                Some(prefix) => {
                    let p = to_chars(prefix);
                    let t = to_chars(crate::text::trim_start(line).as_str());
                    if chars_start_with(&t, &p) {
                        let m = t.len();
                        assert(t@.skip(p@.len() as int) =~= t@.subrange(p@.len() as int, m as int));
                        Some(trimmed_string(&t, p.len(), m))
                    } else {
                        None
                    }
                },
                None => None,
            }
        },
        _ => None,
    }
}

/// Whether `line` begins with a documentation marker.
pub fn is_doc_comment(line: &str, style: &CommentStyle) -> (b: bool)
    ensures
        b == is_doc_line(line@, style@),
{
    let v = to_chars(line);
    matching_prefix(&v, &style.doc_line).is_some()
}

/// What the scan knows after some lines, as the executable scan holds it.
pub open spec fn state_of(closed: Vec<CommentBlock>, open: Option<CommentBlock>) -> ScanState {
    ScanState { closed: closed.deep_view(), open: open.deep_view() }
}

/// The comment blocks of a file, in the order in which they stand.
///
/// A block stays open over blank lines and ends at the first line that is
/// neither blank nor a comment.
pub fn extract_comment_blocks(content: &str, language: Language) -> (blocks: Vec<CommentBlock>)
    ensures
        blocks.deep_view() == comment_blocks_of(lines_of(content@), style_of(language)),
{
    let style = language.comment_style();
    let all = lines(content);
    let mut blocks: Vec<CommentBlock> = Vec::new();
    let mut current: Option<CommentBlock> = None;
    let mut idx: usize = 0;
    assert(all.deep_view().take(0) =~= Seq::<Seq<char>>::empty());
    assert(blocks.deep_view() =~= Seq::<CommentBlockModel>::empty());
    while idx < all.len()
        invariant
            idx <= all@.len(),
            style@ == style_of(language),
            all.deep_view() == lines_of(content@),
            state_of(blocks, current) == scan(all.deep_view().take(idx as int), style@),
        decreases all@.len() - idx,
    {
        let line_number = idx + 1;
        let text = trim(all[idx].as_str());
        let ghost before = all.deep_view().take(idx as int);
        let ghost upto = all.deep_view().take(idx as int + 1);
        let ghost was = state_of(blocks, current);
        proof {
            assert(upto.drop_last() =~= before);
            assert(upto.last() == all@[idx as int]@);
            assert(scan(upto, style@) == scan_line(was, all@[idx as int]@, line_number as nat, style@));
        }
        match extract_single_line_comment(text.as_str(), &style) {
            Some(comment) => {
                let is_doc = is_doc_comment(text.as_str(), &style);
                let entry = CommentLine { line_number, content: comment, is_doc_comment: is_doc };
                match current {
                    Some(block) => {
                        let mut block = block;
                        let ghost old_lines = block.lines.deep_view();
                        block.lines.push(entry);
                        block.end_line = line_number;
                        assert(block.lines.deep_view() =~= old_lines.push(entry@));
                        current = Some(block);
                    },
                    None => {
                        let mut held: Vec<CommentLine> = Vec::new();
                        held.push(entry);
                        assert(held.deep_view() =~= seq![entry@]);
                        current = Some(
                            CommentBlock { lines: held, start_line: line_number, end_line: line_number },
                        );
                    },
                }
            },
            None => {
                if !text.as_str().is_empty() {
                    match current {
                        Some(block) => {
                            let ghost closed = blocks.deep_view();
                            blocks.push(block);
                            assert(blocks.deep_view() =~= closed.push(block@));
                            current = None;
                        },
                        None => {},
                    }
                }
            },
        }
        idx += 1;
    }
    assert(all.deep_view().take(idx as int) =~= all.deep_view());
    match current {
        Some(block) => {
            let ghost closed = blocks.deep_view();
            blocks.push(block);
            assert(blocks.deep_view() =~= closed.push(block@));
        },
        None => {},
    }
    blocks
}

/// The pattern that recognises a function definition in `language`.
pub fn get_function_pattern(language: Language) -> (pattern: String)
    ensures
        pattern@ == function_pattern(language),
{
    match language {
        Language::Rust => String::from_str(r"^\s*(?:pub\s+)?(?:async\s+)?fn\s+(\w+)"),
        Language::Python => String::from_str(r"^\s*(?:async\s+)?def\s+(\w+)"),
        Language::TypeScript | Language::JavaScript => String::from_str(
            r"^\s*(?:export\s+)?(?:async\s+)?function\s+(\w+)",
        ),
        Language::Go => String::from_str(r"^\s*func\s+(?:\([^)]*\)\s+)?(\w+)"),
        Language::Java => String::from_str(
            r"^\s*(?:public|private|protected)?\s*(?:static\s+)?(?:\w+\s+)+(\w+)\s*\(",
        ),
        Language::C | Language::Cpp => String::from_str(r"^\s*(?:\w+\s+)+(\w+)\s*\("),
    }
}

/// The index of the comment block that belongs to a function defined at
/// `line`: the first block that ends one or two lines before it.
pub fn find_preceding_comment_block(line: usize, blocks: &Vec<CommentBlock>) -> (r: Option<usize>)
    ensures
        match r {
            Some(i) => preceding_block(line as nat, blocks.deep_view()) == Some(i as nat),
            None => preceding_block(line as nat, blocks.deep_view()).is_none(),
        },
{
    let mut i: usize = 0;
    while i < blocks.len()
        invariant
            i <= blocks@.len(),
            preceding_block(line as nat, blocks.deep_view()) == first_block_before(
                blocks.deep_view(),
                line as nat,
                i as int,
            ),
        decreases blocks@.len() - i,
    {
        let end = blocks[i].end_line;
        assert(blocks.deep_view()[i as int].end_line == end);
        if (line >= 1 && end == line - 1) || (line >= 2 && end == line - 2) {
            return Some(i);
        }
        i += 1;
    }
    None
}

/// The location of the function that a match on line `line` stands for:
/// named by the first group of the match, and tied to the comment block that
/// ends one or two lines above.
pub fn locate_function(groups: &Vec<Option<String>>, line: usize, blocks: &Vec<CommentBlock>) -> (at:
    FunctionLocation)
    ensures
        at@ == located(groups.deep_view(), line as nat, blocks.deep_view()),
{
    let name = match group(groups, 1) {
        Some(name) => name.clone(),
        None => String::from_str("unknown"),
    };
    FunctionLocation { name, line, preceding_comment_block: find_preceding_comment_block(line, blocks) }
}

/// The places in a file where a function is defined, in the order in which
/// they stand. A definition is a line that the language's pattern matches,
/// so a signature that is spread over several lines is not found.
pub fn extract_function_locations(
    content: &str,
    language: Language,
    comment_blocks: &Vec<CommentBlock>,
) -> (found: Vec<FunctionLocation>)
    ensures
        found.deep_view() == locations_of(
            lines_of(content@),
            function_pattern(language),
            comment_blocks.deep_view(),
        ),
{
    let pattern = get_function_pattern(language);
    let all = lines(content);
    let matches = captures_each(pattern.as_str(), &all);
    let mut found: Vec<FunctionLocation> = Vec::new();
    let mut idx: usize = 0;
    assert(all.deep_view().take(0) =~= Seq::<Seq<char>>::empty());
    assert(found.deep_view() =~= Seq::<FunctionLocationModel>::empty());
    while idx < all.len()
        invariant
            idx <= all@.len(),
            matches@.len() == all@.len(),
            forall|i: int|
                0 <= i < all@.len() ==> (#[trigger] matches@[i]).deep_view() == captures_of(
                    pattern@,
                    all@[i]@,
                ),
            pattern@ == function_pattern(language),
            all.deep_view() == lines_of(content@),
            found.deep_view() == locations_of(
                all.deep_view().take(idx as int),
                pattern@,
                comment_blocks.deep_view(),
            ),
        decreases all@.len() - idx,
    {
        let ghost upto = all.deep_view().take(idx as int + 1);
        proof {
            assert(upto.drop_last() =~= all.deep_view().take(idx as int));
            assert(upto.last() == all@[idx as int]@);
        }
        match &matches[idx] {
            Some(groups) => {
                let at = locate_function(groups, idx + 1, comment_blocks);
                let ghost before = found.deep_view();
                found.push(at);
                assert(found.deep_view() =~= before.push(at@));
            },
            None => {},
        }
        idx += 1;
    }
    assert(all.deep_view().take(idx as int) =~= all.deep_view());
    found
}

/// The failure for a path that stands for no supported language: it names
/// the extension of the path, or the empty text where the path has none.
pub open spec fn unsupported(path: Seq<char>) -> ErrorModel {
    ErrorModel::UnsupportedFileType(
        match extension_of(path) {
            Some(ext) => ext,
            None => Seq::<char>::empty(),
        },
    )
}

/// What scanning the file at `path` with the text `content` gives.
pub open spec fn parsed_of(path: Seq<char>, content: Seq<char>) -> Result<
    (Language, Seq<CommentBlockModel>, Seq<FunctionLocationModel>),
    ErrorModel,
> {
    match language_of_path(path) {
        Some(language) => {
            let blocks = comment_blocks_of(lines_of(content), style_of(language));
            Ok(
                (
                    language,
                    blocks,
                    locations_of(lines_of(content), function_pattern(language), blocks),
                ),
            )
        },
        None => Err(unsupported(path)),
    }
}

impl ParsedSource {
    /// The language, comment blocks and function locations as plain values.
    pub open spec fn parts(&self) -> (Language, Seq<CommentBlockModel>, Seq<FunctionLocationModel>) {
        (self.language, self.comment_blocks.deep_view(), self.function_locations.deep_view())
    }
}

/// The language of the file at `path`, or the failure that says that its
/// type is not supported.
pub fn require_language(path: &str) -> (r: Result<Language, Error>)
    ensures
        match r {
            Ok(language) => language_of_path(path@) == Some(language),
            Err(e) => language_of_path(path@).is_none() && e@ == unsupported(path@),
        },
{
    match file_extension(path) {
        Some(ext) => match language_for_extension(ext.as_str()) {
            Some(language) => Ok(language),
            None => Err(Error::UnsupportedFileType(ext)),
        },
        None => Err(Error::UnsupportedFileType(String::new())),
    }
}

/// Scans the file at `path`, whose text is `content`, for comment blocks and
/// function definitions. The path decides the language; a path that stands
/// for no supported language is the only failure.
pub fn parse_file(path: &str, content: &str) -> (r: Result<ParsedSource, Error>)
    ensures
        match r {
            Ok(source) => parsed_of(path@, content@) == Ok::<_, ErrorModel>(source.parts()),
            Err(e) => parsed_of(path@, content@) == Err::<
                (Language, Seq<CommentBlockModel>, Seq<FunctionLocationModel>),
                _,
            >(e@),
        },
{
    let language = match require_language(path) {
        Ok(language) => language,
        Err(e) => {
            return Err(e);
        },
    };
    let comment_blocks = extract_comment_blocks(content, language);
    let function_locations = extract_function_locations(content, language, &comment_blocks);
    Ok(ParsedSource { language, comment_blocks, function_locations })
}

/// Whether a comment line holds the annotation marker.
pub open spec fn is_annotation_line(line: CommentLineModel) -> bool {
    has_infix(line.content, annotation_marker())
}

impl CommentBlock {
    /// Whether a line of this block holds the annotation marker.
    pub fn has_ai_annotations(&self) -> (b: bool)
        ensures
            b == exists|i: int|
                0 <= i < self@.lines.len() && is_annotation_line(#[trigger] self@.lines[i]),
    {
        let mut i: usize = 0;
        while i < self.lines.len()
            invariant
                i <= self.lines@.len(),
                forall|j: int| 0 <= j < i ==> !is_annotation_line(#[trigger] self@.lines[j]),
            decreases self.lines@.len() - i,
        {
            if contains(self.lines[i].content.as_str(), "@ai:") {
                assert(is_annotation_line(self@.lines[i as int]));
                return true;
            }
            i += 1;
        }
        false
    }

    /// The lines of this block that hold the annotation marker, in order.
    pub fn ai_annotation_lines(&self) -> (found: Vec<&CommentLine>)
        ensures
            found.deep_view() == self@.lines.filter(|l: CommentLineModel| is_annotation_line(l)),
    {
        let ghost keep = |l: CommentLineModel| is_annotation_line(l);
        let mut found: Vec<&CommentLine> = Vec::new();
        let mut i: usize = 0;
        proof {
            reveal(Seq::filter);
            assert(self@.lines.take(0) =~= Seq::<CommentLineModel>::empty());
            assert(found.deep_view() =~= Seq::<CommentLineModel>::empty());
        }
        while i < self.lines.len()
            invariant
                i <= self.lines@.len(),
                keep == |l: CommentLineModel| is_annotation_line(l),
                found.deep_view() == self@.lines.take(i as int).filter(keep),
            decreases self.lines@.len() - i,
        {
            let ghost upto = self@.lines.take(i as int + 1);
            proof {
                reveal(Seq::filter);
                assert(upto.drop_last() =~= self@.lines.take(i as int));
                assert(upto.last() == self.lines@[i as int]@);
            }
            if contains(self.lines[i].content.as_str(), "@ai:") {
                let ghost before = found.deep_view();
                found.push(&self.lines[i]);
                assert(found.deep_view() =~= before.push(self.lines@[i as int]@));
            }
            i += 1;
        }
        assert(self@.lines.take(i as int) =~= self@.lines);
        found
    }
}

/// Whether a line holds a comment.
pub open spec fn is_comment(line: Seq<char>, style: CommentStyleModel) -> bool {
    comment_text(trimmed(line), style).is_some()
}

/// Whether a line holds nothing but white space.
pub open spec fn is_blank(line: Seq<char>) -> bool {
    trimmed(line).len() == 0
}

/// Whether entry `k` of a block is the comment on the line whose number it
/// carries.
pub open spec fn entry_matches(
    b: CommentBlockModel,
    k: int,
    lines: Seq<Seq<char>>,
    style: CommentStyleModel,
) -> bool {
    let entry = b.lines[k];
    let line = trimmed(lines[entry.line_number - 1]);
    &&& b.start_line <= entry.line_number <= b.end_line
    &&& comment_text(line, style) == Some(entry.content)
    &&& entry.is_doc_comment == is_doc_line(line, style)
}

/// Whether a block is sound for a file with the given lines: it is not
/// empty, runs from its first comment to its last, lies within the first
/// `seen` lines, covers no line of code, and holds its comments as they
/// stand in the file, in rising order of line.
pub open spec fn block_sound(
    b: CommentBlockModel,
    lines: Seq<Seq<char>>,
    seen: int,
    style: CommentStyleModel,
) -> bool {
    &&& b.lines.len() > 0
    &&& b.start_line == b.lines[0].line_number
    &&& b.end_line == b.lines.last().line_number
    &&& 1 <= b.start_line <= b.end_line <= seen <= lines.len()
    &&& forall|n: int|
        b.start_line <= n <= b.end_line ==> is_comment(#[trigger] lines[n - 1], style) || is_blank(
            lines[n - 1],
        )
    &&& forall|k: int| 0 <= k < b.lines.len() ==> #[trigger] entry_matches(b, k, lines, style)
    &&& forall|k: int, m: int|
        0 <= k < m < b.lines.len() ==> (#[trigger] b.lines[k]).line_number < (
        #[trigger] b.lines[m]).line_number
}

/// Whether a list of blocks is sound: each block is, and each ends before
/// the next begins.
pub open spec fn blocks_sound(
    blocks: Seq<CommentBlockModel>,
    lines: Seq<Seq<char>>,
    seen: int,
    style: CommentStyleModel,
) -> bool {
    &&& forall|i: int| 0 <= i < blocks.len() ==> block_sound(#[trigger] blocks[i], lines, seen, style)
    &&& forall|i: int, j: int|
        0 <= i < j < blocks.len() ==> (#[trigger] blocks[i]).end_line < (
        #[trigger] blocks[j]).start_line
}

/// Whether the state of the scan after `seen` lines is sound: the closed
/// blocks are, the open block is and lies behind them, and only blank lines
/// follow the open block.
pub open spec fn state_sound(
    state: ScanState,
    lines: Seq<Seq<char>>,
    seen: int,
    style: CommentStyleModel,
) -> bool {
    &&& 0 <= seen <= lines.len()
    &&& blocks_sound(state.closed, lines, seen, style)
    &&& match state.open {
        Some(b) => {
            &&& block_sound(b, lines, seen, style)
            &&& forall|i: int| 0 <= i < state.closed.len() ==> (#[trigger] state.closed[i]).end_line < b.start_line
            &&& forall|n: int| b.end_line < n <= seen ==> is_blank(#[trigger] lines[n - 1])
        },
        None => true,
    }
}

/// A sound block stays sound as more lines are seen.
proof fn lemma_block_sound_later(
    b: CommentBlockModel,
    lines: Seq<Seq<char>>,
    seen: int,
    style: CommentStyleModel,
)
    requires
        block_sound(b, lines, seen, style),
        seen < lines.len(),
    ensures
        block_sound(b, lines, seen + 1, style),
{
    assert forall|k: int| 0 <= k < b.lines.len() implies #[trigger] entry_matches(b, k, lines, style) by {
        assert(entry_matches(b, k, lines, style));
    }
}

/// One step of the scan keeps the state sound.
proof fn lemma_scan_line_sound(
    state: ScanState,
    lines: Seq<Seq<char>>,
    seen: int,
    style: CommentStyleModel,
)
    requires
        state_sound(state, lines, seen, style),
        seen < lines.len(),
    ensures
        state_sound(scan_line(state, lines[seen], (seen + 1) as nat, style), lines, seen + 1, style),
{
    let line = lines[seen];
    let number = (seen + 1) as nat;
    let t = trimmed(line);
    let next = scan_line(state, line, number, style);
    assert forall|i: int| 0 <= i < state.closed.len() implies block_sound(
        #[trigger] state.closed[i],
        lines,
        seen + 1,
        style,
    ) by {
        lemma_block_sound_later(state.closed[i], lines, seen, style);
    }
    match state.open {
        Some(b) => {
            lemma_block_sound_later(b, lines, seen, style);
        },
        None => {},
    }
    match comment_text(t, style) {
        Some(text) => {
            let entry = comment_line(t, text, number, style);
            let grown = extended(state.open, entry);
            assert(next.open == Some(grown));
            assert(lines[number - 1] == line);
            match state.open {
                Some(b) => {
                    assert forall|k: int| 0 <= k < grown.lines.len() implies #[trigger] entry_matches(
                        grown,
                        k,
                        lines,
                        style,
                    ) by {
                        if k < b.lines.len() {
                            assert(entry_matches(b, k, lines, style));
                            assert(grown.lines[k] == b.lines[k]);
                        }
                    }
                    assert forall|n: int| grown.start_line <= n <= grown.end_line implies is_comment(
                        #[trigger] lines[n - 1],
                        style,
                    ) || is_blank(lines[n - 1]) by {
                        if n <= b.end_line {
                        } else if n <= seen {
                            assert(is_blank(lines[n - 1]));
                        }
                    }
                    assert forall|k: int, m: int| 0 <= k < m < grown.lines.len() implies (
                    #[trigger] grown.lines[k]).line_number < (#[trigger] grown.lines[m]).line_number by {
                        assert(entry_matches(b, k, lines, style));
                        if m < b.lines.len() {
                            assert(grown.lines[k] == b.lines[k]);
                            assert(grown.lines[m] == b.lines[m]);
                        }
                    }
                    assert(grown.lines[0] == b.lines[0]);
                    assert(block_sound(grown, lines, seen + 1, style));
                },
                None => {
                    assert(entry_matches(grown, 0, lines, style));
                    assert(block_sound(grown, lines, seen + 1, style));
                    assert forall|i: int| 0 <= i < state.closed.len() implies (
                    #[trigger] state.closed[i]).end_line < grown.start_line by {
                        assert(block_sound(state.closed[i], lines, seen, style));
                    }
                },
            }
        },
        None => {
            if t.len() > 0 {
                match state.open {
                    Some(b) => {
                        let closed = state.closed.push(b);
                        assert(next.closed == closed);
                        assert forall|i: int| 0 <= i < closed.len() implies block_sound(
                            #[trigger] closed[i],
                            lines,
                            seen + 1,
                            style,
                        ) by {
                            if i < state.closed.len() {
                                assert(closed[i] == state.closed[i]);
                            }
                        }
                        assert forall|i: int, j: int| 0 <= i < j < closed.len() implies (
                        #[trigger] closed[i]).end_line < (#[trigger] closed[j]).start_line by {
                            assert(closed[i] == state.closed[i]);
                            if j < state.closed.len() {
                                assert(closed[j] == state.closed[j]);
                            }
                        }
                    },
                    None => {},
                }
            } else {
                match state.open {
                    Some(b) => {
                        assert forall|n: int| b.end_line < n <= seen + 1 implies is_blank(
                            #[trigger] lines[n - 1],
                        ) by {
                            if n <= seen {
                            } else {
                                assert(lines[n - 1] == line);
                            }
                        }
                    },
                    None => {},
                }
            }
        },
    }
}

/// The scan of the first `seen` lines leaves a sound state.
proof fn lemma_scan_sound(lines: Seq<Seq<char>>, seen: int, style: CommentStyleModel)
    requires
        0 <= seen <= lines.len(),
    ensures
        state_sound(scan(lines.take(seen), style), lines, seen, style),
    decreases seen,
{
    if seen > 0 {
        lemma_scan_sound(lines, seen - 1, style);
        assert(lines.take(seen).drop_last() =~= lines.take(seen - 1));
        assert(lines.take(seen).last() == lines[seen - 1]);
        lemma_scan_line_sound(scan(lines.take(seen - 1), style), lines, seen - 1, style);
    }
}

/// The comment blocks of a file are sound: none is empty, none covers a line
/// of code, each holds the comments of its lines in order, and the blocks
/// follow one another without overlap.
pub proof fn lemma_comment_blocks_sound(lines: Seq<Seq<char>>, style: CommentStyleModel)
    ensures
        blocks_sound(comment_blocks_of(lines, style), lines, lines.len() as int, style),
{
    let seen = lines.len() as int;
    lemma_scan_sound(lines, seen, style);
    assert(lines.take(seen) =~= lines);
    let state = scan(lines, style);
    match state.open {
        Some(b) => {
            let all = state.closed.push(b);
            assert forall|i: int| 0 <= i < all.len() implies block_sound(
                #[trigger] all[i],
                lines,
                seen,
                style,
            ) by {
                if i < state.closed.len() {
                    assert(all[i] == state.closed[i]);
                }
            }
            assert forall|i: int, j: int| 0 <= i < j < all.len() implies (#[trigger] all[i]).end_line < (
            #[trigger] all[j]).start_line by {
                assert(all[i] == state.closed[i]);
                if j < state.closed.len() {
                    assert(all[j] == state.closed[j]);
                }
            }
        },
        None => {},
    }
}

/// A blank line leaves the scan as it is, provided that the style has no
/// empty comment marker.
pub proof fn lemma_blank_line_keeps_block_open(
    state: ScanState,
    line: Seq<char>,
    number: nat,
    style: CommentStyleModel,
)
    requires
        is_blank(line),
        comment_text(Seq::<char>::empty(), style).is_none(),
    ensures
        scan_line(state, line, number, style) == state,
{
    assert(trimmed(line) =~= Seq::<char>::empty());
}

/// No comment marker of a supported language is empty, so in none of their
/// styles is the empty line a comment.
proof fn lemma_empty_line_is_no_comment(lang: Language)
    ensures
        comment_text(Seq::<char>::empty(), style_of(lang)).is_none(),
{
    reveal_strlit("//");
    reveal_strlit("///");
    reveal_strlit("//!");
    reveal_strlit("#");
    reveal_strlit("/*");
    reveal_strlit("*/");
    reveal_strlit("*");
    reveal_strlit("\"\"\"");
    let style = style_of(lang);
    let empty = Seq::<char>::empty();
    assert(first_prefix(style.doc_line, empty).is_none()) by {
        reveal_with_fuel(first_prefix, 3);
    }
    assert(first_prefix(style.single_line, empty).is_none()) by {
        reveal_with_fuel(first_prefix, 3);
    }
    assert(trimmed_start(empty) =~= empty);
}

/// In every supported language a blank line leaves the scan as it is: a
/// comment block stays open across blank lines.
pub proof fn lemma_blank_line_in_language(state: ScanState, line: Seq<char>, number: nat, lang: Language)
    requires
        is_blank(line),
    ensures
        scan_line(state, line, number, style_of(lang)) == state,
{
    lemma_empty_line_is_no_comment(lang);
    lemma_blank_line_keeps_block_open(state, line, number, style_of(lang));
}

/// What the search for the block before a function finds: the first block
/// that ends one or two lines above the function. A block that ends three
/// or more lines above, or not above at all, is never chosen.
pub proof fn lemma_preceding_block(line: nat, blocks: Seq<CommentBlockModel>)
    ensures
        match preceding_block(line, blocks) {
            Some(i) => {
                &&& i < blocks.len()
                &&& ends_just_before(blocks[i as int].end_line, line)
                &&& forall|j: int| 0 <= j < i ==> !ends_just_before((#[trigger] blocks[j]).end_line, line)
            },
            None => forall|j: int|
                0 <= j < blocks.len() ==> !ends_just_before((#[trigger] blocks[j]).end_line, line),
        },
        forall|j: int|
            0 <= j < blocks.len() && (#[trigger] blocks[j]).end_line + 3 <= line ==> preceding_block(
                line,
                blocks,
            ) != Some(j as nat),
{
    lemma_first_block_before(line, blocks, 0);
}

/// What the search from `from` on finds.
proof fn lemma_first_block_before(line: nat, blocks: Seq<CommentBlockModel>, from: int)
    requires
        0 <= from <= blocks.len(),
    ensures
        match first_block_before(blocks, line, from) {
            Some(i) => {
                &&& from <= i < blocks.len()
                &&& ends_just_before(blocks[i as int].end_line, line)
                &&& forall|j: int|
                    from <= j < i ==> !ends_just_before((#[trigger] blocks[j]).end_line, line)
            },
            None => forall|j: int|
                from <= j < blocks.len() ==> !ends_just_before((#[trigger] blocks[j]).end_line, line),
        },
    decreases blocks.len() - from,
{
    if from < blocks.len() && !ends_just_before(blocks[from].end_line, line) {
        lemma_first_block_before(line, blocks, from + 1);
    }
}

/// Every function location that the scan reports points at a block that
/// ends one or two lines above the function, or at none.
pub proof fn lemma_locations_point_back(
    lines: Seq<Seq<char>>,
    pattern: Seq<char>,
    blocks: Seq<CommentBlockModel>,
)
    ensures
        forall|k: int|
            0 <= k < locations_of(lines, pattern, blocks).len() ==> {
                let at = #[trigger] locations_of(lines, pattern, blocks)[k];
                &&& 1 <= at.line <= lines.len()
                &&& at.preceding_comment_block == preceding_block(at.line, blocks)
                &&& at.preceding_comment_block matches Some(i) ==> i < blocks.len()
                    && ends_just_before(blocks[i as int].end_line, at.line)
            },
    decreases lines.len(),
{
    if lines.len() > 0 {
        lemma_locations_point_back(lines.drop_last(), pattern, blocks);
        lemma_preceding_block(lines.len(), blocks);
        let before = locations_of(lines.drop_last(), pattern, blocks);
        let all = locations_of(lines, pattern, blocks);
        assert forall|k: int| 0 <= k < all.len() implies {
            let at = #[trigger] all[k];
            &&& 1 <= at.line <= lines.len()
            &&& at.preceding_comment_block == preceding_block(at.line, blocks)
            &&& at.preceding_comment_block matches Some(i) ==> i < blocks.len() && ends_just_before(
                blocks[i as int].end_line,
                at.line,
            )
        } by {
            if k < before.len() {
                assert(all[k] == before[k]);
                lemma_preceding_block(before[k].line, blocks);
            }
        }
    }
}

} // verus!
