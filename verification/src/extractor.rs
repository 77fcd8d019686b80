//! The annotation extractor: from comment blocks to the typed model.
//!
//! Every annotation line is recorded twice. It is appended to the list of
//! raw annotations whether or not its tag is known, and a known tag is also
//! stored in the field it belongs to. Text that is no well-formed annotation
//! is passed over; nothing here fails.

use crate::annotation::{
    bare_function, bare_module, Annotation, AnnotationLevel, AnnotationModel, FunctionAnnotations,
    FunctionModel, Location, LocationModel, ModuleAnnotations, ModuleModel, ParsedFile,
    ParsedFileModel,
};
use crate::confidence::{micros_of, Confidence};
use crate::error::{Error, ErrorModel};
use crate::language::name_of;
use crate::parser::{
    parse_file, parsed_of, CommentBlock, CommentBlockModel, CommentLine, CommentLineModel,
    FunctionLocationModel, ParsedSource,
};
use crate::pattern::{captures_each, captures_of, group, group_of};
use crate::text::{equals, has_prefix, split, split_on, starts_with, trim, trimmed};
use vstd::prelude::*;
use vstd::string::StringExecFns;

verus! {

/// The pattern of a module-level annotation: its tag and its value.
pub open spec fn module_pattern() -> Seq<char> {
    r"@ai:module:(\w+)\s+(.*)"@
}

/// The pattern of an override annotation: its constraint and its value.
pub open spec fn override_pattern() -> Seq<char> {
    r"@ai:override:(\w+)\s+(.*)"@
}

/// The pattern of a test annotation: its kind and its value.
pub open spec fn test_pattern() -> Seq<char> {
    r"@ai:test:(\w+)\s*(.*)"@
}

/// The pattern of any other annotation: its tag and its value.
pub open spec fn standard_pattern() -> Seq<char> {
    r"@ai:(\w+)\s*(.*)"@
}

/// The tag and the value that a match gives: its first group, and its second
/// group without white space at either end. A match that lacks one of the
/// two groups counts as no match.
pub open spec fn tag_and_value(groups: Option<Seq<Option<Seq<char>>>>) -> Option<
    (Seq<char>, Seq<char>),
> {
    match groups {
        Some(g) => match (group_of(g, 1), group_of(g, 2)) {
            (Some(tag), Some(value)) => Some((tag, trimmed(value))),
            _ => None,
        },
        None => None,
    }
}

/// The parts of a comma-separated value, each without white space at either
/// end.
pub open spec fn trimmed_parts(value: Seq<char>) -> Seq<Seq<char>> {
    split_on(value, ',').map_values(|part: Seq<char>| trimmed(part))
}

/// What a flag annotation says: exactly `true` means true, any other text
/// means false.
pub open spec fn flag(value: Seq<char>) -> bool {
    value == "true"@
}

/// The place of an annotation: a line of the file, with no column.
pub open spec fn place(path: Seq<char>, line: nat) -> LocationModel {
    LocationModel { file: path, line, column: None }
}

/// The module annotations after a module-level annotation with the given tag
/// and value. An unknown tag changes nothing.
pub open spec fn apply_module_tag(m: ModuleModel, tag: Seq<char>, value: Seq<char>) -> ModuleModel {
    if tag == "intent"@ {
        ModuleModel { intent: Some(value), ..m }
    } else if tag == "layer"@ {
        ModuleModel { layer: Some(value), ..m }
    } else if tag == "public_api"@ {
        ModuleModel { public_api: trimmed_parts(value), ..m }
    } else if tag == "depends_on"@ {
        ModuleModel { depends_on: trimmed_parts(value), ..m }
    } else if tag == "depended_by"@ {
        ModuleModel { depended_by: trimmed_parts(value), ..m }
    } else if tag == "internal"@ {
        ModuleModel { internal: Some(flag(value)), ..m }
    } else if tag == "stateless"@ {
        ModuleModel { stateless: Some(flag(value)), ..m }
    } else if tag == "thread_safe"@ {
        ModuleModel { thread_safe: Some(flag(value)), ..m }
    } else if tag == "cohesion"@ {
        ModuleModel { cohesion: Some(value), ..m }
    } else if tag == "stability"@ {
        ModuleModel { stability: Some(value), ..m }
    } else {
        m
    }
}

/// The annotations of a function after an annotation with the given tag and
/// value. Single-valued tags keep the last value, `pre`, `post`, `example`
/// and `edge_cases` collect their values, `effects` and `related` are
/// replaced as a whole, and a confidence that is no numeral is passed over.
/// An unknown tag changes nothing.
pub open spec fn apply_function_tag(f: FunctionModel, tag: Seq<char>, value: Seq<char>) -> FunctionModel {
    if tag == "intent"@ {
        FunctionModel { intent: Some(value), ..f }
    } else if tag == "pre"@ {
        FunctionModel { pre: f.pre.push(value), ..f }
    } else if tag == "post"@ {
        FunctionModel { post: f.post.push(value), ..f }
    } else if tag == "invariant"@ {
        FunctionModel { invariant: Some(value), ..f }
    } else if tag == "example"@ {
        FunctionModel { examples: f.examples.push(value), ..f }
    } else if tag == "effects"@ {
        FunctionModel { effects: trimmed_parts(value), ..f }
    } else if tag == "idempotent"@ {
        FunctionModel { idempotent: Some(flag(value)), ..f }
    } else if tag == "confidence"@ {
        match micros_of(value) {
            Some(m) => FunctionModel { confidence: Some(m), ..f },
            None => f,
        }
    } else if tag == "needs_review"@ {
        FunctionModel { needs_review: Some(value), ..f }
    } else if tag == "author"@ {
        FunctionModel { author: Some(value), ..f }
    } else if tag == "verified"@ {
        FunctionModel { verified: Some(value), ..f }
    } else if tag == "assumes"@ {
        FunctionModel { assumes: Some(value), ..f }
    } else if tag == "context"@ {
        FunctionModel { context: Some(value), ..f }
    } else if tag == "related"@ {
        FunctionModel { related: trimmed_parts(value), ..f }
    } else if tag == "deprecated"@ {
        FunctionModel { deprecated: Some(value), ..f }
    } else if tag == "complexity"@ {
        FunctionModel { complexity: Some(value), ..f }
    } else if tag == "edge_cases"@ {
        FunctionModel { edge_cases: f.edge_cases.push(value), ..f }
    } else {
        f
    }
}

/// A module and the raw annotations gathered so far.
pub struct ModuleState {
    pub module: ModuleModel,
    pub raw: Seq<AnnotationModel>,
}

/// A function and the raw annotations gathered so far.
pub struct FunctionState {
    pub function: FunctionModel,
    pub raw: Seq<AnnotationModel>,
}

/// The state after a module-level annotation was found on line `line`.
pub open spec fn with_module_annotation(
    state: ModuleState,
    found: Option<(Seq<char>, Seq<char>)>,
    path: Seq<char>,
    line: nat,
) -> ModuleState {
    match found {
        Some((tag, value)) => ModuleState {
            module: apply_module_tag(state.module, tag, value),
            raw: state.raw.push(
                AnnotationModel {
                    level: AnnotationLevel::Module,
                    tag: "module:"@ + tag,
                    value,
                    location: place(path, line),
                },
            ),
        },
        None => state,
    }
}

/// The state after an override annotation was found on line `line`: it is
/// recorded under the tag `override:` and its constraint, and joins the
/// function's overrides.
pub open spec fn with_override(
    state: FunctionState,
    constraint: Seq<char>,
    value: Seq<char>,
    path: Seq<char>,
    line: nat,
) -> FunctionState {
    FunctionState {
        function: FunctionModel {
            overrides: state.function.overrides.push((constraint, value)),
            ..state.function
        },
        raw: state.raw.push(
            AnnotationModel {
                level: AnnotationLevel::Function,
                tag: "override:"@ + constraint,
                value,
                location: place(path, line),
            },
        ),
    }
}

/// The state after a test annotation was found on line `line`: it is
/// recorded at test level under the tag `test:` and its kind, and the kind
/// `integration` is stored with the function.
pub open spec fn with_test(
    state: FunctionState,
    kind: Seq<char>,
    value: Seq<char>,
    path: Seq<char>,
    line: nat,
) -> FunctionState {
    FunctionState {
        function: if kind == "integration"@ {
            FunctionModel { test_integration: Some(value), ..state.function }
        } else {
            state.function
        },
        raw: state.raw.push(
            AnnotationModel {
                level: AnnotationLevel::Test,
                tag: "test:"@ + kind,
                value,
                location: place(path, line),
            },
        ),
    }
}

/// The state after any other annotation was found on line `line`: it is
/// recorded under its tag, and applied if the tag is known.
pub open spec fn with_standard(
    state: FunctionState,
    tag: Seq<char>,
    value: Seq<char>,
    path: Seq<char>,
    line: nat,
) -> FunctionState {
    FunctionState {
        function: apply_function_tag(state.function, tag, value),
        raw: state.raw.push(
            AnnotationModel {
                level: AnnotationLevel::Function,
                tag,
                value,
                location: place(path, line),
            },
        ),
    }
}

/// The marker of a module-level annotation.
pub open spec fn module_marker() -> Seq<char> {
    "@ai:module:"@
}

/// Whether a match is one of a module-level annotation: the matched text
/// begins with the module marker, so that the tag which follows the
/// annotation marker begins with `module:`.
pub open spec fn names_module(groups: Option<Seq<Option<Seq<char>>>>) -> bool {
    match groups {
        Some(g) => match group_of(g, 0) {
            Some(whole) => has_prefix(whole, module_marker()),
            None => false,
        },
        None => false,
    }
}

/// The state after the pattern for any other annotation was tried on line
/// `line`. A module-level annotation belongs to the module pass and is
/// passed over here, even where it stands near a function.
pub open spec fn with_standard_match(
    state: FunctionState,
    groups: Option<Seq<Option<Seq<char>>>>,
    path: Seq<char>,
    line: nat,
) -> FunctionState {
    match tag_and_value(groups) {
        Some((tag, value)) => if names_module(groups) {
            state
        } else {
            with_standard(state, tag, value, path, line)
        },
        None => state,
    }
}

/// The state after one comment line of a module block.
pub open spec fn module_line(state: ModuleState, line: CommentLineModel, path: Seq<char>) -> ModuleState {
    with_module_annotation(
        state,
        tag_and_value(captures_of(module_pattern(), line.content)),
        path,
        line.line_number,
    )
}

/// The state after one comment line of a function's block. The line is
/// tried as an override annotation, then as a test annotation, then as any
/// other annotation; a line that is none of them changes nothing.
pub open spec fn function_line(state: FunctionState, line: CommentLineModel, path: Seq<char>) -> FunctionState {
    match tag_and_value(captures_of(override_pattern(), line.content)) {
        Some((constraint, value)) => with_override(state, constraint, value, path, line.line_number),
        None => match tag_and_value(captures_of(test_pattern(), line.content)) {
            Some((kind, value)) => with_test(state, kind, value, path, line.line_number),
            None => with_standard_match(
                state,
                captures_of(standard_pattern(), line.content),
                path,
                line.line_number,
            ),
        },
    }
}

/// The state after all lines of a module block.
pub open spec fn module_pass(state: ModuleState, lines: Seq<CommentLineModel>, path: Seq<char>) -> ModuleState
    decreases lines.len(),
{
    if lines.len() == 0 {
        state
    } else {
        module_line(module_pass(state, lines.drop_last(), path), lines.last(), path)
    }
}

/// The state after all lines of a function's block.
pub open spec fn function_pass(state: FunctionState, lines: Seq<CommentLineModel>, path: Seq<char>) -> FunctionState
    decreases lines.len(),
{
    if lines.len() == 0 {
        state
    } else {
        function_line(function_pass(state, lines.drop_last(), path), lines.last(), path)
    }
}

/// Whether a line of the block holds the annotation marker.
pub open spec fn has_annotations(block: CommentBlockModel) -> bool {
    exists|i: int| 0 <= i < block.lines.len() && crate::parser::is_annotation_line(#[trigger] block.lines[i])
}

/// The state after the function at `at` was read: its annotations, taken
/// from the block that stands before it, join the module's functions.
pub open spec fn with_function(
    state: ModuleState,
    at: FunctionLocationModel,
    blocks: Seq<CommentBlockModel>,
    path: Seq<char>,
) -> ModuleState {
    let fresh = FunctionState { function: bare_function(at.name, place(path, at.line)), raw: state.raw };
    let read = match at.preceding_comment_block {
        Some(i) => if i < blocks.len() {
            function_pass(fresh, blocks[i as int].lines, path)
        } else {
            fresh
        },
        None => fresh,
    };
    ModuleState {
        module: ModuleModel { functions: state.module.functions.push(read.function), ..state.module },
        raw: read.raw,
    }
}

/// The state after all of `functions` were read, in order.
pub open spec fn functions_pass(
    state: ModuleState,
    functions: Seq<FunctionLocationModel>,
    blocks: Seq<CommentBlockModel>,
    path: Seq<char>,
) -> ModuleState
    decreases functions.len(),
{
    if functions.len() == 0 {
        state
    } else {
        with_function(
            functions_pass(state, functions.drop_last(), blocks, path),
            functions.last(),
            blocks,
            path,
        )
    }
}

/// The annotations of a file, given its comment blocks and functions. The
/// module's own annotations come from the first block of the file, and only
/// if that block holds the annotation marker.
pub open spec fn extracted(
    blocks: Seq<CommentBlockModel>,
    functions: Seq<FunctionLocationModel>,
    path: Seq<char>,
) -> ModuleState {
    let start = ModuleState { module: bare_module(path), raw: seq![] };
    let module_read = if blocks.len() > 0 && has_annotations(blocks[0]) {
        module_pass(start, blocks[0].lines, path)
    } else {
        start
    };
    functions_pass(module_read, functions, blocks, path)
}

/// The tag and the value that a match gives.
pub fn read_tag_and_value(groups: &Option<Vec<Option<String>>>) -> (r: Option<(String, String)>)
    ensures
        r.deep_view() == tag_and_value(groups.deep_view()),
{
    match groups {
        Some(g) => match (group(g, 1), group(g, 2)) {
            (Some(tag), Some(value)) => Some((tag.clone(), trim(value.as_str()))),
            _ => None,
        },
        None => None,
    }
}

/// The parts of a comma-separated value, each without white space at either
/// end.
pub fn split_list(value: &str) -> (parts: Vec<String>)
    ensures
        parts.deep_view() == trimmed_parts(value@),
{
    let pieces = split(value, ',');
    let mut parts: Vec<String> = Vec::new();
    let mut i: usize = 0;
    while i < pieces.len()
        invariant
            i <= pieces@.len(),
            pieces.deep_view() == split_on(value@, ','),
            parts@.len() == i,
            forall|j: int| 0 <= j < i ==> parts@[j]@ == trimmed(pieces@[j]@),
        decreases pieces@.len() - i,
    {
        parts.push(trim(pieces[i].as_str()));
        i += 1;
    }
    assert(parts.deep_view() =~= trimmed_parts(value@));
    parts
}

/// Stores a module-level annotation in the field that its tag names.
pub fn apply_module_annotation(module: &mut ModuleAnnotations, tag: &str, value: &str)
    ensures
        final(module)@ == apply_module_tag(old(module)@, tag@, value@),
{
    if equals(tag, "intent") {
        module.intent = Some(String::from_str(value));
    } else if equals(tag, "layer") {
        module.layer = Some(String::from_str(value));
    } else if equals(tag, "public_api") {
        module.public_api = split_list(value);
    } else if equals(tag, "depends_on") {
        module.depends_on = split_list(value);
    } else if equals(tag, "depended_by") {
        module.depended_by = split_list(value);
    } else if equals(tag, "internal") {
        module.internal = Some(equals(value, "true"));
    } else if equals(tag, "stateless") {
        module.stateless = Some(equals(value, "true"));
    } else if equals(tag, "thread_safe") {
        module.thread_safe = Some(equals(value, "true"));
    } else if equals(tag, "cohesion") {
        module.cohesion = Some(String::from_str(value));
    } else if equals(tag, "stability") {
        module.stability = Some(String::from_str(value));
    }
}

/// Stores a function-level annotation in the field that its tag names.
pub fn apply_function_annotation(func: &mut FunctionAnnotations, tag: &str, value: &str)
    ensures
        final(func)@ == apply_function_tag(old(func)@, tag@, value@),
{
    if equals(tag, "intent") {
        func.intent = Some(String::from_str(value));
    } else if equals(tag, "pre") {
        let ghost before = func.pre.deep_view();
        func.pre.push(String::from_str(value));
        assert(func.pre.deep_view() =~= before.push(value@));
    } else if equals(tag, "post") {
        let ghost before = func.post.deep_view();
        func.post.push(String::from_str(value));
        assert(func.post.deep_view() =~= before.push(value@));
    } else if equals(tag, "invariant") {
        func.invariant = Some(String::from_str(value));
    } else if equals(tag, "example") {
        let ghost before = func.examples.deep_view();
        func.examples.push(String::from_str(value));
        assert(func.examples.deep_view() =~= before.push(value@));
    } else if equals(tag, "effects") {
        func.effects = split_list(value);
    } else if equals(tag, "idempotent") {
        func.idempotent = Some(equals(value, "true"));
    } else if equals(tag, "confidence") {
        match Confidence::parse(value) {
            Some(confidence) => {
                func.confidence = Some(confidence);
            },
            None => {},
        }
    } else if equals(tag, "needs_review") {
        func.needs_review = Some(String::from_str(value));
    } else if equals(tag, "author") {
        func.author = Some(String::from_str(value));
    } else if equals(tag, "verified") {
        func.verified = Some(String::from_str(value));
    } else if equals(tag, "assumes") {
        func.assumes = Some(String::from_str(value));
    } else if equals(tag, "context") {
        func.context = Some(String::from_str(value));
    } else if equals(tag, "related") {
        func.related = split_list(value);
    } else if equals(tag, "deprecated") {
        func.deprecated = Some(String::from_str(value));
    } else if equals(tag, "complexity") {
        func.complexity = Some(String::from_str(value));
    } else if equals(tag, "edge_cases") {
        let ghost before = func.edge_cases.deep_view();
        func.edge_cases.push(String::from_str(value));
        assert(func.edge_cases.deep_view() =~= before.push(value@));
    }
}

/// The module and the raw annotations as one state.
pub open spec fn module_state(module: ModuleAnnotations, raw: Vec<Annotation>) -> ModuleState {
    ModuleState { module: module@, raw: raw.deep_view() }
}

/// The function and the raw annotations as one state.
pub open spec fn function_state(func: FunctionAnnotations, raw: Vec<Annotation>) -> FunctionState {
    FunctionState { function: func@, raw: raw.deep_view() }
}

/// Appends an annotation found on line `line` of the file at `path`.
fn record(raw: &mut Vec<Annotation>, level: AnnotationLevel, tag: String, value: &str, path: &str, line: usize)
    ensures
        final(raw).deep_view() == old(raw).deep_view().push(
            AnnotationModel { level, tag: tag@, value: value@, location: place(path@, line as nat) },
        ),
{
    let ghost before = raw.deep_view();
    let entry = Annotation {
        level,
        tag,
        value: String::from_str(value),
        location: Location::new(String::from_str(path), line),
    };
    raw.push(entry);
    assert(raw.deep_view() =~= before.push(entry@));
}

/// Takes in what the module pattern found on line `line`: the annotation is
/// recorded, and stored if its tag is known.
pub fn record_module_annotation(
    module: &mut ModuleAnnotations,
    raw: &mut Vec<Annotation>,
    found: &Option<Vec<Option<String>>>,
    path: &str,
    line: usize,
)
    ensures
        module_state(*final(module), *final(raw)) == with_module_annotation(
            module_state(*old(module), *old(raw)),
            tag_and_value(found.deep_view()),
            path@,
            line as nat,
        ),
{
    match read_tag_and_value(found) {
        Some((tag, value)) => {
            let name = String::from_str("module:").concat(tag.as_str());
            record(raw, AnnotationLevel::Module, name, value.as_str(), path, line);
            apply_module_annotation(module, tag.as_str(), value.as_str());
        },
        None => {},
    }
}

/// Takes in an override annotation found on line `line`.
pub fn record_override(
    func: &mut FunctionAnnotations,
    raw: &mut Vec<Annotation>,
    constraint: &str,
    value: &str,
    path: &str,
    line: usize,
)
    ensures
        function_state(*final(func), *final(raw)) == with_override(
            function_state(*old(func), *old(raw)),
            constraint@,
            value@,
            path@,
            line as nat,
        ),
{
    let name = String::from_str("override:").concat(constraint);
    record(raw, AnnotationLevel::Function, name, value, path, line);
    let ghost before = func.overrides.deep_view();
    func.overrides.push((String::from_str(constraint), String::from_str(value)));
    assert(func.overrides.deep_view() =~= before.push((constraint@, value@)));
}

/// Takes in a test annotation found on line `line`.
pub fn record_test(
    func: &mut FunctionAnnotations,
    raw: &mut Vec<Annotation>,
    kind: &str,
    value: &str,
    path: &str,
    line: usize,
)
    ensures
        function_state(*final(func), *final(raw)) == with_test(
            function_state(*old(func), *old(raw)),
            kind@,
            value@,
            path@,
            line as nat,
        ),
{
    let name = String::from_str("test:").concat(kind);
    record(raw, AnnotationLevel::Test, name, value, path, line);
    if equals(kind, "integration") {
        func.test_integration = Some(String::from_str(value));
    }
}

/// Takes in an annotation that is neither an override nor a test
/// annotation, found on line `line`.
pub fn record_standard(
    func: &mut FunctionAnnotations,
    raw: &mut Vec<Annotation>,
    tag: &str,
    value: &str,
    path: &str,
    line: usize,
)
    ensures
        function_state(*final(func), *final(raw)) == with_standard(
            function_state(*old(func), *old(raw)),
            tag@,
            value@,
            path@,
            line as nat,
        ),
{
    record(raw, AnnotationLevel::Function, String::from_str(tag), value, path, line);
    apply_function_annotation(func, tag, value);
}

/// Whether a match is one of a module-level annotation.
pub fn is_module_match(groups: &Option<Vec<Option<String>>>) -> (b: bool)
    ensures
        b == names_module(groups.deep_view()),
{
    match groups {
        Some(g) => match group(g, 0) {
            Some(whole) => starts_with(whole.as_str(), "@ai:module:"),
            None => false,
        },
        None => false,
    }
}

/// Takes in what the pattern for any other annotation found on line
/// `line`: nothing where the line holds a module-level annotation,
/// otherwise the annotation is recorded, and stored if its tag is known.
pub fn record_standard_match(
    func: &mut FunctionAnnotations,
    raw: &mut Vec<Annotation>,
    found: &Option<Vec<Option<String>>>,
    path: &str,
    line: usize,
)
    ensures
        function_state(*final(func), *final(raw)) == with_standard_match(
            function_state(*old(func), *old(raw)),
            found.deep_view(),
            path@,
            line as nat,
        ),
{
    match read_tag_and_value(found) {
        Some((tag, value)) => {
            if !is_module_match(found) {
                record_standard(func, raw, tag.as_str(), value.as_str(), path, line);
            }
        },
        None => {},
    }
}

/// The texts of the lines of a block.
fn line_texts(block: &CommentBlock) -> (texts: Vec<String>)
    ensures
        texts@.len() == block.lines@.len(),
        forall|i: int| 0 <= i < texts@.len() ==> (#[trigger] texts@[i])@ == block@.lines[i].content,
{
    let mut texts: Vec<String> = Vec::new();
    let mut i: usize = 0;
    while i < block.lines.len()
        invariant
            i <= block.lines@.len(),
            texts@.len() == i,
            forall|k: int| 0 <= k < i ==> (#[trigger] texts@[k])@ == block@.lines[k].content,
        decreases block.lines@.len() - i,
    {
        texts.push(block.lines[i].content.clone());
        i += 1;
    }
    texts
}

/// Reads the module-level annotations of a comment block.
pub fn extract_module_annotations(
    block: &CommentBlock,
    path: &str,
    module: &mut ModuleAnnotations,
    raw: &mut Vec<Annotation>,
)
    ensures
        module_state(*final(module), *final(raw)) == module_pass(
            module_state(*old(module), *old(raw)),
            block@.lines,
            path@,
        ),
{
    let texts = line_texts(block);
    let found = captures_each(r"@ai:module:(\w+)\s+(.*)", &texts);
    let mut i: usize = 0;
    assert(block@.lines.take(0) =~= Seq::<CommentLineModel>::empty());
    while i < block.lines.len()
        invariant
            i <= block.lines@.len(),
            found@.len() == block.lines@.len(),
            forall|k: int|
                0 <= k < found@.len() ==> (#[trigger] found@[k]).deep_view() == captures_of(
                    module_pattern(),
                    block@.lines[k].content,
                ),
            module_state(*module, *raw) == module_pass(
                module_state(*old(module), *old(raw)),
                block@.lines.take(i as int),
                path@,
            ),
        decreases block.lines@.len() - i,
    {
        let line = &block.lines[i];
        let ghost upto = block@.lines.take(i as int + 1);
        proof {
            assert(upto.drop_last() =~= block@.lines.take(i as int));
            assert(upto.last() == line@);
        }
        record_module_annotation(module, raw, &found[i], path, line.line_number);
        i += 1;
    }
    assert(block@.lines.take(i as int) =~= block@.lines);
}

/// Takes in one comment line of a function's block, given what each of the
/// three patterns found in it.
fn extract_function_line(
    line: &CommentLine,
    overridden: &Option<Vec<Option<String>>>,
    tested: &Option<Vec<Option<String>>>,
    standard: &Option<Vec<Option<String>>>,
    path: &str,
    func: &mut FunctionAnnotations,
    raw: &mut Vec<Annotation>,
)
    requires
        overridden.deep_view() == captures_of(override_pattern(), line@.content),
        tested.deep_view() == captures_of(test_pattern(), line@.content),
        standard.deep_view() == captures_of(standard_pattern(), line@.content),
    ensures
        function_state(*final(func), *final(raw)) == function_line(
            function_state(*old(func), *old(raw)),
            line@,
            path@,
        ),
{
    match read_tag_and_value(overridden) {
        Some((constraint, value)) => {
            record_override(func, raw, constraint.as_str(), value.as_str(), path, line.line_number);
            return ;
        },
        None => {},
    }
    match read_tag_and_value(tested) {
        Some((kind, value)) => {
            record_test(func, raw, kind.as_str(), value.as_str(), path, line.line_number);
            return ;
        },
        None => {},
    }
    record_standard_match(func, raw, standard, path, line.line_number);
}

/// Reads the function-level annotations of a comment block.
pub fn extract_function_annotations(
    block: &CommentBlock,
    path: &str,
    func: &mut FunctionAnnotations,
    raw: &mut Vec<Annotation>,
)
    ensures
        function_state(*final(func), *final(raw)) == function_pass(
            function_state(*old(func), *old(raw)),
            block@.lines,
            path@,
        ),
{
    let texts = line_texts(block);
    let overridden = captures_each(r"@ai:override:(\w+)\s+(.*)", &texts);
    let tested = captures_each(r"@ai:test:(\w+)\s*(.*)", &texts);
    let standard = captures_each(r"@ai:(\w+)\s*(.*)", &texts);
    let mut i: usize = 0;
    assert(block@.lines.take(0) =~= Seq::<CommentLineModel>::empty());
    while i < block.lines.len()
        invariant
            i <= block.lines@.len(),
            overridden@.len() == block.lines@.len(),
            tested@.len() == block.lines@.len(),
            standard@.len() == block.lines@.len(),
            forall|k: int|
                0 <= k < block.lines@.len() ==> (#[trigger] overridden@[k]).deep_view()
                    == captures_of(override_pattern(), block@.lines[k].content),
            forall|k: int|
                0 <= k < block.lines@.len() ==> (#[trigger] tested@[k]).deep_view() == captures_of(
                    test_pattern(),
                    block@.lines[k].content,
                ),
            forall|k: int|
                0 <= k < block.lines@.len() ==> (#[trigger] standard@[k]).deep_view()
                    == captures_of(standard_pattern(), block@.lines[k].content),
            function_state(*func, *raw) == function_pass(
                function_state(*old(func), *old(raw)),
                block@.lines.take(i as int),
                path@,
            ),
        decreases block.lines@.len() - i,
    {
        let ghost upto = block@.lines.take(i as int + 1);
        proof {
            assert(upto.drop_last() =~= block@.lines.take(i as int));
            assert(upto.last() == block.lines@[i as int]@);
            assert(block@.lines[i as int] == block.lines@[i as int]@);
        }
        extract_function_line(
            &block.lines[i],
            &overridden[i],
            &tested[i],
            &standard[i],
            path,
            func,
            raw,
        );
        i += 1;
    }
    assert(block@.lines.take(i as int) =~= block@.lines);
}

/// The typed annotations of a scanned file, and every annotation line as it
/// was found.
pub fn extract_from_parsed(parsed: &ParsedSource, path: &str) -> (r: (ModuleAnnotations, Vec<Annotation>))
    ensures
        module_state(r.0, r.1) == extracted(
            parsed.comment_blocks.deep_view(),
            parsed.function_locations.deep_view(),
            path@,
        ),
{
    let mut module = ModuleAnnotations::new(String::from_str(path));
    let mut raw: Vec<Annotation> = Vec::new();
    assert(raw.deep_view() =~= Seq::<AnnotationModel>::empty());
    let ghost blocks = parsed.comment_blocks.deep_view();
    let ghost functions = parsed.function_locations.deep_view();
    if parsed.comment_blocks.len() > 0 {
        let first = &parsed.comment_blocks[0];
        assert(blocks[0] == first@);
        if first.has_ai_annotations() {
            extract_module_annotations(first, path, &mut module, &mut raw);
        }
    }
    let ghost module_read = module_state(module, raw);
    let mut k: usize = 0;
    assert(functions.take(0) =~= Seq::<FunctionLocationModel>::empty());
    while k < parsed.function_locations.len()
        invariant
            k <= parsed.function_locations@.len(),
            blocks == parsed.comment_blocks.deep_view(),
            functions == parsed.function_locations.deep_view(),
            module_state(module, raw) == functions_pass(
                module_read,
                functions.take(k as int),
                blocks,
                path@,
            ),
        decreases parsed.function_locations@.len() - k,
    {
        let at = &parsed.function_locations[k];
        let ghost upto = functions.take(k as int + 1);
        proof {
            assert(upto.drop_last() =~= functions.take(k as int));
            assert(upto.last() == at@);
        }
        let mut func = FunctionAnnotations::new(
            at.name.clone(),
            Location::new(String::from_str(path), at.line),
        );
        match at.preceding_comment_block {
            Some(index) => {
                if index < parsed.comment_blocks.len() {
                    let block = &parsed.comment_blocks[index];
                    assert(blocks[index as int] == block@);
                    extract_function_annotations(block, path, &mut func, &mut raw);
                }
            },
            None => {},
        }
        let ghost before = module.functions.deep_view();
        module.functions.push(func);
        assert(module.functions.deep_view() =~= before.push(func@));
        k += 1;
    }
    assert(functions.take(k as int) =~= functions);
    (module, raw)
}

/// What extracting the annotations of the file at `path` with the text
/// `content` gives.
pub open spec fn extracted_file(path: Seq<char>, content: Seq<char>) -> Result<ParsedFileModel, ErrorModel> {
    match parsed_of(path, content) {
        Ok((language, blocks, functions)) => {
            let read = extracted(blocks, functions, path);
            Ok(
                ParsedFileModel {
                    path,
                    language: name_of(language),
                    module: read.module,
                    raw_annotations: read.raw,
                },
            )
        },
        Err(e) => Err(e),
    }
}

/// Extracts the annotations of the file at `path`, whose text is `content`.
/// The path decides the language; a path that stands for no supported
/// language is the only failure.
pub fn extract_file(path: &str, content: &str) -> (r: Result<ParsedFile, Error>)
    ensures
        match r {
            Ok(file) => extracted_file(path@, content@) == Ok::<_, ErrorModel>(file@),
            Err(e) => extracted_file(path@, content@) == Err::<ParsedFileModel, _>(e@),
        },
{
    let parsed = match parse_file(path, content) {
        Ok(parsed) => parsed,
        Err(e) => {
            return Err(e);
        },
    };
    let (module, raw_annotations) = extract_from_parsed(&parsed, path);
    Ok(
        ParsedFile {
            path: String::from_str(path),
            language: String::from_str(parsed.language.name()),
            module,
            raw_annotations,
        },
    )
}

/// Whether `later` holds everything that `earlier` holds, in the same
/// order, and possibly more behind it.
pub open spec fn extends(later: Seq<AnnotationModel>, earlier: Seq<AnnotationModel>) -> bool {
    earlier.len() <= later.len() && later.take(earlier.len() as int) == earlier
}

/// Nothing is lost in the module pass: a line never removes a recorded
/// annotation, and a line that changes a field of the module is recorded.
pub proof fn lemma_module_line_is_recorded(state: ModuleState, line: CommentLineModel, path: Seq<char>)
    ensures
        extends(module_line(state, line, path).raw, state.raw),
        module_line(state, line, path).module != state.module ==> module_line(
            state,
            line,
            path,
        ).raw.len() == state.raw.len() + 1,
{
    let after = module_line(state, line, path);
    assert(after.raw.take(state.raw.len() as int) =~= state.raw);
}

/// Nothing is lost in the function pass: a line never removes a recorded
/// annotation, and a line that changes a field of the function is recorded.
pub proof fn lemma_function_line_is_recorded(state: FunctionState, line: CommentLineModel, path: Seq<char>)
    ensures
        extends(function_line(state, line, path).raw, state.raw),
        function_line(state, line, path).function != state.function ==> function_line(
            state,
            line,
            path,
        ).raw.len() == state.raw.len() + 1,
{
    let after = function_line(state, line, path);
    assert(after.raw.take(state.raw.len() as int) =~= state.raw);
}

/// A whole pass over a block keeps every annotation that was recorded
/// before it.
pub proof fn lemma_function_pass_keeps_records(
    state: FunctionState,
    lines: Seq<CommentLineModel>,
    path: Seq<char>,
)
    ensures
        extends(function_pass(state, lines, path).raw, state.raw),
    decreases lines.len(),
{
    if lines.len() == 0 {
        assert(state.raw.take(state.raw.len() as int) =~= state.raw);
    } else {
        let before = function_pass(state, lines.drop_last(), path);
        lemma_function_pass_keeps_records(state, lines.drop_last(), path);
        lemma_function_line_is_recorded(before, lines.last(), path);
        let after = function_line(before, lines.last(), path);
        assert(after.raw.take(state.raw.len() as int) =~= before.raw.take(state.raw.len() as int));
    }
}

} // verus!
