//! The annotation model: what is recorded about a file and its functions.

use crate::confidence::Confidence;
use vstd::prelude::*;

verus! {

/// A place in a source file. Lines count from 1.
#[derive(Debug, PartialEq, Eq)]
pub struct Location {
    pub file: String,
    pub line: usize,
    pub column: Option<usize>,
}

/// A location as plain values.
pub struct LocationModel {
    pub file: Seq<char>,
    pub line: nat,
    pub column: Option<nat>,
}

impl View for Location {
    type V = LocationModel;

    open spec fn view(&self) -> LocationModel {
        LocationModel {
            file: self.file@,
            line: self.line as nat,
            column: match self.column {
                Some(c) => Some(c as nat),
                None => None,
            },
        }
    }
}

impl DeepView for Location {
    type V = LocationModel;

    open spec fn deep_view(&self) -> LocationModel {
        self@
    }
}

/// The location that names no file and no line.
pub open spec fn nowhere() -> LocationModel {
    LocationModel { file: seq![], line: 0, column: None }
}

impl Clone for Location {
    fn clone(&self) -> (copy: Location)
        ensures
            copy@ == self@,
    {
        Location { file: self.file.clone(), line: self.line, column: self.column }
    }
}

impl Default for Location {
    fn default() -> (location: Location)
        ensures
            location@ == nowhere(),
    {
        Location { file: String::new(), line: 0, column: None }
    }
}

impl Location {
    /// A location in `file` at `line`, with no column.
    pub fn new(file: String, line: usize) -> (location: Location)
        ensures
            location@ == (LocationModel { file: file@, line: line as nat, column: None }),
    {
        Location { file, line, column: None }
    }
}

/// The level that an annotation speaks about.
#[derive(Debug, Clone, Copy, PartialEq, Eq, Structural)]
pub enum AnnotationLevel {
    Project,
    Module,
    Function,
    Test,
}

/// One annotation line as it was found: its level, tag, value and place.
#[derive(Debug, Clone)]
pub struct Annotation {
    pub level: AnnotationLevel,
    pub tag: String,
    pub value: String,
    pub location: Location,
}

/// An annotation as plain values.
pub struct AnnotationModel {
    pub level: AnnotationLevel,
    pub tag: Seq<char>,
    pub value: Seq<char>,
    pub location: LocationModel,
}

impl View for Annotation {
    type V = AnnotationModel;

    open spec fn view(&self) -> AnnotationModel {
        AnnotationModel {
            level: self.level,
            tag: self.tag@,
            value: self.value@,
            location: self.location@,
        }
    }
}

impl DeepView for Annotation {
    type V = AnnotationModel;

    open spec fn deep_view(&self) -> AnnotationModel {
        self@
    }
}

/// What the annotations say about one function.
#[derive(Debug, Clone)]
pub struct FunctionAnnotations {
    pub name: String,
    pub location: Location,
    pub intent: Option<String>,
    pub pre: Vec<String>,
    pub post: Vec<String>,
    pub invariant: Option<String>,
    pub examples: Vec<String>,
    pub effects: Vec<String>,
    pub idempotent: Option<bool>,
    pub confidence: Option<Confidence>,
    pub needs_review: Option<String>,
    pub author: Option<String>,
    pub verified: Option<String>,
    pub assumes: Option<String>,
    pub context: Option<String>,
    pub related: Vec<String>,
    pub deprecated: Option<String>,
    pub complexity: Option<String>,
    pub edge_cases: Vec<String>,
    pub overrides: Vec<(String, String)>,
    pub test_integration: Option<String>,
}

/// The annotations of a function as plain values. A confidence is given in
/// millionths.
pub struct FunctionModel {
    pub name: Seq<char>,
    pub location: LocationModel,
    pub intent: Option<Seq<char>>,
    pub pre: Seq<Seq<char>>,
    pub post: Seq<Seq<char>>,
    pub invariant: Option<Seq<char>>,
    pub examples: Seq<Seq<char>>,
    pub effects: Seq<Seq<char>>,
    pub idempotent: Option<bool>,
    pub confidence: Option<int>,
    pub needs_review: Option<Seq<char>>,
    pub author: Option<Seq<char>>,
    pub verified: Option<Seq<char>>,
    pub assumes: Option<Seq<char>>,
    pub context: Option<Seq<char>>,
    pub related: Seq<Seq<char>>,
    pub deprecated: Option<Seq<char>>,
    pub complexity: Option<Seq<char>>,
    pub edge_cases: Seq<Seq<char>>,
    pub overrides: Seq<(Seq<char>, Seq<char>)>,
    pub test_integration: Option<Seq<char>>,
}

impl View for FunctionAnnotations {
    type V = FunctionModel;

    open spec fn view(&self) -> FunctionModel {
        FunctionModel {
            name: self.name@,
            location: self.location@,
            intent: self.intent.deep_view(),
            pre: self.pre.deep_view(),
            post: self.post.deep_view(),
            invariant: self.invariant.deep_view(),
            examples: self.examples.deep_view(),
            effects: self.effects.deep_view(),
            idempotent: self.idempotent,
            confidence: self.confidence.deep_view(),
            needs_review: self.needs_review.deep_view(),
            author: self.author.deep_view(),
            verified: self.verified.deep_view(),
            assumes: self.assumes.deep_view(),
            context: self.context.deep_view(),
            related: self.related.deep_view(),
            deprecated: self.deprecated.deep_view(),
            complexity: self.complexity.deep_view(),
            edge_cases: self.edge_cases.deep_view(),
            overrides: self.overrides.deep_view(),
            test_integration: self.test_integration.deep_view(),
        }
    }
}

impl DeepView for FunctionAnnotations {
    type V = FunctionModel;

    open spec fn deep_view(&self) -> FunctionModel {
        self@
    }
}

/// A function about which nothing is recorded but its name and place.
pub open spec fn bare_function(name: Seq<char>, location: LocationModel) -> FunctionModel {
    FunctionModel {
        name,
        location,
        intent: None,
        pre: seq![],
        post: seq![],
        invariant: None,
        examples: seq![],
        effects: seq![],
        idempotent: None,
        confidence: None,
        needs_review: None,
        author: None,
        verified: None,
        assumes: None,
        context: None,
        related: seq![],
        deprecated: None,
        complexity: None,
        edge_cases: seq![],
        overrides: seq![],
        test_integration: None,
    }
}

/// Whether anything of a function's contract is recorded: an intent, a
/// condition, an example or an effect.
pub open spec fn is_annotated(f: FunctionModel) -> bool {
    f.intent.is_some() || f.pre.len() > 0 || f.post.len() > 0 || f.examples.len() > 0
        || f.effects.len() > 0
}

impl FunctionAnnotations {
    /// The annotations of a function of which only name and place are known.
    pub fn new(name: String, location: Location) -> (f: FunctionAnnotations)
        ensures
            f@ == bare_function(name@, location@),
    {
        let f = FunctionAnnotations {
            name,
            location,
            intent: None,
            pre: Vec::new(),
            post: Vec::new(),
            invariant: None,
            examples: Vec::new(),
            effects: Vec::new(),
            idempotent: None,
            confidence: None,
            needs_review: None,
            author: None,
            verified: None,
            assumes: None,
            context: None,
            related: Vec::new(),
            deprecated: None,
            complexity: None,
            edge_cases: Vec::new(),
            overrides: Vec::new(),
            test_integration: None,
        };
        proof {
            let m = bare_function(name@, location@);
            assert(f@.pre =~= m.pre);
            assert(f@.post =~= m.post);
            assert(f@.examples =~= m.examples);
            assert(f@.effects =~= m.effects);
            assert(f@.related =~= m.related);
            assert(f@.edge_cases =~= m.edge_cases);
            assert(f@.overrides =~= m.overrides);
        }
        f
    }

    /// Whether the function states its intent.
    pub fn has_intent(&self) -> (b: bool)
        ensures
            b == self@.intent.is_some(),
    {
        self.intent.is_some()
    }

    /// Whether anything of the function's contract is recorded.
    pub fn is_annotated(&self) -> (b: bool)
        ensures
            b == is_annotated(self@),
    {
        self.intent.is_some() || self.pre.len() > 0 || self.post.len() > 0
            || self.examples.len() > 0 || self.effects.len() > 0
    }
}

impl Default for FunctionAnnotations {
    fn default() -> (f: FunctionAnnotations)
        ensures
            f@ == bare_function(seq![], nowhere()),
    {
        FunctionAnnotations::new(String::new(), Location::default())
    }
}

/// What the annotations say about a file as a whole, and about each of its
/// functions in the order in which they are defined.
#[derive(Debug, Clone)]
pub struct ModuleAnnotations {
    pub file: String,
    pub intent: Option<String>,
    pub layer: Option<String>,
    pub public_api: Vec<String>,
    pub depends_on: Vec<String>,
    pub depended_by: Vec<String>,
    pub internal: Option<bool>,
    pub stateless: Option<bool>,
    pub thread_safe: Option<bool>,
    pub cohesion: Option<String>,
    pub stability: Option<String>,
    pub functions: Vec<FunctionAnnotations>,
}

/// The annotations of a file as plain values.
pub struct ModuleModel {
    pub file: Seq<char>,
    pub intent: Option<Seq<char>>,
    pub layer: Option<Seq<char>>,
    pub public_api: Seq<Seq<char>>,
    pub depends_on: Seq<Seq<char>>,
    pub depended_by: Seq<Seq<char>>,
    pub internal: Option<bool>,
    pub stateless: Option<bool>,
    pub thread_safe: Option<bool>,
    pub cohesion: Option<Seq<char>>,
    pub stability: Option<Seq<char>>,
    pub functions: Seq<FunctionModel>,
}

impl View for ModuleAnnotations {
    type V = ModuleModel;

    open spec fn view(&self) -> ModuleModel {
        ModuleModel {
            file: self.file@,
            intent: self.intent.deep_view(),
            layer: self.layer.deep_view(),
            public_api: self.public_api.deep_view(),
            depends_on: self.depends_on.deep_view(),
            depended_by: self.depended_by.deep_view(),
            internal: self.internal,
            stateless: self.stateless,
            thread_safe: self.thread_safe,
            cohesion: self.cohesion.deep_view(),
            stability: self.stability.deep_view(),
            functions: self.functions.deep_view(),
        }
    }
}

impl DeepView for ModuleAnnotations {
    type V = ModuleModel;

    open spec fn deep_view(&self) -> ModuleModel {
        self@
    }
}

/// A file about which nothing is recorded but its path.
pub open spec fn bare_module(file: Seq<char>) -> ModuleModel {
    ModuleModel {
        file,
        intent: None,
        layer: None,
        public_api: seq![],
        depends_on: seq![],
        depended_by: seq![],
        internal: None,
        stateless: None,
        thread_safe: None,
        cohesion: None,
        stability: None,
        functions: seq![],
    }
}

impl ModuleAnnotations {
    /// The annotations of a file of which only the path is known.
    pub fn new(file: String) -> (m: ModuleAnnotations)
        ensures
            m@ == bare_module(file@),
    {
        let m = ModuleAnnotations {
            file,
            intent: None,
            layer: None,
            public_api: Vec::new(),
            depends_on: Vec::new(),
            depended_by: Vec::new(),
            internal: None,
            stateless: None,
            thread_safe: None,
            cohesion: None,
            stability: None,
            functions: Vec::new(),
        };
        proof {
            let b = bare_module(file@);
            assert(m@.public_api =~= b.public_api);
            assert(m@.depends_on =~= b.depends_on);
            assert(m@.depended_by =~= b.depended_by);
            assert(m@.functions =~= b.functions);
        }
        m
    }
}

impl Default for ModuleAnnotations {
    fn default() -> (m: ModuleAnnotations)
        ensures
            m@ == bare_module(seq![]),
    {
        ModuleAnnotations::new(String::new())
    }
}

/// Everything recovered from one file: the typed annotations, and every
/// annotation line as it was found.
#[derive(Debug, Clone)]
pub struct ParsedFile {
    pub path: String,
    pub language: String,
    pub module: ModuleAnnotations,
    pub raw_annotations: Vec<Annotation>,
}

/// A parsed file as plain values.
pub struct ParsedFileModel {
    pub path: Seq<char>,
    pub language: Seq<char>,
    pub module: ModuleModel,
    pub raw_annotations: Seq<AnnotationModel>,
}

impl View for ParsedFile {
    type V = ParsedFileModel;

    open spec fn view(&self) -> ParsedFileModel {
        ParsedFileModel {
            path: self.path@,
            language: self.language@,
            module: self.module@,
            raw_annotations: self.raw_annotations.deep_view(),
        }
    }
}

impl DeepView for ParsedFile {
    type V = ParsedFileModel;

    open spec fn deep_view(&self) -> ParsedFileModel {
        self@
    }
}

/// Everything recovered from the files of a project.
#[derive(Debug, Clone)]
pub struct ParsedProject {
    pub files: Vec<ParsedFile>,
    pub total_functions: usize,
    pub annotated_functions: usize,
    pub functions_missing_intent: Vec<Location>,
}

impl Default for ParsedProject {
    fn default() -> (p: ParsedProject)
        ensures
            p.files@.len() == 0,
            p.total_functions == 0,
            p.annotated_functions == 0,
            p.functions_missing_intent@.len() == 0,
    {
        ParsedProject {
            files: Vec::new(),
            total_functions: 0,
            annotated_functions: 0,
            functions_missing_intent: Vec::new(),
        }
    }
}

} // verus!
