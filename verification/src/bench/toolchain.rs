//! The tools that a benchmark run needs, and what follows where one is
//! missing.

use crate::bench::task::{language_name, Language};
use crate::text::equals;
use vstd::prelude::*;
use vstd::string::StringExecFns;

verus! {

/// The tool that a language needs, and the arguments with which it is tried.
#[derive(Debug, Clone)]
pub struct LanguageTools {
    pub language: Language,
    pub compiler: &'static str,
    pub test_args: Vec<&'static str>,
}

/// Which languages can be run, and which tools are missing.
#[derive(Debug)]
pub struct ToolchainStatus {
    /// The languages whose tool was found; no language occurs twice.
    pub available_languages: Vec<Language>,
    pub missing_tools: Vec<MissingTool>,
}

/// A tool that was not found.
#[derive(Debug)]
pub struct MissingTool {
    pub language: Language,
    pub tool_name: &'static str,
    pub install_hint: &'static str,
}

/// A missing tool as plain values.
pub struct MissingToolModel {
    pub language: Language,
    pub tool_name: Seq<char>,
    pub install_hint: Seq<char>,
}

impl View for MissingTool {
    type V = MissingToolModel;

    open spec fn view(&self) -> MissingToolModel {
        MissingToolModel {
            language: self.language,
            tool_name: self.tool_name@,
            install_hint: self.install_hint@,
        }
    }
}

impl DeepView for MissingTool {
    type V = MissingToolModel;

    open spec fn deep_view(&self) -> MissingToolModel {
        self@
    }
}

/// The languages, in the order in which their tools are tried.
pub open spec fn tool_languages() -> Seq<Language> {
    seq![Language::Rust, Language::Python, Language::TypeScript]
}

/// The tool that each language needs.
pub open spec fn compiler_of(language: Language) -> Seq<char> {
    match language {
        Language::Rust => "rustc"@,
        Language::Python => "python"@,
        Language::TypeScript => "tsc"@,
    }
}

/// How to get a tool.
pub open spec fn install_hint_of(tool: Seq<char>) -> Seq<char> {
    if tool == "rustc"@ {
        "Install Rust: https://rustup.rs/"@
    } else if tool == "python"@ {
        "Install Python: https://www.python.org/downloads/"@
    } else if tool == "tsc"@ {
        "Install TypeScript: npm install -g typescript"@
    } else {
        "Check tool documentation for installation instructions"@
    }
}

/// Whether the tool at position `i` was found: the probe at that position
/// says so. A tool without a probe counts as missing.
pub open spec fn found(probes: Seq<bool>, i: int) -> bool {
    0 <= i < probes.len() && probes[i]
}

/// The languages among the first `upto` whose tool was found.
pub open spec fn available_upto(probes: Seq<bool>, upto: int) -> Seq<Language>
    decreases upto,
{
    if upto <= 0 {
        seq![]
    } else if found(probes, upto - 1) {
        available_upto(probes, upto - 1).push(tool_languages()[upto - 1])
    } else {
        available_upto(probes, upto - 1)
    }
}

/// The tools among the first `upto` that were not found.
pub open spec fn missing_upto(probes: Seq<bool>, upto: int) -> Seq<MissingToolModel>
    decreases upto,
{
    if upto <= 0 {
        seq![]
    } else if found(probes, upto - 1) {
        missing_upto(probes, upto - 1)
    } else {
        let language = tool_languages()[upto - 1];
        missing_upto(probes, upto - 1).push(
            MissingToolModel {
                language,
                tool_name: compiler_of(language),
                install_hint: install_hint_of(compiler_of(language)),
            },
        )
    }
}

/// The warning about a missing tool.
pub open spec fn warning_of(missing: MissingToolModel) -> Seq<char> {
    "Tool '"@ + missing.tool_name + "' not found - "@ + language_name(missing.language)
        + " tasks will be skipped. "@ + missing.install_hint
}

/// Knows which tools a run needs.
pub struct ToolchainValidator;

impl ToolchainValidator {
    /// The tool of each language, in the order in which they are tried.
    pub fn get_language_tools() -> (tools: Vec<LanguageTools>)
        ensures
            tools@.len() == 3,
            forall|i: int|
                0 <= i < 3 ==> (#[trigger] tools@[i]).language == tool_languages()[i]
                    && tools@[i].compiler@ == compiler_of(tool_languages()[i])
                    && tools@[i].test_args.deep_view() == seq!["--version"@],
    {
        let mut tools: Vec<LanguageTools> = Vec::new();
        let rust = LanguageTools { language: Language::Rust, compiler: "rustc", test_args: vec!["--version"] };
        assert(rust.test_args.deep_view() =~= seq!["--version"@]);
        tools.push(rust);
        let python = LanguageTools {
            language: Language::Python,
            compiler: "python",
            test_args: vec!["--version"],
        };
        assert(python.test_args.deep_view() =~= seq!["--version"@]);
        tools.push(python);
        let typescript = LanguageTools {
            language: Language::TypeScript,
            compiler: "tsc",
            test_args: vec!["--version"],
        };
        assert(typescript.test_args.deep_view() =~= seq!["--version"@]);
        tools.push(typescript);
        tools
    }

    /// How to get the tool named `tool`.
    pub fn get_install_hint(tool: &str) -> (hint: &'static str)
        ensures
            hint@ == install_hint_of(tool@),
    {
        if equals(tool, "rustc") {
            "Install Rust: https://rustup.rs/"
        } else if equals(tool, "python") {
            "Install Python: https://www.python.org/downloads/"
        } else if equals(tool, "tsc") {
            "Install TypeScript: npm install -g typescript"
        } else {
            "Check tool documentation for installation instructions"
        }
    }

    /// Sorts the languages into those that can be run and those whose tool
    /// is missing. `probes` says of each tool, in the order of
    /// `get_language_tools`, whether it was found.
    pub fn validate(probes: &Vec<bool>) -> (status: ToolchainStatus)
        ensures
            status.available_languages@ == available_upto(probes@, 3),
            status.missing_tools.deep_view() == missing_upto(probes@, 3),
    {
        let tools = ToolchainValidator::get_language_tools();
        let mut available_languages: Vec<Language> = Vec::new();
        let mut missing_tools: Vec<MissingTool> = Vec::new();
        let mut i: usize = 0;
        assert(missing_tools.deep_view() =~= Seq::<MissingToolModel>::empty());
        while i < tools.len()
            invariant
                i <= 3,
                tools@.len() == 3,
                forall|k: int|
                    0 <= k < 3 ==> (#[trigger] tools@[k]).language == tool_languages()[k]
                        && tools@[k].compiler@ == compiler_of(tool_languages()[k]),
                available_languages@ == available_upto(probes@, i as int),
                missing_tools.deep_view() == missing_upto(probes@, i as int),
            decreases 3 - i,
        {
            let tool = &tools[i];
            if i < probes.len() && probes[i] {
                available_languages.push(tool.language);
            } else {
                let ghost before = missing_tools.deep_view();
                let missing = MissingTool {
                    language: tool.language,
                    tool_name: tool.compiler,
                    install_hint: ToolchainValidator::get_install_hint(tool.compiler),
                };
                missing_tools.push(missing);
                assert(missing_tools.deep_view() =~= before.push(missing@));
            }
            i += 1;
        }
        ToolchainStatus { available_languages, missing_tools }
    }

    /// The warnings about the missing tools, one for each, in order.
    pub fn log_warnings(status: &ToolchainStatus) -> (warnings: Vec<String>)
        ensures
            warnings@.len() == status.missing_tools@.len(),
            forall|i: int|
                0 <= i < warnings@.len() ==> (#[trigger] warnings@[i])@ == warning_of(
                    status.missing_tools@[i]@,
                ),
    {
        let mut warnings: Vec<String> = Vec::new();
        let mut i: usize = 0;
        while i < status.missing_tools.len()
            invariant
                i <= status.missing_tools@.len(),
                warnings@.len() == i,
                forall|k: int|
                    0 <= k < i ==> (#[trigger] warnings@[k])@ == warning_of(status.missing_tools@[k]@),
            decreases status.missing_tools@.len() - i,
        {
            let missing = &status.missing_tools[i];
            let mut warning = String::from_str("Tool '");
            warning.append(missing.tool_name);
            warning.append("' not found - ");
            warning.append(missing.language.as_str());
            warning.append(" tasks will be skipped. ");
            warning.append(missing.install_hint);
            warnings.push(warning);
            i += 1;
        }
        warnings
    }
}

} // verus!
