//! What a benchmark run sends and records: prompts, task contexts, and the
//! plan of executions. Sending itself is done outside the library.

use crate::bench::config::RunConfig;
use crate::bench::task::{language_name, Task, TaskModel};
use crate::text::{contains, has_infix, joined};
use vstd::prelude::*;
use vstd::string::StringExecFns;
use vstd::utf8::*;

verus! {

/// What a client is told about the task it works on.
#[derive(Debug, Clone)]
pub struct TaskContext {
    /// The task's identifier.
    pub task_id: String,
    /// The mode of the run: `baseline` or `aicms`.
    pub mode: String,
    /// Whether the run uses the annotation skill.
    pub use_aicms_skill: bool,
}

/// An answer of the model.
#[derive(Debug, Clone)]
pub struct ClaudeResponse {
    pub content: String,
    pub input_tokens: u32,
    pub output_tokens: u32,
    pub stop_reason: String,
}

/// A client that gives one fixed answer.
pub struct MockClaudeClient {
    response: String,
}

impl MockClaudeClient {
    /// The client that always answers `response`.
    pub fn new(response: String) -> (client: MockClaudeClient)
        ensures
            client.answer() == response@,
    {
        MockClaudeClient { response }
    }

    /// The text that this client answers.
    pub closed spec fn answer(&self) -> Seq<char> {
        self.response@
    }

    /// The answer of this client: its text, with 100 tokens read and 200
    /// written.
    pub fn reply(&self) -> (r: ClaudeResponse)
        ensures
            r.content@ == self.answer(),
            r.input_tokens == 100,
            r.output_tokens == 200,
            r.stop_reason@ == "end_turn"@,
    {
        ClaudeResponse {
            content: self.response.clone(),
            input_tokens: 100,
            output_tokens: 200,
            stop_reason: String::from_str("end_turn"),
        }
    }
}

/// What `std::path::Path::join` makes of a path and a part, under the path
/// syntax of the platform the library is built for.
pub uninterp spec fn path_join(base: Seq<char>, part: Seq<char>) -> Seq<char>;

/// Calls `std::path::Path::join` and copies the path out. The contract only
/// gives the answer its name.
#[verifier::external_body]
fn join_path(base: &str, part: &str) -> (r: String)
    ensures
        r@ == path_join(base@, part@),
{
    std::path::Path::new(base).join(part).to_string_lossy().into_owned()
}

/// A client that hands its prompts to the command-line tool.
pub struct ClaudeCodeClient {
    pub model: Option<String>,
    /// The directory under which a run keeps its code and its reports.
    pub output_dir: String,
    /// The skill file of the annotation mode.
    pub skill_file: String,
}

/// The skill file that a client uses unless another is named.
pub open spec fn default_skill_file() -> Seq<char> {
    "../skills/aicms/SKILL.md"@
}

impl ClaudeCodeClient {
    /// A client that writes under `output_dir` and names no model.
    pub fn new(output_dir: String) -> (client: ClaudeCodeClient)
        ensures
            client.model.is_none(),
            client.output_dir@ == output_dir@,
            client.skill_file@ == default_skill_file(),
    {
        ClaudeCodeClient {
            model: None,
            output_dir,
            skill_file: String::from_str("../skills/aicms/SKILL.md"),
        }
    }

    /// A client that writes under `output_dir` and asks for `model`.
    pub fn with_model(model: String, output_dir: String) -> (client: ClaudeCodeClient)
        ensures
            client.model.deep_view() == Some(model@),
            client.output_dir@ == output_dir@,
            client.skill_file@ == default_skill_file(),
    {
        ClaudeCodeClient {
            model: Some(model),
            output_dir,
            skill_file: String::from_str("../skills/aicms/SKILL.md"),
        }
    }

    /// This client with another skill file.
    pub fn with_skill_file(self, path: String) -> (client: ClaudeCodeClient)
        ensures
            client.model.deep_view() == self.model.deep_view(),
            client.output_dir@ == self.output_dir@,
            client.skill_file@ == path@,
    {
        ClaudeCodeClient { model: self.model, output_dir: self.output_dir, skill_file: path }
    }

    /// The directory that holds the code of a mode.
    pub fn get_code_dir(&self, mode: &str) -> (dir: String)
        ensures
            dir@ == path_join(path_join(self.output_dir@, mode@), "code"@),
    {
        let under = join_path(self.output_dir.as_str(), mode);
        join_path(under.as_str(), "code")
    }

    /// The directory that holds the reports of a mode.
    pub fn get_report_dir(&self, mode: &str) -> (dir: String)
        ensures
            dir@ == path_join(path_join(self.output_dir@, mode@), "report"@),
    {
        let under = join_path(self.output_dir.as_str(), mode);
        join_path(under.as_str(), "report")
    }

    /// The files as fenced code blocks, with a blank line between blocks.
    pub fn format_files_as_markdown(&self, files: &Vec<(String, String)>, language: &str) -> (r: String)
        ensures
            r@ == joined(fenced_files(files.deep_view(), language@), "\n\n"@),
    {
        format_files(files, language)
    }
}

/// A file as a fenced code block that names the language and the path.
pub open spec fn fenced(language: Seq<char>, path: Seq<char>, content: Seq<char>) -> Seq<char> {
    "```"@ + language + ":"@ + path + "\n"@ + content + "\n```"@
}

/// Each of the files as a fenced code block.
pub open spec fn fenced_files(files: Seq<(Seq<char>, Seq<char>)>, language: Seq<char>) -> Seq<Seq<char>> {
    Seq::new(files.len(), |i: int| fenced(language, files[i].0, files[i].1))
}

/// The files as fenced code blocks, with a blank line between blocks.
pub fn format_files(files: &Vec<(String, String)>, language: &str) -> (r: String)
    ensures
        r@ == joined(fenced_files(files.deep_view(), language@), "\n\n"@),
{
    let mut blocks: Vec<String> = Vec::new();
    let mut i: usize = 0;
    while i < files.len()
        invariant
            i <= files@.len(),
            blocks@.len() == i,
            forall|k: int|
                0 <= k < i ==> (#[trigger] blocks@[k])@ == fenced(
                    language@,
                    files@[k].0@,
                    files@[k].1@,
                ),
        decreases files@.len() - i,
    {
        let mut block = String::from_str("```");
        block.append(language);
        block.append(":");
        block.append(files[i].0.as_str());
        block.append("\n");
        block.append(files[i].1.as_str());
        block.append("\n```");
        blocks.push(block);
        i += 1;
    }
    assert(blocks.deep_view() =~= fenced_files(files.deep_view(), language@));
    crate::text::join(&blocks, "\n\n")
}

/// The language that a prompt speaks of: the first of Rust, Python and
/// TypeScript that it names, with or without a capital; Rust if it names
/// none.
pub open spec fn prompt_language(prompt: Seq<char>) -> Seq<char> {
    if has_infix(prompt, "Rust"@) || has_infix(prompt, "rust"@) {
        "rust"@
    } else if has_infix(prompt, "Python"@) || has_infix(prompt, "python"@) {
        "python"@
    } else if has_infix(prompt, "TypeScript"@) || has_infix(prompt, "typescript"@) {
        "typescript"@
    } else {
        "rust"@
    }
}

/// The language that a prompt speaks of.
pub fn detect_language(prompt: &str) -> (language: &'static str)
    ensures
        language@ == prompt_language(prompt@),
{
    if contains(prompt, "Rust") || contains(prompt, "rust") {
        "rust"
    } else if contains(prompt, "Python") || contains(prompt, "python") {
        "python"
    } else if contains(prompt, "TypeScript") || contains(prompt, "typescript") {
        "typescript"
    } else {
        "rust"
    }
}

/// The instructions that follow every prompt.
pub open spec fn instructions() -> Seq<char> {
    "\n\n---\n\nWrite all files to the current directory. Create a proper project structure (e.g., src/ for Rust, proper modules for Python). Include comprehensive tests. Run the tests to verify they pass."@
}

/// The prompt followed by the instructions, the same in both modes.
pub fn build_prompt(prompt: &str) -> (full: String)
    ensures
        full@ == prompt@ + instructions(),
{
    String::from_str(prompt).concat(
        "\n\n---\n\nWrite all files to the current directory. Create a proper project structure (e.g., src/ for Rust, proper modules for Python). Include comprehensive tests. Run the tests to verify they pass.",
    )
}

/// Whether a text can be cut after `max_len` bytes without splitting a
/// character.
pub open spec fn cuts_cleanly(s: Seq<char>, max_len: int) -> bool {
    is_char_boundary(encode_utf8(s), max_len)
}

/// The text cut to its first `max_len` bytes and marked with three dots,
/// or the text itself if it is no longer than that.
pub open spec fn truncated(s: Seq<char>, max_len: int) -> Seq<char> {
    if encode_utf8(s).len() > max_len {
        decode_utf8(encode_utf8(s).subrange(0, max_len)) + "..."@
    } else {
        s
    }
}

/// Cuts a text to at most `max_len` bytes, marking the cut with three
/// dots. The cut must not fall inside a character.
pub fn truncate_string(s: &str, max_len: usize) -> (r: String)
    requires
        encode_utf8(s@).len() > max_len ==> cuts_cleanly(s@, max_len as int),
    ensures
        r@ == truncated(s@, max_len as int),
{
    let size = s.as_bytes().len();
    if size > max_len {
        let (head, _) = s.split_at(max_len);
        proof {
            encode_utf8_decode_utf8(head@);
            assert(encode_utf8(head@) == encode_utf8(s@).subrange(0, max_len as int));
        }
        String::from_str(head).concat("...")
    } else {
        String::from_str(s)
    }
}

/// Cuts a text to at most `max_len` bytes, as `truncate_string` does, or
/// gives `None` where the cut would fall inside a character.
pub fn try_truncate_string(s: &str, max_len: usize) -> (r: Option<String>)
    ensures
        match r {
            Some(cut) => cut@ == truncated(s@, max_len as int),
            None => encode_utf8(s@).len() > max_len && !cuts_cleanly(s@, max_len as int),
        },
{
    let size = s.as_bytes().len();
    if size > max_len && !s.is_char_boundary(max_len) {
        None
    } else {
        Some(truncate_string(s, max_len))
    }
}

/// The way a task is put to the model.
#[derive(Debug, Clone, Copy, PartialEq, Eq, Structural)]
pub enum PromptMode {
    Baseline,
    Aicms,
}

/// The word for each mode.
pub open spec fn mode_name(mode: PromptMode) -> Seq<char> {
    match mode {
        PromptMode::Baseline => "baseline"@,
        PromptMode::Aicms => "aicms"@,
    }
}

impl PromptMode {
    /// The lower-case word for this mode.
    pub fn as_str(&self) -> (s: &'static str)
        ensures
            s@ == mode_name(*self),
    {
        match self {
            PromptMode::Baseline => "baseline",
            PromptMode::Aicms => "aicms",
        }
    }
}

/// What one execution of a task gave.
#[derive(Debug, Clone)]
pub struct ExecutionResult {
    pub task_id: String,
    pub mode: PromptMode,
    pub repetition: u32,
    pub response: String,
    pub input_tokens: u32,
    pub output_tokens: u32,
    pub execution_time_ms: u64,
}

/// The prompt texts of a run.
#[derive(Debug, Clone)]
pub struct PromptTemplates {
    pub baseline: String,
    pub aicms_skill: String,
}

/// One step of a run: a repetition in a mode.
pub struct Step {
    pub repetition: u32,
    pub mode: PromptMode,
}

/// Plans the executions of a run and words their prompts.
pub struct BenchmarkExecutor {
    pub templates: PromptTemplates,
    pub run_config: RunConfig,
}

/// The prompt for a task: its name, its language and its description,
/// followed by the request for a complete implementation.
pub open spec fn task_prompt(task: TaskModel) -> Seq<char> {
    "## Task: "@ + task.name + "\n\n**Language:** "@ + language_name(task.language) + "\n\n"@
        + task.description
        + "\n\nPlease provide a complete implementation with all necessary types, traits, and functions. Use proper error handling and include appropriate documentation."@
}

/// The steps of a run with `repetitions` repetitions: each repetition in
/// turn, first in baseline mode and then in annotation mode.
pub open spec fn steps_of(repetitions: int) -> Seq<(u32, PromptMode)>
    decreases repetitions,
{
    if repetitions <= 0 {
        seq![]
    } else {
        steps_of(repetitions - 1).push(((repetitions - 1) as u32, PromptMode::Baseline)).push(
            ((repetitions - 1) as u32, PromptMode::Aicms),
        )
    }
}

impl BenchmarkExecutor {
    /// An executor with the given prompt texts and settings.
    pub fn new(templates: PromptTemplates, run_config: RunConfig) -> (executor: BenchmarkExecutor)
        ensures
            executor.templates == templates,
            executor.run_config == run_config,
    {
        BenchmarkExecutor { templates, run_config }
    }

    /// The prompt for a task, the same in both modes.
    pub fn build_prompt(&self, task: &Task) -> (prompt: String)
        ensures
            prompt@ == task_prompt(task@),
    {
        let mut prompt = String::from_str("## Task: ");
        prompt.append(task.name.as_str());
        prompt.append("\n\n**Language:** ");
        prompt.append(task.language.as_str());
        prompt.append("\n\n");
        prompt.append(task.description.as_str());
        prompt.append(
            "\n\nPlease provide a complete implementation with all necessary types, traits, and functions. Use proper error handling and include appropriate documentation.",
        );
        prompt
    }

    /// What a client is told about a task that runs in `mode`.
    pub fn create_task_context(&self, task: &Task, mode: PromptMode) -> (context: TaskContext)
        ensures
            context.task_id@ == task.id@,
            context.mode@ == mode_name(mode),
            context.use_aicms_skill == (mode == PromptMode::Aicms),
    {
        TaskContext {
            task_id: task.id.clone(),
            mode: String::from_str(mode.as_str()),
            use_aicms_skill: match mode {
                PromptMode::Aicms => true,
                PromptMode::Baseline => false,
            },
        }
    }

    /// What an execution gives in a dry run: a note in place of an answer,
    /// and no tokens and no time spent.
    pub fn dry_run_result(task: &Task, mode: PromptMode, repetition: u32) -> (r: ExecutionResult)
        ensures
            r.task_id@ == task.id@,
            r.mode == mode,
            r.repetition == repetition,
            r.response@ == "[DRY RUN] No actual API call made"@,
            r.input_tokens == 0,
            r.output_tokens == 0,
            r.execution_time_ms == 0,
    {
        ExecutionResult {
            task_id: task.id.clone(),
            mode,
            repetition,
            response: String::from_str("[DRY RUN] No actual API call made"),
            input_tokens: 0,
            output_tokens: 0,
            execution_time_ms: 0,
        }
    }

    /// What the answer of a client gives as the result of an execution
    /// that took `elapsed_ms` milliseconds.
    pub fn completed(
        task: &Task,
        mode: PromptMode,
        repetition: u32,
        response: ClaudeResponse,
        elapsed_ms: u64,
    ) -> (r: ExecutionResult)
        ensures
            r.task_id@ == task.id@,
            r.mode == mode,
            r.repetition == repetition,
            r.response@ == response.content@,
            r.input_tokens == response.input_tokens,
            r.output_tokens == response.output_tokens,
            r.execution_time_ms == elapsed_ms,
    {
        ExecutionResult {
            task_id: task.id.clone(),
            mode,
            repetition,
            response: response.content,
            input_tokens: response.input_tokens,
            output_tokens: response.output_tokens,
            execution_time_ms: elapsed_ms,
        }
    }

    /// The steps in which a task is executed: each repetition in turn,
    /// first in baseline mode and then in annotation mode.
    pub fn plan(&self) -> (steps: Vec<(u32, PromptMode)>)
        ensures
            steps@ == steps_of(self.run_config.repetitions as int),
    {
        let mut steps: Vec<(u32, PromptMode)> = Vec::new();
        let mut rep: u32 = 0;
        while rep < self.run_config.repetitions
            invariant
                rep <= self.run_config.repetitions,
                steps@ == steps_of(rep as int),
            decreases self.run_config.repetitions - rep,
        {
            steps.push((rep, PromptMode::Baseline));
            steps.push((rep, PromptMode::Aicms));
            rep += 1;
        }
        steps
    }
}

} // verus!
