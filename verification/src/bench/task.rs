//! Benchmark tasks and their classification.

use vstd::prelude::*;

verus! {

/// What a task asks for.
#[derive(Debug, Clone, Copy, PartialEq, Eq, Hash, Structural)]
pub enum TaskCategory {
    Implement,
    Bugfix,
    Refactor,
    Inference,
}

/// The word for each category.
pub open spec fn category_name(category: TaskCategory) -> Seq<char> {
    match category {
        TaskCategory::Implement => "implement"@,
        TaskCategory::Bugfix => "bugfix"@,
        TaskCategory::Refactor => "refactor"@,
        TaskCategory::Inference => "inference"@,
    }
}

impl TaskCategory {
    /// The lower-case word for this category.
    pub fn as_str(&self) -> (s: &'static str)
        ensures
            s@ == category_name(*self),
    {
        match self {
            TaskCategory::Implement => "implement",
            TaskCategory::Bugfix => "bugfix",
            TaskCategory::Refactor => "refactor",
            TaskCategory::Inference => "inference",
        }
    }
}

/// The language a task is to be solved in.
#[derive(Debug, Clone, Copy, PartialEq, Eq, Hash, Structural)]
pub enum Language {
    Rust,
    Python,
    TypeScript,
}

/// The word for each language.
pub open spec fn language_name(language: Language) -> Seq<char> {
    match language {
        Language::Rust => "rust"@,
        Language::Python => "python"@,
        Language::TypeScript => "typescript"@,
    }
}

/// The file extension of each language.
pub open spec fn language_extension(language: Language) -> Seq<char> {
    match language {
        Language::Rust => "rs"@,
        Language::Python => "py"@,
        Language::TypeScript => "ts"@,
    }
}

impl Language {
    /// The lower-case word for this language.
    pub fn as_str(&self) -> (s: &'static str)
        ensures
            s@ == language_name(*self),
    {
        match self {
            Language::Rust => "rust",
            Language::Python => "python",
            Language::TypeScript => "typescript",
        }
    }

    /// The file extension of this language, without a dot.
    pub fn extension(&self) -> (s: &'static str)
        ensures
            s@ == language_extension(*self),
    {
        match self {
            Language::Rust => "rs",
            Language::Python => "py",
            Language::TypeScript => "ts",
        }
    }
}

/// How hard a task is.
#[derive(Debug, Clone, Copy, PartialEq, Eq, Hash, Structural)]
pub enum Difficulty {
    Easy,
    Medium,
    Hard,
}

/// The word for each difficulty.
pub open spec fn difficulty_name(difficulty: Difficulty) -> Seq<char> {
    match difficulty {
        Difficulty::Easy => "easy"@,
        Difficulty::Medium => "medium"@,
        Difficulty::Hard => "hard"@,
    }
}

impl Difficulty {
    /// The lower-case word for this difficulty.
    pub fn as_str(&self) -> (s: &'static str)
        ensures
            s@ == difficulty_name(*self),
    {
        match self {
            Difficulty::Easy => "easy",
            Difficulty::Medium => "medium",
            Difficulty::Hard => "hard",
        }
    }
}

/// A benchmark task.
#[derive(Debug)]
pub struct Task {
    pub id: String,
    pub name: String,
    pub category: TaskCategory,
    pub language: Language,
    pub difficulty: Difficulty,
    /// What the solver is shown: the only input of an implement task.
    pub description: String,
}

/// A task as plain values.
pub struct TaskModel {
    pub id: Seq<char>,
    pub name: Seq<char>,
    pub category: TaskCategory,
    pub language: Language,
    pub difficulty: Difficulty,
    pub description: Seq<char>,
}

impl View for Task {
    type V = TaskModel;

    open spec fn view(&self) -> TaskModel {
        TaskModel {
            id: self.id@,
            name: self.name@,
            category: self.category,
            language: self.language,
            difficulty: self.difficulty,
            description: self.description@,
        }
    }
}

impl DeepView for Task {
    type V = TaskModel;

    open spec fn deep_view(&self) -> TaskModel {
        self@
    }
}

impl Clone for Task {
    fn clone(&self) -> (copy: Task)
        ensures
            copy@ == self@,
    {
        Task {
            id: self.id.clone(),
            name: self.name.clone(),
            category: self.category,
            language: self.language,
            difficulty: self.difficulty,
            description: self.description.clone(),
        }
    }
}

/// A task file as it is stored: the task under the key `task`.
#[derive(Debug)]
pub struct TaskFile {
    pub task: TaskMetadata,
}

/// What a task file says about its task.
#[derive(Debug)]
pub struct TaskMetadata {
    pub id: String,
    pub name: String,
    pub category: TaskCategory,
    pub language: Language,
    pub difficulty: Difficulty,
    pub description: String,
}

impl View for TaskMetadata {
    type V = TaskModel;

    open spec fn view(&self) -> TaskModel {
        TaskModel {
            id: self.id@,
            name: self.name@,
            category: self.category,
            language: self.language,
            difficulty: self.difficulty,
            description: self.description@,
        }
    }
}

impl From<TaskFile> for Task {
    /// The task that a task file holds.
    fn from(file: TaskFile) -> (task: Task) {
        Task {
            id: file.task.id,
            name: file.task.name,
            category: file.task.category,
            language: file.task.language,
            difficulty: file.task.difficulty,
            description: file.task.description,
        }
    }
}

impl vstd::std_specs::convert::FromSpecImpl<TaskFile> for Task {
    open spec fn obeys_from_spec() -> bool {
        true
    }

    open spec fn from_spec(file: TaskFile) -> Task {
        Task {
            id: file.task.id,
            name: file.task.name,
            category: file.task.category,
            language: file.task.language,
            difficulty: file.task.difficulty,
            description: file.task.description,
        }
    }
}

} // verus!
