use vstd::prelude::*;

verus! {

/// The refactorings that a run can ask for; each selects the heuristic that judges it.
#[derive(Clone, Copy, Debug, PartialEq, Eq, Structural)]
pub enum RefactorKind {
    ExtractMethod,
    InlineMethod,
    MoveMethod,
    RenameMethod,
}

impl RefactorKind {
    /// The name of the kind as it is written on the command line and in prompts.
    pub open spec fn spec_name(self) -> Seq<char> {
        match self {
            RefactorKind::ExtractMethod => "ExtractMethod"@,
            RefactorKind::InlineMethod => "InlineMethod"@,
            RefactorKind::MoveMethod => "MoveMethod"@,
            RefactorKind::RenameMethod => "RenameMethod"@,
        }
    }

    pub fn name(&self) -> (r: &'static str)
        ensures
            r@ == self.spec_name(),
    {
        match self {
            RefactorKind::ExtractMethod => "ExtractMethod",
            RefactorKind::InlineMethod => "InlineMethod",
            RefactorKind::MoveMethod => "MoveMethod",
            RefactorKind::RenameMethod => "RenameMethod",
        }
    }
}

/// The request of one run: where the project and the target file are, what to do to
/// the file, and how the run may proceed.
pub struct Cli {
    /// Root of the project, which must hold a `Cargo.toml`.
    pub repo: String,
    /// The file to refactor, which must exist.
    pub file: String,
    /// The natural-language intent handed to the proposing agent.
    pub refactor_prompt: String,
    pub refactor_type: RefactorKind,
    pub model: String,
    /// Directory of few-shot examples.
    pub rag_dir: String,
    /// How many times the repair agent may be called.
    pub max_repairs: u32,
    /// Skip the interactive confirmation of a candidate.
    pub yes: bool,
}

/// Why a request is refused before any agent is called.
#[derive(Clone, Copy, Debug, PartialEq, Eq, Structural)]
pub enum ConfigError {
    /// The repository root holds no `Cargo.toml`.
    MissingManifest,
    /// The target file does not exist.
    MissingFile,
}

impl ConfigError {
    /// The message with which a refused request is reported.
    pub open spec fn spec_message(self) -> Seq<char> {
        match self {
            ConfigError::MissingManifest => "No Cargo.toml found in --repo"@,
            ConfigError::MissingFile => "--file does not exist"@,
        }
    }

    pub fn message(&self) -> (r: &'static str)
        ensures
            r@ == self.spec_message(),
    {
        match self {
            ConfigError::MissingManifest => "No Cargo.toml found in --repo",
            ConfigError::MissingFile => "--file does not exist",
        }
    }
}

impl Cli {
    /// Checks the request against what was found on disk: whether the repository root
    /// holds a manifest, and whether the target file exists. The manifest is checked first.
    pub fn validate(&self, repo_has_manifest: bool, file_exists: bool) -> (r: Result<(), ConfigError>)
        ensures
            r is Ok <==> repo_has_manifest && file_exists,
            !repo_has_manifest ==> r == Err::<(), ConfigError>(ConfigError::MissingManifest),
            repo_has_manifest && !file_exists ==> r == Err::<(), ConfigError>(ConfigError::MissingFile),
    {
        if !repo_has_manifest {
            Err(ConfigError::MissingManifest)
        } else if !file_exists {
            Err(ConfigError::MissingFile)
        } else {
            Ok(())
        }
    }
}

} // verus!
