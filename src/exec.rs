use vstd::prelude::*;
use vstd::string::*;

verus! {

/// What an external program left behind: its exit status and its captured output.
/// A status that could not be obtained is reported as `-1`.
pub struct CmdOutput {
    pub status: i32,
    pub stdout: String,
    pub stderr: String,
}

/// The text a stage of the build/test gate contributes to the logs: its standard
/// output, a newline, its standard error.
pub open spec fn stage_text(out: CmdOutput) -> Seq<char> {
    out.stdout@ + "\n"@ + out.stderr@
}

/// The structure snapshot built from the output of the static-analysis tool.
pub open spec fn analysis_text(out: CmdOutput) -> Seq<char> {
    "STDOUT:\n"@ + out.stdout@ + "\nSTDERR:\n"@ + out.stderr@
}

impl CmdOutput {
    /// Whether the program exited with status zero.
    pub fn succeeded(&self) -> (r: bool)
        ensures
            r == (self.status == 0),
    {
        self.status == 0
    }

    pub fn log_text(&self) -> (r: String)
        ensures
            r@ == stage_text(*self),
    {
        let mut r = self.stdout.clone();
        r.append("\n");
        r.append(self.stderr.as_str());
        r
    }

    /// A stage of the build/test gate: whether it passed, and the text it adds to the logs.
    pub fn outcome(&self) -> (r: (bool, String))
        ensures
            r.0 == (self.status == 0),
            r.1@ == stage_text(*self),
    {
        (self.succeeded(), self.log_text())
    }

    pub fn analysis_text(&self) -> (r: String)
        ensures
            r@ == analysis_text(*self),
    {
        let mut r = String::from_str("STDOUT:\n");
        r.append(self.stdout.as_str());
        r.append("\nSTDERR:\n");
        r.append(self.stderr.as_str());
        r
    }
}

} // verus!
