use crate::config::RefactorKind;
use vstd::prelude::*;
use vstd::string::*;

verus! {

/// A function definition as the heuristic recognises it: the keyword `fn`, a name,
/// and an opening parameter list.
pub const FN_DEF_PATTERN: &'static str = "(?m)\\bfn\\s+\\w+\\s*\\(";

/// How many characters a moved method must take out of the file, beyond which the
/// candidate counts as having shed logic.
pub const MOVE_MARGIN: usize = 20;

/// The number of non-overlapping matches of the regular expression `pattern` in `text`,
/// found from left to right; zero where `pattern` is not a valid expression.
pub uninterp spec fn match_count(pattern: Seq<char>, text: Seq<char>) -> nat;

/// Relies on regex::Regex::new, which compiles `pattern` or reports it invalid, and on
/// Regex::find_iter, the leftmost-first non-overlapping matches, which are counted.
#[verifier::external_body]
fn count_matches(pattern: &str, text: &str) -> (r: usize)
    ensures
        r as nat == match_count(pattern@, text@),
{
    match regex::Regex::new(pattern) {
        Ok(re) => re.find_iter(text).count(),
        Err(_) => 0,
    }
}

/// The number of function definitions in `text`.
pub open spec fn fn_def_count(text: Seq<char>) -> nat {
    match_count(FN_DEF_PATTERN@, text)
}

/// The judgment on a refactoring, given the function-definition counts of both texts.
pub open spec fn judgment(
    kind: RefactorKind,
    original: Seq<char>,
    candidate: Seq<char>,
    original_fns: nat,
    candidate_fns: nat,
) -> bool {
    match kind {
        RefactorKind::ExtractMethod => candidate_fns > original_fns,
        RefactorKind::InlineMethod => candidate_fns < original_fns,
        RefactorKind::MoveMethod => candidate.len() + MOVE_MARGIN < original.len(),
        RefactorKind::RenameMethod => original != candidate,
    }
}

/// Whether the heuristic accepts `candidate` as the refactoring `kind` of `original`.
pub open spec fn refactor_verified(kind: RefactorKind, original: Seq<char>, candidate: Seq<char>) -> bool {
    judgment(kind, original, candidate, fn_def_count(original), fn_def_count(candidate))
}

/// Counts the function definitions in `text`.
pub fn count_fn_defs(text: &str) -> (r: usize)
    ensures
        r as nat == fn_def_count(text@),
{
    count_matches(FN_DEF_PATTERN, text)
}

/// Judges a refactoring from the two texts and their function-definition counts.
pub fn judge_refactor(
    kind: RefactorKind,
    original: &str,
    candidate: &str,
    original_fns: usize,
    candidate_fns: usize,
) -> (r: bool)
    ensures
        r == judgment(kind, original@, candidate@, original_fns as nat, candidate_fns as nat),
{
    match kind {
        RefactorKind::ExtractMethod => candidate_fns > original_fns,
        RefactorKind::InlineMethod => candidate_fns < original_fns,
        RefactorKind::MoveMethod => {
            let original_len = original.unicode_len();
            let candidate_len = candidate.unicode_len();
            candidate_len < original_len && original_len - candidate_len > MOVE_MARGIN
        },
        RefactorKind::RenameMethod => {
            let a = String::from_str(original);
            let b = String::from_str(candidate);
            !(a == b)
        },
    }
}

/// The heuristic verifier: a cheap textual check that the requested refactoring shows
/// in the candidate at all. Extracting must add function definitions, inlining must
/// remove some, moving must shrink the file by more than the margin, and renaming must
/// change the text.
pub fn verify_refactor_heuristic(kind: RefactorKind, original: &str, candidate: &str) -> (r: bool)
    ensures
        r == refactor_verified(kind, original@, candidate@),
{
    let original_fns = count_fn_defs(original);
    let candidate_fns = count_fn_defs(candidate);
    judge_refactor(kind, original, candidate, original_fns, candidate_fns)
}

} // verus!
