use crate::config::RefactorKind;
use crate::text::{after, find_first, find_str, opt_text, trim, trimmed};
use vstd::prelude::*;
use vstd::string::*;

verus! {

/// The opening of the code block that the agents are asked to answer with.
pub const RUST_FENCE: &'static str = "`rust";

/// The character that closes the code block.
pub const BLOCK_END: &'static str = "`";

/// The opening of a JSON block in the reviewing agent's answer.
pub const JSON_FENCE: &'static str = "```json";

/// The closing of a fenced block.
pub const FENCE: &'static str = "```";

/// The file an agent answered with: what follows the first Rust fence, up to the next
/// backtick, without surrounding white space; nothing where either is missing.
pub open spec fn rust_block(s: Seq<char>) -> Option<Seq<char>> {
    match find_first(s, RUST_FENCE@) {
        None => None,
        Some(i) => {
            let rest = s.subrange(i + RUST_FENCE@.len(), s.len() as int);
            match find_first(rest, BLOCK_END@) {
                None => None,
                Some(j) => Some(trimmed(rest.subrange(0, j))),
            }
        },
    }
}

/// The JSON text of a review: what follows the first JSON fence, up to the next fence
/// or the end; the whole answer where there is no JSON fence. Trimmed either way.
pub open spec fn json_text(s: Seq<char>) -> Seq<char> {
    match find_first(s, JSON_FENCE@) {
        None => trimmed(s),
        Some(i) => {
            let rest = s.subrange(i + JSON_FENCE@.len(), s.len() as int);
            match find_first(rest, FENCE@) {
                None => trimmed(rest),
                Some(j) => trimmed(rest.subrange(0, j)),
            }
        },
    }
}

/// Pulls the Rust code block out of an agent's answer.
pub fn extract_rust_block(s: &str) -> (r: Option<String>)
    ensures
        opt_text(r) == rust_block(s@),
{
    match find_str(s, RUST_FENCE) {
        None => None,
        Some(start) => {
            let rest = after(s, RUST_FENCE, start);
            match find_str(rest, BLOCK_END) {
                None => None,
                Some(end) => {
                    let block = rest.substring_char(0, end);
                    Some(trim(block))
                },
            }
        },
    }
}

/// Pulls the JSON text out of the reviewing agent's answer.
pub fn extract_json_text(s: &str) -> (r: String)
    ensures
        r@ == json_text(s@),
{
    match find_str(s, JSON_FENCE) {
        None => trim(s),
        Some(start) => {
            let rest = after(s, JSON_FENCE, start);
            match find_str(rest, FENCE) {
                None => trim(rest),
                Some(end) => trim(rest.substring_char(0, end)),
            }
        },
    }
}

/// The items joined into one text, with `sep` between each two.
pub open spec fn joined(items: Seq<Seq<char>>, sep: Seq<char>) -> Seq<char>
    decreases items.len(),
{
    if items.len() == 0 {
        Seq::empty()
    } else if items.len() == 1 {
        items[0]
    } else {
        joined(items.drop_last(), sep) + sep + items.last()
    }
}

/// The texts of a list of strings.
pub open spec fn texts(v: Seq<String>) -> Seq<Seq<char>> {
    v.map_values(|t: String| t@)
}

/// The few-shot part of a generation request: nothing without examples, else a
/// heading and the examples, separated by rules.
pub open spec fn few_shot_blob(examples: Seq<Seq<char>>) -> Seq<char> {
    if examples.len() == 0 {
        Seq::empty()
    } else {
        "\n\n### Few-shot examples:\n"@ + joined(examples, "\n\n---\n"@)
    }
}

/// The request sent to the proposing agent.
pub open spec fn developer_text(
    path: Seq<char>,
    code: Seq<char>,
    analysis: Seq<char>,
    examples: Seq<Seq<char>>,
    request: Seq<char>,
) -> Seq<char> {
    "### Context\n\n* Target file path: "@ + path + "\n* Static analysis (excerpt):\n  "@ + analysis
        + "\n\n### Code to refactor\n\n```rust\n"@ + code + "\n```\n\n### Refactoring Request\n\n"@
        + request + "\n\n"@ + few_shot_blob(examples) + "\n"@
}

/// The request sent to the repairing agent.
pub open spec fn repair_text(path: Seq<char>, code: Seq<char>, logs: Seq<char>) -> Seq<char> {
    "File path: "@ + path + "\n\nCurrent file content:\n\n```rust\n"@ + code
        + "\n```\n\nCompiler/Test errors:\n\n````\n"@ + logs + "\n```"@
}

/// How a flag is written in a request.
pub open spec fn flag_text(b: bool) -> Seq<char> {
    if b {
        "true"@
    } else {
        "false"@
    }
}

/// The request sent to the reviewing agent; missing logs are written `<none>`.
pub open spec fn review_text(
    kind: RefactorKind,
    original: Seq<char>,
    candidate: Seq<char>,
    analysis: Seq<char>,
    fmt_clean: bool,
    clippy_clean: bool,
    logs: Option<Seq<char>>,
) -> Seq<char> {
    "### Inputs\nOriginal:\n\n```rust\n"@ + original + "\n```\n\nCandidate:\n\n```rust\n"@ + candidate
        + "\n```\n\nStatic analysis (excerpt):\n"@ + analysis + "\n\nfmt_clean="@ + flag_text(fmt_clean)
        + "  clippy_clean="@ + flag_text(clippy_clean) + "\n\nCompiler/test logs (optional):\n"@ + (
    match logs {
        Some(l) => l,
        None => "<none>"@,
    }) + "\n\nRefactor kind: "@ + kind.spec_name() + "\n"@
}

/// Joins the items with `sep` between each two.
pub fn join(items: &Vec<String>, sep: &str) -> (r: String)
    ensures
        r@ == joined(texts(items@), sep@),
{
    let mut r = String::new();
    let mut i: usize = 0;
    while i < items.len()
        invariant
            i <= items@.len(),
            r@ == joined(texts(items@.take(i as int)), sep@),
        decreases items@.len() - i,
    {
        proof {
            let next = texts(items@.take(i + 1));
            assert(next.drop_last() =~= texts(items@.take(i as int)));
            assert(next.last() == items@[i as int]@);
            if i == 0 {
                assert(r@ + items@[0]@ =~= items@[0]@);
            }
        }
        if i > 0 {
            r.append(sep);
        }
        r.append(items[i].as_str());
        i = i + 1;
    }
    assert(items@.take(items@.len() as int) =~= items@);
    r
}

/// Builds the request for the proposing agent from the target's path and text, the
/// structure snapshot, the few-shot examples and the instruction.
pub fn developer_request(
    path: &str,
    code: &str,
    analysis: &str,
    examples: &Vec<String>,
    request: &str,
) -> (r: String)
    ensures
        r@ == developer_text(path@, code@, analysis@, texts(examples@), request@),
{
    let mut r = String::from_str("### Context\n\n* Target file path: ");
    r.append(path);
    r.append("\n* Static analysis (excerpt):\n  ");
    r.append(analysis);
    r.append("\n\n### Code to refactor\n\n```rust\n");
    r.append(code);
    r.append("\n```\n\n### Refactoring Request\n\n");
    r.append(request);
    r.append("\n\n");
    if examples.len() > 0 {
        r.append("\n\n### Few-shot examples:\n");
        let blob = join(examples, "\n\n---\n");
        r.append(blob.as_str());
    }
    r.append("\n");
    r
}

/// Builds the request for the repairing agent from the target's path, the broken
/// candidate and the failure logs.
pub fn repair_request(path: &str, code: &str, logs: &str) -> (r: String)
    ensures
        r@ == repair_text(path@, code@, logs@),
{
    let mut r = String::from_str("File path: ");
    r.append(path);
    r.append("\n\nCurrent file content:\n\n```rust\n");
    r.append(code);
    r.append("\n```\n\nCompiler/Test errors:\n\n````\n");
    r.append(logs);
    r.append("\n```");
    r
}

fn flag(b: bool) -> (r: &'static str)
    ensures
        r@ == flag_text(b),
{
    if b {
        "true"
    } else {
        "false"
    }
}

/// Builds the request for the reviewing agent.
pub fn review_request(
    kind: RefactorKind,
    original: &str,
    candidate: &str,
    analysis: &str,
    fmt_clean: bool,
    clippy_clean: bool,
    logs: Option<&str>,
) -> (r: String)
    ensures
        r@ == review_text(
            kind,
            original@,
            candidate@,
            analysis@,
            fmt_clean,
            clippy_clean,
            match logs {
                Some(l) => Some(l@),
                None => None,
            },
        ),
{
    let mut r = String::from_str("### Inputs\nOriginal:\n\n```rust\n");
    r.append(original);
    r.append("\n```\n\nCandidate:\n\n```rust\n");
    r.append(candidate);
    r.append("\n```\n\nStatic analysis (excerpt):\n");
    r.append(analysis);
    r.append("\n\nfmt_clean=");
    r.append(flag(fmt_clean));
    r.append("  clippy_clean=");
    r.append(flag(clippy_clean));
    r.append("\n\nCompiler/test logs (optional):\n");
    match logs {
        Some(l) => r.append(l),
        None => r.append("<none>"),
    }
    r.append("\n\nRefactor kind: ");
    r.append(kind.name());
    r.append("\n");
    r
}

} // verus!
