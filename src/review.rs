use vstd::prelude::*;
use vstd::string::*;

verus! {

/// The tag of a review: the candidate may go on to the build, or it must be redone.
#[derive(Clone, Copy, Debug, PartialEq, Eq, Structural)]
pub enum Verdict {
    Accept,
    Revise,
}

impl Verdict {
    /// Reads a reported tag. Only `accept` approves; any other tag asks for a revision.
    pub fn from_tag(tag: &str) -> (r: Verdict)
        ensures
            r == Verdict::Accept <==> tag@ == "accept"@,
    {
        let t = String::from_str(tag);
        let accept = String::from_str("accept");
        if t == accept {
            Verdict::Accept
        } else {
            Verdict::Revise
        }
    }

    pub fn tag(&self) -> (r: &'static str)
        ensures
            r@ == (if *self == Verdict::Accept { "accept"@ } else { "revise"@ }),
    {
        match self {
            Verdict::Accept => "accept",
            Verdict::Revise => "revise",
        }
    }
}

/// The outcome of a review: its tag, the reasons given, guidance for a revision, and a
/// checklist kept as the JSON text the reviewing agent wrote.
pub struct ReviewVerdict {
    pub verdict: Verdict,
    pub reasons: Option<Vec<String>>,
    pub patch_guidance: Option<String>,
    pub checklist: Option<String>,
}

/// The reason recorded when the heuristic overrides an approval.
pub open spec fn override_reason() -> Seq<char> {
    "Local heuristic failed to verify refactor"@
}

/// The reason recorded when the reviewing agent's answer could not be read.
pub open spec fn fallback_reason() -> Seq<char> {
    "LLM JSON parse fallback"@
}

/// The texts of a list of reasons; no list counts as an empty one.
pub open spec fn reason_texts(reasons: Option<Vec<String>>) -> Seq<Seq<char>> {
    match reasons {
        Some(rs) => rs@.map_values(|t: String| t@),
        None => Seq::empty(),
    }
}

/// The tag that stands after the heuristic's judgment is taken into account: an
/// approval stands only where the heuristic agrees; the heuristic never approves on
/// its own. An unreadable review counts as an approval left to the heuristic.
pub open spec fn final_verdict(reported: Option<Verdict>, verified: bool) -> Verdict {
    if verified {
        match reported {
            Some(v) => v,
            None => Verdict::Accept,
        }
    } else {
        Verdict::Revise
    }
}

/// Combines the reviewing agent's answer (`None` where it could not be read) with the
/// heuristic verifier's independent judgment `verified`.
pub fn finalize_verdict(reported: Option<ReviewVerdict>, verified: bool) -> (r: ReviewVerdict)
    ensures
        r.verdict == final_verdict(
            match reported {
                Some(v) => Some(v.verdict),
                None => None,
            },
            verified,
        ),
        r.verdict == Verdict::Accept ==> verified,
        match reported {
            None => r.reasons is Some && reason_texts(r.reasons) == seq![fallback_reason()]
                && r.patch_guidance is None && r.checklist is None,
            Some(v) => r.patch_guidance == v.patch_guidance && r.checklist == v.checklist && if !verified
                && v.verdict == Verdict::Accept {
                r.reasons is Some && reason_texts(r.reasons) == reason_texts(v.reasons).push(
                    override_reason(),
                )
            } else {
                r.reasons == v.reasons
            },
        },
{
    match reported {
        None => {
            let mut reasons: Vec<String> = Vec::new();
            reasons.push(String::from_str("LLM JSON parse fallback"));
            assert(reasons@.map_values(|t: String| t@) =~= seq![fallback_reason()]);
            ReviewVerdict {
                verdict: if verified {
                    Verdict::Accept
                } else {
                    Verdict::Revise
                },
                reasons: Some(reasons),
                patch_guidance: None,
                checklist: None,
            }
        },
        Some(v) => {
            if !verified && v.verdict == Verdict::Accept {
                let mut reasons: Vec<String> = match v.reasons {
                    Some(rs) => rs,
                    None => Vec::new(),
                };
                let ghost before = reasons@;
                reasons.push(String::from_str("Local heuristic failed to verify refactor"));
                assert(reasons@.map_values(|t: String| t@) =~= before.map_values(|t: String| t@).push(
                    override_reason(),
                ));
                ReviewVerdict {
                    verdict: Verdict::Revise,
                    reasons: Some(reasons),
                    patch_guidance: v.patch_guidance,
                    checklist: v.checklist,
                }
            } else {
                v
            }
        },
    }
}

} // verus!
