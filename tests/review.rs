use mantra::review::{finalize_verdict, ReviewVerdict, Verdict};

fn v(tag: Verdict, reasons: Option<Vec<&str>>) -> ReviewVerdict {
    ReviewVerdict {
        verdict: tag,
        reasons: reasons.map(|r| r.into_iter().map(String::from).collect()),
        patch_guidance: Some("split it".to_string()),
        checklist: Some("{\"fmt_clean\":true}".to_string()),
    }
}

#[test]
fn accept_kept_when_heuristic_agrees() {
    let r = finalize_verdict(Some(v(Verdict::Accept, Some(vec!["ok"]))), true);
    assert_eq!(r.verdict, Verdict::Accept);
    assert_eq!(r.reasons, Some(vec!["ok".to_string()]));
    assert_eq!(r.patch_guidance, Some("split it".to_string()));
}

#[test]
fn accept_overridden_when_heuristic_disagrees() {
    let r = finalize_verdict(Some(v(Verdict::Accept, Some(vec!["ok"]))), false);
    assert_eq!(r.verdict, Verdict::Revise);
    assert_eq!(
        r.reasons,
        Some(vec!["ok".to_string(), "Local heuristic failed to verify refactor".to_string()])
    );
    assert_eq!(r.checklist, Some("{\"fmt_clean\":true}".to_string()));
    let r = finalize_verdict(Some(v(Verdict::Accept, None)), false);
    assert_eq!(r.reasons, Some(vec!["Local heuristic failed to verify refactor".to_string()]));
}

#[test]
fn revise_stays_revise() {
    let r = finalize_verdict(Some(v(Verdict::Revise, None)), true);
    assert_eq!(r.verdict, Verdict::Revise);
    assert_eq!(r.reasons, None);
    let r = finalize_verdict(Some(v(Verdict::Revise, None)), false);
    assert_eq!(r.verdict, Verdict::Revise);
    assert_eq!(r.reasons, None);
}

#[test]
fn unreadable_review_falls_back_to_heuristic() {
    let r = finalize_verdict(None, true);
    assert_eq!(r.verdict, Verdict::Accept);
    assert_eq!(r.reasons, Some(vec!["LLM JSON parse fallback".to_string()]));
    assert_eq!(r.patch_guidance, None);
    let r = finalize_verdict(None, false);
    assert_eq!(r.verdict, Verdict::Revise);
}

#[test]
fn tags() {
    assert_eq!(Verdict::from_tag("accept"), Verdict::Accept);
    assert_eq!(Verdict::from_tag("revise"), Verdict::Revise);
    assert_eq!(Verdict::from_tag("Accept"), Verdict::Revise);
    assert_eq!(Verdict::from_tag(""), Verdict::Revise);
    assert_eq!(Verdict::Accept.tag(), "accept");
    assert_eq!(Verdict::Revise.tag(), "revise");
}
