//! Self-contained Ponytail minimality validator for code action packets.
//!
//! Pure: no I/O, no graph access, no packet wiring. It validates the
//! minimality metadata shape that a code action packet can carry.

use vstd::prelude::*;

use crate::text::{blank_text, is_blank, string_views};

verus! {

/// Minimality enforcement mode.
#[derive(Debug, Clone, PartialEq, Eq)]
pub enum MinimalityPolicy {
    Off,
    Advisory,
    Enforced,
    /// Reserved for a stricter future policy. Today it is equivalent to
    /// [`MinimalityPolicy::Enforced`].
    Strict,
}

/// Ponytail ladder answers for a code action.
#[derive(Debug, Clone, PartialEq, Eq)]
pub struct MinimalityCheck {
    pub need_exists: bool,
    pub deletion_possible: bool,
    pub stdlib_candidate: Option<String>,
    pub native_candidate: Option<String>,
    pub installed_dependency_candidate: Option<String>,
    pub new_dependency_required: bool,
    pub new_dependency_reason: Option<String>,
    pub one_line_possible: bool,
    pub chosen_smallest_working_approach: String,
}

/// Requirements that minimality must not cut. `true` means the requirement
/// is addressed or not affected.
#[derive(Debug, Clone, PartialEq, Eq)]
pub struct ProtectedRequirements {
    pub validation: bool,
    pub data_loss_handling: bool,
    pub security: bool,
    pub accessibility: bool,
    pub explicit_user_requirements: bool,
}

/// Deliberate shortcut marker with a known ceiling and optional upgrade
/// trigger.
#[derive(Debug, Clone, PartialEq, Eq)]
pub struct DebtMarker {
    pub id: String,
    pub ceiling: String,
    pub upgrade_trigger: Option<String>,
}

/// Smallest runnable check considered sufficient for this action.
#[derive(Debug, Clone, PartialEq, Eq)]
pub struct EvidenceCheck {
    pub required_check: String,
    pub why_sufficient: String,
}

/// Dependency decision attached to a new dependency.
#[derive(Debug, Clone, PartialEq, Eq)]
pub struct DependencyJustification {
    pub dependency: String,
    pub reason: String,
}

/// Minimality metadata carried by a code action packet.
#[derive(Debug, Clone, PartialEq, Eq)]
pub struct CodeActionMinimality {
    pub policy: MinimalityPolicy,
    pub is_nontrivial: bool,
    pub check: Option<MinimalityCheck>,
    pub protected: Option<ProtectedRequirements>,
    pub dependency_justifications: Vec<DependencyJustification>,
    pub debt_markers: Vec<DebtMarker>,
    pub evidence: Option<EvidenceCheck>,
}

/// Result returned by [`check_minimality`].
#[derive(Debug, Clone, PartialEq, Eq)]
pub enum MinimalityVerdict {
    Passed,
    /// Advisory or soft-policy findings: stable W/M codes in canonical order.
    Warning { notes: Vec<String> },
    /// Hard policy failures: stable M-codes in canonical order.
    Blocked { failed: Vec<String> },
}

/// M2: enforced code packets must carry a minimality check.
pub const M2_NO_MINIMALITY_CHECK: &'static str = "M2_no_minimality_check";

/// M3: a new dependency needs both a local reason and a dependency decision.
pub const M3_NEW_DEP_UNJUSTIFIED: &'static str = "M3_new_dep_unjustified";

/// M4: validation, data-loss handling, security, accessibility, and explicit
/// user requirements are protected from minimality cuts.
pub const M4_PROTECTED_REQUIREMENT_CUT: &'static str = "M4_protected_requirement_cut";

/// M5: non-trivial logic needs one runnable evidence check.
pub const M5_NONTRIVIAL_NO_EVIDENCE: &'static str = "M5_nontrivial_no_evidence";

/// M6: a debt marker needs a ceiling that states where the shortcut stops.
pub const M6_DEBT_MARKER_NO_CEILING: &'static str = "M6_debt_marker_no_ceiling";

/// W1: a debt marker without an upgrade trigger is trackable but incomplete.
pub const W1_DEBT_MARKER_NO_UPGRADE_TRIGGER: &'static str = "W1_debt_marker_no_upgrade_trigger";

/// W2: ladder rung 1 was not established; the work may not need to exist.
pub const W2_NEED_NOT_ESTABLISHED: &'static str = "W2_need_not_established";

/// An absent or blank optional text.
pub open spec fn blank_option(value: Option<String>) -> bool {
    match value {
        Some(v) => blank_text(v@),
        None => true,
    }
}

/// A justification that names both the dependency and the reason.
pub open spec fn justification_filled(j: DependencyJustification) -> bool {
    !blank_text(j.dependency@) && !blank_text(j.reason@)
}

/// Some justification names both a dependency and a reason.
pub open spec fn has_justification(js: Seq<DependencyJustification>) -> bool {
    exists|i: int| 0 <= i < js.len() && justification_filled(#[trigger] js[i])
}

/// M2: no minimality check was carried.
pub open spec fn fails_m2(input: CodeActionMinimality) -> bool {
    input.check is None
}

/// M3: a new dependency is required without a local reason or without a
/// filled dependency justification.
pub open spec fn fails_m3(input: CodeActionMinimality) -> bool {
    match input.check {
        Some(check) => check.new_dependency_required && (blank_option(
            check.new_dependency_reason,
        ) || !has_justification(input.dependency_justifications@)),
        None => false,
    }
}

/// All protected requirements are addressed.
pub open spec fn all_protected(p: ProtectedRequirements) -> bool {
    p.validation && p.data_loss_handling && p.security && p.accessibility
        && p.explicit_user_requirements
}

/// M4: the protected requirements are absent or one of them was cut.
pub open spec fn fails_m4(input: CodeActionMinimality) -> bool {
    match input.protected {
        Some(p) => !all_protected(p),
        None => true,
    }
}

/// M5: non-trivial work without a non-blank evidence check.
pub open spec fn fails_m5(input: CodeActionMinimality) -> bool {
    input.is_nontrivial && match input.evidence {
        Some(e) => blank_text(e.required_check@),
        None => true,
    }
}

/// M6: some debt marker has a blank ceiling.
pub open spec fn fails_m6(input: CodeActionMinimality) -> bool {
    exists|i: int|
        0 <= i < input.debt_markers@.len() && blank_text(#[trigger] input.debt_markers@[i].ceiling@)
}

/// W1: some debt marker has no (or a blank) upgrade trigger.
pub open spec fn warns_w1(input: CodeActionMinimality) -> bool {
    exists|i: int|
        0 <= i < input.debt_markers@.len() && blank_option(
            #[trigger] input.debt_markers@[i].upgrade_trigger,
        )
}

/// W2: a check was carried but the need for the work was not established.
pub open spec fn warns_w2(input: CodeActionMinimality) -> bool {
    match input.check {
        Some(check) => !check.need_exists,
        None => false,
    }
}

/// `seq![code]` when `cond` holds, otherwise nothing.
pub open spec fn code_if(cond: bool, code: Seq<char>) -> Seq<Seq<char>> {
    if cond {
        seq![code]
    } else {
        Seq::empty()
    }
}

/// The hard M-codes that `input` fails, in canonical order.
pub open spec fn hard_codes(input: CodeActionMinimality) -> Seq<Seq<char>> {
    code_if(fails_m2(input), M2_NO_MINIMALITY_CHECK@) + code_if(
        fails_m3(input),
        M3_NEW_DEP_UNJUSTIFIED@,
    ) + code_if(fails_m4(input), M4_PROTECTED_REQUIREMENT_CUT@) + code_if(
        fails_m5(input),
        M5_NONTRIVIAL_NO_EVIDENCE@,
    ) + code_if(fails_m6(input), M6_DEBT_MARKER_NO_CEILING@)
}

/// The soft W-codes that `input` raises, in canonical order.
pub open spec fn soft_codes(input: CodeActionMinimality) -> Seq<Seq<char>> {
    code_if(warns_w1(input), W1_DEBT_MARKER_NO_UPGRADE_TRIGGER@) + code_if(
        warns_w2(input),
        W2_NEED_NOT_ESTABLISHED@,
    )
}

/// Every finding, hard codes first, then soft codes.
pub open spec fn all_codes(input: CodeActionMinimality) -> Seq<Seq<char>> {
    hard_codes(input) + soft_codes(input)
}

/// `v` is `Passed` when `codes` is empty and otherwise a warning listing
/// exactly `codes`.
pub open spec fn warns_with(v: MinimalityVerdict, codes: Seq<Seq<char>>) -> bool {
    if codes.len() == 0 {
        v is Passed
    } else {
        v matches MinimalityVerdict::Warning { notes } && string_views(notes@) == codes
    }
}

/// The verdict of an enforcing policy: blocked on hard codes, otherwise a
/// warning on soft codes, otherwise passed.
pub open spec fn enforced_verdict_is(input: CodeActionMinimality, v: MinimalityVerdict) -> bool {
    if hard_codes(input).len() > 0 {
        v matches MinimalityVerdict::Blocked { failed } && string_views(failed@) == hard_codes(
            input,
        )
    } else {
        warns_with(v, soft_codes(input))
    }
}

/// `v` is the verdict that `input` deserves under its own policy.
pub open spec fn verdict_is(input: CodeActionMinimality, v: MinimalityVerdict) -> bool {
    match input.policy {
        MinimalityPolicy::Off => v is Passed,
        MinimalityPolicy::Advisory => warns_with(v, all_codes(input)),
        MinimalityPolicy::Enforced => enforced_verdict_is(input, v),
        MinimalityPolicy::Strict => enforced_verdict_is(input, v),
    }
}

/// `a` and `b` carry the same metadata, whatever their policies.
pub open spec fn same_metadata(a: CodeActionMinimality, b: CodeActionMinimality) -> bool {
    &&& a.is_nontrivial == b.is_nontrivial
    &&& a.check == b.check
    &&& a.protected == b.protected
    &&& a.dependency_justifications@ == b.dependency_justifications@
    &&& a.debt_markers@ == b.debt_markers@
    &&& a.evidence == b.evidence
}

/// The `Off` policy passes whatever the metadata says.
pub proof fn lemma_off_always_passes(input: CodeActionMinimality, v: MinimalityVerdict)
    requires
        input.policy is Off,
        verdict_is(input, v),
    ensures
        v is Passed,
{
}

/// The `Advisory` policy never blocks.
pub proof fn lemma_advisory_never_blocks(input: CodeActionMinimality, v: MinimalityVerdict)
    requires
        input.policy is Advisory,
        verdict_is(input, v),
    ensures
        !(v is Blocked),
{
}

/// An enforcing policy blocks exactly when some hard M-code fails, and the
/// blocked verdict lists every failed M-code.
pub proof fn lemma_enforced_blocks_iff_hard_failure(
    input: CodeActionMinimality,
    v: MinimalityVerdict,
)
    requires
        input.policy is Enforced || input.policy is Strict,
        verdict_is(input, v),
    ensures
        v is Blocked <==> (fails_m2(input) || fails_m3(input) || fails_m4(input) || fails_m5(
            input,
        ) || fails_m6(input)),
        v matches MinimalityVerdict::Blocked { failed } ==> string_views(failed@) == hard_codes(
            input,
        ),
{
}

/// `Strict` judges exactly as `Enforced` does on the same metadata.
pub proof fn lemma_strict_is_enforced(
    enforced: CodeActionMinimality,
    strict: CodeActionMinimality,
    ve: MinimalityVerdict,
    vs: MinimalityVerdict,
)
    requires
        enforced.policy is Enforced,
        strict.policy is Strict,
        same_metadata(enforced, strict),
        verdict_is(enforced, ve),
        verdict_is(strict, vs),
    ensures
        ve is Passed <==> vs is Passed,
        ve is Warning <==> vs is Warning,
        ve is Blocked <==> vs is Blocked,
        ve matches MinimalityVerdict::Blocked { failed: a } ==> (vs matches MinimalityVerdict::Blocked {
            failed: b,
        } && string_views(a@) == string_views(b@)),
        ve matches MinimalityVerdict::Warning { notes: a } ==> (vs matches MinimalityVerdict::Warning {
            notes: b,
        } && string_views(a@) == string_views(b@)),
{
}

/// The same metadata passes under `Advisory` exactly when it passes under
/// `Enforced`; whatever `Enforced` blocks on, `Advisory` reports first among
/// its warnings.
pub proof fn lemma_advisory_agrees_with_enforced(
    advisory: CodeActionMinimality,
    enforced: CodeActionMinimality,
    va: MinimalityVerdict,
    ve: MinimalityVerdict,
)
    requires
        advisory.policy is Advisory,
        enforced.policy is Enforced,
        same_metadata(advisory, enforced),
        verdict_is(advisory, va),
        verdict_is(enforced, ve),
    ensures
        va is Passed <==> ve is Passed,
        ve matches MinimalityVerdict::Blocked { failed } ==> (va matches MinimalityVerdict::Warning {
            notes,
        } && string_views(notes@).take(failed@.len() as int) == string_views(failed@)),
{
    let h = hard_codes(enforced);
    let s = soft_codes(enforced);
    assert((h + s).take(h.len() as int) =~= h);
}

/// The verdict `v` blocks, and its failed list names `code`.
pub open spec fn blocks_on(v: MinimalityVerdict, code: Seq<char>) -> bool {
    v matches MinimalityVerdict::Blocked { failed } && string_views(failed@).contains(code)
}

/// The verdict `v` warns, and its notes name `code`.
pub open spec fn warns_on(v: MinimalityVerdict, code: Seq<char>) -> bool {
    v matches MinimalityVerdict::Warning { notes } && string_views(notes@).contains(code)
}

proof fn lemma_concat_contains(a: Seq<Seq<char>>, b: Seq<Seq<char>>, x: Seq<char>)
    ensures
        (a + b).contains(x) <==> a.contains(x) || b.contains(x),
{
    if (a + b).contains(x) {
        let k = choose|k: int| 0 <= k < (a + b).len() && (a + b)[k] == x;
        if k < a.len() {
            assert(a[k] == x);
        } else {
            assert(b[k - a.len()] == x);
        }
    }
    if a.contains(x) {
        let k = choose|k: int| 0 <= k < a.len() && a[k] == x;
        assert((a + b)[k] == x);
    }
    if b.contains(x) {
        let k = choose|k: int| 0 <= k < b.len() && b[k] == x;
        assert((a + b)[k + a.len()] == x);
    }
}

proof fn lemma_code_if_contains(cond: bool, code: Seq<char>, x: Seq<char>)
    ensures
        code_if(cond, code).contains(x) <==> cond && x == code,
{
    if cond {
        assert(code_if(cond, code)[0] == code);
    }
}

proof fn lemma_codes_distinct()
    ensures
        M2_NO_MINIMALITY_CHECK@ != M3_NEW_DEP_UNJUSTIFIED@,
        M2_NO_MINIMALITY_CHECK@ != M4_PROTECTED_REQUIREMENT_CUT@,
        M2_NO_MINIMALITY_CHECK@ != M5_NONTRIVIAL_NO_EVIDENCE@,
        M2_NO_MINIMALITY_CHECK@ != M6_DEBT_MARKER_NO_CEILING@,
        M3_NEW_DEP_UNJUSTIFIED@ != M4_PROTECTED_REQUIREMENT_CUT@,
        M3_NEW_DEP_UNJUSTIFIED@ != M5_NONTRIVIAL_NO_EVIDENCE@,
        M3_NEW_DEP_UNJUSTIFIED@ != M6_DEBT_MARKER_NO_CEILING@,
        M4_PROTECTED_REQUIREMENT_CUT@ != M5_NONTRIVIAL_NO_EVIDENCE@,
        M4_PROTECTED_REQUIREMENT_CUT@ != M6_DEBT_MARKER_NO_CEILING@,
        M5_NONTRIVIAL_NO_EVIDENCE@ != M6_DEBT_MARKER_NO_CEILING@,
        W1_DEBT_MARKER_NO_UPGRADE_TRIGGER@ != W2_NEED_NOT_ESTABLISHED@,
        W1_DEBT_MARKER_NO_UPGRADE_TRIGGER@ != M2_NO_MINIMALITY_CHECK@,
        W1_DEBT_MARKER_NO_UPGRADE_TRIGGER@ != M3_NEW_DEP_UNJUSTIFIED@,
        W1_DEBT_MARKER_NO_UPGRADE_TRIGGER@ != M4_PROTECTED_REQUIREMENT_CUT@,
        W1_DEBT_MARKER_NO_UPGRADE_TRIGGER@ != M5_NONTRIVIAL_NO_EVIDENCE@,
        W1_DEBT_MARKER_NO_UPGRADE_TRIGGER@ != M6_DEBT_MARKER_NO_CEILING@,
        W2_NEED_NOT_ESTABLISHED@ != M2_NO_MINIMALITY_CHECK@,
        W2_NEED_NOT_ESTABLISHED@ != M3_NEW_DEP_UNJUSTIFIED@,
        W2_NEED_NOT_ESTABLISHED@ != M4_PROTECTED_REQUIREMENT_CUT@,
        W2_NEED_NOT_ESTABLISHED@ != M5_NONTRIVIAL_NO_EVIDENCE@,
        W2_NEED_NOT_ESTABLISHED@ != M6_DEBT_MARKER_NO_CEILING@,
{
    reveal_strlit("M2_no_minimality_check");
    reveal_strlit("M3_new_dep_unjustified");
    reveal_strlit("M4_protected_requirement_cut");
    reveal_strlit("M5_nontrivial_no_evidence");
    reveal_strlit("M6_debt_marker_no_ceiling");
    reveal_strlit("W1_debt_marker_no_upgrade_trigger");
    reveal_strlit("W2_need_not_established");
    assert(M2_NO_MINIMALITY_CHECK@[1] != M3_NEW_DEP_UNJUSTIFIED@[1]);
    assert(M5_NONTRIVIAL_NO_EVIDENCE@[1] != M6_DEBT_MARKER_NO_CEILING@[1]);
    assert(W2_NEED_NOT_ESTABLISHED@[0] != M2_NO_MINIMALITY_CHECK@[0]);
    assert(W2_NEED_NOT_ESTABLISHED@[0] != M3_NEW_DEP_UNJUSTIFIED@[0]);
    assert(W1_DEBT_MARKER_NO_UPGRADE_TRIGGER@[1] != W2_NEED_NOT_ESTABLISHED@[1]);
    assert(W1_DEBT_MARKER_NO_UPGRADE_TRIGGER@[0] != M4_PROTECTED_REQUIREMENT_CUT@[0]);
    assert(W1_DEBT_MARKER_NO_UPGRADE_TRIGGER@[0] != M2_NO_MINIMALITY_CHECK@[0]);
    assert(W1_DEBT_MARKER_NO_UPGRADE_TRIGGER@[0] != M3_NEW_DEP_UNJUSTIFIED@[0]);
    assert(W1_DEBT_MARKER_NO_UPGRADE_TRIGGER@[0] != M5_NONTRIVIAL_NO_EVIDENCE@[0]);
    assert(W1_DEBT_MARKER_NO_UPGRADE_TRIGGER@[0] != M6_DEBT_MARKER_NO_CEILING@[0]);
    assert(W2_NEED_NOT_ESTABLISHED@[0] != M4_PROTECTED_REQUIREMENT_CUT@[0]);
    assert(W2_NEED_NOT_ESTABLISHED@[0] != M5_NONTRIVIAL_NO_EVIDENCE@[0]);
    assert(W2_NEED_NOT_ESTABLISHED@[0] != M6_DEBT_MARKER_NO_CEILING@[0]);
}

/// Where each finding code stands among the hard and soft codes of `input`,
/// in terms of the metadata itself.
proof fn lemma_codes_explained(input: CodeActionMinimality)
    ensures
        hard_codes(input).contains(M2_NO_MINIMALITY_CHECK@) <==> input.check is None,
        hard_codes(input).contains(M3_NEW_DEP_UNJUSTIFIED@) <==> fails_m3(input),
        hard_codes(input).contains(M4_PROTECTED_REQUIREMENT_CUT@) <==> fails_m4(input),
        hard_codes(input).contains(M5_NONTRIVIAL_NO_EVIDENCE@) <==> fails_m5(input),
        hard_codes(input).contains(M6_DEBT_MARKER_NO_CEILING@) <==> fails_m6(input),
        !hard_codes(input).contains(W1_DEBT_MARKER_NO_UPGRADE_TRIGGER@),
        !hard_codes(input).contains(W2_NEED_NOT_ESTABLISHED@),
        soft_codes(input).contains(W1_DEBT_MARKER_NO_UPGRADE_TRIGGER@) <==> warns_w1(input),
        soft_codes(input).contains(W2_NEED_NOT_ESTABLISHED@) <==> warns_w2(input),
        !soft_codes(input).contains(M2_NO_MINIMALITY_CHECK@),
        !soft_codes(input).contains(M3_NEW_DEP_UNJUSTIFIED@),
        !soft_codes(input).contains(M4_PROTECTED_REQUIREMENT_CUT@),
        !soft_codes(input).contains(M5_NONTRIVIAL_NO_EVIDENCE@),
        !soft_codes(input).contains(M6_DEBT_MARKER_NO_CEILING@),
{
    lemma_codes_distinct();
    lemma_code_positions(input, M2_NO_MINIMALITY_CHECK@);
    lemma_code_positions(input, M3_NEW_DEP_UNJUSTIFIED@);
    lemma_code_positions(input, M4_PROTECTED_REQUIREMENT_CUT@);
    lemma_code_positions(input, M5_NONTRIVIAL_NO_EVIDENCE@);
    lemma_code_positions(input, M6_DEBT_MARKER_NO_CEILING@);
    lemma_code_positions(input, W1_DEBT_MARKER_NO_UPGRADE_TRIGGER@);
    lemma_code_positions(input, W2_NEED_NOT_ESTABLISHED@);
}

proof fn lemma_code_positions(input: CodeActionMinimality, x: Seq<char>)
    ensures
        hard_codes(input).contains(x) <==> ((fails_m2(input) && x == M2_NO_MINIMALITY_CHECK@) || (
        fails_m3(input) && x == M3_NEW_DEP_UNJUSTIFIED@) || (fails_m4(input) && x
            == M4_PROTECTED_REQUIREMENT_CUT@) || (fails_m5(input) && x
            == M5_NONTRIVIAL_NO_EVIDENCE@) || (fails_m6(input) && x == M6_DEBT_MARKER_NO_CEILING@)),
        soft_codes(input).contains(x) <==> ((warns_w1(input) && x
            == W1_DEBT_MARKER_NO_UPGRADE_TRIGGER@) || (warns_w2(input) && x
            == W2_NEED_NOT_ESTABLISHED@)),
{
    let c2 = code_if(fails_m2(input), M2_NO_MINIMALITY_CHECK@);
    let c3 = code_if(fails_m3(input), M3_NEW_DEP_UNJUSTIFIED@);
    let c4 = code_if(fails_m4(input), M4_PROTECTED_REQUIREMENT_CUT@);
    let c5 = code_if(fails_m5(input), M5_NONTRIVIAL_NO_EVIDENCE@);
    let c6 = code_if(fails_m6(input), M6_DEBT_MARKER_NO_CEILING@);
    let w1 = code_if(warns_w1(input), W1_DEBT_MARKER_NO_UPGRADE_TRIGGER@);
    let w2 = code_if(warns_w2(input), W2_NEED_NOT_ESTABLISHED@);
    assert(hard_codes(input) == c2 + c3 + c4 + c5 + c6);
    assert(soft_codes(input) == w1 + w2);
    lemma_concat_contains(c2, c3, x);
    lemma_concat_contains(c2 + c3, c4, x);
    lemma_concat_contains(c2 + c3 + c4, c5, x);
    lemma_concat_contains(c2 + c3 + c4 + c5, c6, x);
    lemma_concat_contains(w1, w2, x);
    lemma_code_if_contains(fails_m2(input), M2_NO_MINIMALITY_CHECK@, x);
    lemma_code_if_contains(fails_m3(input), M3_NEW_DEP_UNJUSTIFIED@, x);
    lemma_code_if_contains(fails_m4(input), M4_PROTECTED_REQUIREMENT_CUT@, x);
    lemma_code_if_contains(fails_m5(input), M5_NONTRIVIAL_NO_EVIDENCE@, x);
    lemma_code_if_contains(fails_m6(input), M6_DEBT_MARKER_NO_CEILING@, x);
    lemma_code_if_contains(warns_w1(input), W1_DEBT_MARKER_NO_UPGRADE_TRIGGER@, x);
    lemma_code_if_contains(warns_w2(input), W2_NEED_NOT_ESTABLISHED@, x);
}

/// Under `Enforced` or `Strict`, each hard M-code is among the blocking
/// codes exactly when its rule fails on the metadata:
///
/// - M2 when no minimality check was carried;
/// - M3 when a new dependency is required while its local reason is absent
///   or blank, or no justification names both a dependency and a reason;
/// - M4 when the protected requirements are absent or any one of
///   validation, data-loss handling, security, accessibility and explicit
///   user requirements is not addressed;
/// - M5 when the work is non-trivial and carries no evidence check, or a
///   blank one;
/// - M6 when some debt marker has a blank ceiling.
///
/// Soft W-codes never block; when nothing blocks, the verdict warns with
/// W1 exactly when some debt marker has no upgrade trigger (or a blank
/// one) and with W2 exactly when a check was carried that does not
/// establish the need for the work, and names no M-code.
pub proof fn lemma_enforced_blocking_codes(input: CodeActionMinimality, v: MinimalityVerdict)
    requires
        input.policy is Enforced || input.policy is Strict,
        verdict_is(input, v),
    ensures
        blocks_on(v, M2_NO_MINIMALITY_CHECK@) <==> input.check is None,
        blocks_on(v, M3_NEW_DEP_UNJUSTIFIED@) <==> (input.check matches Some(c)
            && c.new_dependency_required && ((c.new_dependency_reason matches Some(reason)
            ==> blank_text(reason@)) || forall|j: int|
            0 <= j < input.dependency_justifications@.len() ==> blank_text(
                #[trigger] input.dependency_justifications@[j].dependency@,
            ) || blank_text(input.dependency_justifications@[j].reason@))),
        blocks_on(v, M4_PROTECTED_REQUIREMENT_CUT@) <==> (input.protected matches Some(p) ==> (
        !p.validation || !p.data_loss_handling || !p.security || !p.accessibility
            || !p.explicit_user_requirements)),
        blocks_on(v, M5_NONTRIVIAL_NO_EVIDENCE@) <==> (input.is_nontrivial && (
        input.evidence matches Some(e) ==> blank_text(e.required_check@))),
        blocks_on(v, M6_DEBT_MARKER_NO_CEILING@) <==> exists|i: int|
            0 <= i < input.debt_markers@.len() && blank_text(
                #[trigger] input.debt_markers@[i].ceiling@,
            ),
        !blocks_on(v, W1_DEBT_MARKER_NO_UPGRADE_TRIGGER@),
        !blocks_on(v, W2_NEED_NOT_ESTABLISHED@),
        !(v is Blocked) ==> (warns_on(v, W1_DEBT_MARKER_NO_UPGRADE_TRIGGER@) <==> exists|i: int|
            0 <= i < input.debt_markers@.len() && (
            #[trigger] input.debt_markers@[i].upgrade_trigger matches Some(t) ==> blank_text(t@))),
        !(v is Blocked) ==> (warns_on(v, W2_NEED_NOT_ESTABLISHED@) <==> (
        input.check matches Some(c) && !c.need_exists)),
        !(v is Blocked) ==> !warns_on(v, M4_PROTECTED_REQUIREMENT_CUT@),
{
    lemma_codes_explained(input);
    if soft_codes(input).len() == 0 {
        assert(!soft_codes(input).contains(W1_DEBT_MARKER_NO_UPGRADE_TRIGGER@));
        assert(!soft_codes(input).contains(W2_NEED_NOT_ESTABLISHED@));
    }
    if hard_codes(input).len() == 0 {
        assert(!hard_codes(input).contains(M2_NO_MINIMALITY_CHECK@));
        assert(!hard_codes(input).contains(M3_NEW_DEP_UNJUSTIFIED@));
        assert(!hard_codes(input).contains(M4_PROTECTED_REQUIREMENT_CUT@));
        assert(!hard_codes(input).contains(M5_NONTRIVIAL_NO_EVIDENCE@));
        assert(!hard_codes(input).contains(M6_DEBT_MARKER_NO_CEILING@));
    }
}

/// Under `Advisory` every finding is reported as a warning, each code
/// exactly when its rule fails on the metadata (M2-M6 as under
/// [`lemma_enforced_blocking_codes`]); W1 when some debt marker has no
/// upgrade trigger, or a blank one; W2 when a check was carried that does
/// not establish the need for the work.
pub proof fn lemma_advisory_warning_codes(input: CodeActionMinimality, v: MinimalityVerdict)
    requires
        input.policy is Advisory,
        verdict_is(input, v),
    ensures
        warns_on(v, M2_NO_MINIMALITY_CHECK@) <==> input.check is None,
        warns_on(v, M3_NEW_DEP_UNJUSTIFIED@) <==> (input.check matches Some(c)
            && c.new_dependency_required && ((c.new_dependency_reason matches Some(reason)
            ==> blank_text(reason@)) || forall|j: int|
            0 <= j < input.dependency_justifications@.len() ==> blank_text(
                #[trigger] input.dependency_justifications@[j].dependency@,
            ) || blank_text(input.dependency_justifications@[j].reason@))),
        warns_on(v, M4_PROTECTED_REQUIREMENT_CUT@) <==> (input.protected matches Some(p) ==> (
        !p.validation || !p.data_loss_handling || !p.security || !p.accessibility
            || !p.explicit_user_requirements)),
        warns_on(v, M5_NONTRIVIAL_NO_EVIDENCE@) <==> (input.is_nontrivial && (
        input.evidence matches Some(e) ==> blank_text(e.required_check@))),
        warns_on(v, M6_DEBT_MARKER_NO_CEILING@) <==> exists|i: int|
            0 <= i < input.debt_markers@.len() && blank_text(
                #[trigger] input.debt_markers@[i].ceiling@,
            ),
        warns_on(v, W1_DEBT_MARKER_NO_UPGRADE_TRIGGER@) <==> exists|i: int|
            0 <= i < input.debt_markers@.len() && (
            #[trigger] input.debt_markers@[i].upgrade_trigger matches Some(t) ==> blank_text(t@)),
        warns_on(v, W2_NEED_NOT_ESTABLISHED@) <==> (input.check matches Some(c)
            && !c.need_exists),
{
    lemma_codes_explained(input);
    let h = hard_codes(input);
    let s = soft_codes(input);
    lemma_concat_contains(h, s, M2_NO_MINIMALITY_CHECK@);
    lemma_concat_contains(h, s, M3_NEW_DEP_UNJUSTIFIED@);
    lemma_concat_contains(h, s, M4_PROTECTED_REQUIREMENT_CUT@);
    lemma_concat_contains(h, s, M5_NONTRIVIAL_NO_EVIDENCE@);
    lemma_concat_contains(h, s, M6_DEBT_MARKER_NO_CEILING@);
    lemma_concat_contains(h, s, W1_DEBT_MARKER_NO_UPGRADE_TRIGGER@);
    lemma_concat_contains(h, s, W2_NEED_NOT_ESTABLISHED@);
    if all_codes(input).len() == 0 {
        assert(!all_codes(input).contains(M2_NO_MINIMALITY_CHECK@));
        assert(!all_codes(input).contains(M3_NEW_DEP_UNJUSTIFIED@));
        assert(!all_codes(input).contains(M4_PROTECTED_REQUIREMENT_CUT@));
        assert(!all_codes(input).contains(M5_NONTRIVIAL_NO_EVIDENCE@));
        assert(!all_codes(input).contains(M6_DEBT_MARKER_NO_CEILING@));
        assert(!all_codes(input).contains(W1_DEBT_MARKER_NO_UPGRADE_TRIGGER@));
        assert(!all_codes(input).contains(W2_NEED_NOT_ESTABLISHED@));
    }
}

fn code(c: &str) -> (r: Vec<String>)
    ensures
        string_views(r@) == seq![c@],
{
    let mut r: Vec<String> = Vec::new();
    r.push(String::from_str(c));
    assert(string_views(r@) =~= seq![c@]);
    r
}

fn append_codes(v: &mut Vec<String>, more: Vec<String>)
    ensures
        string_views(final(v)@) == string_views(old(v)@) + string_views(more@),
{
    let mut more = more;
    let ghost start = string_views(v@);
    let ghost extra = string_views(more@);
    v.append(&mut more);
    assert(string_views(v@) =~= start + extra);
}

fn is_blank_option(value: &Option<String>) -> (r: bool)
    ensures
        r == blank_option(*value),
{
    match value {
        Some(value) => is_blank(value.as_str()),
        None => true,
    }
}

fn has_dependency_justification(justifications: &Vec<DependencyJustification>) -> (r: bool)
    ensures
        r == has_justification(justifications@),
{
    let mut i: usize = 0;
    while i < justifications.len()
        invariant
            i <= justifications.len(),
            forall|j: int| 0 <= j < i ==> !justification_filled(#[trigger] justifications@[j]),
        decreases justifications.len() - i,
    {
        let justification = &justifications[i];
        if !is_blank(justification.dependency.as_str()) && !is_blank(
            justification.reason.as_str(),
        ) {
            return true;
        }
        i = i + 1;
    }
    false
}

fn any_blank_ceiling(markers: &Vec<DebtMarker>) -> (r: bool)
    ensures
        r == exists|i: int| 0 <= i < markers@.len() && blank_text(#[trigger] markers@[i].ceiling@),
{
    let mut i: usize = 0;
    while i < markers.len()
        invariant
            i <= markers.len(),
            forall|j: int| 0 <= j < i ==> !blank_text(#[trigger] markers@[j].ceiling@),
        decreases markers.len() - i,
    {
        if is_blank(markers[i].ceiling.as_str()) {
            return true;
        }
        i = i + 1;
    }
    false
}

fn any_blank_upgrade_trigger(markers: &Vec<DebtMarker>) -> (r: bool)
    ensures
        r == exists|i: int|
            0 <= i < markers@.len() && blank_option(#[trigger] markers@[i].upgrade_trigger),
{
    let mut i: usize = 0;
    while i < markers.len()
        invariant
            i <= markers.len(),
            forall|j: int| 0 <= j < i ==> !blank_option(#[trigger] markers@[j].upgrade_trigger),
        decreases markers.len() - i,
    {
        if is_blank_option(&markers[i].upgrade_trigger) {
            return true;
        }
        i = i + 1;
    }
    false
}

fn hard_failures(input: &CodeActionMinimality) -> (r: Vec<String>)
    ensures
        string_views(r@) == hard_codes(*input),
{
    let mut failed: Vec<String> = Vec::new();
    match &input.check {
        Some(check) => {
            if check.new_dependency_required && (is_blank_option(&check.new_dependency_reason)
                || !has_dependency_justification(&input.dependency_justifications)) {
                append_codes(&mut failed, code(M3_NEW_DEP_UNJUSTIFIED));
            }
        },
        None => append_codes(&mut failed, code(M2_NO_MINIMALITY_CHECK)),
    }
    assert(string_views(failed@) =~= code_if(fails_m2(*input), M2_NO_MINIMALITY_CHECK@)
        + code_if(fails_m3(*input), M3_NEW_DEP_UNJUSTIFIED@));
    match &input.protected {
        Some(protected) => {
            if !protected.validation || !protected.data_loss_handling || !protected.security
                || !protected.accessibility || !protected.explicit_user_requirements {
                append_codes(&mut failed, code(M4_PROTECTED_REQUIREMENT_CUT));
            }
        },
        None => append_codes(&mut failed, code(M4_PROTECTED_REQUIREMENT_CUT)),
    }
    if input.is_nontrivial {
        match &input.evidence {
            Some(evidence) => {
                if is_blank(evidence.required_check.as_str()) {
                    append_codes(&mut failed, code(M5_NONTRIVIAL_NO_EVIDENCE));
                }
            },
            None => append_codes(&mut failed, code(M5_NONTRIVIAL_NO_EVIDENCE)),
        }
    }
    if any_blank_ceiling(&input.debt_markers) {
        append_codes(&mut failed, code(M6_DEBT_MARKER_NO_CEILING));
    }
    assert(string_views(failed@) =~= hard_codes(*input));
    failed
}

fn soft_warnings(input: &CodeActionMinimality) -> (r: Vec<String>)
    ensures
        string_views(r@) == soft_codes(*input),
{
    let mut notes: Vec<String> = Vec::new();
    if any_blank_upgrade_trigger(&input.debt_markers) {
        append_codes(&mut notes, code(W1_DEBT_MARKER_NO_UPGRADE_TRIGGER));
    }
    let need_not_established = match &input.check {
        Some(check) => !check.need_exists,
        None => false,
    };
    if need_not_established {
        append_codes(&mut notes, code(W2_NEED_NOT_ESTABLISHED));
    }
    assert(string_views(notes@) =~= soft_codes(*input));
    notes
}

fn all_findings(input: &CodeActionMinimality) -> (r: Vec<String>)
    ensures
        string_views(r@) == all_codes(*input),
{
    let mut notes = hard_failures(input);
    append_codes(&mut notes, soft_warnings(input));
    notes
}

fn warning_or_pass(notes: Vec<String>) -> (r: MinimalityVerdict)
    ensures
        warns_with(r, string_views(notes@)),
{
    if notes.len() == 0 {
        MinimalityVerdict::Passed
    } else {
        MinimalityVerdict::Warning { notes }
    }
}

fn enforced_verdict(input: &CodeActionMinimality) -> (r: MinimalityVerdict)
    ensures
        enforced_verdict_is(*input, r),
{
    let failed = hard_failures(input);
    if failed.len() != 0 {
        return MinimalityVerdict::Blocked { failed };
    }
    warning_or_pass(soft_warnings(input))
}

/// Validate code-action minimality metadata.
///
/// `Off` always passes. `Advisory` never blocks: hard and soft findings are
/// returned as warnings. `Enforced` and `Strict` block on hard M-codes and
/// warn only when soft W-codes remain.
pub fn check_minimality(input: &CodeActionMinimality) -> (r: MinimalityVerdict)
    ensures
        verdict_is(*input, r),
{
    match input.policy {
        MinimalityPolicy::Off => MinimalityVerdict::Passed,
        MinimalityPolicy::Advisory => warning_or_pass(all_findings(input)),
        MinimalityPolicy::Enforced => enforced_verdict(input),
        MinimalityPolicy::Strict => enforced_verdict(input),
    }
}

} // verus!
