//! Maturity gate for the §13 Action Packet.
//!
//! Only a *mature* Action Packet may cross into Daruma. Maturity is
//! deterministic: every required §13 field must be present. A field is
//! present when it carries content: a text field must not be blank; a list
//! field must be non-empty and every element in it must itself carry content
//! (no blank strings, no structs with a blank required sub-field). A
//! `NotReady` verdict names exactly the missing fields, in §13 order.
//!
//! Under [`FujinStrictness::Soft`] the provenance trio (`required_documents`,
//! `linked_knowledge`, `linked_rejected`) is valid-or-empty: an empty list
//! means "no provenance established" and passes, while a half-filled entry
//! still fails. [`assess`] judges under [`FujinStrictness::Strict`].

use vstd::prelude::*;

use crate::packet::{ActionPacket, Gate, LinkedItem, RequiredDocument};
use crate::text::{blank_text, is_blank, string_views};

verus! {

/// The number of required §13 fields.
pub const FIELD_COUNT: usize = 16;

/// How strictly the provenance trio is judged.
#[derive(Clone, Copy, Debug, PartialEq, Eq, Structural)]
pub enum FujinStrictness {
    /// The provenance trio may be empty; present entries must be complete.
    Soft,
    /// Every required field, the provenance trio included, must be filled.
    Strict,
}

/// The deterministic verdict for an [`ActionPacket`].
#[derive(Clone, Debug, PartialEq, Eq)]
pub enum Maturity {
    /// Every required §13 field is filled: the packet may spawn work.
    Ready,
    /// At least one required §13 field is empty. `missing` lists the field
    /// names, in §13 order, that still need filling.
    NotReady { missing: Vec<String> },
}

impl Maturity {
    pub open spec fn spec_is_ready(&self) -> bool {
        self is Ready
    }

    /// Whether the verdict is `Ready`.
    #[verifier::when_used_as_spec(spec_is_ready)]
    pub fn is_ready(&self) -> (r: bool)
        ensures
            r == self.spec_is_ready(),
    {
        match self {
            Maturity::Ready => true,
            Maturity::NotReady { .. } => false,
        }
    }
}

/// A text field carries content.
pub open spec fn text_present(s: Seq<char>) -> bool {
    !blank_text(s)
}

/// A list of texts is non-empty and no entry is blank.
pub open spec fn texts_present(items: Seq<String>) -> bool {
    items.len() > 0 && forall|i: int| 0 <= i < items.len() ==> text_present(#[trigger] items[i]@)
}

/// A document has both a title and a uri.
pub open spec fn document_filled(d: RequiredDocument) -> bool {
    text_present(d.title@) && text_present(d.uri@)
}

/// A link has both an id and a label.
pub open spec fn link_filled(l: LinkedItem) -> bool {
    text_present(l.id@) && text_present(l.label@)
}

/// A list of documents is non-empty and every entry has a title and a uri.
pub open spec fn documents_present(items: Seq<RequiredDocument>) -> bool {
    items.len() > 0 && forall|i: int| 0 <= i < items.len() ==> document_filled(#[trigger] items[i])
}

/// A list of links is non-empty and every entry has an id and a label.
pub open spec fn links_present(items: Seq<LinkedItem>) -> bool {
    items.len() > 0 && forall|i: int| 0 <= i < items.len() ==> link_filled(#[trigger] items[i])
}

/// A list of gates is non-empty and no rule is blank.
pub open spec fn gates_present(items: Seq<Gate>) -> bool {
    items.len() > 0 && forall|i: int| 0 <= i < items.len() ==> text_present(#[trigger] items[i].rule@)
}

/// Whether the required §13 field number `f` (0-based, in §13 order) of `p`
/// is present.
pub open spec fn field_present(p: ActionPacket, f: int) -> bool {
    if f == 0 {
        text_present(p.goal@)
    } else if f == 1 {
        text_present(p.context@)
    } else if f == 2 {
        texts_present(p.do_items@)
    } else if f == 3 {
        text_present(p.why@)
    } else if f == 4 {
        texts_present(p.do_not@)
    } else if f == 5 {
        texts_present(p.completion_criteria@)
    } else if f == 6 {
        texts_present(p.constraints@)
    } else if f == 7 {
        texts_present(p.risks@)
    } else if f == 8 {
        texts_present(p.dependencies@)
    } else if f == 9 {
        documents_present(p.required_documents@)
    } else if f == 10 {
        links_present(p.linked_decisions@)
    } else if f == 11 {
        links_present(p.linked_knowledge@)
    } else if f == 12 {
        links_present(p.linked_rejected@)
    } else if f == 13 {
        texts_present(p.expected_artifacts@)
    } else if f == 14 {
        gates_present(p.before_start@)
    } else {
        gates_present(p.before_complete@)
    }
}

/// The wire name of the required §13 field number `f`.
pub open spec fn field_name(f: int) -> Seq<char> {
    if f == 0 {
        "goal"@
    } else if f == 1 {
        "context"@
    } else if f == 2 {
        "do_items"@
    } else if f == 3 {
        "why"@
    } else if f == 4 {
        "do_not"@
    } else if f == 5 {
        "completion_criteria"@
    } else if f == 6 {
        "constraints"@
    } else if f == 7 {
        "risks"@
    } else if f == 8 {
        "dependencies"@
    } else if f == 9 {
        "required_documents"@
    } else if f == 10 {
        "linked_decisions"@
    } else if f == 11 {
        "linked_knowledge"@
    } else if f == 12 {
        "linked_rejected"@
    } else if f == 13 {
        "expected_artifacts"@
    } else if f == 14 {
        "before_start"@
    } else {
        "before_complete"@
    }
}

/// Field number `f` belongs to the provenance trio.
pub open spec fn provenance_field(f: int) -> bool {
    f == 9 || f == 11 || f == 12
}

/// The list of provenance field number `f` of `p` is empty.
pub open spec fn provenance_empty(p: ActionPacket, f: int) -> bool {
    if f == 9 {
        p.required_documents@.len() == 0
    } else if f == 11 {
        p.linked_knowledge@.len() == 0
    } else {
        p.linked_rejected@.len() == 0
    }
}

/// Field number `f` of `p` passes the maturity check under strictness `s`.
pub open spec fn field_satisfied(p: ActionPacket, f: int, s: FujinStrictness) -> bool {
    if s is Soft && provenance_field(f) {
        provenance_empty(p, f) || field_present(p, f)
    } else {
        field_present(p, f)
    }
}

/// The names of the failing fields among the first `n` required fields,
/// in §13 order.
pub open spec fn missing_among(p: ActionPacket, s: FujinStrictness, n: int) -> Seq<Seq<char>>
    decreases n,
{
    if n <= 0 {
        Seq::empty()
    } else if field_satisfied(p, n - 1, s) {
        missing_among(p, s, n - 1)
    } else {
        missing_among(p, s, n - 1).push(field_name(n - 1))
    }
}

/// The names of every required §13 field of `p` that fails under `s`, in
/// §13 order.
pub open spec fn missing_fields_under(p: ActionPacket, s: FujinStrictness) -> Seq<Seq<char>> {
    missing_among(p, s, FIELD_COUNT as int)
}

/// The names of every absent required §13 field of `p`, in §13 order.
pub open spec fn missing_fields(p: ActionPacket) -> Seq<Seq<char>> {
    missing_fields_under(p, FujinStrictness::Strict)
}

/// Every required §13 field of `p` passes under `s`.
pub open spec fn is_mature_under(p: ActionPacket, s: FujinStrictness) -> bool {
    forall|f: int| 0 <= f < FIELD_COUNT ==> field_satisfied(p, f, s)
}

/// Every required §13 field of `p` is present.
pub open spec fn is_mature(p: ActionPacket) -> bool {
    is_mature_under(p, FujinStrictness::Strict)
}

/// The verdict `m` is the one that `p` deserves under `s`: `Ready` exactly
/// when every required field passes, otherwise `NotReady` naming the
/// failing fields.
pub open spec fn verdict_under(p: ActionPacket, s: FujinStrictness, m: Maturity) -> bool {
    match m {
        Maturity::Ready => missing_fields_under(p, s).len() == 0,
        Maturity::NotReady { missing } => missing_fields_under(p, s).len() > 0 && string_views(
            missing@,
        ) == missing_fields_under(p, s),
    }
}

/// The verdict `m` is the one that `p` deserves under the strict gate.
pub open spec fn verdict_for(p: ActionPacket, m: Maturity) -> bool {
    verdict_under(p, FujinStrictness::Strict, m)
}

proof fn lemma_missing_among_len(p: ActionPacket, s: FujinStrictness, n: int)
    requires
        0 <= n <= FIELD_COUNT,
    ensures
        missing_among(p, s, n).len() == 0 <==> forall|f: int|
            0 <= f < n ==> field_satisfied(p, f, s),
    decreases n,
{
    if n > 0 {
        lemma_missing_among_len(p, s, n - 1);
    }
}

proof fn lemma_missing_among_names(p: ActionPacket, s: FujinStrictness, n: int)
    requires
        0 <= n <= FIELD_COUNT,
    ensures
        forall|f: int|
            0 <= f < n && !field_satisfied(p, f, s) ==> missing_among(p, s, n).contains(
                #[trigger] field_name(f),
            ),
        forall|k: int|
            0 <= k < missing_among(p, s, n).len() ==> exists|f: int|
                0 <= f < n && !field_satisfied(p, f, s) && #[trigger] missing_among(p, s, n)[k]
                    == field_name(f),
    decreases n,
{
    if n > 0 {
        lemma_missing_among_names(p, s, n - 1);
        let prev = missing_among(p, s, n - 1);
        if !field_satisfied(p, n - 1, s) {
            let cur = prev.push(field_name(n - 1));
            assert forall|f: int| 0 <= f < n && !field_satisfied(p, f, s) implies cur.contains(
                #[trigger] field_name(f),
            ) by {
                if f == n - 1 {
                    assert(cur[prev.len() as int] == field_name(f));
                } else {
                    let k = choose|k: int| 0 <= k < prev.len() && prev[k] == field_name(f);
                    assert(cur[k] == field_name(f));
                }
            }
            assert forall|k: int| 0 <= k < cur.len() implies exists|f: int|
                0 <= f < n && !field_satisfied(p, f, s) && #[trigger] cur[k] == field_name(f) by {
                if k == prev.len() {
                    assert(cur[k] == field_name(n - 1));
                } else {
                    assert(cur[k] == prev[k]);
                }
            }
        }
    }
}

proof fn lemma_missing_among_only(p: ActionPacket, s: FujinStrictness, n: int, g: int)
    requires
        0 <= g < n <= FIELD_COUNT,
        !field_satisfied(p, g, s),
        forall|f: int| 0 <= f < n && f != g ==> field_satisfied(p, f, s),
    ensures
        missing_among(p, s, n) == seq![field_name(g)],
    decreases n,
{
    if n - 1 == g {
        lemma_missing_among_len(p, s, n - 1);
        assert(missing_among(p, s, n - 1) =~= Seq::<Seq<char>>::empty());
        assert(missing_among(p, s, n) =~= seq![field_name(g)]);
    } else {
        lemma_missing_among_only(p, s, n - 1, g);
    }
}

/// The maturity verdict is a function of the packet: any two verdicts that `assess` may
/// give for one packet under one strictness agree on readiness and name the
/// same missing fields.
pub proof fn lemma_assessment_is_deterministic(
    p: ActionPacket,
    s: FujinStrictness,
    m1: Maturity,
    m2: Maturity,
)
    requires
        verdict_under(p, s, m1),
        verdict_under(p, s, m2),
    ensures
        m1.spec_is_ready() == m2.spec_is_ready(),
        m1 matches Maturity::NotReady { missing: a } ==> (m2 matches Maturity::NotReady {
            missing: b,
        } && string_views(a@) == string_views(b@)),
{
}

/// A packet is judged ready exactly when every required §13 field passes.
pub proof fn lemma_ready_iff_mature(p: ActionPacket, s: FujinStrictness, m: Maturity)
    requires
        verdict_under(p, s, m),
    ensures
        m.spec_is_ready() <==> is_mature_under(p, s),
{
    lemma_missing_among_len(p, s, FIELD_COUNT as int);
}

/// `NotReady` names exactly the failing fields: every failing field is
/// listed, and every listed name is the name of a failing field.
pub proof fn lemma_missing_names_exactly_the_absent_fields(p: ActionPacket, s: FujinStrictness)
    ensures
        forall|f: int|
            0 <= f < FIELD_COUNT && !field_satisfied(p, f, s) ==> missing_fields_under(
                p,
                s,
            ).contains(#[trigger] field_name(f)),
        forall|k: int|
            0 <= k < missing_fields_under(p, s).len() ==> exists|f: int|
                0 <= f < FIELD_COUNT && !field_satisfied(p, f, s) && #[trigger] missing_fields_under(
                    p,
                    s,
                )[k] == field_name(f),
{
    lemma_missing_among_names(p, s, FIELD_COUNT as int);
}

/// Clearing exactly one required field of an otherwise mature packet yields
/// `NotReady` naming that field alone.
pub proof fn lemma_single_absent_field_is_named_alone(p: ActionPacket, s: FujinStrictness, g: int)
    requires
        0 <= g < FIELD_COUNT,
        !field_satisfied(p, g, s),
        forall|f: int| 0 <= f < FIELD_COUNT && f != g ==> field_satisfied(p, f, s),
    ensures
        missing_fields_under(p, s) == seq![field_name(g)],
{
    lemma_missing_among_only(p, s, FIELD_COUNT as int, g);
}

/// Every required field name, in §13 order.
pub open spec fn all_field_names() -> Seq<Seq<char>> {
    Seq::new(FIELD_COUNT as nat, |f: int| field_name(f))
}

proof fn lemma_missing_among_all(p: ActionPacket, s: FujinStrictness, n: int)
    requires
        0 <= n <= FIELD_COUNT,
        forall|f: int| 0 <= f < n ==> !field_satisfied(p, f, s),
    ensures
        missing_among(p, s, n) == Seq::new(n as nat, |f: int| field_name(f)),
    decreases n,
{
    if n > 0 {
        lemma_missing_among_all(p, s, n - 1);
    }
    assert(missing_among(p, s, n) =~= Seq::new(n as nat, |f: int| field_name(f)));
}

/// Under the strict gate the empty packet is missing every required field,
/// listed in §13 order.
pub proof fn lemma_empty_packet_lists_every_field(p: ActionPacket)
    requires
        p.spec_is_blank_packet(),
    ensures
        missing_fields(p) == all_field_names(),
{
    assert forall|f: int| 0 <= f < FIELD_COUNT implies !field_satisfied(
        p,
        f,
        FujinStrictness::Strict,
    ) by {}
    lemma_missing_among_all(p, FujinStrictness::Strict, FIELD_COUNT as int);
}

/// The soft gate is never harsher than the strict one, and the two agree on
/// every packet whose provenance trio is filled in.
pub proof fn lemma_soft_relaxes_only_empty_provenance(p: ActionPacket)
    ensures
        is_mature_under(p, FujinStrictness::Strict) ==> is_mature_under(p, FujinStrictness::Soft),
        (p.required_documents@.len() > 0 && p.linked_knowledge@.len() > 0
            && p.linked_rejected@.len() > 0) ==> missing_fields_under(p, FujinStrictness::Soft)
            == missing_fields_under(p, FujinStrictness::Strict),
{
    assert forall|f: int|
        0 <= f < FIELD_COUNT && field_satisfied(p, f, FujinStrictness::Strict) implies #[trigger] field_satisfied(
        p,
        f,
        FujinStrictness::Soft,
    ) by {}
    if p.required_documents@.len() > 0 && p.linked_knowledge@.len() > 0
        && p.linked_rejected@.len() > 0 {
        lemma_same_verdicts(p, FIELD_COUNT as int);
    }
}

/// `a` and `b` agree on every required §13 field.
pub open spec fn same_required_fields(a: ActionPacket, b: ActionPacket) -> bool {
    &&& a.goal == b.goal
    &&& a.context == b.context
    &&& a.do_items == b.do_items
    &&& a.why == b.why
    &&& a.do_not == b.do_not
    &&& a.completion_criteria == b.completion_criteria
    &&& a.constraints == b.constraints
    &&& a.risks == b.risks
    &&& a.dependencies == b.dependencies
    &&& a.required_documents == b.required_documents
    &&& a.linked_decisions == b.linked_decisions
    &&& a.linked_knowledge == b.linked_knowledge
    &&& a.linked_rejected == b.linked_rejected
    &&& a.expected_artifacts == b.expected_artifacts
    &&& a.before_start == b.before_start
    &&& a.before_complete == b.before_complete
}

proof fn lemma_missing_among_same(a: ActionPacket, b: ActionPacket, s: FujinStrictness, n: int)
    requires
        same_required_fields(a, b),
    ensures
        missing_among(a, s, n) == missing_among(b, s, n),
    decreases n,
{
    if n > 0 {
        lemma_missing_among_same(a, b, s, n - 1);
    }
}

/// The bounded execution envelope (`target_files`, `conflict_policy`,
/// `required_checks`, `reviewer_profile`) plays no part in maturity: packets
/// that agree on the required §13 fields get the same verdict.
pub proof fn lemma_envelope_does_not_affect_maturity(
    a: ActionPacket,
    b: ActionPacket,
    s: FujinStrictness,
)
    requires
        same_required_fields(a, b),
    ensures
        missing_fields_under(a, s) == missing_fields_under(b, s),
        is_mature_under(a, s) == is_mature_under(b, s),
{
    lemma_missing_among_same(a, b, s, FIELD_COUNT as int);
    lemma_missing_among_len(a, s, FIELD_COUNT as int);
    lemma_missing_among_len(b, s, FIELD_COUNT as int);
}

proof fn lemma_same_verdicts(p: ActionPacket, n: int)
    requires
        0 <= n <= FIELD_COUNT,
        p.required_documents@.len() > 0,
        p.linked_knowledge@.len() > 0,
        p.linked_rejected@.len() > 0,
    ensures
        missing_among(p, FujinStrictness::Soft, n) == missing_among(p, FujinStrictness::Strict, n),
    decreases n,
{
    if n > 0 {
        lemma_same_verdicts(p, n - 1);
    }
}

/// The verdict `m` is `NotReady` and names the field `name`.
pub open spec fn names_field(m: Maturity, name: Seq<char>) -> bool {
    m matches Maturity::NotReady { missing } && string_views(missing@).contains(name)
}

proof fn lemma_field_names_distinct()
    ensures
        forall|f: int, g: int|
            0 <= f < FIELD_COUNT && 0 <= g < FIELD_COUNT && f != g ==> field_name(f) != field_name(
                g,
            ),
{
    reveal_strlit("goal");
    reveal_strlit("context");
    reveal_strlit("do_items");
    reveal_strlit("why");
    reveal_strlit("do_not");
    reveal_strlit("completion_criteria");
    reveal_strlit("constraints");
    reveal_strlit("risks");
    reveal_strlit("dependencies");
    reveal_strlit("required_documents");
    reveal_strlit("linked_decisions");
    reveal_strlit("linked_knowledge");
    reveal_strlit("linked_rejected");
    reveal_strlit("expected_artifacts");
    reveal_strlit("before_start");
    reveal_strlit("before_complete");
    assert forall|f: int, g: int|
        0 <= f < FIELD_COUNT && 0 <= g < FIELD_COUNT && f != g implies field_name(f)
        != field_name(g) by {
        if field_name(f) == field_name(g) {
            assert(field_name(f).len() == field_name(g).len());
            assert(field_name(f)[0] == field_name(g)[0]);
            assert(field_name(f)[7] == field_name(g)[7]);
        }
    }
}

proof fn lemma_field_named(p: ActionPacket, s: FujinStrictness, f: int)
    requires
        0 <= f < FIELD_COUNT,
    ensures
        missing_fields_under(p, s).contains(field_name(f)) <==> !field_satisfied(p, f, s),
{
    lemma_missing_names_exactly_the_absent_fields(p, s);
    lemma_field_names_distinct();
    let missing = missing_fields_under(p, s);
    if missing.contains(field_name(f)) {
        let k = choose|k: int| 0 <= k < missing.len() && missing[k] == field_name(f);
        let g = choose|g: int|
            0 <= g < FIELD_COUNT && !field_satisfied(p, g, s) && #[trigger] missing[k]
                == field_name(g);
        assert(g == f);
    }
}

proof fn lemma_documents_absent(items: Seq<RequiredDocument>)
    ensures
        !documents_present(items) <==> (items.len() == 0 || exists|i: int|
            0 <= i < items.len() && (blank_text(#[trigger] items[i].title@) || blank_text(
                items[i].uri@,
            ))),
{
    if !documents_present(items) && items.len() > 0 {
        let i = choose|i: int| 0 <= i < items.len() && !document_filled(#[trigger] items[i]);
        assert(blank_text(items[i].title@) || blank_text(items[i].uri@));
    }
    if items.len() > 0 && exists|i: int|
        0 <= i < items.len() && (blank_text(#[trigger] items[i].title@) || blank_text(
            items[i].uri@,
        )) {
        let i = choose|i: int|
            0 <= i < items.len() && (blank_text(#[trigger] items[i].title@) || blank_text(
                items[i].uri@,
            ));
        assert(!document_filled(items[i]));
    }
}

proof fn lemma_links_absent(items: Seq<LinkedItem>)
    ensures
        !links_present(items) <==> (items.len() == 0 || exists|i: int|
            0 <= i < items.len() && (blank_text(#[trigger] items[i].id@) || blank_text(
                items[i].label@,
            ))),
{
    if !links_present(items) && items.len() > 0 {
        let i = choose|i: int| 0 <= i < items.len() && !link_filled(#[trigger] items[i]);
        assert(blank_text(items[i].id@) || blank_text(items[i].label@));
    }
    if items.len() > 0 && exists|i: int|
        0 <= i < items.len() && (blank_text(#[trigger] items[i].id@) || blank_text(
            items[i].label@,
        )) {
        let i = choose|i: int|
            0 <= i < items.len() && (blank_text(#[trigger] items[i].id@) || blank_text(
                items[i].label@,
            ));
        assert(!link_filled(items[i]));
    }
}

/// A verdict names a required §13 field exactly when that field is missing
/// or blank in the packet: a text field when it is blank; a list field when
/// it is empty or one of its entries is blank (for documents a blank title
/// or uri, for links a blank id or label, for gates a blank rule). Under
/// soft strictness an empty provenance list (`required_documents`,
/// `linked_knowledge`, `linked_rejected`) is not named. A verdict that names
/// nothing is `Ready`.
pub proof fn lemma_verdict_names_each_failing_field(p: ActionPacket, s: FujinStrictness, m: Maturity)
    requires
        verdict_under(p, s, m),
    ensures
        names_field(m, "goal"@) <==> blank_text(p.goal@),
        names_field(m, "context"@) <==> blank_text(p.context@),
        names_field(m, "do_items"@) <==> (p.do_items@.len() == 0 || exists|i: int|
            0 <= i < p.do_items@.len() && (blank_text(#[trigger] p.do_items@[i]@))),
        names_field(m, "why"@) <==> blank_text(p.why@),
        names_field(m, "do_not"@) <==> (p.do_not@.len() == 0 || exists|i: int|
            0 <= i < p.do_not@.len() && (blank_text(#[trigger] p.do_not@[i]@))),
        names_field(m, "completion_criteria"@) <==> (p.completion_criteria@.len() == 0
            || exists|i: int|
            0 <= i < p.completion_criteria@.len() && (blank_text(#[trigger] p.completion_criteria@[i]@))),
        names_field(m, "constraints"@) <==> (p.constraints@.len() == 0 || exists|i: int|
            0 <= i < p.constraints@.len() && (blank_text(#[trigger] p.constraints@[i]@))),
        names_field(m, "risks"@) <==> (p.risks@.len() == 0 || exists|i: int|
            0 <= i < p.risks@.len() && (blank_text(#[trigger] p.risks@[i]@))),
        names_field(m, "dependencies"@) <==> (p.dependencies@.len() == 0 || exists|i: int|
            0 <= i < p.dependencies@.len() && (blank_text(#[trigger] p.dependencies@[i]@))),
        names_field(m, "required_documents"@) <==> ((s is Strict || p.required_documents@.len() > 0)
            && (p.required_documents@.len() == 0 || exists|i: int|
            0 <= i < p.required_documents@.len() && (blank_text(#[trigger] p.required_documents@[i].title@)
                || blank_text(p.required_documents@[i].uri@)))),
        names_field(m, "linked_decisions"@) <==> (p.linked_decisions@.len() == 0 || exists|i: int|
            0 <= i < p.linked_decisions@.len() && (blank_text(#[trigger] p.linked_decisions@[i].id@)
                || blank_text(p.linked_decisions@[i].label@))),
        names_field(m, "linked_knowledge"@) <==> ((s is Strict || p.linked_knowledge@.len() > 0)
            && (p.linked_knowledge@.len() == 0 || exists|i: int|
            0 <= i < p.linked_knowledge@.len() && (blank_text(#[trigger] p.linked_knowledge@[i].id@)
                || blank_text(p.linked_knowledge@[i].label@)))),
        names_field(m, "linked_rejected"@) <==> ((s is Strict || p.linked_rejected@.len() > 0)
            && (p.linked_rejected@.len() == 0 || exists|i: int|
            0 <= i < p.linked_rejected@.len() && (blank_text(#[trigger] p.linked_rejected@[i].id@)
                || blank_text(p.linked_rejected@[i].label@)))),
        names_field(m, "expected_artifacts"@) <==> (p.expected_artifacts@.len() == 0 || exists|i: int|
            0 <= i < p.expected_artifacts@.len() && (blank_text(#[trigger] p.expected_artifacts@[i]@))),
        names_field(m, "before_start"@) <==> (p.before_start@.len() == 0 || exists|i: int|
            0 <= i < p.before_start@.len() && (blank_text(#[trigger] p.before_start@[i].rule@))),
        names_field(m, "before_complete"@) <==> (p.before_complete@.len() == 0 || exists|i: int|
            0 <= i < p.before_complete@.len() && (blank_text(#[trigger] p.before_complete@[i].rule@))),
{
    lemma_ready_iff_mature(p, s, m);
    lemma_documents_absent(p.required_documents@);
    lemma_links_absent(p.linked_decisions@);
    lemma_links_absent(p.linked_knowledge@);
    lemma_links_absent(p.linked_rejected@);
    lemma_field_named(p, s, 0);
    lemma_field_named(p, s, 1);
    lemma_field_named(p, s, 2);
    lemma_field_named(p, s, 3);
    lemma_field_named(p, s, 4);
    lemma_field_named(p, s, 5);
    lemma_field_named(p, s, 6);
    lemma_field_named(p, s, 7);
    lemma_field_named(p, s, 8);
    lemma_field_named(p, s, 9);
    lemma_field_named(p, s, 10);
    lemma_field_named(p, s, 11);
    lemma_field_named(p, s, 12);
    lemma_field_named(p, s, 13);
    lemma_field_named(p, s, 14);
    lemma_field_named(p, s, 15);
}

fn text_is_present(s: &String) -> (r: bool)
    ensures
        r == text_present(s@),
{
    !is_blank(s.as_str())
}

fn texts_are_present(items: &Vec<String>) -> (r: bool)
    ensures
        r == texts_present(items@),
{
    if items.len() == 0 {
        return false;
    }
    let mut i: usize = 0;
    while i < items.len()
        invariant
            i <= items.len(),
            forall|j: int| 0 <= j < i ==> text_present(#[trigger] items@[j]@),
        decreases items.len() - i,
    {
        if !text_is_present(&items[i]) {
            return false;
        }
        i = i + 1;
    }
    true
}

fn documents_are_present(items: &Vec<RequiredDocument>) -> (r: bool)
    ensures
        r == documents_present(items@),
{
    if items.len() == 0 {
        return false;
    }
    let mut i: usize = 0;
    while i < items.len()
        invariant
            i <= items.len(),
            forall|j: int| 0 <= j < i ==> document_filled(#[trigger] items@[j]),
        decreases items.len() - i,
    {
        let doc = &items[i];
        if !text_is_present(&doc.title) || !text_is_present(&doc.uri) {
            return false;
        }
        i = i + 1;
    }
    true
}

fn links_are_present(items: &Vec<LinkedItem>) -> (r: bool)
    ensures
        r == links_present(items@),
{
    if items.len() == 0 {
        return false;
    }
    let mut i: usize = 0;
    while i < items.len()
        invariant
            i <= items.len(),
            forall|j: int| 0 <= j < i ==> link_filled(#[trigger] items@[j]),
        decreases items.len() - i,
    {
        let link = &items[i];
        if !text_is_present(&link.id) || !text_is_present(&link.label) {
            return false;
        }
        i = i + 1;
    }
    true
}

fn gates_are_present(items: &Vec<Gate>) -> (r: bool)
    ensures
        r == gates_present(items@),
{
    if items.len() == 0 {
        return false;
    }
    let mut i: usize = 0;
    while i < items.len()
        invariant
            i <= items.len(),
            forall|j: int| 0 <= j < i ==> text_present(#[trigger] items@[j].rule@),
        decreases items.len() - i,
    {
        if !text_is_present(&items[i].rule) {
            return false;
        }
        i = i + 1;
    }
    true
}

fn is_field_present(p: &ActionPacket, f: usize) -> (r: bool)
    requires
        f < FIELD_COUNT,
    ensures
        r == field_present(*p, f as int),
{
    match f {
        0 => text_is_present(&p.goal),
        1 => text_is_present(&p.context),
        2 => texts_are_present(&p.do_items),
        3 => text_is_present(&p.why),
        4 => texts_are_present(&p.do_not),
        5 => texts_are_present(&p.completion_criteria),
        6 => texts_are_present(&p.constraints),
        7 => texts_are_present(&p.risks),
        8 => texts_are_present(&p.dependencies),
        9 => documents_are_present(&p.required_documents),
        10 => links_are_present(&p.linked_decisions),
        11 => links_are_present(&p.linked_knowledge),
        12 => links_are_present(&p.linked_rejected),
        13 => texts_are_present(&p.expected_artifacts),
        14 => gates_are_present(&p.before_start),
        _ => gates_are_present(&p.before_complete),
    }
}

fn is_field_satisfied(p: &ActionPacket, f: usize, s: FujinStrictness) -> (r: bool)
    requires
        f < FIELD_COUNT,
    ensures
        r == field_satisfied(*p, f as int, s),
{
    let soft_provenance = match s {
        FujinStrictness::Soft => f == 9 || f == 11 || f == 12,
        FujinStrictness::Strict => false,
    };
    if soft_provenance {
        let empty = if f == 9 {
            p.required_documents.len() == 0
        } else if f == 11 {
            p.linked_knowledge.len() == 0
        } else {
            p.linked_rejected.len() == 0
        };
        empty || is_field_present(p, f)
    } else {
        is_field_present(p, f)
    }
}

fn field_name_of(f: usize) -> (r: String)
    requires
        f < FIELD_COUNT,
    ensures
        r@ == field_name(f as int),
{
    let name = match f {
        0 => "goal",
        1 => "context",
        2 => "do_items",
        3 => "why",
        4 => "do_not",
        5 => "completion_criteria",
        6 => "constraints",
        7 => "risks",
        8 => "dependencies",
        9 => "required_documents",
        10 => "linked_decisions",
        11 => "linked_knowledge",
        12 => "linked_rejected",
        13 => "expected_artifacts",
        14 => "before_start",
        _ => "before_complete",
    };
    String::from_str(name)
}

/// Assess an [`ActionPacket`] against the §13 contract under the given
/// strictness.
///
/// The checks run in §13 order, so `missing` reads as a checklist.
pub fn assess_with(packet: &ActionPacket, strictness: FujinStrictness) -> (m: Maturity)
    ensures
        verdict_under(*packet, strictness, m),
{
    let mut missing: Vec<String> = Vec::new();
    let mut f: usize = 0;
    while f < FIELD_COUNT
        invariant
            f <= FIELD_COUNT,
            string_views(missing@) == missing_among(*packet, strictness, f as int),
        decreases FIELD_COUNT - f,
    {
        if !is_field_satisfied(packet, f, strictness) {
            let name = field_name_of(f);
            missing.push(name);
            assert(string_views(missing@) =~= missing_among(*packet, strictness, f as int).push(
                field_name(f as int),
            ));
        }
        f = f + 1;
    }
    if missing.len() == 0 {
        Maturity::Ready
    } else {
        Maturity::NotReady { missing }
    }
}

/// Assess an [`ActionPacket`] against the §13 contract: every required
/// field, the provenance trio included, must be filled.
pub fn assess(packet: &ActionPacket) -> (m: Maturity)
    ensures
        verdict_for(*packet, m),
{
    assess_with(packet, FujinStrictness::Strict)
}

} // verus!
