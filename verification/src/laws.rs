//! Laws of the evaluation engine, stated over the same spec functions the
//! engine's contracts use, and proved once and for all inputs.

use vstd::prelude::*;
use crate::data::{InjuryStatus, NflPlayerV, RosterPosition};
use crate::brains::{
    ByeStarterV, InjuredStarterV, spec_bye_at, spec_bye_list, spec_bye_prefix, spec_empty_at,
    spec_empty_list, spec_empty_prefix, spec_evaluate, spec_injured_at, spec_injured_list,
    spec_injured_prefix, spec_combined_name, spec_display_name, spec_is_injured,
    spec_parse_status, spec_parse_team, spec_position_from_index, spec_resolve,
};

verus! {

/// Whether a slot kind occurs in the fixed 11-slot lineup template.
pub open spec fn spec_is_template_position(pos: RosterPosition) -> bool {
    exists|i: int| 0 <= i < 11 && spec_position_from_index(i) == Some(pos)
}

proof fn lemma_injured_prefix_template(s: Seq<Option<NflPlayerV>>, n: int)
    ensures
        forall|j: int|
            0 <= j < spec_injured_prefix(s, n).len() ==> spec_is_template_position(
                (#[trigger] spec_injured_prefix(s, n)[j]).pos,
            ),
    decreases n,
{
    if n > 0 {
        lemma_injured_prefix_template(s, n - 1);
        let at = spec_injured_at(s[n - 1], n - 1);
        if at.len() > 0 {
            assert(spec_position_from_index(n - 1) == Some(at[0].pos));
            assert(0 <= n - 1 < 11);
        }
    }
}

proof fn lemma_empty_prefix_template(ids: Seq<Seq<char>>, n: int)
    ensures
        forall|j: int|
            0 <= j < spec_empty_prefix(ids, n).len() ==> spec_is_template_position(
                #[trigger] spec_empty_prefix(ids, n)[j],
            ),
    decreases n,
{
    if n > 0 {
        lemma_empty_prefix_template(ids, n - 1);
        let pre = spec_empty_prefix(ids, n - 1);
        let at = spec_empty_at(ids[n - 1], n - 1);
        assert forall|j: int|
            0 <= j < spec_empty_prefix(ids, n).len() implies spec_is_template_position(
            #[trigger] spec_empty_prefix(ids, n)[j],
        ) by {
            if j < pre.len() {
                assert(spec_empty_prefix(ids, n)[j] == pre[j]);
            } else {
                assert(spec_empty_prefix(ids, n)[j] == at[j - pre.len()]);
                assert(at[0] == spec_position_from_index(n - 1).unwrap());
                assert(0 <= n - 1 < 11);
            }
        }
    }
}

proof fn lemma_bye_prefix_template(s: Seq<Option<NflPlayerV>>, n: int, current_week: u8)
    ensures
        forall|j: int|
            0 <= j < spec_bye_prefix(s, n, current_week).len() ==> spec_is_template_position(
                (#[trigger] spec_bye_prefix(s, n, current_week)[j]).pos,
            ),
    decreases n,
{
    if n > 0 {
        lemma_bye_prefix_template(s, n - 1, current_week);
        let at = spec_bye_at(s[n - 1], n - 1, current_week);
        if at.len() > 0 {
            assert(spec_position_from_index(n - 1) == Some(at[0].pos));
            assert(0 <= n - 1 < 11);
        }
    }
}

/// Whatever the starters, the player table and the week: every finding of
/// an evaluation names a slot of the fixed 11-slot template, decoded from
/// its starter index.
pub proof fn lemma_findings_use_template_positions(
    ids: Seq<Seq<char>>,
    table: Map<Seq<char>, NflPlayerV>,
    current_week: u8,
)
    ensures
        forall|j: int|
            0 <= j < spec_evaluate(ids, table, current_week).0.len()
                ==> spec_is_template_position(
                (#[trigger] spec_evaluate(ids, table, current_week).0[j]).pos,
            ),
        forall|j: int|
            0 <= j < spec_evaluate(ids, table, current_week).1.len()
                ==> spec_is_template_position(
                #[trigger] spec_evaluate(ids, table, current_week).1[j],
            ),
        forall|j: int|
            0 <= j < spec_evaluate(ids, table, current_week).2.len()
                ==> spec_is_template_position(
                (#[trigger] spec_evaluate(ids, table, current_week).2[j]).pos,
            ),
{
    let s = spec_resolve(ids, table);
    lemma_injured_prefix_template(s, s.len() as int);
    lemma_empty_prefix_template(ids, ids.len() as int);
    lemma_bye_prefix_template(s, s.len() as int, current_week);
}

/// Evaluation is a pure function of its inputs: any two reports drawn from
/// the same starters, the same player table and the same week are the same
/// report, list for list and entry for entry.
pub proof fn lemma_evaluate_idempotent(
    ids: Seq<Seq<char>>,
    table: Map<Seq<char>, NflPlayerV>,
    current_week: u8,
    r1: (Seq<InjuredStarterV>, Seq<RosterPosition>, Seq<ByeStarterV>),
    r2: (Seq<InjuredStarterV>, Seq<RosterPosition>, Seq<ByeStarterV>),
)
    requires
        r1 == spec_evaluate(ids, table, current_week),
        r2 == spec_evaluate(ids, table, current_week),
    ensures
        r1 == r2,
{
}

/// How many of the first `n` starter ids are real (not the empty sentinel).
pub open spec fn spec_count_nonempty(ids: Seq<Seq<char>>, n: int) -> int
    decreases n,
{
    if n <= 0 {
        0
    } else {
        spec_count_nonempty(ids, n - 1) + (if ids[n - 1] == "0"@ { 0int } else { 1int })
    }
}

proof fn lemma_empty_prefix_partition(ids: Seq<Seq<char>>, n: int)
    requires
        n <= 11,
    ensures
        spec_empty_prefix(ids, n).len() + spec_count_nonempty(ids, n) == if n <= 0 { 0 } else { n },
    decreases n,
{
    if n > 0 {
        lemma_empty_prefix_partition(ids, n - 1);
    }
}

/// Every starter index is accounted for exactly once: the number of
/// empty-slot findings plus the number of indices holding a real starter
/// id equals the number of starters.
pub proof fn lemma_empty_findings_partition(ids: Seq<Seq<char>>)
    requires
        ids.len() <= 11,
    ensures
        spec_empty_list(ids).len() + spec_count_nonempty(ids, ids.len() as int) == ids.len(),
{
    lemma_empty_prefix_partition(ids, ids.len() as int);
}

proof fn lemma_injured_prefix_blocking(s: Seq<Option<NflPlayerV>>, n: int)
    ensures
        forall|j: int|
            0 <= j < spec_injured_prefix(s, n).len() ==> spec_is_injured(
                (#[trigger] spec_injured_prefix(s, n)[j]).status,
            ) is Some,
    decreases n,
{
    if n > 0 {
        lemma_injured_prefix_blocking(s, n - 1);
    }
}

/// No injured finding ever carries a start-allowing designation: a healthy
/// or merely questionable starter is never reported injured.
pub proof fn lemma_injured_findings_block(s: Seq<Option<NflPlayerV>>)
    ensures
        forall|j: int|
            0 <= j < spec_injured_list(s).len() ==> !((#[trigger] spec_injured_list(s)[j]).status
                is Healthy),
        forall|j: int|
            0 <= j < spec_injured_list(s).len() ==> !((#[trigger] spec_injured_list(s)[j]).status
                is Questionable),
{
    lemma_injured_prefix_blocking(s, s.len() as int);
}

/// A starter whose status reads "Questionable" yields no injured finding
/// at his index: the designation does not block a start.
pub proof fn lemma_questionable_yields_no_finding(s: Seq<Option<NflPlayerV>>, i: int)
    requires
        0 <= i < s.len(),
        s[i] is Some,
        s[i].unwrap().injury_status == Some("Questionable"@),
    ensures
        spec_injured_at(s[i], i) == Seq::<InjuredStarterV>::empty(),
{
    assert(spec_parse_status(Some("Questionable"@)) == Some(InjuryStatus::Questionable));
}

proof fn lemma_injured_at_in_prefix(
    s: Seq<Option<NflPlayerV>>,
    i: int,
    n: int,
    el: InjuredStarterV,
)
    requires
        0 <= i < n,
        spec_injured_at(s[i], i).contains(el),
    ensures
        spec_injured_prefix(s, n).contains(el),
    decreases n,
{
    if n == i + 1 {
        let k = choose|k: int|
            0 <= k < spec_injured_at(s[i], i).len() && #[trigger] spec_injured_at(s[i], i)[k] == el;
        assert(spec_injured_prefix(s, n)[spec_injured_prefix(s, i).len() + k] == el);
    } else {
        lemma_injured_at_in_prefix(s, i, n - 1, el);
        let j = choose|j: int|
            0 <= j < spec_injured_prefix(s, n - 1).len() && #[trigger] spec_injured_prefix(s, n - 1)[j] == el;
        assert(spec_injured_prefix(s, n)[j] == el);
    }
}

proof fn lemma_bye_at_in_prefix(
    s: Seq<Option<NflPlayerV>>,
    i: int,
    n: int,
    current_week: u8,
    el: ByeStarterV,
)
    requires
        0 <= i < n,
        spec_bye_at(s[i], i, current_week).contains(el),
    ensures
        spec_bye_prefix(s, n, current_week).contains(el),
    decreases n,
{
    if n == i + 1 {
        let k = choose|k: int|
            0 <= k < spec_bye_at(s[i], i, current_week).len() && #[trigger] spec_bye_at(
                s[i],
                i,
                current_week,
            )[k] == el;
        assert(spec_bye_prefix(s, n, current_week)[spec_bye_prefix(s, i, current_week).len() + k]
            == el);
    } else {
        lemma_bye_at_in_prefix(s, i, n - 1, current_week, el);
        let j = choose|j: int|
            0 <= j < spec_bye_prefix(s, n - 1, current_week).len() && #[trigger] spec_bye_prefix(
                s,
                n - 1,
                current_week,
            )[j] == el;
        assert(spec_bye_prefix(s, n, current_week)[j] == el);
    }
}

proof fn lemma_empty_at_in_prefix(ids: Seq<Seq<char>>, i: int, n: int, pos: RosterPosition)
    requires
        0 <= i < n,
        spec_empty_at(ids[i], i).contains(pos),
    ensures
        spec_empty_prefix(ids, n).contains(pos),
    decreases n,
{
    if n == i + 1 {
        let k = choose|k: int|
            0 <= k < spec_empty_at(ids[i], i).len() && #[trigger] spec_empty_at(ids[i], i)[k] == pos;
        assert(spec_empty_prefix(ids, n)[spec_empty_prefix(ids, i).len() + k] == pos);
    } else {
        lemma_empty_at_in_prefix(ids, i, n - 1, pos);
        let j = choose|j: int|
            0 <= j < spec_empty_prefix(ids, n - 1).len() && #[trigger] spec_empty_prefix(ids, n - 1)[j] == pos;
        assert(spec_empty_prefix(ids, n)[j] == pos);
    }
}

/// A starter whose status reads "Out" is always reported injured, at his
/// index's slot and under his display name.
pub proof fn lemma_out_starter_reported(s: Seq<Option<NflPlayerV>>, i: int)
    requires
        0 <= i < s.len() <= 11,
        s[i] is Some,
        s[i].unwrap().injury_status == Some("Out"@),
    ensures
        spec_injured_list(s).contains(
            InjuredStarterV {
                name: spec_display_name(s[i].unwrap()),
                status: InjuryStatus::Out,
                pos: spec_position_from_index(i).unwrap(),
            },
        ),
{
    assert(spec_parse_status(Some("Out"@)) == Some(InjuryStatus::Out)) by {
        reveal_strlit("Out");
        reveal_strlit("Questionable");
        reveal_strlit("Doubtful");
        assert("Out"@.len() == 3);
        assert("Questionable"@.len() == 12);
        assert("Doubtful"@.len() == 8);
    }
    let el = InjuredStarterV {
        name: spec_display_name(s[i].unwrap()),
        status: InjuryStatus::Out,
        pos: spec_position_from_index(i).unwrap(),
    };
    assert(spec_injured_at(s[i], i)[0] == el);
    lemma_injured_at_in_prefix(s, i, s.len() as int, el);
}

/// An empty slot — the sentinel id "0" — is reported at its decoded
/// position; and since the sentinel names no player (the player table
/// never carries it as a key), it yields neither an injured nor a bye
/// finding.
pub proof fn lemma_sentinel_slot(
    ids: Seq<Seq<char>>,
    table: Map<Seq<char>, NflPlayerV>,
    current_week: u8,
    i: int,
)
    requires
        0 <= i < ids.len() <= 11,
        ids[i] == "0"@,
        !table.contains_key("0"@),
    ensures
        spec_evaluate(ids, table, current_week).1.contains(spec_position_from_index(i).unwrap()),
        spec_resolve(ids, table)[i] is None,
        spec_injured_at(spec_resolve(ids, table)[i], i) == Seq::<InjuredStarterV>::empty(),
        spec_bye_at(spec_resolve(ids, table)[i], i, current_week) == Seq::<ByeStarterV>::empty(),
{
    let pos = spec_position_from_index(i).unwrap();
    assert(spec_empty_at(ids[i], i)[0] == pos);
    lemma_empty_at_in_prefix(ids, i, ids.len() as int, pos);
}

/// A free agent — a starter whose record names no team — is reported on
/// bye at his slot, whatever the current week is.
pub proof fn lemma_free_agent_reported(s: Seq<Option<NflPlayerV>>, current_week: u8, i: int)
    requires
        0 <= i < s.len() <= 11,
        s[i] is Some,
        s[i].unwrap().team is None,
    ensures
        spec_bye_list(s, current_week).contains(
            ByeStarterV {
                name: spec_combined_name(s[i].unwrap()),
                pos: spec_position_from_index(i).unwrap(),
            },
        ),
{
    assert(spec_parse_team(None) == Some(crate::brains::NflTeamAbbrv::FA));
    let el = ByeStarterV {
        name: spec_combined_name(s[i].unwrap()),
        pos: spec_position_from_index(i).unwrap(),
    };
    assert(spec_bye_at(s[i], i, current_week)[0] == el);
    lemma_bye_at_in_prefix(s, i, s.len() as int, current_week, el);
}

} // verus!
