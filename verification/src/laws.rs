//! The laws the library is answerable to, each proved once and for all
//! inputs: empty input is a no-op, skipped records change nothing, one
//! unrecognized root forces a full purge, a targeted body lists exactly
//! the classified targets in order, and a dry run never asks for a
//! request and does not depend on the credentials.

use crate::classify::{
    any_forces_full, classify_spec, contributes, folder_for, forces_full, key_of, path_of,
    skip_rule, target_of, targets_of, DecisionSpec,
};
use crate::dispatch::{
    auth_header_spec, dispatch_spec, purge_url_spec, OutcomeSpec, PlanSpec, RequestSpec,
};
use crate::payload::files_body;
use vstd::prelude::*;

verus! {

/// The record predicate that `targets_of` keeps, as one shared value.
pub open spec fn contributes_pred() -> spec_fn(Seq<char>) -> bool {
    |l: Seq<char>| contributes(l)
}

/// The record-to-target map of a domain, as one shared value.
pub open spec fn target_fn(domain: Seq<char>) -> spec_fn(Seq<char>) -> Seq<char> {
    |l: Seq<char>| target_of(l, domain)
}

/// Targets split over concatenation: classifying two record lists one
/// after the other yields the two target lists one after the other.
pub proof fn lemma_targets_of_concat(a: Seq<Seq<char>>, b: Seq<Seq<char>>, domain: Seq<char>)
    ensures
        targets_of(a + b, domain) == targets_of(a, domain) + targets_of(b, domain),
    decreases b.len(),
{
    if b.len() == 0 {
        assert(a + b =~= a);
        assert(targets_of(a, domain) + targets_of(b, domain) =~= targets_of(a, domain));
    } else {
        lemma_targets_of_concat(a, b.drop_last(), domain);
        assert((a + b).drop_last() =~= a + b.drop_last());
        assert((a + b).last() == b.last());
        if contributes(b.last()) {
            assert(targets_of(a, domain) + targets_of(b.drop_last(), domain).push(
                target_of(b.last(), domain),
            ) =~= (targets_of(a, domain) + targets_of(b.drop_last(), domain)).push(
                target_of(b.last(), domain),
            ));
        }
    }
}

/// With no change records there is nothing to do: classification yields
/// an empty targeted decision, and dispatching it is a no-op whatever
/// the dry-run flag says.
pub proof fn lemma_empty_records_no_op(
    domain: Seq<char>,
    token: Seq<char>,
    zone: Seq<char>,
    dry_run: bool,
)
    ensures
        classify_spec(Seq::empty(), domain) == DecisionSpec::Targeted(
            Seq::<Seq<char>>::empty(),
        ),
        dispatch_spec(
            DecisionSpec::Targeted(Seq::<Seq<char>>::empty()),
            token,
            zone,
            dry_run,
        ) == PlanSpec::Done(OutcomeSpec::Nothing),
{
}

/// A skipped record — one whose folder key starts with `.` (hidden
/// folders and the root sentinel) or equals `archetypes` — contributes
/// nothing: removing it from anywhere in the record list leaves the
/// decision unchanged.
pub proof fn lemma_skipped_record_ignored(
    pre: Seq<Seq<char>>,
    line: Seq<char>,
    post: Seq<Seq<char>>,
    domain: Seq<char>,
)
    requires
        skip_rule(key_of(path_of(line))),
    ensures
        classify_spec(pre + seq![line] + post, domain) == classify_spec(pre + post, domain),
{
    let with = pre + seq![line] + post;
    let without = pre + post;
    assert(!forces_full(line));
    assert(!contributes(line));
    assert(with[pre.len() as int] == line);
    if any_forces_full(with) {
        let i = choose|i: int| 0 <= i < with.len() && forces_full(with[i]);
        if i < pre.len() {
            assert(without[i] == pre[i]);
            assert(with[i] == pre[i]);
            assert(any_forces_full(without));
        } else {
            assert(i != pre.len());
            assert(with[i] == post[i - pre.len() - 1]);
            assert(without[i - 1] == post[i - pre.len() - 1]);
            assert(any_forces_full(without));
        }
    }
    if any_forces_full(without) {
        let i = choose|i: int| 0 <= i < without.len() && forces_full(without[i]);
        if i < pre.len() {
            assert(with[i] == pre[i]);
            assert(without[i] == pre[i]);
        } else {
            assert(without[i] == post[i - pre.len()]);
            assert(with[i + 1] == post[i - pre.len()]);
        }
        assert(any_forces_full(with));
    }
    lemma_targets_of_concat(pre + seq![line], post, domain);
    lemma_targets_of_concat(pre, seq![line], domain);
    lemma_targets_of_concat(pre, post, domain);
    assert(seq![line].len() == 1);
    assert(seq![line].last() == line);
    assert(seq![line].drop_last() =~= Seq::<Seq<char>>::empty());
    assert(targets_of(Seq::<Seq<char>>::empty(), domain) =~= Seq::<Seq<char>>::empty());
    assert(targets_of(seq![line], domain) =~= Seq::<Seq<char>>::empty());
    assert(targets_of(pre, domain) + Seq::<Seq<char>>::empty() =~= targets_of(pre, domain));
    assert(targets_of(with, domain) == targets_of(without, domain));
}

/// The decision is a full purge exactly when some record's folder key is
/// neither skipped nor a recognized root; one such record suffices, and
/// a full purge carries no targets.
pub proof fn lemma_full_iff_unrecognized(lines: Seq<Seq<char>>, domain: Seq<char>)
    ensures
        (classify_spec(lines, domain) is Full) <==> (exists|i: int|
            0 <= i < lines.len() && forces_full(lines[i])),
{
}

/// The classified targets are exactly the contributing records, in
/// record order, each mapped to its target.
pub proof fn lemma_targets_are_filtered(lines: Seq<Seq<char>>, domain: Seq<char>)
    ensures
        targets_of(lines, domain) == lines.filter(contributes_pred()).map_values(
            target_fn(domain),
        ),
    decreases lines.len(),
{
    reveal(Seq::filter);
    if lines.len() == 0 {
        assert(lines.filter(contributes_pred()) == lines);
        assert(lines.map_values(target_fn(domain)) =~= Seq::<Seq<char>>::empty());
    } else {
        lemma_targets_are_filtered(lines.drop_last(), domain);
        let f = lines.drop_last().filter(contributes_pred());
        assert(contributes_pred()(lines.last()) == contributes(lines.last()));
        if contributes(lines.last()) {
            assert(lines.filter(contributes_pred()) == f.push(lines.last()));
            assert(f.push(lines.last()).map_values(target_fn(domain)) =~= f.map_values(
                target_fn(domain),
            ).push(target_of(lines.last(), domain)));
        } else {
            assert(lines.filter(contributes_pred()) == f);
        }
    }
}

/// Round trip from records to wire body: when classification is
/// targeted, the decision's target list is the contributing records in
/// order, each target is the domain, a slash and the record's resolved
/// folder, and the non-dry-run plan sends exactly the files body of
/// that list to the zone's purge endpoint with the token's bearer
/// authorization.
pub proof fn lemma_targeted_round_trip(
    lines: Seq<Seq<char>>,
    domain: Seq<char>,
    token: Seq<char>,
    zone: Seq<char>,
)
    requires
        classify_spec(lines, domain) is Targeted,
    ensures
        ({
            let ts = classify_spec(lines, domain)->Targeted_0;
            &&& ts == lines.filter(contributes_pred()).map_values(target_fn(domain))
            &&& forall|k: int|
                0 <= k < ts.len() ==> ts[k] == domain + seq!['/'] + folder_for(
                    path_of(lines.filter(contributes_pred())[k]),
                )
            &&& ts.len() > 0 ==> dispatch_spec(DecisionSpec::Targeted(ts), token, zone, false)
                == PlanSpec::Send(
                RequestSpec {
                    url: purge_url_spec(zone),
                    auth: auth_header_spec(token),
                    body: files_body(ts),
                },
            )
        }),
{
    lemma_targets_are_filtered(lines, domain);
    let ts = classify_spec(lines, domain)->Targeted_0;
    let kept = lines.filter(contributes_pred());
    assert forall|k: int| 0 <= k < ts.len() implies ts[k] == domain + seq!['/'] + folder_for(
        path_of(kept[k]),
    ) by {
        assert(ts[k] == target_fn(domain)(kept[k]));
    }
}

/// A dry run is idempotent and local: it never asks for a request, its
/// reported outcome does not depend on the token or the zone, and two
/// dry runs of the same decision report the same thing.
pub proof fn lemma_dry_run_idempotent(
    d: DecisionSpec,
    token: Seq<char>,
    zone: Seq<char>,
    token2: Seq<char>,
    zone2: Seq<char>,
)
    ensures
        dispatch_spec(d, token, zone, true) is Done,
        dispatch_spec(d, token, zone, true) == dispatch_spec(d, token2, zone2, true),
{
}

} // verus!
