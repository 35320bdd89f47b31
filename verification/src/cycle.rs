//! The change-detection coordinator's planning step: given the
//! known-identifier set read at the start of a cycle and each site's
//! search outcome, decide which records are new and which sites failed.
//! A failed site never aborts the cycle; its records are simply absent.

use vstd::prelude::*;

use crate::models::Jacket;
use crate::text::str_eq;

verus! {

/// One site's search outcome: its records, or the transport error that
/// aborted its walk.
pub struct SiteResult {
    pub site: String,
    pub outcome: Result<Vec<Jacket>, String>,
}

/// What one polling cycle decides: the records to persist and notify, in
/// discovery order, and the sites whose searches failed.
pub struct CyclePlan {
    pub new_records: Vec<Jacket>,
    pub failed_sites: Vec<String>,
}

/// The identities of a record sequence, in order.
pub open spec fn ids_of(records: Seq<Jacket>) -> Seq<Seq<char>> {
    records.map_values(|j: Jacket| j.id@)
}

/// The records whose identity is absent from the known set, in order;
/// a record is emitted as new exactly when its identity was not known
/// when the cycle began.
pub open spec fn new_records(known: Seq<Seq<char>>, records: Seq<Jacket>) -> Seq<Jacket>
    decreases records.len(),
{
    if records.len() == 0 {
        Seq::empty()
    } else {
        let rest = new_records(known, records.drop_first());
        if !known.contains(records.first().id@) {
            seq![records.first()] + rest
        } else {
            rest
        }
    }
}

/// The concatenation of every successful site's records, in site order.
pub open spec fn union_of(outcomes: Seq<SiteResult>) -> Seq<Jacket>
    decreases outcomes.len(),
{
    if outcomes.len() == 0 {
        Seq::empty()
    } else {
        (match outcomes.first().outcome {
            Ok(v) => v@,
            Err(_) => Seq::empty(),
        }) + union_of(outcomes.drop_first())
    }
}

/// The names of the sites whose searches failed, in site order.
pub open spec fn failed_of(outcomes: Seq<SiteResult>) -> Seq<Seq<char>>
    decreases outcomes.len(),
{
    if outcomes.len() == 0 {
        Seq::empty()
    } else {
        (match outcomes.first().outcome {
            Ok(_) => Seq::empty(),
            Err(_) => seq![outcomes.first().site@],
        }) + failed_of(outcomes.drop_first())
    }
}

fn known_contains(known: &Vec<String>, id: &String) -> (r: bool)
    ensures
        r == known@.map_values(|s: String| s@).contains(id@),
{
    let ghost knownv = known@.map_values(|s: String| s@);
    let mut i: usize = 0;
    while i < known.len()
        invariant
            knownv == known@.map_values(|s: String| s@),
            0 <= i <= known@.len(),
            forall|j: int| 0 <= j < i ==> knownv[j] != id@,
        decreases known.len() - i,
    {
        if str_eq(known[i].as_str(), id.as_str()) {
            assert(knownv[i as int] == id@);
            return true;
        }
        i += 1;
    }
    false
}

/// Plans one cycle: every record of every successful site, in site and
/// discovery order, is emitted as new exactly when its identity is
/// absent from the known set read before the cycle; failed sites are
/// reported and abort nothing.
pub fn plan_cycle(known: &Vec<String>, outcomes: Vec<SiteResult>) -> (r: CyclePlan)
    ensures
        r.new_records@ == new_records(
            known@.map_values(|s: String| s@),
            union_of(outcomes@),
        ),
        r.failed_sites@.map_values(|s: String| s@) == failed_of(outcomes@),
{
    let ghost knownv = known@.map_values(|s: String| s@);
    let ghost outcomes_orig = outcomes@;
    let mut new_recs: Vec<Jacket> = Vec::new();
    let mut failed: Vec<String> = Vec::new();
    let mut rest = outcomes;
    proof {
        assert(new_recs@ + new_records(knownv, union_of(rest@)) =~= new_records(
            knownv,
            union_of(outcomes_orig),
        ));
        assert(failed@.map_values(|s: String| s@) + failed_of(rest@) =~= failed_of(outcomes_orig));
    }
    while rest.len() > 0
        invariant
            knownv == known@.map_values(|s: String| s@),
            new_records(knownv, union_of(outcomes_orig)) == new_recs@ + new_records(
                knownv,
                union_of(rest@),
            ),
            failed_of(outcomes_orig) == failed@.map_values(|s: String| s@) + failed_of(rest@),
        decreases rest.len(),
    {
        let ghost rest_pre = rest@;
        let sr = rest.remove(0);
        proof {
            assert(rest_pre.first() == sr);
            assert(rest_pre.drop_first() =~= rest@);
        }
        match sr.outcome {
            Ok(records) => {
                let ghost records_orig = records@;
                let mut recs = records;
                proof {
                    assert(union_of(rest_pre) =~= records_orig + union_of(rest@));
                }
                while recs.len() > 0
                    invariant
                        knownv == known@.map_values(|s: String| s@),
                        new_records(knownv, union_of(outcomes_orig)) == new_recs@ + new_records(
                            knownv,
                            recs@ + union_of(rest@),
                        ),
                        failed_of(outcomes_orig) == failed@.map_values(|s: String| s@) + failed_of(
                            rest@,
                        ),
                    decreases recs.len(),
                {
                    let ghost recs_pre = recs@;
                    let ghost stream = recs_pre + union_of(rest@);
                    let c = recs.remove(0);
                    proof {
                        assert(stream.first() == c);
                        assert(stream.drop_first() =~= recs@ + union_of(rest@));
                    }
                    if !known_contains(known, &c.id) {
                        let ghost new_pre = new_recs@;
                        new_recs.push(c);
                        proof {
                            assert(new_recs@ =~= new_pre + seq![stream.first()]);
                            assert(new_pre + (seq![stream.first()] + new_records(
                                knownv,
                                stream.drop_first(),
                            )) =~= new_recs@ + new_records(knownv, stream.drop_first()));
                        }
                    }
                }
                proof {
                    assert(recs@ + union_of(rest@) =~= union_of(rest@));
                }
            },
            Err(_) => {
                let ghost failed_pre = failed@;
                failed.push(sr.site);
                proof {
                    assert(failed@.map_values(|s: String| s@) =~= failed_pre.map_values(
                        |s: String| s@,
                    ) + seq![rest_pre.first().site@]);
                    assert(failed_pre.map_values(|s: String| s@) + (seq![rest_pre.first().site@]
                        + failed_of(rest@)) =~= failed@.map_values(|s: String| s@) + failed_of(
                        rest@,
                    ));
                    assert(union_of(rest_pre) =~= union_of(rest@));
                }
            },
        }
    }
    proof {
        assert(new_recs@ + new_records(knownv, union_of(rest@)) =~= new_recs@);
        assert(failed@.map_values(|s: String| s@) + failed_of(rest@) =~= failed@.map_values(
            |s: String| s@,
        ));
    }
    CyclePlan { new_records: new_recs, failed_sites: failed }
}

proof fn lemma_new_empty_when_known(known: Seq<Seq<char>>, records: Seq<Jacket>)
    requires
        forall|k: int| 0 <= k < records.len() ==> known.contains(#[trigger] records[k].id@),
    ensures
        new_records(known, records).len() == 0,
    decreases records.len(),
{
    if records.len() > 0 {
        assert(records[0].id@ == records.first().id@);
        assert forall|k: int|
            0 <= k < records.drop_first().len() implies known.contains(
            #[trigger] records.drop_first()[k].id@,
        ) by {
            assert(records.drop_first()[k] == records[k + 1]);
        }
        lemma_new_empty_when_known(known, records.drop_first());
    }
}

proof fn lemma_ids_covered(known: Seq<Seq<char>>, records: Seq<Jacket>)
    ensures
        forall|k: int|
            0 <= k < records.len() ==> known.contains(#[trigger] records[k].id@) || ids_of(
                new_records(known, records),
            ).contains(records[k].id@),
    decreases records.len(),
{
    if records.len() > 0 {
        lemma_ids_covered(known, records.drop_first());
        let rest = new_records(known, records.drop_first());
        let full = new_records(known, records);
        assert forall|k: int|
            0 <= k < records.len() implies known.contains(#[trigger] records[k].id@) || ids_of(
            full,
        ).contains(records[k].id@) by {
            if k == 0 {
                if !known.contains(records.first().id@) {
                    assert(full[0] == records.first());
                    assert(ids_of(full)[0] == records[0].id@);
                }
            } else {
                assert(records.drop_first()[k - 1] == records[k]);
                if !known.contains(records[k].id@) {
                    let w = choose|w: int|
                        0 <= w < ids_of(rest).len() && ids_of(rest)[w] == records[k].id@;
                    if known.contains(records.first().id@) {
                        assert(full == rest);
                        assert(ids_of(full)[w] == records[k].id@);
                    } else {
                        assert(full == seq![records.first()] + rest);
                        assert(full[w + 1] == rest[w]);
                        assert(ids_of(full)[w + 1] == records[k].id@);
                    }
                }
            }
        }
    }
}

/// Law: a cycle re-run against an unchanged source set finds nothing
/// new. Once the identities of a run's new records join the known set,
/// planning the same records again emits zero records.
pub proof fn lemma_cycle_idempotent(known: Seq<Seq<char>>, records: Seq<Jacket>)
    ensures
        new_records(known + ids_of(new_records(known, records)), records).len() == 0,
{
    let ids = ids_of(new_records(known, records));
    let known2 = known + ids;
    lemma_ids_covered(known, records);
    assert forall|k: int| 0 <= k < records.len() implies known2.contains(
        #[trigger] records[k].id@,
    ) by {
        if known.contains(records[k].id@) {
            let w = choose|w: int| 0 <= w < known.len() && known[w] == records[k].id@;
            assert(known2[w] == records[k].id@);
        } else {
            let w = choose|w: int| 0 <= w < ids.len() && ids[w] == records[k].id@;
            assert(known2[known.len() + w] == records[k].id@);
        }
    }
    lemma_new_empty_when_known(known2, records);
}

} // verus!
