//! The engine's laws, proved once and for all over the spec-level
//! interpreter that [`crate::runner::apply`]'s contract is stated against:
//! a fresh database takes the whole catalog; a second run is a no-op; an
//! extended catalog applies only the new unit; a failed run stops exactly
//! at the state the applied prefix produced.

use vstd::prelude::*;

use crate::catalog::{
    catalog_ok, sorted_by_version, spec_catalog, spec_unit_add_task_priority_duedate_estimated,
    spec_unit_add_timer_session_columns, spec_unit_add_user_settings_goal_columns,
    spec_unit_create_initial_tables, spec_unit_insert_default_achievements,
    spec_unit_make_task_id_nullable, strictly_sorted, UnitView,
};
use crate::order::{lemma_sort_sorted_id, lemma_sort_units_sorted, sort_units};
use crate::schema::DbView;
use crate::semantics::{
    apply_seq, apply_unit_s, lemma_pending_skip, pending_from, Outcome,
};

verus! {

/// Every pending unit's version exceeds the version the selection was made
/// from.
proof fn lemma_pending_elems(c: Seq<UnitView>, v: int)
    ensures
        forall|j: int| 0 <= j < pending_from(c, v).len() ==> pending_from(c, v)[j].version > v,
    decreases c.len(),
{
    if c.len() == 0 {
    } else {
        lemma_pending_elems(c.drop_first(), v);
    }
}

/// When every unit is newer than the recorded version, all of them are
/// pending.
proof fn lemma_pending_all(c: Seq<UnitView>, v: int)
    requires
        forall|i: int| 0 <= i < c.len() ==> c[i].version > v,
    ensures
        pending_from(c, v) == c,
{
    lemma_pending_skip(c, v, 0);
    assert(c.skip(0) =~= c);
}

/// When no unit is newer than the recorded version, nothing is pending.
proof fn lemma_pending_none(c: Seq<UnitView>, v: int)
    requires
        forall|i: int| 0 <= i < c.len() ==> c[i].version <= v,
    ensures
        pending_from(c, v) == Seq::<UnitView>::empty(),
{
    lemma_pending_skip(c, v, c.len() as int);
    assert(c.skip(c.len() as int) =~= Seq::<UnitView>::empty());
}

/// Pending selection distributes over catalog concatenation.
proof fn lemma_pending_concat(a: Seq<UnitView>, b: Seq<UnitView>, v: int)
    ensures
        pending_from(a + b, v) == pending_from(a, v) + pending_from(b, v),
    decreases a.len(),
{
    if a.len() == 0 {
        assert(a + b =~= b);
        assert(pending_from(a, v) + pending_from(b, v) =~= pending_from(b, v));
    } else {
        assert((a + b).drop_first() =~= a.drop_first() + b);
        lemma_pending_concat(a.drop_first(), b, v);
        if a[0].version > v {
            assert(seq![a[0]] + (pending_from(a.drop_first(), v) + pending_from(b, v))
                =~= pending_from(a, v) + pending_from(b, v));
        }
    }
}

/// In a sorted catalog the pending units are a suffix, and everything
/// before that suffix is at or below the recorded version.
proof fn lemma_pending_suffix(s: Seq<UnitView>, v: int)
    requires
        sorted_by_version(s),
    ensures
        pending_from(s, v).len() <= s.len(),
        pending_from(s, v) == s.skip(s.len() - pending_from(s, v).len()),
        forall|k: int| 0 <= k < s.len() - pending_from(s, v).len() ==> s[k].version <= v,
    decreases s.len(),
{
    if s.len() == 0 {
        assert(pending_from(s, v) =~= s.skip(0));
    } else if s[0].version > v {
        assert forall|i: int| 0 <= i < s.len() implies s[i].version > v by {
            if i > 0 {
                assert(s[0].version <= s[i].version);
            }
        }
        lemma_pending_all(s, v);
        assert(s.skip(0) =~= s);
    } else {
        assert(forall|k: int| 0 <= k < s.drop_first().len() ==> s.drop_first()[k] == s[k + 1]);
        lemma_pending_suffix(s.drop_first(), v);
        let p = pending_from(s, v);
        assert(p == pending_from(s.drop_first(), v));
        assert(s.drop_first().skip(s.drop_first().len() - p.len()) =~= s.skip(s.len() - p.len()));
        assert forall|k: int| 0 <= k < s.len() - p.len() implies s[k].version <= v by {
            if k >= 1 {
                assert(s.drop_first()[k - 1].version <= v);
            }
        }
    }
}

/// A run that applies every unit ends at the last unit's version; an empty
/// run leaves the database untouched.
proof fn lemma_apply_seq_done_version(db: DbView, us: Seq<UnitView>)
    requires
        apply_seq(db, us) is Done,
    ensures
        us.len() == 0 ==> apply_seq(db, us).db() == db,
        us.len() > 0 ==> apply_seq(db, us).db().version == us.last().version,
    decreases us.len(),
{
    if us.len() == 0 {
    } else {
        let d1 = apply_unit_s(db, us[0])->Ok_0;
        lemma_apply_seq_done_version(d1, us.drop_first());
        if us.len() == 1 {
            assert(us.drop_first().len() == 0);
        } else {
            assert(us.drop_first().last() == us.last());
        }
    }
}

/// On a fresh database every unit of a strictly ordered catalog of
/// positive versions is pending, so a run applies each exactly once, in
/// catalog order; when the run completes, the recorded version is the
/// greatest version the catalog holds.
pub proof fn lemma_fresh_apply_applies_all(db: DbView, c: Seq<UnitView>)
    requires
        db.version == 0,
        strictly_sorted(c),
        forall|i: int| 0 <= i < c.len() ==> c[i].version >= 1,
    ensures
        sort_units(c) == c,
        pending_from(sort_units(c), db.version) == c,
        apply_seq(db, c) is Done && c.len() > 0 ==> apply_seq(db, c).db().version
            == c.last().version && (forall|i: int|
            0 <= i < c.len() ==> c[i].version <= apply_seq(db, c).db().version),
{
    lemma_sort_sorted_id(c);
    lemma_pending_all(c, 0);
    if apply_seq(db, c) is Done && c.len() > 0 {
        lemma_apply_seq_done_version(db, c);
        assert forall|i: int| 0 <= i < c.len() implies c[i].version <= apply_seq(
            db,
            c,
        ).db().version by {
            if i < c.len() - 1 {
                assert(c[i].version < c[c.len() - 1].version);
            }
        }
    }
}

/// After a run that applied every pending unit, every unit of the catalog
/// sits at or below the recorded version.
proof fn lemma_done_dominates(db: DbView, c: Seq<UnitView>, d: DbView)
    requires
        apply_seq(db, pending_from(sort_units(c), db.version)) == (Outcome::Done { db: d }),
    ensures
        db.version <= d.version,
        forall|k: int| 0 <= k < sort_units(c).len() ==> sort_units(c)[k].version <= d.version,
{
    let s = sort_units(c);
    lemma_sort_units_sorted(c);
    let p = pending_from(s, db.version);
    lemma_pending_elems(s, db.version);
    lemma_pending_suffix(s, db.version);
    lemma_apply_seq_done_version(db, p);
    let idx = s.len() - p.len();
    if p.len() == 0 {
        assert(d == db);
    } else {
        assert(d.version == p.last().version);
        assert(p.last().version > db.version);
    }
    assert forall|k: int| 0 <= k < s.len() implies s[k].version <= d.version by {
        if k < idx {
            assert(s[k].version <= db.version);
        } else {
            assert(s[k] == p[k - idx]);
            assert(p[p.len() - 1] == s[s.len() - 1]);
            assert(s[k].version <= s[s.len() - 1].version);
        }
    }
}

/// Re-running the same catalog is a no-op: once a run has ended with every
/// pending unit applied, nothing is pending any more, and a second run
/// ends at once, in the same state, with zero units applied.
pub proof fn lemma_second_run_is_noop(db: DbView, c: Seq<UnitView>, d: DbView)
    requires
        apply_seq(db, pending_from(sort_units(c), db.version)) == (Outcome::Done { db: d }),
    ensures
        pending_from(sort_units(c), d.version) == Seq::<UnitView>::empty(),
        apply_seq(d, pending_from(sort_units(c), d.version)) == (Outcome::Done { db: d }),
{
    lemma_done_dominates(db, c, d);
    lemma_pending_none(sort_units(c), d.version);
}

/// Extending a fully applied catalog with one newer unit leaves exactly
/// that unit pending: a run of the extended catalog attempts it alone,
/// and when its operation succeeds the run applies that one unit and
/// records its version — no earlier unit is re-executed.
pub proof fn lemma_extension_applies_only_new(
    db: DbView,
    c1: Seq<UnitView>,
    u: UnitView,
    d: DbView,
)
    requires
        sorted_by_version(c1),
        forall|i: int| 0 <= i < c1.len() ==> c1[i].version < u.version,
        u.version > db.version,
        apply_seq(db, pending_from(sort_units(c1), db.version)) == (Outcome::Done { db: d }),
    ensures
        sort_units(c1 + seq![u]) == c1 + seq![u],
        pending_from(sort_units(c1 + seq![u]), d.version) == seq![u],
        apply_unit_s(d, u) is Ok ==> apply_seq(d, pending_from(sort_units(c1 + seq![u]), d.version))
            == (Outcome::Done { db: apply_unit_s(d, u)->Ok_0 }) && (apply_unit_s(d,
        u)->Ok_0).version == u.version,
{
    lemma_sort_sorted_id(c1);
    lemma_done_dominates(db, c1, d);
    let c2 = c1 + seq![u];
    assert(sorted_by_version(c2));
    lemma_sort_sorted_id(c2);
    lemma_pending_concat(c1, seq![u], d.version);
    lemma_pending_none(c1, d.version);
    assert(u.version > d.version) by {
        if pending_from(c1, db.version).len() == 0 {
            lemma_apply_seq_done_version(db, pending_from(c1, db.version));
        } else {
            lemma_apply_seq_done_version(db, pending_from(c1, db.version));
            lemma_pending_suffix(c1, db.version);
            let p = pending_from(c1, db.version);
            assert(p.last() == c1[c1.len() - 1]);
        }
    }
    assert(seq![u].drop_first() =~= Seq::<UnitView>::empty());
    assert(pending_from(Seq::<UnitView>::empty(), d.version) == Seq::<UnitView>::empty());
    assert(pending_from(seq![u], d.version) =~= seq![u]);
    assert(pending_from(c1, d.version) + pending_from(seq![u], d.version) =~= seq![u]);
    if apply_unit_s(d, u) is Ok {
        let d2 = apply_unit_s(d, u)->Ok_0;
        assert(seq![u][0] == u);
        assert(apply_seq(d2, Seq::<UnitView>::empty()) == (Outcome::Done { db: d2 }));
        assert(apply_seq(d, seq![u]) == (Outcome::Done { db: d2 }));
    }
}

/// The shipped catalog meets the fresh-run law's premises: its six
/// versions are 1 to 6 in order, so it is accepted by the runner, every
/// unit of it is pending on a fresh database and applied exactly once in
/// catalog order, and a run that completes records version 6.
pub proof fn lemma_shipped_catalog_fresh_run(db: DbView)
    requires
        db.version == 0,
    ensures
        spec_catalog().len() == 6,
        strictly_sorted(spec_catalog()),
        catalog_ok(spec_catalog()),
        sort_units(spec_catalog()) == spec_catalog(),
        pending_from(sort_units(spec_catalog()), db.version) == spec_catalog(),
        apply_seq(db, spec_catalog()) is Done ==> apply_seq(db, spec_catalog()).db().version == 6,
{
    let c = spec_catalog();
    assert(c[0] == spec_unit_create_initial_tables());
    assert(c[1] == spec_unit_insert_default_achievements());
    assert(c[2] == spec_unit_add_timer_session_columns());
    assert(c[3] == spec_unit_make_task_id_nullable());
    assert(c[4] == spec_unit_add_task_priority_duedate_estimated());
    assert(c[5] == spec_unit_add_user_settings_goal_columns());
    assert(forall|i: int| 0 <= i < 6 ==> (#[trigger] c[i]).version == i + 1);
    assert(forall|i: int| 0 <= i < 6 ==> (#[trigger] c[i]).ops.len() > 0);
    lemma_fresh_apply_applies_all(db, c);
}

/// A failed run stops cleanly: some prefix of the units was applied in
/// full, the database stands exactly at the state that prefix produced,
/// and the unit right after the prefix is the one the failure names — it
/// left no trace.
pub proof fn lemma_failure_is_clean_prefix(db: DbView, us: Seq<UnitView>) -> (k: int)
    requires
        apply_seq(db, us) is Failed,
    ensures
        0 <= k < us.len(),
        apply_seq(db, us.take(k)) == (Outcome::Done { db: apply_seq(db, us).db() }),
        apply_seq(db, us) == (Outcome::Failed {
            db: apply_seq(db, us).db(),
            version: us[k].version,
            description: us[k].description,
            cause: apply_unit_s(apply_seq(db, us).db(), us[k])->Err_0,
        }),
    decreases us.len(),
{
    if us.len() == 0 {
        0
    } else if apply_unit_s(db, us[0]) is Err {
        assert(us.take(0) =~= Seq::<UnitView>::empty());
        0
    } else {
        let d1 = apply_unit_s(db, us[0])->Ok_0;
        assert(apply_seq(db, us) == apply_seq(d1, us.drop_first()));
        let k0 = lemma_failure_is_clean_prefix(d1, us.drop_first());
        assert(us.take(k0 + 1)[0] == us[0]);
        assert(us.take(k0 + 1).drop_first() =~= us.drop_first().take(k0));
        assert(apply_seq(db, us.take(k0 + 1)) == apply_seq(d1, us.drop_first().take(k0)));
        assert(us[k0 + 1] == us.drop_first()[k0]);
        k0 + 1
    }
}

} // verus!

