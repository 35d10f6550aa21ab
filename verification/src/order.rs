//! Defensive re-sorting of the catalog by version.
//!
//! The runner does not assume the catalog arrives in order: it sorts the
//! units ascending by version before selecting what to apply.  The sort is
//! an insertion sort, specified by the recursive [`insert_sorted`] /
//! [`sort_units`] functions that the runner's contract is stated against.

use vstd::prelude::*;

use crate::catalog::{catalog_view, sorted_by_version, MigrationUnit, UnitView};

verus! {

/// `u` inserted into `s` before the first unit of version not below its
/// own.
pub open spec fn insert_sorted(u: UnitView, s: Seq<UnitView>) -> Seq<UnitView>
    decreases s.len(),
{
    if s.len() == 0 {
        seq![u]
    } else if u.version <= s[0].version {
        seq![u] + s
    } else {
        seq![s[0]] + insert_sorted(u, s.drop_first())
    }
}

/// The catalog sorted ascending by version: each unit inserted in turn.
pub open spec fn sort_units(c: Seq<UnitView>) -> Seq<UnitView>
    decreases c.len(),
{
    if c.len() == 0 {
        Seq::empty()
    } else {
        insert_sorted(c[0], sort_units(c.drop_first()))
    }
}

/// Where a scan for the insertion point stops, the insertion really
/// happens: `insert_sorted` splits `s` exactly there.
pub proof fn lemma_insert_sorted_at(u: UnitView, s: Seq<UnitView>, j: int)
    requires
        0 <= j <= s.len(),
        forall|k: int| 0 <= k < j ==> s[k].version < u.version,
        j < s.len() ==> s[j].version >= u.version,
    ensures
        insert_sorted(u, s) == s.take(j) + seq![u] + s.skip(j),
    decreases s.len(),
{
    if s.len() == 0 {
        assert(insert_sorted(u, s) =~= s.take(j) + seq![u] + s.skip(j));
    } else if u.version <= s[0].version {
        assert(j == 0);
        assert(insert_sorted(u, s) =~= s.take(0) + seq![u] + s.skip(0));
    } else {
        assert(j >= 1);
        assert(forall|k: int| 0 <= k < j - 1 ==> #[trigger] s.drop_first()[k].version
            < u.version) by {
            assert(forall|k: int| 0 <= k < j - 1 ==> s.drop_first()[k] == s[k + 1]);
        }
        lemma_insert_sorted_at(u, s.drop_first(), j - 1);
        assert(insert_sorted(u, s) == seq![s[0]] + (s.drop_first().take(j - 1) + seq![u]
            + s.drop_first().skip(j - 1)));
        assert(seq![s[0]] + (s.drop_first().take(j - 1) + seq![u] + s.drop_first().skip(j - 1))
            =~= s.take(j) + seq![u] + s.skip(j));
    }
}

/// The insertion point within an already sorted list.
pub open spec fn insert_pos(u: UnitView, s: Seq<UnitView>) -> int
    decreases s.len(),
{
    if s.len() == 0 {
        0
    } else if u.version <= s[0].version {
        0
    } else {
        1 + insert_pos(u, s.drop_first())
    }
}

/// In a sorted list the insertion point splits strictly-lower versions
/// from the rest.
pub proof fn lemma_insert_pos(u: UnitView, s: Seq<UnitView>)
    requires
        sorted_by_version(s),
    ensures
        0 <= insert_pos(u, s) <= s.len(),
        forall|k: int| 0 <= k < insert_pos(u, s) ==> s[k].version < u.version,
        insert_pos(u, s) < s.len() ==> s[insert_pos(u, s)].version >= u.version,
    decreases s.len(),
{
    if s.len() == 0 {
    } else if u.version <= s[0].version {
    } else {
        assert(forall|i: int, j: int| 0 <= i < j < s.drop_first().len()
            ==> #[trigger] s.drop_first()[i].version <= #[trigger] s.drop_first()[j].version) by {
            assert(forall|k: int| 0 <= k < s.drop_first().len() ==> s.drop_first()[k] == s[k + 1]);
        }
        lemma_insert_pos(u, s.drop_first());
        assert(forall|k: int| 0 <= k < insert_pos(u, s) ==> s[k].version < u.version) by {
            assert(forall|k: int| 1 <= k < insert_pos(u, s) ==> s[k] == s.drop_first()[k - 1]);
        }
        if insert_pos(u, s) < s.len() {
            assert(s[insert_pos(u, s)] == s.drop_first()[insert_pos(u, s.drop_first())]);
        }
    }
}

/// Sorting sorts: the result of [`sort_units`] is ascending by version,
/// and exactly as long as its input.
pub proof fn lemma_sort_units_sorted(c: Seq<UnitView>)
    ensures
        sorted_by_version(sort_units(c)),
        sort_units(c).len() == c.len(),
    decreases c.len(),
{
    if c.len() == 0 {
    } else {
        lemma_sort_units_sorted(c.drop_first());
        let s = sort_units(c.drop_first());
        let u = c[0];
        let p = insert_pos(u, s);
        lemma_insert_pos(u, s);
        lemma_insert_sorted_at(u, s, p);
        let r = insert_sorted(u, s);
        assert(r == s.take(p) + seq![u] + s.skip(p));
        assert(r.len() == s.len() + 1);
        assert forall|i: int, j: int| 0 <= i < j < r.len() implies r[i].version
            <= r[j].version by {
            if i < p {
                assert(r[i] == s[i]);
            } else if i == p {
                assert(r[i] == u);
            } else {
                assert(r[i] == s[i - 1]);
            }
            if j < p {
                assert(r[j] == s[j]);
            } else if j == p {
                assert(r[j] == u);
            } else {
                assert(r[j] == s[j - 1]);
            }
        }
    }
}

/// Sorting an already sorted catalog leaves it exactly as it is.
pub proof fn lemma_sort_sorted_id(c: Seq<UnitView>)
    requires
        sorted_by_version(c),
    ensures
        sort_units(c) == c,
    decreases c.len(),
{
    if c.len() == 0 {
        assert(sort_units(c) =~= c);
    } else {
        assert(forall|i: int, j: int| 0 <= i < j < c.drop_first().len()
            ==> #[trigger] c.drop_first()[i].version <= #[trigger] c.drop_first()[j].version) by {
            assert(forall|k: int| 0 <= k < c.drop_first().len() ==> c.drop_first()[k] == c[k + 1]);
        }
        lemma_sort_sorted_id(c.drop_first());
        if c.len() == 1 {
            assert(sort_units(c) =~= c);
        } else {
            assert(c[0].version <= c.drop_first()[0].version);
            assert(insert_sorted(c[0], c.drop_first()) == seq![c[0]] + c.drop_first());
            assert(seq![c[0]] + c.drop_first() =~= c);
        }
    }
}

/// Insert one unit into an already built prefix, at the position
/// [`insert_sorted`] gives it.
fn insert_unit(out: &mut Vec<MigrationUnit>, u: MigrationUnit)
    ensures
        catalog_view(final(out)@) == insert_sorted(u@, catalog_view(old(out)@)),
{
    let ghost s = catalog_view(out@);
    let mut j: usize = 0;
    while j < out.len() && out[j].version < u.version
        invariant
            j <= out.len(),
            s == catalog_view(out@),
            s.len() == out@.len(),
            forall|k: int| 0 <= k < j ==> s[k].version < u@.version,
        decreases out.len() - j,
    {
        j = j + 1;
    }
    proof {
        lemma_insert_sorted_at(u@, s, j as int);
    }
    out.insert(j, u);
    proof {
        assert(catalog_view(out@) =~= s.take(j as int) + seq![u@] + s.skip(j as int));
    }
}

/// The catalog sorted ascending by version.
pub fn sort_catalog(units: Vec<MigrationUnit>) -> (r: Vec<MigrationUnit>)
    ensures
        catalog_view(r@) == sort_units(catalog_view(units@)),
{
    let ghost orig = catalog_view(units@);
    let mut rest = units;
    let mut out: Vec<MigrationUnit> = Vec::new();
    while rest.len() > 0
        invariant
            rest@.len() <= orig.len(),
            catalog_view(rest@) == orig.take(rest@.len() as int),
            catalog_view(out@) == sort_units(orig.skip(rest@.len() as int)),
        decreases rest.len(),
    {
        let ghost k = rest@.len() as int;
        let ghost restv = rest@;
        let u = rest.pop().unwrap();
        proof {
            assert(u == restv[k - 1]);
            assert(catalog_view(restv)[k - 1] == restv[k - 1]@);
            assert(u@ == orig.take(k)[k - 1]);
            assert(u@ == orig[k - 1]);
            assert(catalog_view(rest@) =~= orig.take(k - 1));
            assert(orig.skip(k - 1).drop_first() =~= orig.skip(k));
            assert(orig.skip(k - 1)[0] == orig[k - 1]);
        }
        insert_unit(&mut out, u);
        proof {
            assert(sort_units(orig.skip(k - 1)) == insert_sorted(
                orig[k - 1],
                sort_units(orig.skip(k)),
            ));
        }
    }
    proof {
        assert(orig.skip(0) =~= orig);
    }
    out
}

} // verus!
