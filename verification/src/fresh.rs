//! A deterministic, collision-free generator of private identifier names.
//!
//! Anonymous `export default` forms and synthesized re-export bindings need a
//! module-local identifier that collides with no name already bound at the
//! module's top level. The generator is scope-seeded: the caller hands over
//! the names already in use. When the preferred name is itself free it is
//! used as is; otherwise it is extended with a marker character and every
//! taken name, which makes the result strictly longer than, and therefore
//! different from, each of them.

use vstd::prelude::*;

verus! {

use vstd::string::StringExecFns;

/// The concatenation of `base` with every name in `taken`, in order.
pub open spec fn spec_append_all(base: Seq<char>, taken: Seq<Seq<char>>) -> Seq<char>
    decreases taken.len(),
{
    if taken.len() == 0 {
        base
    } else {
        spec_append_all(base, taken.drop_last()) + taken.last()
    }
}

/// The name `fresh_name` returns: `base` itself when it is not taken,
/// otherwise `base` extended with `_` and every taken name.
pub open spec fn spec_fresh(taken: Seq<Seq<char>>, base: Seq<char>) -> Seq<char> {
    if taken.contains(base) {
        spec_append_all(base + "_"@, taken)
    } else {
        base
    }
}

proof fn lemma_append_all_longer(base: Seq<char>, taken: Seq<Seq<char>>)
    ensures
        spec_append_all(base, taken).len() >= base.len(),
        forall|i: int|
            0 <= i < taken.len() ==> spec_append_all(base, taken).len() >= base.len()
                + taken[i].len(),
    decreases taken.len(),
{
    if taken.len() > 0 {
        lemma_append_all_longer(base, taken.drop_last());
        assert forall|i: int| 0 <= i < taken.len() implies spec_append_all(base, taken).len()
            >= base.len() + taken[i].len() by {
            if i < taken.len() - 1 {
                assert(taken.drop_last()[i] == taken[i]);
            }
        }
    }
}

/// The generated name is never one of the taken names.
pub proof fn lemma_fresh_not_taken(taken: Seq<Seq<char>>, base: Seq<char>)
    ensures
        !taken.contains(spec_fresh(taken, base)),
{
    if taken.contains(base) {
        reveal_strlit("_");
        lemma_append_all_longer(base + "_"@, taken);
        let r = spec_fresh(taken, base);
        if taken.contains(r) {
            let i = choose|i: int| 0 <= i < taken.len() && taken[i] == r;
            assert(r.len() >= base.len() + 1 + taken[i].len());
            assert(false);
        }
    }
}

/// Returns a name that is not in `taken`: the preferred `base` when it is
/// free, otherwise `base` extended past the length of every taken name.
pub fn fresh_name(taken: &Vec<String>, base: &str) -> (r: String)
    ensures
        r@ == spec_fresh(taken.deep_view(), base@),
        !taken.deep_view().contains(r@),
{
    let ghost views = taken.deep_view();
    let base_owned: String = base.to_owned();
    let mut found = false;
    let mut i: usize = 0;
    while i < taken.len()
        invariant
            i <= taken.len(),
            views == taken.deep_view(),
            base_owned@ == base@,
            found == exists|j: int| 0 <= j < i && views[j] == base@,
        decreases taken.len() - i,
    {
        if taken[i] == base_owned {
            assert(views[i as int] == base@);
            found = true;
        }
        i += 1;
    }
    proof {
        lemma_fresh_not_taken(views, base@);
    }
    if !found {
        assert(!views.contains(base@));
        return base_owned;
    }
    assert(views.contains(base@));
    let mut r = base_owned;
    r.append("_");
    let ghost seed = base@ + "_"@;
    let mut j: usize = 0;
    while j < taken.len()
        invariant
            j <= taken.len(),
            views == taken.deep_view(),
            seed == base@ + "_"@,
            r@ == spec_append_all(seed, views.take(j as int)),
        decreases taken.len() - j,
    {
        r.append(taken[j].as_str());
        proof {
            let k = j as int;
            assert(views.take(k + 1).drop_last() =~= views.take(k));
            assert(views.take(k + 1).last() == views[k]);
        }
        j += 1;
    }
    proof {
        assert(views.take(taken.len() as int) =~= views);
    }
    r
}

} // verus!
