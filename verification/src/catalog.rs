//! The catalog of software bundles, indexed by name.
//!
//! Several bundles may share a name. The catalog keeps, for each name, the one
//! that was created last; of two that were created at the same time it keeps
//! the one that the listing shows first.

use vstd::hash_map::StringHashMap;
use vstd::prelude::*;
use vstd::string::StringExecFns;

use crate::types::DistributionSet;

verus! {

/// The index that the first `n` bundles of a listing give.
pub open spec fn index_upto(bundles: Seq<DistributionSet>, n: int) -> Map<Seq<char>, DistributionSet>
    decreases n,
{
    if n <= 0 {
        Map::empty()
    } else {
        let before = index_upto(bundles, n - 1);
        let bundle = bundles[n - 1];
        if before.contains_key(bundle.name@) && before[bundle.name@].created_at >= bundle.created_at {
            before
        } else {
            before.insert(bundle.name@, bundle)
        }
    }
}

/// The index that a whole listing gives.
pub open spec fn index_of(bundles: Seq<DistributionSet>) -> Map<Seq<char>, DistributionSet> {
    index_upto(bundles, bundles.len() as int)
}

/// Among the first `n` bundles, the one at position `i` stands for its name:
/// none of that name is newer, and none before it is as new.
pub open spec fn is_canonical(bundles: Seq<DistributionSet>, n: int, i: int) -> bool {
    &&& 0 <= i < n
    &&& forall|j: int|
        0 <= j < n && (#[trigger] bundles[j]).name@ == bundles[i].name@ ==> {
            &&& bundles[j].created_at <= bundles[i].created_at
            &&& j < i ==> bundles[j].created_at < bundles[i].created_at
        }
}

/// The name of the bundle that devices on `channel` are meant to run.
pub open spec fn bundle_name_for(channel: Seq<char>) -> Seq<char> {
    channel + " EMMC"@
}

/// The bundles of one listing, by name.
pub struct Catalog {
    by_name: StringHashMap<DistributionSet>,
}

impl View for Catalog {
    type V = Map<Seq<char>, DistributionSet>;

    closed spec fn view(&self) -> Map<Seq<char>, DistributionSet> {
        self.by_name@
    }
}

impl Catalog {
    /// Indexes a listing of bundles by name. The order of the listing matters
    /// only between bundles of one name that were created at the same time.
    pub fn build_index(bundles: Vec<DistributionSet>) -> (catalog: Catalog)
        ensures
            catalog@ == index_of(bundles@),
    {
        let mut by_name: StringHashMap<DistributionSet> = StringHashMap::new();
        let ghost all = bundles@;
        for bundle in it: bundles
            invariant
                it.seq() == all,
                by_name@ == index_upto(all, it.index() as int),
        {
            let newer = match by_name.get(bundle.name.as_str()) {
                Some(held) => held.created_at < bundle.created_at,
                None => true,
            };
            if newer {
                by_name.insert(bundle.name.clone(), bundle);
            }
        }
        Catalog { by_name }
    }

    /// The bundle that stands for `name`, if the catalog has one.
    pub fn get(&self, name: &str) -> (found: Option<&DistributionSet>)
        ensures
            match found {
                Some(bundle) => self@.contains_key(name@) && *bundle == self@[name@],
                None => !self@.contains_key(name@),
            },
    {
        self.by_name.get(name)
    }

    /// Whether the catalog has a bundle of that name.
    pub fn contains(&self, name: &str) -> (held: bool)
        ensures
            held == self@.contains_key(name@),
    {
        self.by_name.contains_key(name)
    }

    /// The number of distinct names.
    pub fn len(&self) -> (n: usize)
        ensures
            n == self@.len(),
    {
        self.by_name.len()
    }

    /// Whether the catalog holds no bundle at all.
    pub fn is_empty(&self) -> (empty: bool)
        ensures
            empty == self@.is_empty(),
    {
        self.by_name.is_empty()
    }
}

/// The name of the bundle that devices on `channel` are meant to run.
pub fn expected_bundle_name(channel: &str) -> (name: String)
    ensures
        name@ == bundle_name_for(channel@),
{
    channel.to_owned().concat(" EMMC")
}

/// The index has exactly the names of the listing, and holds for each name the
/// bundle that stands for it: the most recently created one, and of several
/// that are equally recent the first.
pub proof fn lemma_index_holds_the_newest(bundles: Seq<DistributionSet>, n: int)
    requires
        0 <= n <= bundles.len(),
    ensures
        forall|name: Seq<char>| #[trigger]
            index_upto(bundles, n).contains_key(name) <==> exists|j: int|
                0 <= j < n && (#[trigger] bundles[j]).name@ == name,
        forall|name: Seq<char>| #[trigger]
            index_upto(bundles, n).contains_key(name) ==> exists|i: int|
                is_canonical(bundles, n, i) && (#[trigger] bundles[i]).name@ == name && index_upto(
                    bundles,
                    n,
                )[name] == bundles[i],
    decreases n,
{
    if n > 0 {
        lemma_index_holds_the_newest(bundles, n - 1);
        let before = index_upto(bundles, n - 1);
        let now = index_upto(bundles, n);
        let last = bundles[n - 1];
        assert forall|name: Seq<char>| #[trigger] now.contains_key(name) implies exists|j: int|
            0 <= j < n && (#[trigger] bundles[j]).name@ == name by {
            if name == last.name@ {
                assert(bundles[n - 1].name@ == name);
            } else {
                assert(before.contains_key(name));
                let j = choose|j: int| 0 <= j < n - 1 && (#[trigger] bundles[j]).name@ == name;
                assert(0 <= j < n && bundles[j].name@ == name);
            }
        }
        assert forall|name: Seq<char>|
            (exists|j: int| 0 <= j < n && (#[trigger] bundles[j]).name@ == name) implies #[trigger]
            now.contains_key(name) by {
            let j = choose|j: int| 0 <= j < n && (#[trigger] bundles[j]).name@ == name;
            if j < n - 1 {
                assert(before.contains_key(name));
            }
        }
        assert forall|name: Seq<char>| #[trigger] now.contains_key(name) implies exists|i: int|
            is_canonical(bundles, n, i) && (#[trigger] bundles[i]).name@ == name && now[name]
                == bundles[i] by {
            if name == last.name@ {
                if before.contains_key(name) {
                    let i = choose|i: int|
                        is_canonical(bundles, n - 1, i) && (#[trigger] bundles[i]).name@ == name
                            && before[name] == bundles[i];
                    if before[name].created_at >= last.created_at {
                        assert(is_canonical(bundles, n, i));
                        assert(bundles[i].name@ == name && now[name] == bundles[i]);
                    } else {
                        assert(is_canonical(bundles, n, n - 1));
                        assert(bundles[n - 1].name@ == name && now[name] == bundles[n - 1]);
                    }
                } else {
                    assert forall|j: int|
                        0 <= j < n && (#[trigger] bundles[j]).name@ == bundles[n - 1].name@ implies j
                        == n - 1 by {
                        if j < n - 1 {
                            assert(before.contains_key(bundles[j].name@));
                        }
                    }
                    assert(is_canonical(bundles, n, n - 1));
                    assert(bundles[n - 1].name@ == name && now[name] == bundles[n - 1]);
                }
            } else {
                assert(before.contains_key(name));
                let i = choose|i: int|
                    is_canonical(bundles, n - 1, i) && (#[trigger] bundles[i]).name@ == name
                        && before[name] == bundles[i];
                assert(is_canonical(bundles, n, i));
                assert(bundles[i].name@ == name && now[name] == bundles[i]);
            }
        }
    }
}

/// Of two bundles of one name the index holds the one that was created later,
/// whichever the listing shows first.
pub proof fn lemma_newer_of_two_wins(older: DistributionSet, newer: DistributionSet)
    requires
        older.name@ == newer.name@,
        older.created_at < newer.created_at,
    ensures
        index_of(seq![older, newer]) == Map::<Seq<char>, DistributionSet>::empty().insert(
            newer.name@,
            newer,
        ),
        index_of(seq![newer, older]) == index_of(seq![older, newer]),
{
    reveal_with_fuel(index_upto, 3);
    let expected = Map::<Seq<char>, DistributionSet>::empty().insert(newer.name@, newer);
    assert(index_of(seq![older, newer]) =~= expected);
    assert(index_of(seq![newer, older]) =~= expected);
}

/// Every bundle of the index is filed under its own name.
pub proof fn lemma_index_is_keyed_by_name(bundles: Seq<DistributionSet>, name: Seq<char>)
    requires
        index_of(bundles).contains_key(name),
    ensures
        index_of(bundles)[name].name@ == name,
        bundles.contains(index_of(bundles)[name]),
{
    lemma_index_holds_the_newest(bundles, bundles.len() as int);
    let n = bundles.len() as int;
    let i = choose|i: int|
        is_canonical(bundles, n, i) && (#[trigger] bundles[i]).name@ == name && index_upto(bundles, n)[name]
            == bundles[i];
    assert(bundles[i] == index_of(bundles)[name]);
}

/// Two listings that hold the same bundles, in whatever order, give indexes
/// with the same names, and under each name a bundle of the same age.
pub proof fn lemma_index_ignores_listing_order(
    first: Seq<DistributionSet>,
    second: Seq<DistributionSet>,
    name: Seq<char>,
)
    requires
        forall|bundle: DistributionSet| first.contains(bundle) <==> second.contains(bundle),
    ensures
        index_of(first).contains_key(name) <==> index_of(second).contains_key(name),
        index_of(first).contains_key(name) ==> index_of(first)[name].created_at == index_of(
            second,
        )[name].created_at,
{
    lemma_index_holds_the_newest(first, first.len() as int);
    lemma_index_holds_the_newest(second, second.len() as int);
    let a = index_of(first);
    let b = index_of(second);
    if a.contains_key(name) {
        lemma_newest_is_among(first, second, name);
    }
    if b.contains_key(name) {
        lemma_newest_is_among(second, first, name);
    }
}

proof fn lemma_newest_is_among(from: Seq<DistributionSet>, into: Seq<DistributionSet>, name: Seq<char>)
    requires
        forall|bundle: DistributionSet| from.contains(bundle) ==> into.contains(bundle),
        index_of(from).contains_key(name),
    ensures
        index_of(into).contains_key(name),
        index_of(from)[name].created_at <= index_of(into)[name].created_at,
{
    lemma_index_holds_the_newest(from, from.len() as int);
    lemma_index_holds_the_newest(into, into.len() as int);
    let held = index_of(from)[name];
    let i = choose|i: int|
        is_canonical(from, from.len() as int, i) && (#[trigger] from[i]).name@ == name && index_upto(
            from,
            from.len() as int,
        )[name] == from[i];
    assert(from.contains(from[i]));
    assert(into.contains(held));
    let k = choose|k: int| 0 <= k < into.len() && into[k] == held;
    assert(into[k].name@ == name);
    assert(index_of(into).contains_key(name));
    let w = choose|w: int|
        is_canonical(into, into.len() as int, w) && (#[trigger] into[w]).name@ == name && index_upto(
            into,
            into.len() as int,
        )[name] == into[w];
    assert(into[k].created_at <= into[w].created_at);
}

/// Where no two bundles of one name were created at the same time, the index
/// does not depend on the order of the listing at all.
pub proof fn lemma_index_of_reordered_listing(first: Seq<DistributionSet>, second: Seq<DistributionSet>)
    requires
        forall|bundle: DistributionSet| first.contains(bundle) <==> second.contains(bundle),
        forall|i: int, j: int|
            0 <= i < first.len() && 0 <= j < first.len() && (#[trigger] first[i]).name@ == (
            #[trigger] first[j]).name@ && first[i].created_at == first[j].created_at ==> first[i]
                == first[j],
    ensures
        index_of(first) == index_of(second),
{
    let a = index_of(first);
    let b = index_of(second);
    assert forall|name: Seq<char>| a.contains_key(name) == b.contains_key(name) by {
        lemma_index_ignores_listing_order(first, second, name);
    }
    assert forall|name: Seq<char>| a.contains_key(name) implies a[name] == b[name] by {
        lemma_index_ignores_listing_order(first, second, name);
        lemma_index_is_keyed_by_name(first, name);
        lemma_index_is_keyed_by_name(second, name);
        assert(first.contains(b[name]));
        let i = choose|i: int| 0 <= i < first.len() && first[i] == a[name];
        let j = choose|j: int| 0 <= j < first.len() && first[j] == b[name];
        assert(first[i] == first[j]);
    }
    assert(a =~= b);
}

} // verus!
