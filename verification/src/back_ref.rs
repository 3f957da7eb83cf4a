//! Back references: the models referencing a model through a foreign key,
//! cached on the referenced model.
use vstd::prelude::*;
use std::collections::HashMap;

verus! {

broadcast use vstd::std_specs::hash::group_hash_axioms;

/// A back reference is the other direction to a foreign model.
pub struct BackRef<M> {
    /// Cached list of models referencing this one.
    ///
    /// If there wasn't any query yet this field will be `None` instead of an empty vector.
    pub cached: Option<Vec<M>>,
}

/// The models among `instances` (each paired with the key it references)
/// which reference `key`, in their order.
pub open spec fn referencing<M>(instances: Seq<(i64, M)>, key: i64) -> Seq<M>
    decreases instances.len(),
{
    if instances.len() == 0 {
        seq![]
    } else if instances.last().0 == key {
        referencing(instances.drop_last(), key).push(instances.last().1)
    } else {
        referencing(instances.drop_last(), key)
    }
}

/// Whether some instance references `key`.
pub open spec fn is_referenced<M>(instances: Seq<(i64, M)>, key: i64) -> bool {
    exists|i: int| 0 <= i < instances.len() && #[trigger] instances[i].0 == key
}

/// The cache a back reference of the model at `index` (with key `keys[index]`) ends up with:
/// the first model with a key gets every instance referencing it; a later model with the
/// same key gets nothing (`None`), unless nothing references the key at all.
pub open spec fn bulk_cache<M>(keys: Seq<i64>, instances: Seq<(i64, M)>, index: int) -> Option<
    Seq<M>,
> {
    let key = keys[index];
    if is_referenced(instances, key) && exists|j: int| 0 <= j < index && #[trigger] keys[j] == key {
        None
    } else {
        Some(referencing(instances, key))
    }
}

/// The view of a cache.
pub open spec fn cache_view<M>(cached: Option<Vec<M>>) -> Option<Seq<M>> {
    match cached {
        Some(v) => Some(v@),
        None => None,
    }
}

impl<M> BackRef<M> {
    /// A back reference which was not queried yet.
    pub fn new() -> (r: Self)
        ensures
            r.cached is None,
    {
        BackRef { cached: None }
    }

    /// Populate the cache with the models referencing this back reference's model.
    ///
    /// An existing cache is overwritten.
    pub fn populate(&mut self, referencing: Vec<M>)
        ensures
            cache_view(final(self).cached) == Some(referencing@),
    {
        self.cached = Some(referencing);
    }
}

proof fn lemma_referencing_push<M>(instances: Seq<(i64, M)>, p: (i64, M), key: i64)
    ensures
        referencing(instances.push(p), key) == if p.0 == key {
            referencing(instances, key).push(p.1)
        } else {
            referencing(instances, key)
        },
{
    assert(instances.push(p).drop_last() =~= instances);
}

proof fn lemma_unreferenced_empty<M>(instances: Seq<(i64, M)>, key: i64)
    requires
        !is_referenced(instances, key),
    ensures
        referencing(instances, key) == Seq::<M>::empty(),
    decreases instances.len(),
{
    if instances.len() > 0 {
        assert(instances.drop_last().len() < instances.len());
        assert forall|i: int| 0 <= i < instances.drop_last().len() implies #[trigger] instances.drop_last()[i].0
            != key by {
            assert(instances[i].0 != key);
        }
        lemma_unreferenced_empty(instances.drop_last(), key);
        assert(instances[instances.len() - 1].0 != key);
    }
}

/// Groups the queried `instances` (each paired with the key it references, in query order)
/// by key, and hands each of the models with `keys` its back reference's cache, in order.
///
/// A model occurring twice gets the instances only the first time (see [`bulk_cache`]).
pub fn populate_bulk<M>(keys: &Vec<i64>, instances: Vec<(i64, M)>) -> (r: Vec<BackRef<M>>)
    ensures
        r@.len() == keys@.len(),
        forall|j: int|
            0 <= j < keys@.len() ==> cache_view(#[trigger] r@[j].cached) == bulk_cache(
                keys@,
                instances@,
                j,
            ),
{
    let ghost all = instances@;
    let mut cache: HashMap<i64, Option<Vec<M>>> = HashMap::new();
    broadcast use vstd::std_specs::vec::axiom_spec_into_iter;
    for p in it: instances
        invariant
            it.seq() == all,
            forall|k: i64|
                #![trigger cache@.contains_key(k)]
                cache@.contains_key(k) <==> is_referenced(all.take(it.index() as int), k),
            forall|k: i64|
                cache@.contains_key(k) ==> (#[trigger] cache@[k] matches Some(v) && v@
                    == referencing(all.take(it.index() as int), k)),
    {
        let ghost i = it.index();
        let (key, instance) = p;
        let ghost pre = all.take(i as int);
        assert(all.take(i + 1) =~= pre.push(all[i as int]));
        assert(all[i as int] == (key, instance));
        proof {
            assert forall|k: i64| k != key implies referencing(all.take(i + 1), k) == referencing(
                pre,
                k,
            ) by {
                lemma_referencing_push(pre, (key, instance), k);
            }
            lemma_referencing_push(pre, (key, instance), key);
            assert forall|k: i64| #[trigger]
                is_referenced(all.take(i + 1), k) <==> (is_referenced(pre, k) || k == key) by {
                if is_referenced(all.take(i + 1), k) {
                    let w = choose|w: int| 0 <= w < i + 1 && #[trigger] all.take(i + 1)[w].0 == k;
                    if w < i {
                        assert(pre[w].0 == k);
                    }
                }
                if is_referenced(pre, k) {
                    let w = choose|w: int| 0 <= w < i && #[trigger] pre[w].0 == k;
                    assert(all.take(i + 1)[w].0 == k);
                }
                if k == key {
                    assert(all.take(i + 1)[i as int].0 == k);
                }
            }
        }
        match cache.remove(&key) {
            Some(Some(mut group)) => {
                group.push(instance);
                cache.insert(key, Some(group));
            },
            Some(None) => {
                proof {
                    assert(false);
                }
            },
            None => {
                proof {
                    lemma_unreferenced_empty(pre, key);
                }
                let mut group = Vec::new();
                group.push(instance);
                assert(group@ =~= Seq::<M>::empty().push(instance));
                cache.insert(key, Some(group));
            },
        }
    }
    assert(all.take(all.len() as int) =~= all);

    let mut result: Vec<BackRef<M>> = Vec::new();
    let mut j: usize = 0;
    while j < keys.len()
        invariant
            j <= keys@.len(),
            forall|k: i64|
                #![trigger cache@.contains_key(k)]
                cache@.contains_key(k) <==> is_referenced(all, k),
            forall|k: i64|
                cache@.contains_key(k) ==> match #[trigger] cache@[k] {
                    Some(v) => v@ == referencing(all, k) && !(exists|x: int|
                        0 <= x < j && #[trigger] keys@[x] == k),
                    None => exists|x: int| 0 <= x < j && #[trigger] keys@[x] == k,
                },
            result@.len() == j,
            forall|x: int|
                0 <= x < j ==> cache_view(#[trigger] result@[x].cached) == bulk_cache(
                    keys@,
                    all,
                    x,
                ),
        decreases keys@.len() - j,
    {
        let key = keys[j];
        let ghost before = cache@;
        let cached = match cache.remove(&key) {
            Some(entry) => {
                cache.insert(key, None);
                entry
            },
            None => {
                proof {
                    lemma_unreferenced_empty(all, key);
                }
                Some(Vec::new())
            },
        };
        proof {
            assert forall|k: i64| cache@.contains_key(k) implies match #[trigger] cache@[k] {
                Some(v) => v@ == referencing(all, k) && !(exists|x: int|
                    0 <= x < j + 1 && #[trigger] keys@[x] == k),
                None => exists|x: int| 0 <= x < j + 1 && #[trigger] keys@[x] == k,
            } by {
                if k == key {
                    assert(keys@[j as int] == k);
                } else {
                    assert(before.contains_key(k));
                    if cache@[k] is None {
                        let x = choose|x: int| 0 <= x < j && #[trigger] keys@[x] == k;
                        assert(0 <= x < j + 1 && keys@[x] == k);
                    } else {
                        if exists|x: int| 0 <= x < j + 1 && #[trigger] keys@[x] == k {
                            let x = choose|x: int| 0 <= x < j + 1 && #[trigger] keys@[x] == k;
                            assert(x != j);
                            assert(0 <= x < j && keys@[x] == k);
                        }
                    }
                }
            }
        }
        result.push(BackRef { cached });
        j = j + 1;
    }
    result
}

/// The models of referencing instances, in order.
pub open spec fn models_of<M>(instances: Seq<(i64, M)>) -> Seq<M> {
    instances.map_values(|p: (i64, M)| p.1)
}

proof fn lemma_referencing_all<M>(instances: Seq<(i64, M)>, key: i64)
    requires
        forall|i: int| 0 <= i < instances.len() ==> (#[trigger] instances[i]).0 == key,
    ensures
        referencing(instances, key) == models_of(instances),
    decreases instances.len(),
{
    if instances.len() > 0 {
        let init = instances.drop_last();
        assert forall|i: int| 0 <= i < init.len() implies (#[trigger] init[i]).0 == key by {
            assert(init[i] == instances[i]);
        }
        lemma_referencing_all(init, key);
        assert(instances[instances.len() - 1].0 == key);
        assert(models_of(instances) =~= models_of(init).push(instances.last().1));
    }
}

/// Populating a single model in bulk caches the same as populating it alone:
/// every queried instance (all of which reference that model), in order.
pub proof fn lemma_bulk_of_one_is_populate<M>(key: i64, instances: Seq<(i64, M)>)
    requires
        forall|i: int| 0 <= i < instances.len() ==> (#[trigger] instances[i]).0 == key,
    ensures
        bulk_cache(seq![key], instances, 0) == Some(models_of(instances)),
{
    lemma_referencing_all(instances, key);
}

/// The first model with a key gets every instance referencing that key, so no queried
/// instance referencing one of the models is lost.
pub proof fn lemma_bulk_first_gets_all<M>(keys: Seq<i64>, instances: Seq<(i64, M)>, index: int)
    requires
        0 <= index < keys.len(),
        forall|j: int| 0 <= j < index ==> #[trigger] keys[j] != keys[index],
    ensures
        bulk_cache(keys, instances, index) == Some(referencing(instances, keys[index])),
{
}

} // verus!
