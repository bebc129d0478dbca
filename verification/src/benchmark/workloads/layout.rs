//! The two storage layouts of tagged entities.
//!
//! The fragmented layout keeps one storage class per tag combination that
//! was observed, each with its own members.  The unified layout keeps all
//! entities in one storage class and the tags beside each entity.  Both
//! hold the same entities: the class of a combination holds exactly the
//! entities that the unified layout tags with it, in the same order.

use vstd::prelude::*;

use crate::components::EntityVariant;

verus! {

/// The classes after an entity tagged `tags` has joined: it is the last
/// member of the class of `tags`, which is new if no entity was tagged so
/// before.
pub open spec fn with_entity<T>(classes: Map<u8, Seq<T>>, tags: u8, item: T) -> Map<u8, Seq<T>> {
    if classes.dom().contains(tags) {
        classes.insert(tags, classes[tags].push(item))
    } else {
        classes.insert(tags, seq![item])
    }
}

/// The storage classes that tagged entities fall into, by tag combination.
pub open spec fn grouped<T>(entities: Seq<(EntityVariant, T)>) -> Map<u8, Seq<T>>
    decreases entities.len(),
{
    if entities.len() == 0 {
        Map::empty()
    } else {
        with_entity(grouped(entities.drop_last()), entities.last().0.0, entities.last().1)
    }
}

/// The entities tagged exactly `tags`, in order.
pub open spec fn tagged<T>(entities: Seq<(EntityVariant, T)>, tags: u8) -> Seq<T>
    decreases entities.len(),
{
    if entities.len() == 0 {
        Seq::empty()
    } else if entities.last().0.0 == tags {
        tagged(entities.drop_last(), tags).push(entities.last().1)
    } else {
        tagged(entities.drop_last(), tags)
    }
}

/// Grouping keeps every entity and invents none: a tag combination has a
/// storage class exactly if some entity carries it, and the class holds
/// the entities that carry it, in their order.
pub proof fn lemma_classes_hold_tagged<T>(entities: Seq<(EntityVariant, T)>, tags: u8)
    ensures
        grouped(entities).dom().contains(tags) == (tagged(entities, tags).len() > 0),
        grouped(entities).dom().contains(tags) ==> grouped(entities)[tags] == tagged(
            entities,
            tags,
        ),
    decreases entities.len(),
{
    if entities.len() > 0 {
        lemma_classes_hold_tagged(entities.drop_last(), tags);
        let rest = grouped(entities.drop_last());
        if entities.last().0.0 == tags && !rest.dom().contains(tags) {
            assert(tagged(entities.drop_last(), tags) =~= Seq::empty());
            assert(seq![entities.last().1] =~= tagged(entities, tags));
        }
    }
}

/// A storage class: the entities of one tag combination.
pub struct StorageClass<T> {
    pub tags: EntityVariant,
    pub members: Vec<T>,
}

/// Number of entities in a sequence of storage classes.
pub open spec fn population<T>(classes: Seq<StorageClass<T>>) -> nat
    decreases classes.len(),
{
    if classes.len() == 0 {
        0
    } else {
        population(classes.drop_last()) + classes.last().members@.len()
    }
}

/// Fragmented layout: a separate storage class for each tag combination
/// that was observed.
pub struct FragmentedStore<T> {
    /// The classes, in the order in which their combinations were first
    /// observed.
    pub classes: Vec<StorageClass<T>>,
    /// Number of entities over all classes.
    pub entities: usize,
}

impl<T> FragmentedStore<T> {
    /// Whether a class for `tags` exists.
    pub open spec fn observed(self, tags: u8) -> bool {
        exists|i: int| 0 <= i < self.classes@.len() && (#[trigger] self.classes@[i]).tags.0 == tags
    }

    /// Index of the class for `tags`.
    pub open spec fn index_of(self, tags: u8) -> int {
        choose|i: int| 0 <= i < self.classes@.len() && (#[trigger] self.classes@[i]).tags.0 == tags
    }

    /// No two classes share a tag combination, no class is empty, and the
    /// entity count is the population of the classes.
    pub open spec fn wf(self) -> bool {
        &&& forall|i: int, j: int|
            0 <= i < j < self.classes@.len() ==> (#[trigger] self.classes@[i]).tags.0 != (
            #[trigger] self.classes@[j]).tags.0
        &&& forall|i: int|
            0 <= i < self.classes@.len() ==> (#[trigger] self.classes@[i]).members@.len() > 0
        &&& self.entities == population(self.classes@)
    }
}

impl<T> View for FragmentedStore<T> {
    type V = Map<u8, Seq<T>>;

    /// The members of each class, by tag combination.
    open spec fn view(&self) -> Map<u8, Seq<T>> {
        Map::new(|tags: u8| self.observed(tags), |tags: u8| self.classes@[self.index_of(tags)].members@)
    }
}

/// Replacing one class by a class with one more member raises the
/// population by one.
proof fn lemma_population_update<T>(
    before: Seq<StorageClass<T>>,
    after: Seq<StorageClass<T>>,
    index: int,
)
    requires
        0 <= index < before.len(),
        after.len() == before.len(),
        after[index].members@.len() == before[index].members@.len() + 1,
        forall|k: int| 0 <= k < before.len() && k != index ==> after[k] == before[k],
    ensures
        population(after) == population(before) + 1,
    decreases before.len(),
{
    if index == before.len() - 1 {
        assert(after.drop_last() =~= before.drop_last());
    } else {
        lemma_population_update(before.drop_last(), after.drop_last(), index);
    }
}

impl<T> FragmentedStore<T> {
    /// A store without entities.
    pub fn new() -> (store: FragmentedStore<T>)
        ensures
            store.wf(),
            store@ == Map::<u8, Seq<T>>::empty(),
            store.entities == 0,
    {
        let store = FragmentedStore { classes: Vec::new(), entities: 0 };
        assert(store@ =~= Map::<u8, Seq<T>>::empty());
        store
    }

    /// Number of entities.
    pub fn len(&self) -> (count: usize)
        ensures
            count == self.entities,
    {
        self.entities
    }

    /// Number of storage classes: one per tag combination observed.
    pub fn class_count(&self) -> (count: usize)
        ensures
            count == self.classes@.len(),
    {
        self.classes.len()
    }

    /// The members of the class for `tags`, if that combination was
    /// observed.
    pub fn class_of(&self, tags: EntityVariant) -> (members: Option<&Vec<T>>)
        requires
            self.wf(),
        ensures
            match members {
                Some(members) => self@.dom().contains(tags.0) && members@ == self@[tags.0],
                None => !self@.dom().contains(tags.0),
            },
    {
        let mut i: usize = 0;
        while i < self.classes.len()
            invariant
                self.wf(),
                i <= self.classes@.len(),
                forall|k: int| 0 <= k < i ==> (#[trigger] self.classes@[k]).tags.0 != tags.0,
            decreases self.classes@.len() - i,
        {
            if self.classes[i].tags.0 == tags.0 {
                assert(self.observed(tags.0));
                assert(self.index_of(tags.0) == i);
                return Some(&self.classes[i].members);
            }
            i += 1;
        }
        None
    }

    /// Stores an entity tagged `tags`: in the class of that combination,
    /// which is created if this is the first entity so tagged.
    pub fn insert(&mut self, tags: EntityVariant, item: T)
        requires
            old(self).wf(),
            old(self).entities < usize::MAX,
        ensures
            final(self).wf(),
            final(self)@ == with_entity(old(self)@, tags.0, item),
            final(self).entities == old(self).entities + 1,
            final(self).classes@.len() == old(self).classes@.len() + if old(self).observed(
                tags.0,
            ) {
                0int
            } else {
                1int
            },
    {
        let n: usize = self.classes.len();
        let mut i: usize = 0;
        while i < n && self.classes[i].tags.0 != tags.0
            invariant
                *self == *old(self),
                n == self.classes@.len(),
                i <= n,
                forall|k: int| 0 <= k < i ==> (#[trigger] self.classes@[k]).tags.0 != tags.0,
            decreases n - i,
        {
            i += 1;
        }
        if i < n {
            self.classes[i].members.push(item);
            proof {
                let before = old(self).classes@;
                let after = self.classes@;
                assert(after.len() == before.len());
                assert(forall|k: int| 0 <= k < before.len() && k != i ==> after[k] == before[k]);
                assert(after[i as int].tags == before[i as int].tags);
                assert(after[i as int].members@ == before[i as int].members@.push(item));
                lemma_population_update(before, after, i as int);
                assert(old(self).observed(tags.0));
                assert(old(self).index_of(tags.0) == i);
                assert forall|t: u8| self.observed(t) == old(self).observed(t) by {
                    if self.observed(t) {
                        let k = self.index_of(t);
                        assert(before[k].tags.0 == t);
                    }
                    if old(self).observed(t) {
                        let k = old(self).index_of(t);
                        assert(after[k].tags.0 == t);
                    }
                }
                assert forall|t: u8| self.observed(t) implies self.index_of(t) == old(
                    self,
                ).index_of(t) by {
                    let k = self.index_of(t);
                    let m = old(self).index_of(t);
                    assert(before[k].tags.0 == t);
                    assert(after[m].tags.0 == t);
                }
                assert(self@ =~= with_entity(old(self)@, tags.0, item));
            }
        } else {
            let mut members: Vec<T> = Vec::new();
            members.push(item);
            self.classes.push(StorageClass { tags, members });
            proof {
                let before = old(self).classes@;
                let after = self.classes@;
                assert(after.drop_last() =~= before);
                assert(after[n as int].members@ =~= seq![item]);
                assert(!old(self).observed(tags.0));
                assert(self.observed(tags.0)) by {
                    assert(after[n as int].tags.0 == tags.0);
                }
                assert(self.index_of(tags.0) == n);
                assert forall|t: u8| t != tags.0 implies self.observed(t) == old(self).observed(
                    t,
                ) by {
                    if self.observed(t) {
                        let k = self.index_of(t);
                        assert(before[k].tags.0 == t);
                    }
                    if old(self).observed(t) {
                        let k = old(self).index_of(t);
                        assert(after[k].tags.0 == t);
                    }
                }
                assert forall|t: u8| t != tags.0 && self.observed(t) implies self.index_of(t)
                    == old(self).index_of(t) by {
                    let k = self.index_of(t);
                    let m = old(self).index_of(t);
                    assert(before[k].tags.0 == t);
                    assert(after[m].tags.0 == t);
                }
                assert(self@ =~= with_entity(old(self)@, tags.0, item));
            }
        }
        self.entities = self.entities + 1;
    }
}

/// Unified layout: one storage class for all entities, each with its tags
/// beside it.
pub struct UnifiedStore<T> {
    /// The entities with their tags, in the order in which they came.
    pub members: Vec<(EntityVariant, T)>,
}

impl<T> View for UnifiedStore<T> {
    type V = Seq<(EntityVariant, T)>;

    open spec fn view(&self) -> Seq<(EntityVariant, T)> {
        self.members@
    }
}

impl<T> UnifiedStore<T> {
    /// A store without entities.
    pub fn new() -> (store: UnifiedStore<T>)
        ensures
            store@ == Seq::<(EntityVariant, T)>::empty(),
    {
        UnifiedStore { members: Vec::new() }
    }

    /// Number of entities.
    pub fn len(&self) -> (count: usize)
        ensures
            count == self@.len(),
    {
        self.members.len()
    }

    /// Number of storage classes: one as soon as there is an entity,
    /// whatever the tags.
    pub fn class_count(&self) -> (count: usize)
        ensures
            count == if self@.len() == 0 {
                0usize
            } else {
                1usize
            },
    {
        if self.members.len() == 0 {
            0
        } else {
            1
        }
    }

    /// Stores an entity tagged `tags`.
    pub fn insert(&mut self, tags: EntityVariant, item: T)
        ensures
            final(self)@ == old(self)@.push((tags, item)),
            grouped(final(self)@) == with_entity(grouped(old(self)@), tags.0, item),
    {
        self.members.push((tags, item));
        assert(self@.drop_last() =~= old(self)@);
    }

    /// The entity at `index` with its tags.
    pub fn get(&self, index: usize) -> (entity: &(EntityVariant, T))
        requires
            index < self@.len(),
        ensures
            *entity == self@[index as int],
    {
        &self.members[index]
    }

    /// Moves the entities into a fragmented store, in their order: each
    /// tag combination that occurs gets a storage class with the entities
    /// that carry it.
    pub fn into_fragmented(self) -> (store: FragmentedStore<T>)
        ensures
            store.wf(),
            store@ == grouped(self@),
            store.entities == self@.len(),
    {
        let ghost all = self@;
        let total: usize = self.members.len();
        let mut stack: Vec<(EntityVariant, T)> = self.members;
        let mut reversed: Vec<(EntityVariant, T)> = Vec::with_capacity(total);
        while stack.len() > 0
            invariant
                total == all.len(),
                stack@.len() + reversed@.len() == all.len(),
                stack@ == all.take(stack@.len() as int),
                forall|k: int|
                    0 <= k < reversed@.len() ==> reversed@[k] == all[all.len() - 1 - k],
            decreases stack@.len(),
        {
            let ghost before = stack@;
            let entity = stack.pop().unwrap();
            reversed.push(entity);
            assert(stack@ =~= all.take(stack@.len() as int));
        }
        let mut store: FragmentedStore<T> = FragmentedStore::new();
        while reversed.len() > 0
            invariant
                total == all.len(),
                reversed@.len() <= all.len(),
                forall|k: int|
                    0 <= k < reversed@.len() ==> reversed@[k] == all[all.len() - 1 - k],
                store.wf(),
                store.entities == all.len() - reversed@.len(),
                store@ == grouped(all.take(all.len() - reversed@.len())),
            decreases reversed@.len(),
        {
            let ghost done = all.len() - reversed@.len();
            let entity = reversed.pop().unwrap();
            assert(entity == all[done]);
            assert(all.take(done + 1).drop_last() =~= all.take(done));
            store.insert(entity.0, entity.1);
        }
        assert(all.take(all.len() as int) =~= all);
        store
    }
}

} // verus!
