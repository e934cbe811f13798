//! The list of pages beside the document, with the page that is shown.
//!
//! Each item is known by an [`Entity`]. Clearing the list starts a new generation of
//! entities, so that a result that arrives late for an item of the old list finds nothing.

use vstd::prelude::*;

verus! {

/// The name of an item.
#[derive(Clone, Copy, Debug, PartialEq, Eq, Structural, Hash)]
pub struct Entity {
    pub generation: u64,
    pub slot: usize,
}

/// A list of items of which one may be active.
#[derive(Clone, Debug)]
pub struct Model<T> {
    pub generation: u64,
    pub items: Vec<T>,
    pub active: Option<Entity>,
}

/// What a [`Model`] holds.
#[verifier::ext_equal]
pub struct Items<T> {
    pub generation: u64,
    pub items: Seq<T>,
    pub active: Option<Entity>,
}

/// The generation that follows `generation`.
pub open spec fn next_generation(generation: u64) -> u64 {
    if generation == u64::MAX {
        0
    } else {
        (generation + 1) as u64
    }
}

impl<T> Items<T> {
    /// The empty list of the first generation.
    pub open spec fn none() -> Self {
        Items { generation: 0, items: Seq::empty(), active: None }
    }

    /// Whether `entity` names an item of the list.
    pub open spec fn contains(self, entity: Entity) -> bool {
        entity.generation == self.generation && entity.slot < self.items.len()
    }

    /// The name of the item at `position`.
    pub open spec fn entity_at(self, position: int) -> Entity {
        Entity { generation: self.generation, slot: position as usize }
    }

    /// The item that `entity` names.
    pub open spec fn get(self, entity: Entity) -> Option<T> {
        if self.contains(entity) {
            Some(self.items[entity.slot as int])
        } else {
            None
        }
    }

    /// The list with `item` in place of the item that `entity` names.
    pub open spec fn with(self, entity: Entity, item: T) -> Self {
        Items { items: self.items.update(entity.slot as int, item), ..self }
    }

    /// The active item.
    pub open spec fn active_item(self) -> Option<T> {
        match self.active {
            Some(entity) => self.get(entity),
            None => None,
        }
    }

    /// The position of the active item, or that of the first one if none is active.
    pub open spec fn active_position(self) -> int {
        match self.active {
            Some(entity) => if self.contains(entity) {
                entity.slot as int
            } else {
                0
            },
            None => 0,
        }
    }

    /// The list without its items.
    pub open spec fn cleared(self) -> Self {
        Items {
            generation: next_generation(self.generation),
            items: Seq::empty(),
            active: None,
        }
    }

    /// The list with `entity` active.
    pub open spec fn activated(self, entity: Entity) -> Self {
        Items { active: Some(entity), ..self }
    }

    /// The list with the item at `position` active, or the list as it is if there is none.
    pub open spec fn activated_at(self, position: int) -> Self {
        if 0 <= position < self.items.len() {
            self.activated(self.entity_at(position))
        } else {
            self
        }
    }

    /// The list turned to the next item, if there is one.
    pub open spec fn forward(self) -> Self {
        self.activated_at(self.active_position() + 1)
    }

    /// The list turned to the item before, if there is one.
    pub open spec fn backward(self) -> Self {
        self.activated_at(self.active_position() - 1)
    }
}

impl<T> View for Model<T> {
    type V = Items<T>;

    open spec fn view(&self) -> Items<T> {
        Items { generation: self.generation, items: self.items@, active: self.active }
    }
}

impl<T> Model<T> {
    /// An empty list.
    pub fn new() -> (model: Self)
        ensures
            model@ == Items::<T>::none(),
    {
        Model { generation: 0, items: Vec::new(), active: None }
    }

    /// The number of items.
    pub fn len(&self) -> (len: usize)
        ensures
            len == self@.items.len(),
    {
        self.items.len()
    }

    /// Removes all items.
    pub fn clear(&mut self)
        ensures
            final(self)@ == old(self)@.cleared(),
    {
        self.generation = if self.generation == u64::MAX {
            0
        } else {
            self.generation + 1
        };
        self.items = Vec::new();
        self.active = None;
    }

    /// Puts `item` at the end of the list.
    pub fn insert(&mut self, item: T) -> (entity: Entity)
        ensures
            final(self)@ == (Items { items: old(self)@.items.push(item), ..old(self)@ }),
            entity == old(self)@.entity_at(old(self)@.items.len() as int),
            final(self)@.get(entity) == Some(item),
    {
        let slot: usize = self.items.len();
        self.items.push(item);
        Entity { generation: self.generation, slot }
    }

    /// Puts `items` in place of what the list holds.
    pub fn refill(&mut self, items: Vec<T>)
        ensures
            final(self)@ == (Items { items: items@, ..old(self)@.cleared() }),
    {
        self.clear();
        for item in iter: items
            invariant
                iter.seq() == items@,
                self.generation == next_generation(old(self)@.generation),
                self.active is None,
                self.items@ =~= items@.take(iter.index()),
        {
            self.insert(item);
        }
        assert(self.items@ =~= items@);
    }

    /// Tells whether `entity` names an item.
    pub fn has(&self, entity: Entity) -> (has: bool)
        ensures
            has == self@.contains(entity),
    {
        entity.generation == self.generation && entity.slot < self.items.len()
    }

    /// The item that `entity` names.
    pub fn data(&self, entity: Entity) -> (item: Option<&T>)
        ensures
            match item {
                Some(found) => self@.get(entity) == Some(*found),
                None => self@.get(entity) is None,
            },
    {
        if self.has(entity) {
            Some(&self.items[entity.slot])
        } else {
            None
        }
    }

    /// The item that `entity` names, to be changed.
    pub fn data_mut(&mut self, entity: Entity) -> (item: Option<&mut T>)
        ensures
            match item {
                Some(found) => old(self)@.get(entity) == Some(*found) && final(self)@ == old(
                    self,
                )@.with(entity, *final(found)),
                None => old(self)@.get(entity) is None && final(self)@ == old(self)@,
            },
    {
        if self.has(entity) {
            Some(&mut self.items[entity.slot])
        } else {
            None
        }
    }

    /// The entity that is active.
    pub fn active(&self) -> (active: Option<Entity>)
        ensures
            active == self@.active,
    {
        self.active
    }

    /// The position of an item.
    pub fn position(&self, entity: Entity) -> (position: Option<usize>)
        ensures
            position == if self@.contains(entity) {
                Some(entity.slot)
            } else {
                None
            },
    {
        if self.has(entity) {
            Some(entity.slot)
        } else {
            None
        }
    }

    /// Makes `entity` active.
    pub fn activate(&mut self, entity: Entity)
        ensures
            final(self)@ == old(self)@.activated(entity),
    {
        self.active = Some(entity);
    }

    /// Makes the item at `position` active, and tells whether there is one.
    pub fn activate_position(&mut self, position: usize) -> (found: bool)
        ensures
            found == (position < old(self)@.items.len()),
            final(self)@ == old(self)@.activated_at(position as int),
    {
        if position < self.items.len() {
            self.active = Some(Entity { generation: self.generation, slot: position });
            true
        } else {
            false
        }
    }

    /// The position of the active item, or that of the first one.
    pub fn current_position(&self) -> (position: usize)
        ensures
            position == self@.active_position(),
            position == 0 || position < self@.items.len(),
    {
        match self.active {
            Some(entity) => self.position(entity).unwrap_or(0),
            None => 0,
        }
    }

    /// Turns to the next item.
    pub fn next(&mut self)
        ensures
            final(self)@ == old(self)@.forward(),
    {
        assert(self.items.len() <= usize::MAX);
        if let Some(position) = self.current_position().checked_add(1) {
            self.activate_position(position);
        }
    }

    /// Turns to the item before, and tells whether the active one was not the first.
    pub fn previous(&mut self) -> (moved: bool)
        ensures
            final(self)@ == old(self)@.backward(),
            moved == (old(self)@.active_position() > 0),
    {
        if let Some(position) = self.current_position().checked_sub(1) {
            self.activate_position(position);
            true
        } else {
            false
        }
    }
}

/// Turning forward and back again ends on the same item, unless it was the last one.
pub proof fn forward_and_backward_cancel<T>(list: Items<T>)
    requires
        list.active is Some,
        list.contains(list.active->0),
        list.active_position() + 1 < list.items.len() <= usize::MAX,
    ensures
        list.forward().backward() == list,
{
    assert(list.forward().backward() =~= list);
}

/// At the last item turning forward changes nothing, at the first item turning backward.
pub proof fn ends_hold<T>(list: Items<T>)
    ensures
        list.active_position() + 1 >= list.items.len() ==> list.forward() == list,
        list.active_position() == 0 ==> list.backward() == list,
{
}

/// Turning pages keeps an item active where one was.
pub proof fn turning_keeps_an_item_active<T>(list: Items<T>)
    requires
        list.active_item() is Some,
        list.items.len() <= usize::MAX,
    ensures
        list.forward().active_item() is Some,
        list.backward().active_item() is Some,
{
}

/// After the list was cleared no name from before finds an item.
pub proof fn cleared_names_are_stale<T>(list: Items<T>, entity: Entity, fresh: Seq<T>)
    requires
        list.contains(entity),
    ensures
        (Items { items: fresh, ..list.cleared() }).get(entity) is None,
{
}

/// Turning forward makes the following item active and changes nothing else; at the last item
/// it changes nothing at all.
pub proof fn next_is_the_following_item<T>(model: &mut Model<T>, slot: usize)
    requires
        call_ensures(Model::<T>::next, (model,), ()),
        old(model).active == Some(Entity { generation: old(model).generation, slot }),
        slot < old(model).items@.len(),
    ensures
        final(model).items@ == old(model).items@,
        final(model).generation == old(model).generation,
        slot + 1 < old(model).items@.len() ==> final(model).active == Some(
            Entity { generation: old(model).generation, slot: (slot + 1) as usize },
        ),
        slot + 1 == old(model).items@.len() ==> final(model).active == old(model).active,
{
    assert(old(model).items.len() <= usize::MAX);
}

/// Turning back makes the item before active and changes nothing else; at the first item it
/// changes nothing at all. Only there it is told that nothing was done.
pub proof fn previous_is_the_item_before<T>(model: &mut Model<T>, slot: usize, moved: bool)
    requires
        call_ensures(Model::<T>::previous, (model,), moved),
        old(model).active == Some(Entity { generation: old(model).generation, slot }),
        slot < old(model).items@.len(),
    ensures
        final(model).items@ == old(model).items@,
        final(model).generation == old(model).generation,
        slot > 0 ==> final(model).active == Some(
            Entity { generation: old(model).generation, slot: (slot - 1) as usize },
        ),
        slot == 0 ==> final(model).active == old(model).active,
        moved == (slot > 0),
{
}

/// Where no item is active, turning forward leads to the second item, if there is one, and
/// turning back does nothing.
pub proof fn turning_without_an_active_item<T>(list: Items<T>)
    requires
        list.active matches Some(e) ==> e.generation != list.generation || e.slot
            >= list.items.len(),
    ensures
        list.forward().items == list.items,
        list.forward().generation == list.generation,
        list.items.len() > 1 ==> list.forward().active == Some(
            Entity { generation: list.generation, slot: 1 },
        ),
        list.items.len() <= 1 ==> list.forward().active == list.active,
        list.backward() == list,
{
}

/// What [`next_is_the_following_item`] and [`previous_is_the_item_before`] say, of what a list
/// holds.
pub proof fn turning_goes_by_one<T>(list: Items<T>, slot: usize)
    requires
        list.active == Some(Entity { generation: list.generation, slot }),
        slot < list.items.len() <= usize::MAX,
    ensures
        list.active_position() == slot,
        list.active_item() == Some(list.items[slot as int]),
        list.forward().items == list.items,
        list.forward().generation == list.generation,
        list.forward().active == Some(
            Entity {
                generation: list.generation,
                slot: if slot + 1 < list.items.len() {
                    (slot + 1) as usize
                } else {
                    slot
                },
            },
        ),
        list.backward().items == list.items,
        list.backward().generation == list.generation,
        list.backward().active == Some(
            Entity {
                generation: list.generation,
                slot: if slot > 0 {
                    (slot - 1) as usize
                } else {
                    0
                },
            },
        ),
{
}

/// A cleared list is empty, nothing of it is active, and its names are of the generation that
/// follows.
pub proof fn clearing_removes_everything<T>(model: &mut Model<T>)
    requires
        call_ensures(Model::<T>::clear, (model,), ()),
    ensures
        final(model).items@.len() == 0,
        final(model).active is None,
        final(model).generation != old(model).generation,
        old(model).generation < u64::MAX ==> final(model).generation == old(model).generation
            + 1,
        final(model)@ == old(model)@.cleared(),
{
}

/// A list that is filled anew holds what it is filled with and nothing else, in the same order,
/// under names of the generation that follows.
pub proof fn refilling_replaces_everything<T>(model: &mut Model<T>, items: Vec<T>)
    requires
        call_ensures(Model::<T>::refill, (model, items), ()),
    ensures
        final(model).items@ == items@,
        final(model).active is None,
        final(model).generation != old(model).generation,
{
}

/// An item that is put in comes last, and the items before it, their names and the active one
/// stay.
pub proof fn inserted_item_comes_last<T>(model: &mut Model<T>, item: T, entity: Entity)
    requires
        call_ensures(Model::<T>::insert, (model, item), entity),
        old(model).items@.len() < usize::MAX,
    ensures
        final(model).items@ == old(model).items@.push(item),
        final(model).generation == old(model).generation,
        final(model).active == old(model).active,
        entity.generation == old(model).generation,
        entity.slot == old(model).items@.len(),
{
}

/// A name of the list's own generation finds the item in its place. A name of another
/// generation, or of a place that the list does not have, finds nothing.
pub proof fn names_find_their_items<T>(
    model: &Model<T>,
    entity: Entity,
    known: bool,
    item: Option<&T>,
    position: Option<usize>,
)
    requires
        call_ensures(Model::<T>::has, (model, entity), known),
        call_ensures(Model::<T>::data, (model, entity), item),
        call_ensures(Model::<T>::position, (model, entity), position),
    ensures
        known <==> entity.generation == model.generation && entity.slot < model.items@.len(),
        known ==> (item matches Some(found) && *found == model.items@[entity.slot as int]),
        known ==> position == Some(entity.slot),
        !known ==> item is None && position is None,
        known == model@.contains(entity),
        item matches Some(found) ==> model@.get(entity) == Some(*found),
        item is None ==> model@.get(entity) is None,
{
}

/// The position of the active item is its place, or the first place where no item is active.
pub proof fn current_position_is_that_of_the_active_item<T>(model: &Model<T>, position: usize)
    requires
        call_ensures(Model::<T>::current_position, (model,), position),
    ensures
        match model.active {
            Some(entity) => if entity.generation == model.generation && entity.slot
                < model.items@.len() {
                position == entity.slot
            } else {
                position == 0
            },
            None => position == 0,
        },
{
}

/// Activating an entity makes it active and changes nothing else.
pub proof fn activating_changes_the_active_entity_only<T>(model: &mut Model<T>, entity: Entity)
    requires
        call_ensures(Model::<T>::activate, (model, entity), ()),
    ensures
        final(model).active == Some(entity),
        final(model).items@ == old(model).items@,
        final(model).generation == old(model).generation,
{
}

/// Activating a position makes the item there active, where there is one, and changes nothing
/// else.
pub proof fn activating_a_position_names_its_item<T>(
    model: &mut Model<T>,
    position: usize,
    found: bool,
)
    requires
        call_ensures(Model::<T>::activate_position, (model, position), found),
    ensures
        found <==> position < old(model).items@.len(),
        found ==> final(model).active == Some(
            Entity { generation: old(model).generation, slot: position },
        ),
        !found ==> final(model).active == old(model).active,
        final(model).items@ == old(model).items@,
        final(model).generation == old(model).generation,
{
}

/// Changing an item leaves the others, the names and the active entity as they are.
pub proof fn changing_an_item_keeps_the_others<T>(list: Items<T>, entity: Entity, item: T)
    requires
        entity.generation == list.generation,
        entity.slot < list.items.len(),
    ensures
        list.with(entity, item).items.len() == list.items.len(),
        list.with(entity, item).items[entity.slot as int] == item,
        forall|i: int|
            0 <= i < list.items.len() && i != entity.slot ==> #[trigger] list.with(
                entity,
                item,
            ).items[i] == list.items[i],
        list.with(entity, item).generation == list.generation,
        list.with(entity, item).active == list.active,
{
}

/// A list begins empty and without an active item, and its view holds what it holds.
pub proof fn list_views_are_faithful<T>(model: Model<T>, fresh: Model<T>, len: usize)
    requires
        call_ensures(Model::<T>::new, (), fresh),
        call_ensures(Model::<T>::len, (&model,), len),
    ensures
        fresh.items@.len() == 0,
        fresh.active is None,
        len == model.items@.len(),
        model@.items == model.items@,
        model@.generation == model.generation,
        model@.active == model.active,
{
}

} // verus!
