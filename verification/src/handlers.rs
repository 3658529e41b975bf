//! Notification handlers registered by name: registering under a name that
//! is taken replaces the handler, and a notification is offered to the
//! handlers in turn until one takes it.

use vstd::prelude::*;

verus! {

/// Handlers registered by name, each name once, in registration order.
pub struct HandlerRegistry<H> {
    entries: Vec<(String, H)>,
}

/// The names of registry entries.
pub open spec fn spec_names<H>(entries: Seq<(Seq<char>, H)>) -> Seq<Seq<char>> {
    entries.map_values(|e: (Seq<char>, H)| e.0)
}

/// Whether each name occurs once among the entries.
pub open spec fn spec_unique<H>(entries: Seq<(Seq<char>, H)>) -> bool {
    forall|i: int, j: int| 0 <= i < j < entries.len() ==> #[trigger] entries[i].0 != #[trigger] entries[j].0
}

/// The entries as names and handlers.
pub open spec fn spec_entries<H>(entries: Seq<(String, H)>) -> Seq<(Seq<char>, H)> {
    entries.map_values(|e: (String, H)| (e.0@, e.1))
}

/// The position of `id` among the registry entries, if it is there.
pub open spec fn spec_position<H>(entries: Seq<(Seq<char>, H)>, id: Seq<char>) -> Option<int> {
    if exists|i: int| 0 <= i < entries.len() && #[trigger] entries[i].0 == id {
        Some(choose|i: int| 0 <= i < entries.len() && #[trigger] entries[i].0 == id)
    } else {
        None
    }
}

impl<H> HandlerRegistry<H> {
    /// The entries: name and handler, in registration order.
    pub closed spec fn view(&self) -> Seq<(Seq<char>, H)> {
        spec_entries(self.entries@)
    }

    /// Each name is registered once.
    #[verifier::type_invariant]
    closed spec fn names_unique(&self) -> bool {
        spec_unique(self@)
    }

    /// An empty registry.
    pub fn new() -> (r: Self)
        ensures
            r@ == Seq::<(Seq<char>, H)>::empty(),
    {
        let entries: Vec<(String, H)> = Vec::new();
        assert(spec_entries(entries@) =~= Seq::<(Seq<char>, H)>::empty());
        HandlerRegistry { entries }
    }

    /// The position of `id`, if it is registered.
    fn find(&self, id: &String) -> (r: Option<usize>)
        ensures
            r matches Some(i) ==> i < self@.len() && self@[i as int].0 == id@ && spec_position(self@, id@) == Some(
                i as int,
            ),
            r is None ==> spec_position(self@, id@) is None && forall|k: int|
                0 <= k < self@.len() ==> #[trigger] self@[k].0 != id@,
    {
        proof {
            use_type_invariant(self);
        }
        let mut i: usize = 0;
        while i < self.entries.len()
            invariant
                i <= self.entries@.len(),
                spec_unique(self@),
                forall|k: int| 0 <= k < i ==> #[trigger] self@[k].0 != id@,
            decreases self.entries@.len() - i,
        {
            assert(self@[i as int] == (self.entries@[i as int].0@, self.entries@[i as int].1));
            if self.entries[i].0 == *id {
                proof {
                    assert(self@[i as int].0 == id@);
                    let c = choose|j: int| 0 <= j < self@.len() && #[trigger] self@[j].0 == id@;
                    assert(0 <= c < self@.len() && self@[c].0 == id@);
                    if c != i {
                        if c < i {
                            assert(self@[c].0 != id@);
                        } else {
                            assert(self@[i as int].0 != self@[c].0);
                        }
                    }
                    assert(spec_position(self@, id@) == Some(i as int));
                }
                return Some(i);
            }
            i = i + 1;
        }
        assert(!(exists|k: int| 0 <= k < self@.len() && #[trigger] self@[k].0 == id@));
        None
    }

    /// Register `handler` under `id`, replacing the handler registered
    /// under that name, if any (which keeps its place).
    pub fn add_notification_handler(&mut self, id: String, handler: H)
        ensures
            final(self)@ == match spec_position(old(self)@, id@) {
                Some(i) => old(self)@.update(i, (id@, handler)),
                None => old(self)@.push((id@, handler)),
            },
    {
        proof {
            use_type_invariant(&*self);
        }
        let ghost before = self@;
        let ghost name = id@;
        let found = self.find(&id);
        let mut entries: Vec<(String, H)> = Vec::new();
        std::mem::swap(&mut entries, &mut self.entries);
        assert(spec_entries(entries@) == before);
        match found {
            Some(i) => {
                entries.set(i, (id, handler));
                assert(spec_entries(entries@) =~= before.update(i as int, (name, handler)));
                assert forall|a: int, b: int| 0 <= a < b < entries@.len() implies #[trigger] spec_entries(entries@)[a].0
                    != #[trigger] spec_entries(entries@)[b].0 by {
                    if a != i && b != i {
                        assert(before[a].0 != before[b].0);
                    } else if a == i {
                        assert(before[i as int].0 != before[b].0);
                    } else {
                        assert(before[a].0 != before[i as int].0);
                    }
                }
            },
            None => {
                entries.push((id, handler));
                assert(spec_entries(entries@) =~= before.push((name, handler)));
                assert forall|a: int, b: int| 0 <= a < b < entries@.len() implies #[trigger] spec_entries(entries@)[a].0
                    != #[trigger] spec_entries(entries@)[b].0 by {
                    if b == before.len() {
                        assert(before[a].0 != name);
                    } else {
                        assert(before[a].0 != before[b].0);
                    }
                }
            },
        }
        self.entries = entries;
    }

    /// Remove the handler registered under `id`, if any.
    pub fn remove_notification_handler(&mut self, id: &str)
        ensures
            final(self)@ == match spec_position(old(self)@, id@) {
                Some(i) => old(self)@.remove(i),
                None => old(self)@,
            },
    {
        proof {
            use_type_invariant(&*self);
        }
        let ghost before = self@;
        let name = id.to_owned();
        let found = self.find(&name);
        match found {
            Some(i) => {
                let mut entries: Vec<(String, H)> = Vec::new();
        std::mem::swap(&mut entries, &mut self.entries);
                assert(spec_entries(entries@) == before);
                entries.remove(i);
                assert(spec_entries(entries@) =~= before.remove(i as int));
                assert forall|a: int, b: int| 0 <= a < b < entries@.len() implies #[trigger] spec_entries(entries@)[a].0
                    != #[trigger] spec_entries(entries@)[b].0 by {
                    let a0 = if a < i { a } else { a + 1 };
                    let b0 = if b < i { b } else { b + 1 };
                    assert(spec_entries(entries@)[a] == before[a0]);
                    assert(spec_entries(entries@)[b] == before[b0]);
                    assert(before[a0].0 != before[b0].0);
                }
                self.entries = entries;
            },
            None => {},
        }
    }

    /// Offer a notification to the handlers in registration order, through
    /// `offer` (which hands it to one handler), until one takes it: its
    /// answer, or `None` when none does.
    pub fn handle_notification<R, F: Fn(&H) -> Option<R>>(&self, offer: F) -> (r: Option<R>)
        requires
            forall|h: &H| #[trigger] offer.requires((h,)),
        ensures
            r matches Some(x) ==> exists|i: int|
                0 <= i < self@.len() && call_ensures(offer, (&self@[i].1,), Some(x)) && forall|j: int|
                    0 <= j < i ==> call_ensures(offer, (&#[trigger] self@[j].1,), None::<R>),
            r is None ==> forall|j: int| 0 <= j < self@.len() ==> call_ensures(offer, (&#[trigger] self@[j].1,), None::<R>),
    {
        let mut i: usize = 0;
        while i < self.entries.len()
            invariant
                i <= self.entries@.len(),
                forall|h: &H| #[trigger] offer.requires((h,)),
                forall|j: int| 0 <= j < i ==> call_ensures(offer, (&#[trigger] self@[j].1,), None::<R>),
            decreases self.entries@.len() - i,
        {
            assert(self@[i as int].1 == self.entries@[i as int].1);
            let answer = offer(&self.entries[i].1);
            match answer {
                Some(x) => {
                    return Some(x);
                },
                None => {},
            }
            i = i + 1;
        }
        None
    }
}

} // verus!
