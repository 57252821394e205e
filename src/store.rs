//! An in-memory model store: models keyed by their event id, and what
//! storing a model leaves to refresh.
use vstd::prelude::*;

use crate::referencing::{ExecuteReference, IndexKey};
use crate::event::RawStateEvent;
use crate::status::{decode_event, status_indizes, RoomStatus};

verus! {

/// The position of the first model at or after `i` whose event id is `id`.
pub open spec fn find_from(s: Seq<RoomStatus>, id: Seq<char>, i: int) -> Option<int>
    decreases s.len() - i,
{
    if i < 0 || i >= s.len() {
        None
    } else if s[i].meta.event_id@ == id {
        Some(i)
    } else {
        find_from(s, id, i + 1)
    }
}

/// The models after storing `m`: the model with the same event id is
/// replaced, or `m` is added after the others.
pub open spec fn save_spec(s: Seq<RoomStatus>, m: RoomStatus) -> Seq<RoomStatus> {
    match find_from(s, m.meta.event_id@, 0) {
        Some(i) => s.update(i, m),
        None => s.push(m),
    }
}

/// What storing `m` leaves to refresh: its own slot, then each of its
/// index buckets.
pub open spec fn execute_refs(m: RoomStatus) -> Seq<ExecuteReference> {
    seq![ExecuteReference::Model(m.meta.event_id)] + status_indizes(m).map_values(
        |k: IndexKey| ExecuteReference::Index(k),
    )
}

proof fn lemma_find_bounds(s: Seq<RoomStatus>, id: Seq<char>, j: int)
    requires
        0 <= j,
    ensures
        (find_from(s, id, j) matches Some(i) ==> j <= i < s.len() && s[i].meta.event_id@ == id),
    decreases s.len() - j,
{
    if j < s.len() {
        lemma_find_bounds(s, id, j + 1);
    }
}

proof fn lemma_find_after_update(s: Seq<RoomStatus>, id: Seq<char>, j: int, i: int, m: RoomStatus)
    requires
        0 <= j <= i,
        find_from(s, id, j) == Some(i),
        m.meta.event_id@ == id,
    ensures
        find_from(s.update(i, m), id, j) == Some(i),
    decreases i - j,
{
    lemma_find_bounds(s, id, j);
    if j < i {
        lemma_find_after_update(s, id, j + 1, i, m);
    }
}

proof fn lemma_find_after_push(s: Seq<RoomStatus>, id: Seq<char>, j: int, m: RoomStatus)
    requires
        0 <= j <= s.len(),
        find_from(s, id, j) is None,
        m.meta.event_id@ == id,
    ensures
        find_from(s.push(m), id, j) == Some(s.len() as int),
    decreases s.len() - j,
{
    if j < s.len() {
        lemma_find_after_push(s, id, j + 1, m);
    }
}

/// No two models share an event id.
pub open spec fn unique_ids(s: Seq<RoomStatus>) -> bool {
    forall|i: int, j: int|
        0 <= i < j < s.len() ==> #[trigger] s[i].meta.event_id@ != #[trigger] s[j].meta.event_id@
}

proof fn lemma_find_none(s: Seq<RoomStatus>, id: Seq<char>, j: int)
    requires
        0 <= j,
        find_from(s, id, j) is None,
    ensures
        forall|k: int| j <= k < s.len() ==> #[trigger] s[k].meta.event_id@ != id,
    decreases s.len() - j,
{
    if j < s.len() {
        lemma_find_none(s, id, j + 1);
    }
}

/// Storing a model keeps event ids unique.
pub proof fn lemma_save_keeps_ids_unique(s: Seq<RoomStatus>, m: RoomStatus)
    requires
        unique_ids(s),
    ensures
        unique_ids(save_spec(s, m)),
{
    let id = m.meta.event_id@;
    let s1 = save_spec(s, m);
    match find_from(s, id, 0) {
        Some(i) => {
            lemma_find_bounds(s, id, 0);
            assert forall|a: int| 0 <= a < s1.len() implies #[trigger] s1[a].meta.event_id@
                == s[a].meta.event_id@ by {}
        },
        None => {
            lemma_find_none(s, id, 0);
            assert forall|a: int, b: int| 0 <= a < b < s1.len() implies #[trigger] s1[a].meta.event_id@
                != #[trigger] s1[b].meta.event_id@ by {
                if b == s.len() {
                    assert(s1[a] == s[a]);
                } else {
                    assert(s1[a] == s[a] && s1[b] == s[b]);
                }
            }
        },
    }
}

/// Storing the same model twice leaves the store as storing it once.
pub proof fn lemma_save_idempotent(s: Seq<RoomStatus>, m: RoomStatus)
    ensures
        save_spec(save_spec(s, m), m) == save_spec(s, m),
{
    let id = m.meta.event_id@;
    let s1 = save_spec(s, m);
    match find_from(s, id, 0) {
        Some(i) => {
            lemma_find_bounds(s, id, 0);
            lemma_find_after_update(s, id, 0, i, m);
            assert(s1.update(i, m) =~= s1);
        },
        None => {
            lemma_find_after_push(s, id, 0, m);
            assert(s1.update(s.len() as int, m) =~= s1);
        },
    }
}

/// Two models decoded from the same event, executed one after the other,
/// leave the store as executing one of them does, and name the same slots
/// to refresh.
pub proof fn lemma_execute_idempotent(s: Seq<RoomStatus>, e1: RawStateEvent, e2: RawStateEvent)
    requires
        e1 == e2,
        decode_event(e1) is Ok,
    ensures
        decode_event(e2) is Ok,
        save_spec(save_spec(s, decode_event(e1)->Ok_0), decode_event(e2)->Ok_0) == save_spec(
            s,
            decode_event(e1)->Ok_0,
        ),
        execute_refs(decode_event(e1)->Ok_0) == execute_refs(decode_event(e2)->Ok_0),
{
    lemma_save_idempotent(s, decode_event(e1)->Ok_0);
}

/// Models of one account, at most one for each event id.
pub struct Store {
    user_id: String,
    models: Vec<RoomStatus>,
}

impl View for Store {
    type V = Seq<RoomStatus>;

    closed spec fn view(&self) -> Seq<RoomStatus> {
        self.models@
    }
}

impl Store {
    /// No two stored models share an event id.
    pub open spec fn wf(&self) -> bool {
        unique_ids(self@)
    }

    pub closed spec fn spec_user_id(&self) -> Seq<char> {
        self.user_id@
    }

    /// An empty store for the account `user_id`.
    pub fn new(user_id: String) -> (r: Store)
        ensures
            r@ == Seq::<RoomStatus>::empty(),
            r.wf(),
            r.spec_user_id() == user_id@,
    {
        let r = Store { user_id, models: Vec::new() };
        proof {
            assert(r@ =~= Seq::<RoomStatus>::empty());
        }
        r
    }

    /// The account whose models the store holds.
    pub fn user_id(&self) -> (r: &str)
        ensures
            r@ == self.spec_user_id(),
    {
        self.user_id.as_str()
    }

    /// The number of models stored.
    pub fn len(&self) -> (r: usize)
        ensures
            r == self@.len(),
    {
        self.models.len()
    }

    /// The position of the model of `event_id`, if one is stored.
    fn position(&self, event_id: &String) -> (r: Option<usize>)
        ensures
            r matches Some(i) ==> find_from(self@, event_id@, 0) == Some(i as int) && i < self@.len(),
            r is None ==> find_from(self@, event_id@, 0) is None,
    {
        let mut i: usize = 0;
        while i < self.models.len()
            invariant
                0 <= i <= self@.len(),
                self@ == self.models@,
                find_from(self@, event_id@, 0) == find_from(self@, event_id@, i as int),
            decreases self.models.len() - i,
        {
            if self.models[i].meta.event_id == *event_id {
                return Some(i);
            }
            i = i + 1;
        }
        None
    }

    /// The stored model of `event_id`, if any.
    pub fn get(&self, event_id: &String) -> (r: Option<&RoomStatus>)
        ensures
            match find_from(self@, event_id@, 0) {
                Some(i) => r == Some(&self@[i]),
                None => r is None,
            },
    {
        match self.position(event_id) {
            Some(i) => Some(&self.models[i]),
            None => None,
        }
    }

    /// Stores `model` under its event id, replacing the model stored there
    /// before, and returns the slots to refresh: the model's own and each of
    /// its index buckets.
    pub fn save(&mut self, model: RoomStatus) -> (r: Vec<ExecuteReference>)
        requires
            old(self).wf(),
        ensures
            final(self).wf(),
            final(self)@ == save_spec(old(self)@, model),
            final(self).spec_user_id() == old(self).spec_user_id(),
            r@ == execute_refs(model),
    {
        let mut r: Vec<ExecuteReference> = Vec::new();
        r.push(ExecuteReference::Model(model.meta.event_id.clone()));
        let mut keys = model.indizes(self.user_id.as_str());
        let ghost all = keys@;
        let ghost head = r@;
        proof {
            assert(all.take(0).map_values(|k: IndexKey| ExecuteReference::Index(k)) =~= Seq::<
                ExecuteReference,
            >::empty());
            assert(head =~= head + all.take(0).map_values(|k: IndexKey| ExecuteReference::Index(k)));
        }
        while keys.len() > 0
            invariant
                all == status_indizes(model),
                head == seq![ExecuteReference::Model(model.meta.event_id)],
                keys@.len() <= all.len(),
                keys@ == all.skip(all.len() - keys@.len()),
                r@ == head + all.take(all.len() - keys@.len()).map_values(
                    |k: IndexKey| ExecuteReference::Index(k),
                ),
            decreases keys.len(),
        {
            let ghost done = all.len() - keys@.len();
            let k = keys.remove(0);
            r.push(ExecuteReference::Index(k));
            proof {
                assert(k == all[done]);
                assert(keys@ =~= all.skip(done + 1));
                assert(all.take(done + 1) =~= all.take(done).push(k));
                assert(r@ =~= head + all.take(done + 1).map_values(
                    |k: IndexKey| ExecuteReference::Index(k),
                ));
            }
        }
        proof {
            assert(all.take(all.len() as int) =~= all);
        }
        match self.position(&model.meta.event_id) {
            Some(i) => self.models.set(i, model),
            None => self.models.push(model),
        }
        proof {
            lemma_save_keeps_ids_unique(old(self)@, model);
        }
        r
    }
}

impl RoomStatus {
    /// Stores the model and returns the slots to refresh.
    pub fn execute(self, store: &mut Store) -> (r: Vec<ExecuteReference>)
        requires
            old(store).wf(),
        ensures
            final(store).wf(),
            final(store)@ == save_spec(old(store)@, self),
            final(store).spec_user_id() == old(store).spec_user_id(),
            r@ == execute_refs(self),
    {
        store.save(self)
    }
}

} // verus!
