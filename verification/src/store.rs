//! The entity store: four keyed collections (products, traces, events,
//! participants) that hold all state, together with the creation, append and
//! query operations over them.
//!
//! The store is an explicit object: it is constructed before any operation
//! reaches it, so the "not initialized" failure class of a store accessed
//! before setup cannot arise here. Each operation that assigns identifiers or
//! timestamps takes one nanosecond clock reading as an argument; every value
//! the operation records is derived from that reading.

use vstd::prelude::*;

use crate::authenticity::{chronological, events_chronological};
use crate::entities::{
    EventType, EventView, Participant, ParticipantRole, ParticipantView, Product, ProductView,
    StoreError, SupplyChainEvent, SupplyChainTrace, TraceView,
};
use crate::ident::{generate_id, spec_id, spec_timestamp_seconds, timestamp_seconds};

verus! {

/// The mathematical value of a [`SupplyChainStore`]: the four collections,
/// each as a sequence in insertion order.
#[verifier::ext_equal]
pub ghost struct StoreView {
    pub products: Seq<ProductView>,
    pub traces: Seq<TraceView>,
    pub events: Seq<EventView>,
    pub participants: Seq<ParticipantView>,
}

impl StoreView {
    /// The value of a store holding nothing.
    pub open spec fn empty() -> StoreView {
        StoreView {
            products: Seq::empty(),
            traces: Seq::empty(),
            events: Seq::empty(),
            participants: Seq::empty(),
        }
    }

    /// No two products share an identifier.
    pub open spec fn unique_product_ids(self) -> bool {
        forall|i: int, j: int|
            0 <= i < j < self.products.len() ==> self.products[i].id != self.products[j].id
    }

    /// No two events in the flat event collection share an identifier.
    pub open spec fn unique_event_ids(self) -> bool {
        forall|i: int, j: int|
            0 <= i < j < self.events.len() ==> self.events[i].id != self.events[j].id
    }

    /// No two participants share an identifier.
    pub open spec fn unique_participant_ids(self) -> bool {
        forall|i: int, j: int|
            0 <= i < j < self.participants.len()
                ==> self.participants[i].id != self.participants[j].id
    }

    /// Every product has exactly one trace, created in the same operation and
    /// held at the same position.
    pub open spec fn traces_aligned(self) -> bool {
        &&& self.traces.len() == self.products.len()
        &&& forall|i: int|
            0 <= i < self.traces.len() ==> self.traces[i].product_id == self.products[i].id
    }

    /// Every event recorded in a trace references the product the trace
    /// belongs to.
    pub open spec fn trace_events_consistent(self) -> bool {
        forall|i: int, k: int|
            0 <= i < self.traces.len() && 0 <= k < self.traces[i].events.len()
                ==> self.traces[i].events[k].product_id == self.traces[i].product_id
    }

    /// Well-formedness: the referential-integrity rules every store reachable
    /// through this library satisfies.
    pub open spec fn wf(self) -> bool {
        &&& self.unique_product_ids()
        &&& self.unique_event_ids()
        &&& self.unique_participant_ids()
        &&& self.traces_aligned()
        &&& self.trace_events_consistent()
    }

    /// Whether a product with identifier `id` exists.
    pub open spec fn has_product(self, id: Seq<char>) -> bool {
        exists|i: int| 0 <= i < self.products.len() && self.products[i].id == id
    }

    /// The position of the product with identifier `id` (meaningful only
    /// when `has_product(id)` holds; unique under well-formedness).
    pub open spec fn product_index(self, id: Seq<char>) -> int {
        choose|i: int| 0 <= i < self.products.len() && self.products[i].id == id
    }

    /// The product with identifier `id` (meaningful only when
    /// `has_product(id)` holds).
    pub open spec fn product_at(self, id: Seq<char>) -> ProductView {
        self.products[self.product_index(id)]
    }

    /// Whether a trace for product `id` exists.
    pub open spec fn has_trace(self, id: Seq<char>) -> bool {
        exists|i: int| 0 <= i < self.traces.len() && self.traces[i].product_id == id
    }

    /// The position of the trace for product `id` (meaningful only when
    /// `has_trace(id)` holds; unique under well-formedness).
    pub open spec fn trace_index(self, id: Seq<char>) -> int {
        choose|i: int| 0 <= i < self.traces.len() && self.traces[i].product_id == id
    }

    /// The trace for product `id` (meaningful only when `has_trace(id)`
    /// holds).
    pub open spec fn trace_at(self, id: Seq<char>) -> TraceView {
        self.traces[self.trace_index(id)]
    }

    /// Whether an event with identifier `id` exists in the flat collection.
    pub open spec fn has_event(self, id: Seq<char>) -> bool {
        exists|i: int| 0 <= i < self.events.len() && self.events[i].id == id
    }

    /// The position of the event with identifier `id` in the flat collection
    /// (meaningful only when `has_event(id)` holds).
    pub open spec fn event_index(self, id: Seq<char>) -> int {
        choose|i: int| 0 <= i < self.events.len() && self.events[i].id == id
    }

    /// Whether a participant with identifier `id` exists.
    pub open spec fn has_participant(self, id: Seq<char>) -> bool {
        exists|i: int| 0 <= i < self.participants.len() && self.participants[i].id == id
    }

    /// The position of the participant with identifier `id` (meaningful only
    /// when `has_participant(id)` holds).
    pub open spec fn participant_index(self, id: Seq<char>) -> int {
        choose|i: int| 0 <= i < self.participants.len() && self.participants[i].id == id
    }

    /// The store after recording product `p` with its fresh trace `t`
    /// (`p.id == t.product_id`). Recording is an unconditional
    /// insert-or-overwrite: a colliding identifier replaces the old product
    /// and its trace, as a keyed mapping's insert would.
    pub open spec fn with_product(self, p: ProductView, t: TraceView) -> StoreView {
        if self.has_product(p.id) {
            StoreView {
                products: self.products.update(self.product_index(p.id), p),
                traces: self.traces.update(self.product_index(p.id), t),
                events: self.events,
                participants: self.participants,
            }
        } else {
            StoreView {
                products: self.products.push(p),
                traces: self.traces.push(t),
                events: self.events,
                participants: self.participants,
            }
        }
    }

    /// The store after a creation request at clock reading `now_nanos` with
    /// the given caller-supplied attributes: the new product and its empty
    /// trace, both stamped with the derived timestamp.
    pub open spec fn create_product_spec(
        self,
        name: Seq<char>,
        description: Seq<char>,
        manufacturer: Seq<char>,
        batch_number: Seq<char>,
        ingredients: Seq<Seq<char>>,
        certifications: Seq<Seq<char>>,
        now_nanos: u64,
    ) -> StoreView {
        let id = spec_id(now_nanos);
        let ts = spec_timestamp_seconds(now_nanos);
        self.with_product(
            (ProductView {
                id,
                name,
                description,
                manufacturer,
                batch_number,
                production_date: ts,
                ingredients,
                certifications,
            }),
            (TraceView { product_id: id, events: Seq::empty(), created_at: ts, last_updated: ts }),
        )
    }

    /// The store after event `e` is accepted for product `e.product_id`:
    /// `e` is recorded in the flat event collection (insert-or-overwrite by
    /// identifier) and appended to the owning product's trace, whose
    /// `last_updated` becomes the event's timestamp. When no such product
    /// exists the store is unchanged (atomic reject).
    pub open spec fn add_event_spec(self, e: EventView) -> StoreView {
        if self.has_product(e.product_id) {
            let i = self.product_index(e.product_id);
            let t0 = self.traces[i];
            let t = TraceView {
                product_id: t0.product_id,
                events: t0.events.push(e),
                created_at: t0.created_at,
                last_updated: e.timestamp,
            };
            StoreView {
                products: self.products,
                traces: self.traces.update(i, t),
                events: if self.has_event(e.id) {
                    self.events.update(self.event_index(e.id), e)
                } else {
                    self.events.push(e)
                },
                participants: self.participants,
            }
        } else {
            self
        }
    }

    /// The store after participant `p` is registered (insert-or-overwrite by
    /// identifier).
    pub open spec fn register_participant_spec(self, p: ParticipantView) -> StoreView {
        StoreView {
            products: self.products,
            traces: self.traces,
            events: self.events,
            participants: if self.has_participant(p.id) {
                self.participants.update(self.participant_index(p.id), p)
            } else {
                self.participants.push(p)
            },
        }
    }

    /// The authenticity verdict for product `id`: its trace exists, records
    /// at least one event, and the recorded timestamps never strictly
    /// decrease in arrival order.
    pub open spec fn authentic(self, id: Seq<char>) -> bool {
        &&& self.has_trace(id)
        &&& self.trace_at(id).events.len() > 0
        &&& chronological(self.trace_at(id).events)
    }
}

impl StoreView {
    /// Recording a product with a consistent fresh trace preserves
    /// well-formedness.
    pub proof fn lemma_with_product_wf(self, p: ProductView, t: TraceView)
        requires
            self.wf(),
            t.product_id == p.id,
            forall|k: int| 0 <= k < t.events.len() ==> t.events[k].product_id == t.product_id,
        ensures
            self.with_product(p, t).wf(),
            self.with_product(p, t).has_product(p.id),
    {
        let s2 = self.with_product(p, t);
        if self.has_product(p.id) {
            let i = self.product_index(p.id);
            assert(0 <= i < self.products.len() && self.products[i].id == p.id);
            assert(s2.products.len() == self.products.len());
            assert forall|a: int, b: int| 0 <= a < b < s2.products.len() implies s2.products[a].id
                != s2.products[b].id by {
                assert(self.products[a].id != self.products[b].id);
            }
            assert(s2.products[i].id == p.id);
        } else {
            assert forall|k: int| 0 <= k < self.products.len() implies self.products[k].id
                != p.id by {
                if self.products[k].id == p.id {
                    assert(self.has_product(p.id));
                }
            }
            assert(s2.products[self.products.len() as int].id == p.id);
        }
    }
    /// Under well-formedness an existing product's trace also exists and
    /// sits at the product's own position.
    pub proof fn lemma_trace_of_product(self, id: Seq<char>)
        requires
            self.wf(),
            self.has_product(id),
        ensures
            self.has_trace(id),
            self.trace_index(id) == self.product_index(id),
            self.trace_at(id) == self.traces[self.product_index(id)],
    {
        let i = self.product_index(id);
        assert(0 <= i < self.products.len() && self.products[i].id == id);
        assert(self.traces[i].product_id == id);
        assert(self.has_trace(id));
        let j = self.trace_index(id);
        assert(0 <= j < self.traces.len() && self.traces[j].product_id == id);
        if j != i {
            assert(self.products[j].id == self.traces[j].product_id);
        }
    }

    /// Registering a participant preserves well-formedness.
    pub proof fn lemma_register_participant_wf(self, p: ParticipantView)
        requires
            self.wf(),
        ensures
            self.register_participant_spec(p).wf(),
    {
        let s2 = self.register_participant_spec(p);
        if self.has_participant(p.id) {
            let m = self.participant_index(p.id);
            assert(0 <= m < self.participants.len() && self.participants[m].id == p.id);
            assert forall|a: int, b: int| 0 <= a < b < s2.participants.len()
                implies s2.participants[a].id != s2.participants[b].id by {
                assert(self.participants[a].id != self.participants[b].id);
            }
        } else {
            assert forall|k: int| 0 <= k < self.participants.len() implies self.participants[k].id
                != p.id by {
                if self.participants[k].id == p.id {
                    assert(self.has_participant(p.id));
                }
            }
        }
    }

    /// Accepting an event for an existing product preserves
    /// well-formedness.
    pub proof fn lemma_add_event_wf(self, e: EventView)
        requires
            self.wf(),
        ensures
            self.add_event_spec(e).wf(),
    {
        if self.has_product(e.product_id) {
            let i = self.product_index(e.product_id);
            assert(0 <= i < self.products.len() && self.products[i].id == e.product_id);
            let s2 = self.add_event_spec(e);
            assert forall|a: int, k: int|
                0 <= a < s2.traces.len() && 0 <= k < s2.traces[a].events.len()
                    implies s2.traces[a].events[k].product_id == s2.traces[a].product_id by {
                if a == i && k == self.traces[i].events.len() {
                    assert(s2.traces[a].events[k] == e);
                } else {
                    assert(s2.traces[a].events[k] == self.traces[a].events[k]);
                    assert(self.traces[a].events[k].product_id == self.traces[a].product_id);
                }
            }
            if self.has_event(e.id) {
                let m = self.event_index(e.id);
                assert(0 <= m < self.events.len() && self.events[m].id == e.id);
                assert forall|a: int, b: int| 0 <= a < b < s2.events.len() implies s2.events[a].id
                    != s2.events[b].id by {
                    assert(self.events[a].id != self.events[b].id);
                }
            } else {
                assert forall|k: int| 0 <= k < self.events.len() implies self.events[k].id
                    != e.id by {
                    if self.events[k].id == e.id {
                        assert(self.has_event(e.id));
                    }
                }
            }
        }
    }
}

/// The in-memory traceability store: the single source of truth for all
/// entity state.
pub struct SupplyChainStore {
    products: Vec<Product>,
    traces: Vec<SupplyChainTrace>,
    events: Vec<SupplyChainEvent>,
    participants: Vec<Participant>,
}

impl View for SupplyChainStore {
    type V = StoreView;

    closed spec fn view(&self) -> StoreView {
        StoreView {
            products: self.products.deep_view(),
            traces: self.traces.deep_view(),
            events: self.events.deep_view(),
            participants: self.participants.deep_view(),
        }
    }
}

impl SupplyChainStore {
    /// Creates an empty store. Constructing the store before accepting any
    /// request makes an access-before-initialization impossible.
    pub fn new() -> (s: SupplyChainStore)
        ensures
            s@ == StoreView::empty(),
            s@.wf(),
    {
        let s = SupplyChainStore {
            products: Vec::new(),
            traces: Vec::new(),
            events: Vec::new(),
            participants: Vec::new(),
        };
        proof {
            assert(s@.products =~= Seq::<ProductView>::empty());
            assert(s@.traces =~= Seq::<TraceView>::empty());
            assert(s@.events =~= Seq::<EventView>::empty());
            assert(s@.participants =~= Seq::<ParticipantView>::empty());
        }
        s
    }

    /// Finds the position of the product with the given identifier.
    fn find_product_index(&self, product_id: &String) -> (r: Option<usize>)
        ensures
            match r {
                Some(i) => 0 <= i < self@.products.len() && self@.products[i as int].id
                    == product_id@,
                None => !self@.has_product(product_id@),
            },
    {
        let mut i: usize = 0;
        while i < self.products.len()
            invariant
                0 <= i <= self.products@.len(),
                self@.products.len() == self.products@.len(),
                forall|k: int| 0 <= k < i ==> self@.products[k].id != product_id@,
            decreases self.products@.len() - i,
        {
            if self.products[i].id == *product_id {
                return Some(i);
            }
            i = i + 1;
        }
        None
    }

    /// Handles a creation request: assigns the new product an identifier and
    /// a production date derived from `now_nanos`, records it, and seeds its
    /// empty trace in the same operation. Returns the new identifier.
    pub fn create_product(
        &mut self,
        name: String,
        description: String,
        manufacturer: String,
        batch_number: String,
        ingredients: Vec<String>,
        certifications: Vec<String>,
        now_nanos: u64,
    ) -> (product_id: String)
        requires
            old(self)@.wf(),
        ensures
            final(self)@.wf(),
            product_id@ == spec_id(now_nanos),
            final(self)@ == old(self)@.create_product_spec(
                name@,
                description@,
                manufacturer@,
                batch_number@,
                ingredients.deep_view(),
                certifications.deep_view(),
                now_nanos,
            ),
    {
        let ghost pre = self@;
        let product_id = generate_id(now_nanos);
        let ts = timestamp_seconds(now_nanos);
        let product = Product {
            id: product_id.clone(),
            name,
            description,
            manufacturer,
            batch_number,
            production_date: ts,
            ingredients,
            certifications,
        };
        let trace = SupplyChainTrace {
            product_id: product_id.clone(),
            events: Vec::new(),
            created_at: ts,
            last_updated: ts,
        };
        let ghost pv = product@;
        let ghost tv = trace@;
        proof {
            assert(trace.events.deep_view() =~= Seq::<EventView>::empty());
            pre.lemma_with_product_wf(pv, tv);
        }
        match self.find_product_index(&product_id) {
            Some(i) => {
                self.products.set(i, product);
                self.traces.set(i, trace);
                proof {
                    assert(pre.has_product(pv.id));
                    assert(pre.product_index(pv.id) == i as int) by {
                        let j = pre.product_index(pv.id);
                        assert(0 <= j < pre.products.len() && pre.products[j].id == pv.id);
                    }
                    assert(self@.products =~= pre.products.update(i as int, pv));
                    assert(self@.traces =~= pre.traces.update(i as int, tv));
                    assert(self@ == pre.with_product(pv, tv));
                }
            },
            None => {
                self.products.push(product);
                self.traces.push(trace);
                proof {
                    assert(self@.products =~= pre.products.push(pv));
                    assert(self@.traces =~= pre.traces.push(tv));
                    assert(self@ == pre.with_product(pv, tv));
                }
            },
        }
        product_id
    }

    /// Finds the position of the trace for the given product identifier.
    fn find_trace_index(&self, product_id: &String) -> (r: Option<usize>)
        ensures
            match r {
                Some(i) => 0 <= i < self@.traces.len() && self@.traces[i as int].product_id
                    == product_id@,
                None => !self@.has_trace(product_id@),
            },
    {
        let mut i: usize = 0;
        while i < self.traces.len()
            invariant
                0 <= i <= self.traces@.len(),
                self@.traces.len() == self.traces@.len(),
                forall|k: int| 0 <= k < i ==> self@.traces[k].product_id != product_id@,
            decreases self.traces@.len() - i,
        {
            if self.traces[i].product_id == *product_id {
                return Some(i);
            }
            i = i + 1;
        }
        None
    }

    /// Finds the position of the event with the given identifier in the flat
    /// event collection.
    fn find_event_index(&self, event_id: &String) -> (r: Option<usize>)
        ensures
            match r {
                Some(i) => 0 <= i < self@.events.len() && self@.events[i as int].id == event_id@,
                None => !self@.has_event(event_id@),
            },
    {
        let mut i: usize = 0;
        while i < self.events.len()
            invariant
                0 <= i <= self.events@.len(),
                self@.events.len() == self.events@.len(),
                forall|k: int| 0 <= k < i ==> self@.events[k].id != event_id@,
            decreases self.events@.len() - i,
        {
            if self.events[i].id == *event_id {
                return Some(i);
            }
            i = i + 1;
        }
        None
    }

    /// Handles an event-append request. The referenced product must already
    /// exist: otherwise the request is rejected atomically — no event is
    /// recorded anywhere and no trace changes. On success the event, stamped
    /// with an identifier and a timestamp derived from `now_nanos`, is
    /// recorded in the flat event collection and appended to the owning
    /// product's trace in arrival order, and the trace's `last_updated`
    /// becomes the event's timestamp.
    pub fn add_supply_chain_event(
        &mut self,
        product_id: String,
        event_type: EventType,
        location: String,
        actor: String,
        details: String,
        coordinates: Option<(u64, u64)>,
        temperature: Option<u64>,
        humidity: Option<u64>,
        now_nanos: u64,
    ) -> (r: Result<String, StoreError>)
        requires
            old(self)@.wf(),
        ensures
            final(self)@.wf(),
            ({
                let e = (EventView {
                    id: spec_id(now_nanos),
                    product_id: product_id@,
                    event_type,
                    location: location@,
                    timestamp: spec_timestamp_seconds(now_nanos),
                    actor: actor@,
                    details: details@,
                    coordinates,
                    temperature,
                    humidity,
                });
                &&& old(self)@.has_product(product_id@) ==> (r matches Ok(eid) && eid@ == spec_id(
                    now_nanos,
                ) && final(self)@ == old(self)@.add_event_spec(e))
                &&& !old(self)@.has_product(product_id@) ==> r == Err::<String, StoreError>(
                    StoreError::ProductNotFound,
                ) && final(self)@ == old(self)@
            }),
    {
        let ghost pre = self@;
        let event_id = generate_id(now_nanos);
        let ts = timestamp_seconds(now_nanos);
        let event = SupplyChainEvent {
            id: event_id.clone(),
            product_id: product_id.clone(),
            event_type,
            location,
            timestamp: ts,
            actor,
            details,
            coordinates,
            temperature,
            humidity,
        };
        let ghost ev = event@;
        proof {
            pre.lemma_add_event_wf(ev);
        }
        if self.find_product_index(&product_id).is_none() {
            return Err(StoreError::ProductNotFound);
        }
        let ti = match self.find_trace_index(&product_id) {
            Some(i) => i,
            None => {
                proof {
                    let j = pre.product_index(product_id@);
                    assert(0 <= j < pre.products.len() && pre.products[j].id == product_id@);
                    assert(pre.traces[j].product_id == product_id@);
                }
                return Err(StoreError::TraceNotFound);
            },
        };
        match self.find_event_index(&event_id) {
            Some(m) => self.events.set(m, event.clone()),
            None => self.events.push(event.clone()),
        }
        let trace = &mut self.traces[ti];
        trace.events.push(event);
        trace.last_updated = ts;
        proof {
            assert(pre.product_index(ev.product_id) == ti as int) by {
                let j = pre.product_index(ev.product_id);
                assert(0 <= j < pre.products.len() && pre.products[j].id == ev.product_id);
                assert(pre.traces[j].product_id == ev.product_id);
                if j != ti as int {
                    assert(pre.products[ti as int].id == pre.traces[ti as int].product_id);
                }
            }
            let s2 = pre.add_event_spec(ev);
            assert(self@.traces[ti as int].events =~= s2.traces[ti as int].events);
            assert(self@.traces[ti as int] == s2.traces[ti as int]);
            assert(self@.traces =~= s2.traces);
            assert(self@.events =~= s2.events);
            assert(self@ == s2);
        }
        Ok(event_id)
    }

    /// Finds the position of the participant with the given identifier.
    fn find_participant_index(&self, participant_id: &String) -> (r: Option<usize>)
        ensures
            match r {
                Some(i) => 0 <= i < self@.participants.len() && self@.participants[i as int].id
                    == participant_id@,
                None => !self@.has_participant(participant_id@),
            },
    {
        let mut i: usize = 0;
        while i < self.participants.len()
            invariant
                0 <= i <= self.participants@.len(),
                self@.participants.len() == self.participants@.len(),
                forall|k: int| 0 <= k < i ==> self@.participants[k].id != participant_id@,
            decreases self.participants@.len() - i,
        {
            if self.participants[i].id == *participant_id {
                return Some(i);
            }
            i = i + 1;
        }
        None
    }

    /// Handles a registration request: assigns the new participant an
    /// identifier derived from `now_nanos` and records it, unverified.
    /// Returns the new identifier.
    pub fn register_participant(
        &mut self,
        name: String,
        role: ParticipantRole,
        location: String,
        public_key: String,
        now_nanos: u64,
    ) -> (participant_id: String)
        requires
            old(self)@.wf(),
        ensures
            final(self)@.wf(),
            participant_id@ == spec_id(now_nanos),
            final(self)@ == old(self)@.register_participant_spec(
                (ParticipantView {
                    id: spec_id(now_nanos),
                    name: name@,
                    role,
                    location: location@,
                    public_key: public_key@,
                    is_verified: false,
                }),
            ),
    {
        let ghost pre = self@;
        let participant_id = generate_id(now_nanos);
        let participant = Participant {
            id: participant_id.clone(),
            name,
            role,
            location,
            public_key,
            is_verified: false,
        };
        let ghost pv = participant@;
        proof {
            pre.lemma_register_participant_wf(pv);
        }
        match self.find_participant_index(&participant_id) {
            Some(i) => {
                self.participants.set(i, participant);
                proof {
                    assert(pre.has_participant(pv.id));
                    assert(pre.participant_index(pv.id) == i as int) by {
                        let j = pre.participant_index(pv.id);
                        assert(0 <= j < pre.participants.len() && pre.participants[j].id == pv.id);
                    }
                    assert(self@.participants =~= pre.participants.update(i as int, pv));
                    assert(self@ == pre.register_participant_spec(pv));
                }
            },
            None => {
                self.participants.push(participant);
                proof {
                    assert(self@.participants =~= pre.participants.push(pv));
                    assert(self@ == pre.register_participant_spec(pv));
                }
            },
        }
        participant_id
    }

    /// Looks one product up by identifier.
    pub fn get_product(&self, product_id: String) -> (r: Result<Product, StoreError>)
        requires
            self@.wf(),
        ensures
            self@.has_product(product_id@) ==> (r matches Ok(p) && p@ == self@.product_at(
                product_id@,
            )),
            !self@.has_product(product_id@) ==> r == Err::<Product, StoreError>(
                StoreError::ProductNotFound,
            ),
    {
        match self.find_product_index(&product_id) {
            Some(i) => {
                let p = self.products[i].clone();
                proof {
                    let j = self@.product_index(product_id@);
                    assert(0 <= j < self@.products.len() && self@.products[j].id == product_id@);
                }
                Ok(p)
            },
            None => Err(StoreError::ProductNotFound),
        }
    }

    /// Looks the trace for one product up by the product's identifier.
    pub fn get_supply_chain_trace(&self, product_id: String) -> (r: Option<SupplyChainTrace>)
        requires
            self@.wf(),
        ensures
            self@.has_trace(product_id@) ==> (r matches Some(t) && t@ == self@.trace_at(
                product_id@,
            )),
            !self@.has_trace(product_id@) ==> r is None,
    {
        match self.find_trace_index(&product_id) {
            Some(i) => {
                let t = self.traces[i].clone();
                proof {
                    let j = self@.trace_index(product_id@);
                    assert(0 <= j < self@.traces.len() && self@.traces[j].product_id
                        == product_id@);
                    if j != i as int {
                        assert(self@.products[j].id == self@.traces[j].product_id);
                        assert(self@.products[i as int].id == self@.traces[i as int].product_id);
                    }
                }
                Some(t)
            },
            None => None,
        }
    }

    /// Enumerates every product currently in the store.
    pub fn get_all_products(&self) -> (r: Vec<Product>)
        ensures
            r.deep_view() == self@.products,
    {
        let mut r: Vec<Product> = Vec::new();
        let mut i: usize = 0;
        proof {
            assert(r.deep_view() =~= self@.products.take(0));
        }
        while i < self.products.len()
            invariant
                0 <= i <= self.products@.len(),
                self@.products.len() == self.products@.len(),
                r.deep_view() == self@.products.take(i as int),
            decreases self.products@.len() - i,
        {
            let ghost r0 = r.deep_view();
            r.push(self.products[i].clone());
            proof {
                assert(r.deep_view() =~= r0.push(self@.products[i as int]));
                assert(r0.push(self@.products[i as int]) =~= self@.products.take(i as int + 1));
            }
            i = i + 1;
        }
        proof {
            assert(self@.products.take(i as int) =~= self@.products);
        }
        r
    }

    /// Enumerates every registered participant.
    pub fn get_participants(&self) -> (r: Vec<Participant>)
        ensures
            r.deep_view() == self@.participants,
    {
        let mut r: Vec<Participant> = Vec::new();
        let mut i: usize = 0;
        proof {
            assert(r.deep_view() =~= self@.participants.take(0));
        }
        while i < self.participants.len()
            invariant
                0 <= i <= self.participants@.len(),
                self@.participants.len() == self.participants@.len(),
                r.deep_view() == self@.participants.take(i as int),
            decreases self.participants@.len() - i,
        {
            let ghost r0 = r.deep_view();
            r.push(self.participants[i].clone());
            proof {
                assert(r.deep_view() =~= r0.push(self@.participants[i as int]));
                assert(r0.push(self@.participants[i as int]) =~= self@.participants.take(
                    i as int + 1,
                ));
            }
            i = i + 1;
        }
        proof {
            assert(self@.participants.take(i as int) =~= self@.participants);
        }
        r
    }

    /// Reports the authenticity verdict for one product: an error when the
    /// product is unknown, otherwise whether its recorded history is
    /// plausible — a trace exists, records at least one event, and the
    /// timestamps never strictly decrease in arrival order.
    pub fn verify_product_authenticity(&self, product_id: String) -> (r: Result<bool, StoreError>)
        requires
            self@.wf(),
        ensures
            self@.has_product(product_id@) ==> r == Ok::<bool, StoreError>(self@.authentic(
                product_id@,
            )),
            !self@.has_product(product_id@) ==> r == Err::<bool, StoreError>(
                StoreError::ProductNotFound,
            ),
    {
        if self.find_product_index(&product_id).is_none() {
            return Err(StoreError::ProductNotFound);
        }
        match self.find_trace_index(&product_id) {
            Some(i) => {
                proof {
                    let j = self@.trace_index(product_id@);
                    assert(0 <= j < self@.traces.len() && self@.traces[j].product_id
                        == product_id@);
                    if j != i as int {
                        assert(self@.products[j].id == self@.traces[j].product_id);
                        assert(self@.products[i as int].id == self@.traces[i as int].product_id);
                    }
                }
                if self.traces[i].events.len() == 0 {
                    return Ok(false);
                }
                let verdict = events_chronological(&self.traces[i].events);
                Ok(verdict)
            },
            None => Ok(false),
        }
    }
}

} // verus!
