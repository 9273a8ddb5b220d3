//! Laws of the store: properties that relate several operations, stated over
//! the store's mathematical value and proved once for every input.

use vstd::prelude::*;

use crate::entities::{EventView, ProductView, TraceView};
use crate::ident::{spec_id, spec_timestamp_seconds};
use crate::store::StoreView;

verus! {

/// A successfully created product is retrievable: in the store a creation
/// request produces, the assigned identifier names a product equal to the
/// submitted attributes plus the assigned production date.
pub proof fn lemma_created_product_retrievable(
    s: StoreView,
    name: Seq<char>,
    description: Seq<char>,
    manufacturer: Seq<char>,
    batch_number: Seq<char>,
    ingredients: Seq<Seq<char>>,
    certifications: Seq<Seq<char>>,
    now_nanos: u64,
)
    requires
        s.wf(),
    ensures
        ({
            let s2 = s.create_product_spec(
                name,
                description,
                manufacturer,
                batch_number,
                ingredients,
                certifications,
                now_nanos,
            );
            let id = spec_id(now_nanos);
            &&& s2.wf()
            &&& s2.has_product(id)
            &&& s2.product_at(id) == (ProductView {
                id,
                name,
                description,
                manufacturer,
                batch_number,
                production_date: spec_timestamp_seconds(now_nanos),
                ingredients,
                certifications,
            })
        }),
{
    let id = spec_id(now_nanos);
    let ts = spec_timestamp_seconds(now_nanos);
    let pv = ProductView {
        id,
        name,
        description,
        manufacturer,
        batch_number,
        production_date: ts,
        ingredients,
        certifications,
    };
    let tv = TraceView { product_id: id, events: Seq::empty(), created_at: ts, last_updated: ts };
    s.lemma_with_product_wf(pv, tv);
    let s2 = s.with_product(pv, tv);
    let j = s2.product_index(id);
    assert(0 <= j < s2.products.len() && s2.products[j].id == id);
    if s.has_product(id) {
        let i = s.product_index(id);
        assert(0 <= i < s.products.len() && s.products[i].id == id);
        if j != i {
            assert(s.products[j].id == id);
        }
    } else {
        if j != s.products.len() {
            assert(s.products[j].id == id);
            assert(s.has_product(id));
        }
    }
}

/// Immediately after creation a product's trace exists, records no events,
/// and was created and last updated at the same moment.
pub proof fn lemma_new_product_trace_empty(
    s: StoreView,
    name: Seq<char>,
    description: Seq<char>,
    manufacturer: Seq<char>,
    batch_number: Seq<char>,
    ingredients: Seq<Seq<char>>,
    certifications: Seq<Seq<char>>,
    now_nanos: u64,
)
    requires
        s.wf(),
    ensures
        ({
            let s2 = s.create_product_spec(
                name,
                description,
                manufacturer,
                batch_number,
                ingredients,
                certifications,
                now_nanos,
            );
            let id = spec_id(now_nanos);
            &&& s2.has_trace(id)
            &&& s2.trace_at(id) == (TraceView {
                product_id: id,
                events: Seq::empty(),
                created_at: spec_timestamp_seconds(now_nanos),
                last_updated: spec_timestamp_seconds(now_nanos),
            })
            &&& s2.trace_at(id).events.len() == 0
            &&& s2.trace_at(id).created_at == s2.trace_at(id).last_updated
        }),
{
    let id = spec_id(now_nanos);
    let ts = spec_timestamp_seconds(now_nanos);
    let pv = ProductView {
        id,
        name,
        description,
        manufacturer,
        batch_number,
        production_date: ts,
        ingredients,
        certifications,
    };
    let tv = TraceView { product_id: id, events: Seq::empty(), created_at: ts, last_updated: ts };
    s.lemma_with_product_wf(pv, tv);
    lemma_created_product_retrievable(
        s,
        name,
        description,
        manufacturer,
        batch_number,
        ingredients,
        certifications,
        now_nanos,
    );
    let s2 = s.with_product(pv, tv);
    s2.lemma_trace_of_product(id);
    let i = s2.product_index(id);
    assert(0 <= i < s2.products.len() && s2.products[i].id == id);
    if s.has_product(id) {
        let i0 = s.product_index(id);
        assert(0 <= i0 < s.products.len() && s.products[i0].id == id);
        if i != i0 {
            assert(s.products[i].id == id);
        }
        assert(s2.traces[i] == tv);
    } else {
        if i != s.products.len() {
            assert(s.products[i].id == id);
            assert(s.has_product(id));
        }
        assert(s2.traces[i] == tv);
    }
}

/// The store after the events of `es` have been accepted, in order.
pub open spec fn after_events(s: StoreView, es: Seq<EventView>) -> StoreView
    decreases es.len(),
{
    if es.len() == 0 {
        s
    } else {
        after_events(s, es.drop_last()).add_event_spec(es.last())
    }
}

/// Appends accumulate in arrival order: accepting events E1..EN for product
/// P, in that order, extends P's trace by exactly [E1..EN] and leaves its
/// `last_updated` at the timestamp of the final append. No other product's
/// record changes, and the trace's creation time stands.
pub proof fn lemma_appends_accumulate(s: StoreView, pid: Seq<char>, es: Seq<EventView>)
    requires
        s.wf(),
        s.has_product(pid),
        forall|k: int| 0 <= k < es.len() ==> #[trigger] es[k].product_id == pid,
    ensures
        ({
            let s2 = after_events(s, es);
            &&& s2.wf()
            &&& s2.has_product(pid)
            &&& s2.has_trace(pid)
            &&& s2.products == s.products
            &&& s2.trace_at(pid).events == s.trace_at(pid).events + es
            &&& s2.trace_at(pid).created_at == s.trace_at(pid).created_at
            &&& es.len() > 0 ==> s2.trace_at(pid).last_updated == es.last().timestamp
            &&& es.len() == 0 ==> s2.trace_at(pid).last_updated == s.trace_at(pid).last_updated
        }),
    decreases es.len(),
{
    s.lemma_trace_of_product(pid);
    if es.len() == 0 {
        assert(after_events(s, es) == s);
        assert(s.trace_at(pid).events =~= s.trace_at(pid).events + es);
    } else {
        let es0 = es.drop_last();
        let e = es.last();
        assert(forall|k: int| 0 <= k < es0.len() ==> #[trigger] es0[k].product_id == pid);
        lemma_appends_accumulate(s, pid, es0);
        let s1 = after_events(s, es0);
        assert(e.product_id == pid);
        s1.lemma_add_event_wf(e);
        s1.lemma_trace_of_product(pid);
        let s2 = s1.add_event_spec(e);
        assert(s2 == after_events(s, es));
        let i = s1.product_index(pid);
        assert(0 <= i < s1.products.len() && s1.products[i].id == pid);
        assert(s1.trace_index(pid) == i);
        assert(s2.traces[i].events == s1.traces[i].events.push(e));
        assert(s2.has_product(pid));
        s2.lemma_trace_of_product(pid);
        let j = s2.product_index(pid);
        assert(0 <= j < s2.products.len() && s2.products[j].id == pid);
        if j != i {
            assert(s2.products[j] == s1.products[j]);
            assert(s1.products[j].id == pid);
        }
        assert(s2.trace_at(pid) == s2.traces[i]);
        assert(s2.trace_at(pid).events =~= s.trace_at(pid).events + es) by {
            assert(s1.traces[i].events == s.trace_at(pid).events + es0);
            assert(es0.push(e) =~= es);
        }
    }
}

/// While the clock never runs backwards — each accepted event's timestamp is
/// at least the owning trace's current `last_updated` — a trace's
/// `last_updated` is monotonically non-decreasing and never drops below its
/// `created_at`.
pub proof fn lemma_last_updated_monotone(s: StoreView, e: EventView)
    requires
        s.wf(),
        s.has_product(e.product_id),
        e.timestamp >= s.trace_at(e.product_id).last_updated,
        s.trace_at(e.product_id).last_updated >= s.trace_at(e.product_id).created_at,
    ensures
        ({
            let s2 = s.add_event_spec(e);
            &&& s2.trace_at(e.product_id).last_updated >= s.trace_at(e.product_id).last_updated
            &&& s2.trace_at(e.product_id).last_updated >= s2.trace_at(e.product_id).created_at
        }),
{
    let pid = e.product_id;
    s.lemma_trace_of_product(pid);
    s.lemma_add_event_wf(e);
    let s2 = s.add_event_spec(e);
    let i = s.product_index(pid);
    assert(0 <= i < s.products.len() && s.products[i].id == pid);
    assert(s2.has_product(pid));
    s2.lemma_trace_of_product(pid);
    let j = s2.product_index(pid);
    assert(0 <= j < s2.products.len() && s2.products[j].id == pid);
    if j != i {
        assert(s2.products[j] == s.products[j]);
    }
    assert(s2.trace_at(pid) == s2.traces[i]);
    assert(s2.traces[i].last_updated == e.timestamp);
    assert(s2.traces[i].created_at == s.traces[i].created_at);
}

} // verus!
