//! The entity model: products, participants, custody/inspection events and
//! per-product traces, together with their mathematical views.
//!
//! Entities are immutable after creation; the only mutation anywhere in the
//! library is the append of an event to a trace. Geographic coordinates,
//! temperature and humidity readings are carried as IEEE-754 bit patterns
//! (`u64`), so that the verified core never computes with floating point;
//! conversion to and from floating-point numbers happens outside the library.

use vstd::prelude::*;

verus! {

/// The kind of a custody/inspection event.
#[derive(Clone, Copy, PartialEq, Eq, Structural, Debug)]
pub enum EventType {
    Production,
    QualityCheck,
    Packaging,
    Shipping,
    Customs,
    Delivery,
    Retail,
}

/// The role a participant plays in the supply chain.
#[derive(Clone, Copy, PartialEq, Eq, Structural, Debug)]
pub enum ParticipantRole {
    Manufacturer,
    Supplier,
    Distributor,
    Retailer,
    Consumer,
    Auditor,
}

/// A failure reported by a store operation. Every failure is returned
/// synchronously as part of the operation's own result; none is fatal, and
/// the store remains usable afterwards.
#[derive(Clone, Copy, PartialEq, Eq, Structural, Debug)]
pub enum StoreError {
    /// The referenced product does not exist in the store.
    ProductNotFound,
    /// The referenced product exists but has no trace. Defensive and
    /// reportable; unreachable through this library, since a trace is created
    /// atomically with its product.
    TraceNotFound,
}

impl StoreError {
    /// A human-readable description of the failure.
    pub fn message(&self) -> (s: String)
        ensures
            *self == StoreError::ProductNotFound ==> s@ == "Product not found"@,
            *self == StoreError::TraceNotFound ==> s@ == "Trace not found"@,
    {
        match self {
            StoreError::ProductNotFound => "Product not found".to_owned(),
            StoreError::TraceNotFound => "Trace not found".to_owned(),
        }
    }
}

/// A tracked product. Immutable after creation; never deleted.
pub struct Product {
    pub id: String,
    pub name: String,
    pub description: String,
    pub manufacturer: String,
    pub batch_number: String,
    /// Seconds since the Unix epoch, assigned by the store at creation.
    pub production_date: u64,
    pub ingredients: Vec<String>,
    pub certifications: Vec<String>,
}

/// The mathematical value of a [`Product`].
#[verifier::ext_equal]
pub ghost struct ProductView {
    pub id: Seq<char>,
    pub name: Seq<char>,
    pub description: Seq<char>,
    pub manufacturer: Seq<char>,
    pub batch_number: Seq<char>,
    pub production_date: u64,
    pub ingredients: Seq<Seq<char>>,
    pub certifications: Seq<Seq<char>>,
}

impl View for Product {
    type V = ProductView;

    open spec fn view(&self) -> ProductView {
        ProductView {
            id: self.id@,
            name: self.name@,
            description: self.description@,
            manufacturer: self.manufacturer@,
            batch_number: self.batch_number@,
            production_date: self.production_date,
            ingredients: self.ingredients.deep_view(),
            certifications: self.certifications.deep_view(),
        }
    }
}

impl DeepView for Product {
    type V = ProductView;

    open spec fn deep_view(&self) -> ProductView {
        self.view()
    }
}

impl Clone for Product {
    fn clone(&self) -> (res: Self)
        ensures
            res@ == self@,
    {
        let res = Product {
            id: self.id.clone(),
            name: self.name.clone(),
            description: self.description.clone(),
            manufacturer: self.manufacturer.clone(),
            batch_number: self.batch_number.clone(),
            production_date: self.production_date,
            ingredients: self.ingredients.clone(),
            certifications: self.certifications.clone(),
        };
        proof {
            assert(res.ingredients.deep_view() =~= self.ingredients.deep_view());
            assert(res.certifications.deep_view() =~= self.certifications.deep_view());
        }
        res
    }
}

/// A recorded custody/inspection event. Immutable after creation.
pub struct SupplyChainEvent {
    pub id: String,
    /// The product this event belongs to; always references a product that
    /// existed when the event was recorded.
    pub product_id: String,
    pub event_type: EventType,
    pub location: String,
    /// Seconds since the Unix epoch, assigned by the store at creation.
    pub timestamp: u64,
    /// Free text naming who acted; not a reference into the participant set.
    pub actor: String,
    pub details: String,
    /// Latitude/longitude as IEEE-754 bit patterns.
    pub coordinates: Option<(u64, u64)>,
    /// A temperature reading as an IEEE-754 bit pattern.
    pub temperature: Option<u64>,
    /// A humidity reading as an IEEE-754 bit pattern.
    pub humidity: Option<u64>,
}

/// The mathematical value of a [`SupplyChainEvent`].
#[verifier::ext_equal]
pub ghost struct EventView {
    pub id: Seq<char>,
    pub product_id: Seq<char>,
    pub event_type: EventType,
    pub location: Seq<char>,
    pub timestamp: u64,
    pub actor: Seq<char>,
    pub details: Seq<char>,
    pub coordinates: Option<(u64, u64)>,
    pub temperature: Option<u64>,
    pub humidity: Option<u64>,
}

impl View for SupplyChainEvent {
    type V = EventView;

    open spec fn view(&self) -> EventView {
        EventView {
            id: self.id@,
            product_id: self.product_id@,
            event_type: self.event_type,
            location: self.location@,
            timestamp: self.timestamp,
            actor: self.actor@,
            details: self.details@,
            coordinates: self.coordinates,
            temperature: self.temperature,
            humidity: self.humidity,
        }
    }
}

impl DeepView for SupplyChainEvent {
    type V = EventView;

    open spec fn deep_view(&self) -> EventView {
        self.view()
    }
}

impl Clone for SupplyChainEvent {
    fn clone(&self) -> (res: Self)
        ensures
            res@ == self@,
    {
        SupplyChainEvent {
            id: self.id.clone(),
            product_id: self.product_id.clone(),
            event_type: self.event_type,
            location: self.location.clone(),
            timestamp: self.timestamp,
            actor: self.actor.clone(),
            details: self.details.clone(),
            coordinates: self.coordinates,
            temperature: self.temperature,
            humidity: self.humidity,
        }
    }
}

/// The ordered history of custody/inspection events recorded for one
/// product. Created atomically with its product; append-only thereafter.
pub struct SupplyChainTrace {
    pub product_id: String,
    /// Events in arrival order (the order they were submitted), which is not
    /// necessarily timestamp order.
    pub events: Vec<SupplyChainEvent>,
    /// Seconds since the Unix epoch, set once at creation.
    pub created_at: u64,
    /// Seconds since the Unix epoch, set on every successful append.
    pub last_updated: u64,
}

/// The mathematical value of a [`SupplyChainTrace`].
#[verifier::ext_equal]
pub ghost struct TraceView {
    pub product_id: Seq<char>,
    pub events: Seq<EventView>,
    pub created_at: u64,
    pub last_updated: u64,
}

impl View for SupplyChainTrace {
    type V = TraceView;

    open spec fn view(&self) -> TraceView {
        TraceView {
            product_id: self.product_id@,
            events: self.events.deep_view(),
            created_at: self.created_at,
            last_updated: self.last_updated,
        }
    }
}

impl DeepView for SupplyChainTrace {
    type V = TraceView;

    open spec fn deep_view(&self) -> TraceView {
        self.view()
    }
}

impl Clone for SupplyChainTrace {
    fn clone(&self) -> (res: Self)
        ensures
            res@ == self@,
    {
        let res = SupplyChainTrace {
            product_id: self.product_id.clone(),
            events: self.events.clone(),
            created_at: self.created_at,
            last_updated: self.last_updated,
        };
        proof {
            assert(res.events.deep_view() =~= self.events.deep_view());
        }
        res
    }
}

/// A registered supply-chain participant. Immutable after registration;
/// never deleted.
pub struct Participant {
    pub id: String,
    pub name: String,
    pub role: ParticipantRole,
    pub location: String,
    /// An opaque string; stored but never validated.
    pub public_key: String,
    /// Always `false`: registration never verifies a participant, and no
    /// operation exists that sets this.
    pub is_verified: bool,
}

/// The mathematical value of a [`Participant`].
#[verifier::ext_equal]
pub ghost struct ParticipantView {
    pub id: Seq<char>,
    pub name: Seq<char>,
    pub role: ParticipantRole,
    pub location: Seq<char>,
    pub public_key: Seq<char>,
    pub is_verified: bool,
}

impl View for Participant {
    type V = ParticipantView;

    open spec fn view(&self) -> ParticipantView {
        ParticipantView {
            id: self.id@,
            name: self.name@,
            role: self.role,
            location: self.location@,
            public_key: self.public_key@,
            is_verified: self.is_verified,
        }
    }
}

impl DeepView for Participant {
    type V = ParticipantView;

    open spec fn deep_view(&self) -> ParticipantView {
        self.view()
    }
}

impl Clone for Participant {
    fn clone(&self) -> (res: Self)
        ensures
            res@ == self@,
    {
        Participant {
            id: self.id.clone(),
            name: self.name.clone(),
            role: self.role,
            location: self.location.clone(),
            public_key: self.public_key.clone(),
            is_verified: self.is_verified,
        }
    }
}

} // verus!
