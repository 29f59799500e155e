//! Endpoints for events.

use vstd::prelude::*;
use vstd::string::StringExecFns;

use crate::common::{Direction, Mode, Region, Tier};
use crate::datetime::{datetime_str, DateTime};
use crate::endpoint::{Endpoint, Method};
use crate::error::{BodyError, BuilderError};
use crate::pagination::Pageable;
use crate::params::{opt_param, opt_sort, opt_str, opt_wire, sort_param, QueryParams};

verus! {

/// Represents an event id.
#[derive(Debug, Clone, PartialEq, Eq, Hash)]
pub struct EventId {
    id: String,
}

impl View for EventId {
    type V = Seq<char>;

    closed spec fn view(&self) -> Seq<char> {
        self.id@
    }
}

impl EventId {
    /// Create a new [`EventId`].
    pub fn new(id: String) -> (r: Self)
        ensures
            r@ == id@,
    {
        EventId { id }
    }

    /// The id as text.
    pub fn as_str(&self) -> (r: &str)
        ensures
            r@ == self@,
    {
        self.id.as_str()
    }
}

/// `GET` a single event by its [`EventId`].
#[derive(Debug, Clone)]
pub struct Event {
    /// An event ID. Example: `"5f35882d53fbbb5894b43040"`.
    pub id: EventId,
}

impl Event {
    /// Create a builder for this endpoint.
    pub fn builder() -> (r: EventBuilder)
        ensures
            r == (EventBuilder { id: None }),
    {
        EventBuilder { id: None }
    }
}

/// Builder for the [`Event`] endpoint.
#[derive(Debug, Clone)]
pub struct EventBuilder {
    /// An event ID. Example: `"5f35882d53fbbb5894b43040"`.
    pub id: Option<EventId>,
}

impl EventBuilder {
    /// An event ID. Example: `"5f35882d53fbbb5894b43040"`.
    pub fn id(self, id: EventId) -> (r: Self)
        ensures
            r == (EventBuilder { id: Some(id) }),
    {
        EventBuilder { id: Some(id) }
    }

    /// Builds the descriptor; fails exactly when no id was set.
    pub fn build(self) -> (r: Result<Event, BuilderError>)
        ensures
            self.id matches Some(id) ==> (r matches Ok(e) && e == (Event { id })),
            r is Err <==> self.id is None,
    {
        match self.id {
            Some(id) => Ok(Event { id }),
            None => Err(BuilderError { field: "id".to_owned() }),
        }
    }
}

impl Endpoint for Event {
    open spec fn path_spec(&self) -> Seq<char> {
        "events/"@ + self.id@
    }

    open spec fn params_spec(&self) -> Seq<(Seq<char>, Seq<char>)> {
        Seq::empty()
    }

    open spec fn method_spec(&self) -> Method {
        Method::Get
    }

    open spec fn params_ok(&self) -> bool {
        true
    }

    open spec fn body_spec(&self) -> Option<(Seq<char>, Seq<u8>)> {
        Option::None
    }

    open spec fn body_ok(&self) -> bool {
        true
    }

    fn method(&self) -> (r: Method) {
        Method::Get
    }

    fn body(&self) -> (r: Result<Option<(String, Vec<u8>)>, BodyError>) {
        Ok(None)
    }

    fn endpoint(&self) -> (r: String) {
        "events/".to_owned().concat(self.id.as_str())
    }

    fn query_parameters(&self) -> (r: Result<QueryParams, BodyError>) {
        Ok(QueryParams::new())
    }
}

/// `GET` all matches for an event by [`EventId`].
#[derive(Debug, Clone)]
pub struct EventMatches {
    /// An event id. Example: `"5f35882d53fbbb5894b43040"`.
    pub id: EventId,
}

impl EventMatches {
    /// Create a builder for this endpoint.
    pub fn builder() -> (r: EventMatchesBuilder)
        ensures
            r == (EventMatchesBuilder { id: None }),
    {
        EventMatchesBuilder { id: None }
    }
}

/// Builder for the [`EventMatches`] endpoint.
#[derive(Debug, Clone)]
pub struct EventMatchesBuilder {
    /// An event id. Example: `"5f35882d53fbbb5894b43040"`.
    pub id: Option<EventId>,
}

impl EventMatchesBuilder {
    /// An event id. Example: `"5f35882d53fbbb5894b43040"`.
    pub fn id(self, id: EventId) -> (r: Self)
        ensures
            r == (EventMatchesBuilder { id: Some(id) }),
    {
        EventMatchesBuilder { id: Some(id) }
    }

    /// Builds the descriptor; fails exactly when no id was set.
    pub fn build(self) -> (r: Result<EventMatches, BuilderError>)
        ensures
            self.id matches Some(id) ==> (r matches Ok(e) && e == (EventMatches { id })),
            r is Err <==> self.id is None,
    {
        match self.id {
            Some(id) => Ok(EventMatches { id }),
            None => Err(BuilderError { field: "id".to_owned() }),
        }
    }
}

impl Endpoint for EventMatches {
    open spec fn path_spec(&self) -> Seq<char> {
        "events/"@ + self.id@ + "/matches"@
    }

    open spec fn params_spec(&self) -> Seq<(Seq<char>, Seq<char>)> {
        Seq::empty()
    }

    open spec fn method_spec(&self) -> Method {
        Method::Get
    }

    open spec fn params_ok(&self) -> bool {
        true
    }

    open spec fn body_spec(&self) -> Option<(Seq<char>, Seq<u8>)> {
        Option::None
    }

    open spec fn body_ok(&self) -> bool {
        true
    }

    fn method(&self) -> (r: Method) {
        Method::Get
    }

    fn body(&self) -> (r: Result<Option<(String, Vec<u8>)>, BodyError>) {
        Ok(None)
    }

    fn endpoint(&self) -> (r: String) {
        "events/".to_owned().concat(self.id.as_str()).concat("/matches")
    }

    fn query_parameters(&self) -> (r: Result<QueryParams, BodyError>) {
        Ok(QueryParams::new())
    }
}

/// `GET` all participants for an event by [`EventId`].
#[derive(Debug, Clone)]
pub struct EventParticipants {
    /// An event id. Example: `"5f35882d53fbbb5894b43040"`.
    pub id: EventId,
}

impl EventParticipants {
    /// Create a builder for this endpoint.
    pub fn builder() -> (r: EventParticipantsBuilder)
        ensures
            r == (EventParticipantsBuilder { id: None }),
    {
        EventParticipantsBuilder { id: None }
    }
}

/// Builder for the [`EventParticipants`] endpoint.
#[derive(Debug, Clone)]
pub struct EventParticipantsBuilder {
    /// An event id. Example: `"5f35882d53fbbb5894b43040"`.
    pub id: Option<EventId>,
}

impl EventParticipantsBuilder {
    /// An event id. Example: `"5f35882d53fbbb5894b43040"`.
    pub fn id(self, id: EventId) -> (r: Self)
        ensures
            r == (EventParticipantsBuilder { id: Some(id) }),
    {
        EventParticipantsBuilder { id: Some(id) }
    }

    /// Builds the descriptor; fails exactly when no id was set.
    pub fn build(self) -> (r: Result<EventParticipants, BuilderError>)
        ensures
            self.id matches Some(id) ==> (r matches Ok(e) && e == (EventParticipants { id })),
            r is Err <==> self.id is None,
    {
        match self.id {
            Some(id) => Ok(EventParticipants { id }),
            None => Err(BuilderError { field: "id".to_owned() }),
        }
    }
}

impl Endpoint for EventParticipants {
    open spec fn path_spec(&self) -> Seq<char> {
        "events/"@ + self.id@ + "/participants"@
    }

    open spec fn params_spec(&self) -> Seq<(Seq<char>, Seq<char>)> {
        Seq::empty()
    }

    open spec fn method_spec(&self) -> Method {
        Method::Get
    }

    open spec fn params_ok(&self) -> bool {
        true
    }

    open spec fn body_spec(&self) -> Option<(Seq<char>, Seq<u8>)> {
        Option::None
    }

    open spec fn body_ok(&self) -> bool {
        true
    }

    fn method(&self) -> (r: Method) {
        Method::Get
    }

    fn body(&self) -> (r: Result<Option<(String, Vec<u8>)>, BodyError>) {
        Ok(None)
    }

    fn endpoint(&self) -> (r: String) {
        "events/".to_owned().concat(self.id.as_str()).concat("/participants")
    }

    fn query_parameters(&self) -> (r: Result<QueryParams, BodyError>) {
        Ok(QueryParams::new())
    }
}

/// Field to sort events by.
#[derive(Debug, Clone, Copy, PartialEq, Eq, Structural)]
pub enum EventSorting {
    /// Sort by `name`
    Name,
    /// Sort by `tier`
    Tier,
    /// Sort by `region`
    Region,
    /// Sort by `mode`
    Mode,
    /// Sort by `group`
    Group,
}

impl EventSorting {
    /// The wire field name this sorting writes into the sort parameter.
    pub open spec fn wire_str(self) -> Seq<char> {
        match self {
            EventSorting::Name => "name"@,
            EventSorting::Tier => "tier"@,
            EventSorting::Region => "region"@,
            EventSorting::Mode => "mode"@,
            EventSorting::Group => "group"@,
        }
    }

    /// The wire field name for this sorting.
    pub fn as_str(&self) -> (r: &'static str)
        ensures
            r@ == self.wire_str(),
    {
        match self {
            EventSorting::Name => "name",
            EventSorting::Tier => "tier",
            EventSorting::Region => "region",
            EventSorting::Mode => "mode",
            EventSorting::Group => "group",
        }
    }
}

/// `GET` a list of all events.
#[derive(Debug, Clone)]
pub struct ListEvents {
    /// A portion of the event name. Example: `"RLCS"`.
    pub name: Option<String>,
    /// Event tier. Example: `Tier::S`.
    pub tier: Option<Tier>,
    /// Event region. Example: `Region::NorthAmerica`.
    pub region: Option<Region>,
    /// Event mode. Example: `Mode::Three`.
    pub mode: Option<Mode>,
    /// Event group. Example: `"rlcsx"`.
    pub group: Option<String>,
    /// Filter events before this date.
    pub before: Option<DateTime>,
    /// Filter events after this date.
    pub after: Option<DateTime>,
    /// Filter events on this date.
    pub date: Option<DateTime>,
    /// Sorting method for results.
    pub sort: Option<(EventSorting, Direction)>,
}

impl ListEvents {
    /// Create a builder for this endpoint.
    pub fn builder() -> (r: ListEventsBuilder)
        ensures
            r == (ListEventsBuilder { name: None, tier: None, region: None, mode: None, group: None, before: None, after: None, date: None, sort: None }),
    {
        ListEventsBuilder { name: None, tier: None, region: None, mode: None, group: None, before: None, after: None, date: None, sort: None }
    }
}

/// Builder for the [`ListEvents`] endpoint.
#[derive(Debug, Clone)]
pub struct ListEventsBuilder {
    /// A portion of the event name. Example: `"RLCS"`.
    pub name: Option<String>,
    /// Event tier. Example: `Tier::S`.
    pub tier: Option<Tier>,
    /// Event region. Example: `Region::NorthAmerica`.
    pub region: Option<Region>,
    /// Event mode. Example: `Mode::Three`.
    pub mode: Option<Mode>,
    /// Event group. Example: `"rlcsx"`.
    pub group: Option<String>,
    /// Filter events before this date.
    pub before: Option<DateTime>,
    /// Filter events after this date.
    pub after: Option<DateTime>,
    /// Filter events on this date.
    pub date: Option<DateTime>,
    /// Sorting method for results.
    pub sort: Option<(EventSorting, Direction)>,
}

impl ListEventsBuilder {
    /// A portion of the event name. Example: `"RLCS"`.
    pub fn name(self, value: String) -> (r: Self)
        ensures
            r == (ListEventsBuilder { name: Some(value), ..self }),
    {
        ListEventsBuilder { name: Some(value), ..self }
    }

    /// Event tier. Example: `Tier::S`.
    pub fn tier(self, value: Tier) -> (r: Self)
        ensures
            r == (ListEventsBuilder { tier: Some(value), ..self }),
    {
        ListEventsBuilder { tier: Some(value), ..self }
    }

    /// Event region. Example: `Region::NorthAmerica`.
    pub fn region(self, value: Region) -> (r: Self)
        ensures
            r == (ListEventsBuilder { region: Some(value), ..self }),
    {
        ListEventsBuilder { region: Some(value), ..self }
    }

    /// Event mode. Example: `Mode::Three`.
    pub fn mode(self, value: Mode) -> (r: Self)
        ensures
            r == (ListEventsBuilder { mode: Some(value), ..self }),
    {
        ListEventsBuilder { mode: Some(value), ..self }
    }

    /// Event group. Example: `"rlcsx"`.
    pub fn group(self, value: String) -> (r: Self)
        ensures
            r == (ListEventsBuilder { group: Some(value), ..self }),
    {
        ListEventsBuilder { group: Some(value), ..self }
    }

    /// Filter events before this date.
    pub fn before(self, value: DateTime) -> (r: Self)
        ensures
            r == (ListEventsBuilder { before: Some(value), ..self }),
    {
        ListEventsBuilder { before: Some(value), ..self }
    }

    /// Filter events after this date.
    pub fn after(self, value: DateTime) -> (r: Self)
        ensures
            r == (ListEventsBuilder { after: Some(value), ..self }),
    {
        ListEventsBuilder { after: Some(value), ..self }
    }

    /// Filter events on this date.
    pub fn date(self, value: DateTime) -> (r: Self)
        ensures
            r == (ListEventsBuilder { date: Some(value), ..self }),
    {
        ListEventsBuilder { date: Some(value), ..self }
    }

    /// Sorting method for results. Takes a field to sort by and a sort
    /// direction.
    pub fn sort(self, value: EventSorting, direction: Direction) -> (r: Self)
        ensures
            r == (ListEventsBuilder { sort: Some((value, direction)), ..self }),
    {
        ListEventsBuilder { sort: Some((value, direction)), ..self }
    }

    /// Builds the descriptor; every field is optional, so this always
    /// succeeds.
    pub fn build(self) -> (r: Result<ListEvents, BuilderError>)
        ensures
            r matches Ok(l) && l == (ListEvents { name: self.name, tier: self.tier, region: self.region, mode: self.mode, group: self.group, before: self.before, after: self.after, date: self.date, sort: self.sort }),
    {
        Ok(ListEvents { name: self.name, tier: self.tier, region: self.region, mode: self.mode, group: self.group, before: self.before, after: self.after, date: self.date, sort: self.sort })
    }
}

impl ListEvents {
    /// One group of this descriptor's optional query parameters, in field
    /// order.
    pub open spec fn params_part_a(&self) -> Seq<(Seq<char>, Seq<char>)> {
        opt_param("name"@, opt_str(self.name))
            + opt_param("tier"@, opt_wire(self.tier, |v: Tier| v.wire_str()))
            + opt_param("region"@, opt_wire(self.region, |v: Region| v.wire_str()))
    }

    #[verifier::rlimit(100)]
    fn push_params_a(&self, q: &mut QueryParams)
        ensures
            final(q)@ == old(q)@ + self.params_part_a(),
    {
        let ghost g0 = q@;
        if let Some(v) = &self.name {
            q.push("name", v.clone());
        }
        proof {
            assert(q@ =~= g0 + opt_param("name"@, opt_str(self.name)));
        }
        let ghost g1 = q@;
        if let Some(v) = &self.tier {
            q.push("tier", v.as_str().to_owned());
        }
        proof {
            assert(q@ =~= g1 + opt_param("tier"@, opt_wire(self.tier, |v: Tier| v.wire_str())));
        }
        let ghost g2 = q@;
        if let Some(v) = &self.region {
            q.push("region", v.as_str().to_owned());
        }
        proof {
            assert(q@ =~= g2 + opt_param("region"@, opt_wire(self.region, |v: Region| v.wire_str())));
        }
        proof {
            assert(q@ =~= old(q)@ + self.params_part_a());
        }
    }

    /// One group of this descriptor's optional query parameters, in field
    /// order.
    pub open spec fn params_part_b(&self) -> Seq<(Seq<char>, Seq<char>)> {
        opt_param("mode"@, opt_wire(self.mode, |v: Mode| v.wire_str()))
            + opt_param("group"@, opt_str(self.group))
            + opt_param("before"@, opt_wire(self.before, |v: DateTime| datetime_str(v)))
    }

    #[verifier::rlimit(100)]
    fn push_params_b(&self, q: &mut QueryParams)
        ensures
            final(q)@ == old(q)@ + self.params_part_b(),
    {
        let ghost g0 = q@;
        if let Some(v) = &self.mode {
            q.push("mode", v.as_str().to_owned());
        }
        proof {
            assert(q@ =~= g0 + opt_param("mode"@, opt_wire(self.mode, |v: Mode| v.wire_str())));
        }
        let ghost g1 = q@;
        if let Some(v) = &self.group {
            q.push("group", v.clone());
        }
        proof {
            assert(q@ =~= g1 + opt_param("group"@, opt_str(self.group)));
        }
        let ghost g2 = q@;
        if let Some(v) = &self.before {
            q.push("before", v.to_rfc3339());
        }
        proof {
            assert(q@ =~= g2 + opt_param("before"@, opt_wire(self.before, |v: DateTime| datetime_str(v))));
        }
        proof {
            assert(q@ =~= old(q)@ + self.params_part_b());
        }
    }

    /// One group of this descriptor's optional query parameters, in field
    /// order.
    pub open spec fn params_part_c(&self) -> Seq<(Seq<char>, Seq<char>)> {
        opt_param("after"@, opt_wire(self.after, |v: DateTime| datetime_str(v)))
            + opt_param("date"@, opt_wire(self.date, |v: DateTime| datetime_str(v)))
            + opt_param("sort"@, opt_sort(self.sort, |s: EventSorting| s.wire_str()))
    }

    #[verifier::rlimit(100)]
    fn push_params_c(&self, q: &mut QueryParams)
        ensures
            final(q)@ == old(q)@ + self.params_part_c(),
    {
        let ghost g0 = q@;
        if let Some(v) = &self.after {
            q.push("after", v.to_rfc3339());
        }
        proof {
            assert(q@ =~= g0 + opt_param("after"@, opt_wire(self.after, |v: DateTime| datetime_str(v))));
        }
        let ghost g1 = q@;
        if let Some(v) = &self.date {
            q.push("date", v.to_rfc3339());
        }
        proof {
            assert(q@ =~= g1 + opt_param("date"@, opt_wire(self.date, |v: DateTime| datetime_str(v))));
        }
        let ghost g2 = q@;
        if let Some(s) = &self.sort {
            q.push("sort", sort_param(s.0.as_str(), s.1));
        }
        proof {
            assert(q@ =~= g2 + opt_param("sort"@, opt_sort(self.sort, |s: EventSorting| s.wire_str())));
        }
        proof {
            assert(q@ =~= old(q)@ + self.params_part_c());
        }
    }
}

impl Endpoint for ListEvents {
    open spec fn path_spec(&self) -> Seq<char> {
        "events"@
    }

    open spec fn params_spec(&self) -> Seq<(Seq<char>, Seq<char>)> {
        self.params_part_a() + self.params_part_b() + self.params_part_c()
    }

    open spec fn method_spec(&self) -> Method {
        Method::Get
    }

    open spec fn params_ok(&self) -> bool {
        true
    }

    open spec fn body_spec(&self) -> Option<(Seq<char>, Seq<u8>)> {
        Option::None
    }

    open spec fn body_ok(&self) -> bool {
        true
    }

    fn method(&self) -> (r: Method) {
        Method::Get
    }

    fn body(&self) -> (r: Result<Option<(String, Vec<u8>)>, BodyError>) {
        Ok(None)
    }

    fn endpoint(&self) -> (r: String) {
        "events".to_owned()
    }

    fn query_parameters(&self) -> (r: Result<QueryParams, BodyError>) {
        let mut q = QueryParams::new();
        self.push_params_a(&mut q);
        self.push_params_b(&mut q);
        self.push_params_c(&mut q);
        proof {
            assert(q@ =~= self.params_spec());
        }
        Ok(q)
    }
}

impl Pageable for ListEvents {

}

} // verus!
