//! Endpoints for matches.

use vstd::prelude::*;
use vstd::string::StringExecFns;

use crate::common::{BestOf, Direction, Mode, Region, Tier};
use crate::datetime::{datetime_str, DateTime};
use crate::endpoint::{Endpoint, Method};
use crate::error::{BodyError, BuilderError};
use crate::events::EventId;
use crate::pagination::Pageable;
use crate::params::{opt_param, opt_sort, opt_str, opt_wire, sort_param, QueryParams};
use crate::players::PlayerId;
use crate::stages::StageId;
use crate::strutil::{bool_str, bool_wire};
use crate::teams::TeamId;

verus! {

/// Represents a match id.
#[derive(Debug, Clone, PartialEq, Eq, Hash)]
pub struct MatchId {
    id: String,
}

impl View for MatchId {
    type V = Seq<char>;

    closed spec fn view(&self) -> Seq<char> {
        self.id@
    }
}

impl MatchId {
    /// Create a new [`MatchId`].
    pub fn new(id: String) -> (r: Self)
        ensures
            r@ == id@,
    {
        MatchId { id }
    }

    /// The id as text.
    pub fn as_str(&self) -> (r: &str)
        ensures
            r@ == self@,
    {
        self.id.as_str()
    }
}

/// `GET` a single match by its [`MatchId`].
#[derive(Debug, Clone)]
pub struct Match {
    /// A match ID. Example: `"6043152fa09e7fba40d2ae62"`.
    pub id: MatchId,
}

impl Match {
    /// Create a builder for this endpoint.
    pub fn builder() -> (r: MatchBuilder)
        ensures
            r == (MatchBuilder { id: None }),
    {
        MatchBuilder { id: None }
    }
}

/// Builder for the [`Match`] endpoint.
#[derive(Debug, Clone)]
pub struct MatchBuilder {
    /// A match ID. Example: `"6043152fa09e7fba40d2ae62"`.
    pub id: Option<MatchId>,
}

impl MatchBuilder {
    /// A match ID. Example: `"6043152fa09e7fba40d2ae62"`.
    pub fn id(self, id: MatchId) -> (r: Self)
        ensures
            r == (MatchBuilder { id: Some(id) }),
    {
        MatchBuilder { id: Some(id) }
    }

    /// Builds the descriptor; fails exactly when no id was set.
    pub fn build(self) -> (r: Result<Match, BuilderError>)
        ensures
            self.id matches Some(id) ==> (r matches Ok(e) && e == (Match { id })),
            r is Err <==> self.id is None,
    {
        match self.id {
            Some(id) => Ok(Match { id }),
            None => Err(BuilderError { field: "id".to_owned() }),
        }
    }
}

impl Endpoint for Match {
    open spec fn path_spec(&self) -> Seq<char> {
        "matches/"@ + self.id@
    }

    open spec fn params_spec(&self) -> Seq<(Seq<char>, Seq<char>)> {
        Seq::empty()
    }

    open spec fn method_spec(&self) -> Method {
        Method::Get
    }

    open spec fn params_ok(&self) -> bool {
        true
    }

    open spec fn body_spec(&self) -> Option<(Seq<char>, Seq<u8>)> {
        Option::None
    }

    open spec fn body_ok(&self) -> bool {
        true
    }

    fn method(&self) -> (r: Method) {
        Method::Get
    }

    fn body(&self) -> (r: Result<Option<(String, Vec<u8>)>, BodyError>) {
        Ok(None)
    }

    fn endpoint(&self) -> (r: String) {
        "matches/".to_owned().concat(self.id.as_str())
    }

    fn query_parameters(&self) -> (r: Result<QueryParams, BodyError>) {
        Ok(QueryParams::new())
    }
}

/// `GET` all games for a match by its [`MatchId`].
#[derive(Debug, Clone)]
pub struct MatchGames {
    /// A match id. Example: `"6043152fa09e7fba40d2ae62"`.
    pub id: MatchId,
}

impl MatchGames {
    /// Create a builder for this endpoint.
    pub fn builder() -> (r: MatchGamesBuilder)
        ensures
            r == (MatchGamesBuilder { id: None }),
    {
        MatchGamesBuilder { id: None }
    }
}

/// Builder for the [`MatchGames`] endpoint.
#[derive(Debug, Clone)]
pub struct MatchGamesBuilder {
    /// A match id. Example: `"6043152fa09e7fba40d2ae62"`.
    pub id: Option<MatchId>,
}

impl MatchGamesBuilder {
    /// A match id. Example: `"6043152fa09e7fba40d2ae62"`.
    pub fn id(self, id: MatchId) -> (r: Self)
        ensures
            r == (MatchGamesBuilder { id: Some(id) }),
    {
        MatchGamesBuilder { id: Some(id) }
    }

    /// Builds the descriptor; fails exactly when no id was set.
    pub fn build(self) -> (r: Result<MatchGames, BuilderError>)
        ensures
            self.id matches Some(id) ==> (r matches Ok(e) && e == (MatchGames { id })),
            r is Err <==> self.id is None,
    {
        match self.id {
            Some(id) => Ok(MatchGames { id }),
            None => Err(BuilderError { field: "id".to_owned() }),
        }
    }
}

impl Endpoint for MatchGames {
    open spec fn path_spec(&self) -> Seq<char> {
        "matches/"@ + self.id@ + "/games"@
    }

    open spec fn params_spec(&self) -> Seq<(Seq<char>, Seq<char>)> {
        Seq::empty()
    }

    open spec fn method_spec(&self) -> Method {
        Method::Get
    }

    open spec fn params_ok(&self) -> bool {
        true
    }

    open spec fn body_spec(&self) -> Option<(Seq<char>, Seq<u8>)> {
        Option::None
    }

    open spec fn body_ok(&self) -> bool {
        true
    }

    fn method(&self) -> (r: Method) {
        Method::Get
    }

    fn body(&self) -> (r: Result<Option<(String, Vec<u8>)>, BodyError>) {
        Ok(None)
    }

    fn endpoint(&self) -> (r: String) {
        "matches/".to_owned().concat(self.id.as_str()).concat("/games")
    }

    fn query_parameters(&self) -> (r: Result<QueryParams, BodyError>) {
        Ok(QueryParams::new())
    }
}

/// Field to sort matches by.
#[derive(Debug, Clone, Copy, PartialEq, Eq, Structural)]
pub enum MatchesSorting {
    /// Sort by `event`
    Event,
    /// Sort by `stage`
    Stage,
    /// Sort by `qualifier`
    Qualifier,
    /// Sort by `tier`
    Tier,
    /// Sort by `region`
    Region,
    /// Sort by `mode`
    Mode,
    /// Sort by `group`
    Group,
    /// Sort by `before`
    Before,
    /// Sort by `after`
    After,
    /// Sort by `date`
    Date,
    /// Sort by `reverseSweep`
    ReverseSweep,
    /// Sort by `reverseSweepAttempt`
    ReverseSweepAttempt,
    /// Sort by `player`
    Player,
    /// Sort by `team`
    Team,
}

impl MatchesSorting {
    /// The wire field name this sorting writes into the sort parameter.
    pub open spec fn wire_str(self) -> Seq<char> {
        match self {
            MatchesSorting::Event => "event"@,
            MatchesSorting::Stage => "stage"@,
            MatchesSorting::Qualifier => "qualifier"@,
            MatchesSorting::Tier => "tier"@,
            MatchesSorting::Region => "region"@,
            MatchesSorting::Mode => "mode"@,
            MatchesSorting::Group => "group"@,
            MatchesSorting::Before => "before"@,
            MatchesSorting::After => "after"@,
            MatchesSorting::Date => "date"@,
            MatchesSorting::ReverseSweep => "reverseSweep"@,
            MatchesSorting::ReverseSweepAttempt => "reverseSweepAttempt"@,
            MatchesSorting::Player => "player"@,
            MatchesSorting::Team => "team"@,
        }
    }

    /// The wire field name for this sorting.
    pub fn as_str(&self) -> (r: &'static str)
        ensures
            r@ == self.wire_str(),
    {
        match self {
            MatchesSorting::Event => "event",
            MatchesSorting::Stage => "stage",
            MatchesSorting::Qualifier => "qualifier",
            MatchesSorting::Tier => "tier",
            MatchesSorting::Region => "region",
            MatchesSorting::Mode => "mode",
            MatchesSorting::Group => "group",
            MatchesSorting::Before => "before",
            MatchesSorting::After => "after",
            MatchesSorting::Date => "date",
            MatchesSorting::ReverseSweep => "reverseSweep",
            MatchesSorting::ReverseSweepAttempt => "reverseSweepAttempt",
            MatchesSorting::Player => "player",
            MatchesSorting::Team => "team",
        }
    }
}

/// `GET` a list of all matches.
#[derive(Debug, Clone)]
pub struct ListMatches {
    /// An event id. Example: `"5f35882d53fbbb5894b43040"`.
    pub event: Option<EventId>,
    /// A stage id. Example: `1`.
    pub stage: Option<StageId>,
    /// Is stage a qualifier. Example: `true`.
    pub qualifier: Option<bool>,
    /// An event tier. Example: `Tier::S`.
    pub tier: Option<Tier>,
    /// An event region. Example: `Region::NorthAmerica`.
    pub region: Option<Region>,
    /// An event mode. Example: `Mode::Three`.
    pub mode: Option<Mode>,
    /// An event group. Example: `"rlcsx"`.
    pub group: Option<String>,
    /// Filter events before this date.
    pub before: Option<DateTime>,
    /// Filter events after this date.
    pub after: Option<DateTime>,
    /// A match format. Example: `BestOf::Five`.
    pub best_of: Option<BestOf>,
    /// Is match a reverse sweep. Example: `true`.
    pub reverse_sweep: Option<bool>,
    /// Is match a reverse sweep attempt. Example: `true`.
    pub reverse_sweep_attempt: Option<bool>,
    /// A player id. Example: `"5f3d8fdd95f40596eae23d97"`.
    pub player: Option<PlayerId>,
    /// A team id. Example: `"6020bc70f1e4807cc70023c7"`.
    pub team: Option<TeamId>,
    /// Sorting method for results.
    pub sort: Option<(MatchesSorting, Direction)>,
}

impl ListMatches {
    /// Create a builder for this endpoint.
    pub fn builder() -> (r: ListMatchesBuilder)
        ensures
            r == (ListMatchesBuilder { event: None, stage: None, qualifier: None, tier: None, region: None, mode: None, group: None, before: None, after: None, best_of: None, reverse_sweep: None, reverse_sweep_attempt: None, player: None, team: None, sort: None }),
    {
        ListMatchesBuilder { event: None, stage: None, qualifier: None, tier: None, region: None, mode: None, group: None, before: None, after: None, best_of: None, reverse_sweep: None, reverse_sweep_attempt: None, player: None, team: None, sort: None }
    }
}

/// Builder for the [`ListMatches`] endpoint.
#[derive(Debug, Clone)]
pub struct ListMatchesBuilder {
    /// An event id. Example: `"5f35882d53fbbb5894b43040"`.
    pub event: Option<EventId>,
    /// A stage id. Example: `1`.
    pub stage: Option<StageId>,
    /// Is stage a qualifier. Example: `true`.
    pub qualifier: Option<bool>,
    /// An event tier. Example: `Tier::S`.
    pub tier: Option<Tier>,
    /// An event region. Example: `Region::NorthAmerica`.
    pub region: Option<Region>,
    /// An event mode. Example: `Mode::Three`.
    pub mode: Option<Mode>,
    /// An event group. Example: `"rlcsx"`.
    pub group: Option<String>,
    /// Filter events before this date.
    pub before: Option<DateTime>,
    /// Filter events after this date.
    pub after: Option<DateTime>,
    /// A match format. Example: `BestOf::Five`.
    pub best_of: Option<BestOf>,
    /// Is match a reverse sweep. Example: `true`.
    pub reverse_sweep: Option<bool>,
    /// Is match a reverse sweep attempt. Example: `true`.
    pub reverse_sweep_attempt: Option<bool>,
    /// A player id. Example: `"5f3d8fdd95f40596eae23d97"`.
    pub player: Option<PlayerId>,
    /// A team id. Example: `"6020bc70f1e4807cc70023c7"`.
    pub team: Option<TeamId>,
    /// Sorting method for results.
    pub sort: Option<(MatchesSorting, Direction)>,
}

impl ListMatchesBuilder {
    /// An event id. Example: `"5f35882d53fbbb5894b43040"`.
    pub fn event(self, value: EventId) -> (r: Self)
        ensures
            r == (ListMatchesBuilder { event: Some(value), ..self }),
    {
        ListMatchesBuilder { event: Some(value), ..self }
    }

    /// A stage id. Example: `1`.
    pub fn stage(self, value: StageId) -> (r: Self)
        ensures
            r == (ListMatchesBuilder { stage: Some(value), ..self }),
    {
        ListMatchesBuilder { stage: Some(value), ..self }
    }

    /// Is stage a qualifier. Example: `true`.
    pub fn qualifier(self, value: bool) -> (r: Self)
        ensures
            r == (ListMatchesBuilder { qualifier: Some(value), ..self }),
    {
        ListMatchesBuilder { qualifier: Some(value), ..self }
    }

    /// An event tier. Example: `Tier::S`.
    pub fn tier(self, value: Tier) -> (r: Self)
        ensures
            r == (ListMatchesBuilder { tier: Some(value), ..self }),
    {
        ListMatchesBuilder { tier: Some(value), ..self }
    }

    /// An event region. Example: `Region::NorthAmerica`.
    pub fn region(self, value: Region) -> (r: Self)
        ensures
            r == (ListMatchesBuilder { region: Some(value), ..self }),
    {
        ListMatchesBuilder { region: Some(value), ..self }
    }

    /// An event mode. Example: `Mode::Three`.
    pub fn mode(self, value: Mode) -> (r: Self)
        ensures
            r == (ListMatchesBuilder { mode: Some(value), ..self }),
    {
        ListMatchesBuilder { mode: Some(value), ..self }
    }

    /// An event group. Example: `"rlcsx"`.
    pub fn group(self, value: String) -> (r: Self)
        ensures
            r == (ListMatchesBuilder { group: Some(value), ..self }),
    {
        ListMatchesBuilder { group: Some(value), ..self }
    }

    /// Filter events before this date.
    pub fn before(self, value: DateTime) -> (r: Self)
        ensures
            r == (ListMatchesBuilder { before: Some(value), ..self }),
    {
        ListMatchesBuilder { before: Some(value), ..self }
    }

    /// Filter events after this date.
    pub fn after(self, value: DateTime) -> (r: Self)
        ensures
            r == (ListMatchesBuilder { after: Some(value), ..self }),
    {
        ListMatchesBuilder { after: Some(value), ..self }
    }

    /// A match format. Example: `BestOf::Five`.
    pub fn best_of(self, value: BestOf) -> (r: Self)
        ensures
            r == (ListMatchesBuilder { best_of: Some(value), ..self }),
    {
        ListMatchesBuilder { best_of: Some(value), ..self }
    }

    /// Is match a reverse sweep. Example: `true`.
    pub fn reverse_sweep(self, value: bool) -> (r: Self)
        ensures
            r == (ListMatchesBuilder { reverse_sweep: Some(value), ..self }),
    {
        ListMatchesBuilder { reverse_sweep: Some(value), ..self }
    }

    /// Is match a reverse sweep attempt. Example: `true`.
    pub fn reverse_sweep_attempt(self, value: bool) -> (r: Self)
        ensures
            r == (ListMatchesBuilder { reverse_sweep_attempt: Some(value), ..self }),
    {
        ListMatchesBuilder { reverse_sweep_attempt: Some(value), ..self }
    }

    /// A player id. Example: `"5f3d8fdd95f40596eae23d97"`.
    pub fn player(self, value: PlayerId) -> (r: Self)
        ensures
            r == (ListMatchesBuilder { player: Some(value), ..self }),
    {
        ListMatchesBuilder { player: Some(value), ..self }
    }

    /// A team id. Example: `"6020bc70f1e4807cc70023c7"`.
    pub fn team(self, value: TeamId) -> (r: Self)
        ensures
            r == (ListMatchesBuilder { team: Some(value), ..self }),
    {
        ListMatchesBuilder { team: Some(value), ..self }
    }

    /// Sorting method for results. Takes a field to sort by and a sort
    /// direction.
    pub fn sort(self, value: MatchesSorting, direction: Direction) -> (r: Self)
        ensures
            r == (ListMatchesBuilder { sort: Some((value, direction)), ..self }),
    {
        ListMatchesBuilder { sort: Some((value, direction)), ..self }
    }

    /// Builds the descriptor; every field is optional, so this always
    /// succeeds.
    pub fn build(self) -> (r: Result<ListMatches, BuilderError>)
        ensures
            r matches Ok(l) && l == (ListMatches { event: self.event, stage: self.stage, qualifier: self.qualifier, tier: self.tier, region: self.region, mode: self.mode, group: self.group, before: self.before, after: self.after, best_of: self.best_of, reverse_sweep: self.reverse_sweep, reverse_sweep_attempt: self.reverse_sweep_attempt, player: self.player, team: self.team, sort: self.sort }),
    {
        Ok(ListMatches { event: self.event, stage: self.stage, qualifier: self.qualifier, tier: self.tier, region: self.region, mode: self.mode, group: self.group, before: self.before, after: self.after, best_of: self.best_of, reverse_sweep: self.reverse_sweep, reverse_sweep_attempt: self.reverse_sweep_attempt, player: self.player, team: self.team, sort: self.sort })
    }
}

impl ListMatches {
    /// One group of this descriptor's optional query parameters, in field
    /// order.
    pub open spec fn params_part_a(&self) -> Seq<(Seq<char>, Seq<char>)> {
        opt_param("event"@, opt_wire(self.event, |v: EventId| v@))
            + opt_param("stage"@, opt_wire(self.stage, |v: StageId| v.wire_str()))
            + opt_param("qualifier"@, opt_wire(self.qualifier, |v: bool| bool_wire(v)))
    }

    #[verifier::rlimit(100)]
    fn push_params_a(&self, q: &mut QueryParams)
        ensures
            final(q)@ == old(q)@ + self.params_part_a(),
    {
        let ghost g0 = q@;
        if let Some(v) = &self.event {
            q.push("event", v.as_str().to_owned());
        }
        proof {
            assert(q@ =~= g0 + opt_param("event"@, opt_wire(self.event, |v: EventId| v@)));
        }
        let ghost g1 = q@;
        if let Some(v) = &self.stage {
            q.push("stage", v.as_string());
        }
        proof {
            assert(q@ =~= g1 + opt_param("stage"@, opt_wire(self.stage, |v: StageId| v.wire_str())));
        }
        let ghost g2 = q@;
        if let Some(v) = &self.qualifier {
            q.push("qualifier", bool_str(*v).to_owned());
        }
        proof {
            assert(q@ =~= g2 + opt_param("qualifier"@, opt_wire(self.qualifier, |v: bool| bool_wire(v))));
        }
        proof {
            assert(q@ =~= old(q)@ + self.params_part_a());
        }
    }

    /// One group of this descriptor's optional query parameters, in field
    /// order.
    pub open spec fn params_part_b(&self) -> Seq<(Seq<char>, Seq<char>)> {
        opt_param("tier"@, opt_wire(self.tier, |v: Tier| v.wire_str()))
            + opt_param("region"@, opt_wire(self.region, |v: Region| v.wire_str()))
            + opt_param("mode"@, opt_wire(self.mode, |v: Mode| v.wire_str()))
    }

    #[verifier::rlimit(100)]
    fn push_params_b(&self, q: &mut QueryParams)
        ensures
            final(q)@ == old(q)@ + self.params_part_b(),
    {
        let ghost g0 = q@;
        if let Some(v) = &self.tier {
            q.push("tier", v.as_str().to_owned());
        }
        proof {
            assert(q@ =~= g0 + opt_param("tier"@, opt_wire(self.tier, |v: Tier| v.wire_str())));
        }
        let ghost g1 = q@;
        if let Some(v) = &self.region {
            q.push("region", v.as_str().to_owned());
        }
        proof {
            assert(q@ =~= g1 + opt_param("region"@, opt_wire(self.region, |v: Region| v.wire_str())));
        }
        let ghost g2 = q@;
        if let Some(v) = &self.mode {
            q.push("mode", v.as_str().to_owned());
        }
        proof {
            assert(q@ =~= g2 + opt_param("mode"@, opt_wire(self.mode, |v: Mode| v.wire_str())));
        }
        proof {
            assert(q@ =~= old(q)@ + self.params_part_b());
        }
    }

    /// One group of this descriptor's optional query parameters, in field
    /// order.
    pub open spec fn params_part_c(&self) -> Seq<(Seq<char>, Seq<char>)> {
        opt_param("group"@, opt_str(self.group))
            + opt_param("before"@, opt_wire(self.before, |v: DateTime| datetime_str(v)))
            + opt_param("after"@, opt_wire(self.after, |v: DateTime| datetime_str(v)))
    }

    #[verifier::rlimit(100)]
    fn push_params_c(&self, q: &mut QueryParams)
        ensures
            final(q)@ == old(q)@ + self.params_part_c(),
    {
        let ghost g0 = q@;
        if let Some(v) = &self.group {
            q.push("group", v.clone());
        }
        proof {
            assert(q@ =~= g0 + opt_param("group"@, opt_str(self.group)));
        }
        let ghost g1 = q@;
        if let Some(v) = &self.before {
            q.push("before", v.to_rfc3339());
        }
        proof {
            assert(q@ =~= g1 + opt_param("before"@, opt_wire(self.before, |v: DateTime| datetime_str(v))));
        }
        let ghost g2 = q@;
        if let Some(v) = &self.after {
            q.push("after", v.to_rfc3339());
        }
        proof {
            assert(q@ =~= g2 + opt_param("after"@, opt_wire(self.after, |v: DateTime| datetime_str(v))));
        }
        proof {
            assert(q@ =~= old(q)@ + self.params_part_c());
        }
    }

    /// One group of this descriptor's optional query parameters, in field
    /// order.
    pub open spec fn params_part_d(&self) -> Seq<(Seq<char>, Seq<char>)> {
        opt_param("bestOf"@, opt_wire(self.best_of, |v: BestOf| v.wire_str()))
            + opt_param("reverseSweep"@, opt_wire(self.reverse_sweep, |v: bool| bool_wire(v)))
            + opt_param("reverseSweepAttempt"@, opt_wire(self.reverse_sweep_attempt, |v: bool| bool_wire(v)))
    }

    #[verifier::rlimit(100)]
    fn push_params_d(&self, q: &mut QueryParams)
        ensures
            final(q)@ == old(q)@ + self.params_part_d(),
    {
        let ghost g0 = q@;
        if let Some(v) = &self.best_of {
            q.push("bestOf", v.as_str().to_owned());
        }
        proof {
            assert(q@ =~= g0 + opt_param("bestOf"@, opt_wire(self.best_of, |v: BestOf| v.wire_str())));
        }
        let ghost g1 = q@;
        if let Some(v) = &self.reverse_sweep {
            q.push("reverseSweep", bool_str(*v).to_owned());
        }
        proof {
            assert(q@ =~= g1 + opt_param("reverseSweep"@, opt_wire(self.reverse_sweep, |v: bool| bool_wire(v))));
        }
        let ghost g2 = q@;
        if let Some(v) = &self.reverse_sweep_attempt {
            q.push("reverseSweepAttempt", bool_str(*v).to_owned());
        }
        proof {
            assert(q@ =~= g2 + opt_param("reverseSweepAttempt"@, opt_wire(self.reverse_sweep_attempt, |v: bool| bool_wire(v))));
        }
        proof {
            assert(q@ =~= old(q)@ + self.params_part_d());
        }
    }

    /// One group of this descriptor's optional query parameters, in field
    /// order.
    pub open spec fn params_part_e(&self) -> Seq<(Seq<char>, Seq<char>)> {
        opt_param("player"@, opt_wire(self.player, |v: PlayerId| v@))
            + opt_param("team"@, opt_wire(self.team, |v: TeamId| v@))
            + opt_param("sort"@, opt_sort(self.sort, |s: MatchesSorting| s.wire_str()))
    }

    #[verifier::rlimit(100)]
    fn push_params_e(&self, q: &mut QueryParams)
        ensures
            final(q)@ == old(q)@ + self.params_part_e(),
    {
        let ghost g0 = q@;
        if let Some(v) = &self.player {
            q.push("player", v.as_str().to_owned());
        }
        proof {
            assert(q@ =~= g0 + opt_param("player"@, opt_wire(self.player, |v: PlayerId| v@)));
        }
        let ghost g1 = q@;
        if let Some(v) = &self.team {
            q.push("team", v.as_str().to_owned());
        }
        proof {
            assert(q@ =~= g1 + opt_param("team"@, opt_wire(self.team, |v: TeamId| v@)));
        }
        let ghost g2 = q@;
        if let Some(s) = &self.sort {
            q.push("sort", sort_param(s.0.as_str(), s.1));
        }
        proof {
            assert(q@ =~= g2 + opt_param("sort"@, opt_sort(self.sort, |s: MatchesSorting| s.wire_str())));
        }
        proof {
            assert(q@ =~= old(q)@ + self.params_part_e());
        }
    }
}

impl Endpoint for ListMatches {
    open spec fn path_spec(&self) -> Seq<char> {
        "matches"@
    }

    open spec fn params_spec(&self) -> Seq<(Seq<char>, Seq<char>)> {
        self.params_part_a() + self.params_part_b() + self.params_part_c() + self.params_part_d() + self.params_part_e()
    }

    open spec fn method_spec(&self) -> Method {
        Method::Get
    }

    open spec fn params_ok(&self) -> bool {
        true
    }

    open spec fn body_spec(&self) -> Option<(Seq<char>, Seq<u8>)> {
        Option::None
    }

    open spec fn body_ok(&self) -> bool {
        true
    }

    fn method(&self) -> (r: Method) {
        Method::Get
    }

    fn body(&self) -> (r: Result<Option<(String, Vec<u8>)>, BodyError>) {
        Ok(None)
    }

    fn endpoint(&self) -> (r: String) {
        "matches".to_owned()
    }

    fn query_parameters(&self) -> (r: Result<QueryParams, BodyError>) {
        let mut q = QueryParams::new();
        self.push_params_a(&mut q);
        self.push_params_b(&mut q);
        self.push_params_c(&mut q);
        self.push_params_d(&mut q);
        self.push_params_e(&mut q);
        proof {
            assert(q@ =~= self.params_spec());
        }
        Ok(q)
    }
}

impl Pageable for ListMatches {

}

} // verus!
