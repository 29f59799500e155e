//! Endpoints for records.

use vstd::prelude::*;

use crate::common::{BestOf, Mode, Region, Tier};
use crate::datetime::{datetime_str, DateTime};
use crate::endpoint::{Endpoint, Method};
use crate::error::{BodyError, BuilderError};
use crate::events::EventId;
use crate::matches::MatchId;
use crate::pagination::Pageable;
use crate::params::{opt_param, opt_str, opt_wire, QueryParams};
use crate::players::PlayerId;
use crate::stages::StageId;
use crate::strutil::{bool_str, bool_wire};
use crate::teams::TeamId;

verus! {

/// Aggregation type for records.
#[derive(Debug, Clone, Copy, PartialEq, Eq, Structural)]
pub enum AggregationType {
    /// Aggregate over a single game
    Game,
    /// Aggregate over a series
    Series,
}

impl AggregationType {
    /// The token this aggregation writes into a query parameter value.
    pub open spec fn wire_str(self) -> Seq<char> {
        match self {
            AggregationType::Game => "game"@,
            AggregationType::Series => "series"@,
        }
    }

    /// The wire token for this aggregation.
    pub fn as_str(&self) -> (r: &'static str)
        ensures
            r@ == self.wire_str(),
    {
        match self {
            AggregationType::Game => "game",
            AggregationType::Series => "series",
        }
    }
}

/// `GET` player records.
#[derive(Debug, Clone)]
pub struct PlayerRecords {
    /// Type of aggregation. Example: `AggregationType::Game`.
    pub aggregation_type: AggregationType,
    /// Stat for records. Example: `"score"`.
    pub stat: String,
    /// An event ID. Example: `"5f35882d53fbbb5894b43040"`.
    pub event: Option<EventId>,
    /// A stage ID. Example: `1`.
    pub stage: Option<StageId>,
    /// A match ID. Example: `"6043152fa09e7fba40d2ae62"`.
    pub match_id: Option<MatchId>,
    /// Is stage a qualifier. Example: `true`.
    pub qualifier: Option<bool>,
    /// Game or series winner. Example: `true`.
    pub winner: Option<bool>,
    /// A 2-letter country code. Example: `"us"`.
    pub nationality: Option<String>,
    /// Event tier. Example: `Tier::S`.
    pub tier: Option<Tier>,
    /// Event region. Example: `Region::NorthAmerica`.
    pub region: Option<Region>,
    /// Event mode. Example: `Mode::Three`.
    pub mode: Option<Mode>,
    /// Event group. Example: `"rlcsx"`.
    pub group: Option<String>,
    /// Filter events before this date.
    pub before: Option<DateTime>,
    /// Filter events after this date.
    pub after: Option<DateTime>,
    /// A match format. Example: `BestOf::Five`.
    pub best_of: Option<BestOf>,
    /// A player ID. Example: `"5f3d8fdd95f40596eae23d97"`.
    pub player: Option<PlayerId>,
    /// A team ID. Example: `"6020bc70f1e4807cc70023c7"`.
    pub team: Option<TeamId>,
}

impl PlayerRecords {
    /// Create a builder for this endpoint.
    pub fn builder() -> (r: PlayerRecordsBuilder)
        ensures
            r == (PlayerRecordsBuilder { aggregation_type: None, stat: None, event: None, stage: None, match_id: None, qualifier: None, winner: None, nationality: None, tier: None, region: None, mode: None, group: None, before: None, after: None, best_of: None, player: None, team: None }),
    {
        PlayerRecordsBuilder { aggregation_type: None, stat: None, event: None, stage: None, match_id: None, qualifier: None, winner: None, nationality: None, tier: None, region: None, mode: None, group: None, before: None, after: None, best_of: None, player: None, team: None }
    }
}

/// Builder for the [`PlayerRecords`] endpoint.
#[derive(Debug, Clone)]
pub struct PlayerRecordsBuilder {
    /// Type of aggregation. Example: `AggregationType::Game`.
    pub aggregation_type: Option<AggregationType>,
    /// Stat for records. Example: `"score"`.
    pub stat: Option<String>,
    /// An event ID. Example: `"5f35882d53fbbb5894b43040"`.
    pub event: Option<EventId>,
    /// A stage ID. Example: `1`.
    pub stage: Option<StageId>,
    /// A match ID. Example: `"6043152fa09e7fba40d2ae62"`.
    pub match_id: Option<MatchId>,
    /// Is stage a qualifier. Example: `true`.
    pub qualifier: Option<bool>,
    /// Game or series winner. Example: `true`.
    pub winner: Option<bool>,
    /// A 2-letter country code. Example: `"us"`.
    pub nationality: Option<String>,
    /// Event tier. Example: `Tier::S`.
    pub tier: Option<Tier>,
    /// Event region. Example: `Region::NorthAmerica`.
    pub region: Option<Region>,
    /// Event mode. Example: `Mode::Three`.
    pub mode: Option<Mode>,
    /// Event group. Example: `"rlcsx"`.
    pub group: Option<String>,
    /// Filter events before this date.
    pub before: Option<DateTime>,
    /// Filter events after this date.
    pub after: Option<DateTime>,
    /// A match format. Example: `BestOf::Five`.
    pub best_of: Option<BestOf>,
    /// A player ID. Example: `"5f3d8fdd95f40596eae23d97"`.
    pub player: Option<PlayerId>,
    /// A team ID. Example: `"6020bc70f1e4807cc70023c7"`.
    pub team: Option<TeamId>,
}

impl PlayerRecordsBuilder {
    /// Type of aggregation. Example: `AggregationType::Game`.
    pub fn aggregation_type(self, value: AggregationType) -> (r: Self)
        ensures
            r == (PlayerRecordsBuilder { aggregation_type: Some(value), ..self }),
    {
        PlayerRecordsBuilder { aggregation_type: Some(value), ..self }
    }

    /// Stat for records. Example: `"score"`.
    pub fn stat(self, value: String) -> (r: Self)
        ensures
            r == (PlayerRecordsBuilder { stat: Some(value), ..self }),
    {
        PlayerRecordsBuilder { stat: Some(value), ..self }
    }

    /// An event ID. Example: `"5f35882d53fbbb5894b43040"`.
    pub fn event(self, value: EventId) -> (r: Self)
        ensures
            r == (PlayerRecordsBuilder { event: Some(value), ..self }),
    {
        PlayerRecordsBuilder { event: Some(value), ..self }
    }

    /// A stage ID. Example: `1`.
    pub fn stage(self, value: StageId) -> (r: Self)
        ensures
            r == (PlayerRecordsBuilder { stage: Some(value), ..self }),
    {
        PlayerRecordsBuilder { stage: Some(value), ..self }
    }

    /// A match ID. Example: `"6043152fa09e7fba40d2ae62"`.
    pub fn match_id(self, value: MatchId) -> (r: Self)
        ensures
            r == (PlayerRecordsBuilder { match_id: Some(value), ..self }),
    {
        PlayerRecordsBuilder { match_id: Some(value), ..self }
    }

    /// Is stage a qualifier. Example: `true`.
    pub fn qualifier(self, value: bool) -> (r: Self)
        ensures
            r == (PlayerRecordsBuilder { qualifier: Some(value), ..self }),
    {
        PlayerRecordsBuilder { qualifier: Some(value), ..self }
    }

    /// Game or series winner. Example: `true`.
    pub fn winner(self, value: bool) -> (r: Self)
        ensures
            r == (PlayerRecordsBuilder { winner: Some(value), ..self }),
    {
        PlayerRecordsBuilder { winner: Some(value), ..self }
    }

    /// A 2-letter country code. Example: `"us"`.
    pub fn nationality(self, value: String) -> (r: Self)
        ensures
            r == (PlayerRecordsBuilder { nationality: Some(value), ..self }),
    {
        PlayerRecordsBuilder { nationality: Some(value), ..self }
    }

    /// Event tier. Example: `Tier::S`.
    pub fn tier(self, value: Tier) -> (r: Self)
        ensures
            r == (PlayerRecordsBuilder { tier: Some(value), ..self }),
    {
        PlayerRecordsBuilder { tier: Some(value), ..self }
    }

    /// Event region. Example: `Region::NorthAmerica`.
    pub fn region(self, value: Region) -> (r: Self)
        ensures
            r == (PlayerRecordsBuilder { region: Some(value), ..self }),
    {
        PlayerRecordsBuilder { region: Some(value), ..self }
    }

    /// Event mode. Example: `Mode::Three`.
    pub fn mode(self, value: Mode) -> (r: Self)
        ensures
            r == (PlayerRecordsBuilder { mode: Some(value), ..self }),
    {
        PlayerRecordsBuilder { mode: Some(value), ..self }
    }

    /// Event group. Example: `"rlcsx"`.
    pub fn group(self, value: String) -> (r: Self)
        ensures
            r == (PlayerRecordsBuilder { group: Some(value), ..self }),
    {
        PlayerRecordsBuilder { group: Some(value), ..self }
    }

    /// Filter events before this date.
    pub fn before(self, value: DateTime) -> (r: Self)
        ensures
            r == (PlayerRecordsBuilder { before: Some(value), ..self }),
    {
        PlayerRecordsBuilder { before: Some(value), ..self }
    }

    /// Filter events after this date.
    pub fn after(self, value: DateTime) -> (r: Self)
        ensures
            r == (PlayerRecordsBuilder { after: Some(value), ..self }),
    {
        PlayerRecordsBuilder { after: Some(value), ..self }
    }

    /// A match format. Example: `BestOf::Five`.
    pub fn best_of(self, value: BestOf) -> (r: Self)
        ensures
            r == (PlayerRecordsBuilder { best_of: Some(value), ..self }),
    {
        PlayerRecordsBuilder { best_of: Some(value), ..self }
    }

    /// A player ID. Example: `"5f3d8fdd95f40596eae23d97"`.
    pub fn player(self, value: PlayerId) -> (r: Self)
        ensures
            r == (PlayerRecordsBuilder { player: Some(value), ..self }),
    {
        PlayerRecordsBuilder { player: Some(value), ..self }
    }

    /// A team ID. Example: `"6020bc70f1e4807cc70023c7"`.
    pub fn team(self, value: TeamId) -> (r: Self)
        ensures
            r == (PlayerRecordsBuilder { team: Some(value), ..self }),
    {
        PlayerRecordsBuilder { team: Some(value), ..self }
    }

    /// Builds the descriptor; fails exactly when a required field is unset.
    pub fn build(self) -> (r: Result<PlayerRecords, BuilderError>)
        ensures
            self.aggregation_type matches Some(aggregation_type_v) ==> self.stat matches Some(stat_v) ==> (r matches Ok(l) && l == (PlayerRecords { aggregation_type: aggregation_type_v, stat: stat_v, event: self.event, stage: self.stage, match_id: self.match_id, qualifier: self.qualifier, winner: self.winner, nationality: self.nationality, tier: self.tier, region: self.region, mode: self.mode, group: self.group, before: self.before, after: self.after, best_of: self.best_of, player: self.player, team: self.team })),
            r is Err <==> (self.aggregation_type is None || self.stat is None),
    {
        let aggregation_type = match self.aggregation_type {
            Some(v) => v,
            None => return Err(BuilderError { field: "aggregation_type".to_owned() }),
        };
        let stat = match self.stat {
            Some(v) => v,
            None => return Err(BuilderError { field: "stat".to_owned() }),
        };
        Ok(PlayerRecords { aggregation_type, stat, event: self.event, stage: self.stage, match_id: self.match_id, qualifier: self.qualifier, winner: self.winner, nationality: self.nationality, tier: self.tier, region: self.region, mode: self.mode, group: self.group, before: self.before, after: self.after, best_of: self.best_of, player: self.player, team: self.team })
    }
}

impl PlayerRecords {
    /// One group of this descriptor's optional query parameters, in field
    /// order.
    pub open spec fn params_part_a(&self) -> Seq<(Seq<char>, Seq<char>)> {
        opt_param("event"@, opt_wire(self.event, |v: EventId| v@))
            + opt_param("stage"@, opt_wire(self.stage, |v: StageId| v.wire_str()))
            + opt_param("match"@, opt_wire(self.match_id, |v: MatchId| v@))
    }

    #[verifier::rlimit(100)]
    fn push_params_a(&self, q: &mut QueryParams)
        ensures
            final(q)@ == old(q)@ + self.params_part_a(),
    {
        let ghost g0 = q@;
        if let Some(v) = &self.event {
            q.push("event", v.as_str().to_owned());
        }
        proof {
            assert(q@ =~= g0 + opt_param("event"@, opt_wire(self.event, |v: EventId| v@)));
        }
        let ghost g1 = q@;
        if let Some(v) = &self.stage {
            q.push("stage", v.as_string());
        }
        proof {
            assert(q@ =~= g1 + opt_param("stage"@, opt_wire(self.stage, |v: StageId| v.wire_str())));
        }
        let ghost g2 = q@;
        if let Some(v) = &self.match_id {
            q.push("match", v.as_str().to_owned());
        }
        proof {
            assert(q@ =~= g2 + opt_param("match"@, opt_wire(self.match_id, |v: MatchId| v@)));
        }
        proof {
            assert(q@ =~= old(q)@ + self.params_part_a());
        }
    }

    /// One group of this descriptor's optional query parameters, in field
    /// order.
    pub open spec fn params_part_b(&self) -> Seq<(Seq<char>, Seq<char>)> {
        opt_param("qualifier"@, opt_wire(self.qualifier, |v: bool| bool_wire(v)))
            + opt_param("winner"@, opt_wire(self.winner, |v: bool| bool_wire(v)))
            + opt_param("nationality"@, opt_str(self.nationality))
    }

    #[verifier::rlimit(100)]
    fn push_params_b(&self, q: &mut QueryParams)
        ensures
            final(q)@ == old(q)@ + self.params_part_b(),
    {
        let ghost g0 = q@;
        if let Some(v) = &self.qualifier {
            q.push("qualifier", bool_str(*v).to_owned());
        }
        proof {
            assert(q@ =~= g0 + opt_param("qualifier"@, opt_wire(self.qualifier, |v: bool| bool_wire(v))));
        }
        let ghost g1 = q@;
        if let Some(v) = &self.winner {
            q.push("winner", bool_str(*v).to_owned());
        }
        proof {
            assert(q@ =~= g1 + opt_param("winner"@, opt_wire(self.winner, |v: bool| bool_wire(v))));
        }
        let ghost g2 = q@;
        if let Some(v) = &self.nationality {
            q.push("nationality", v.clone());
        }
        proof {
            assert(q@ =~= g2 + opt_param("nationality"@, opt_str(self.nationality)));
        }
        proof {
            assert(q@ =~= old(q)@ + self.params_part_b());
        }
    }

    /// One group of this descriptor's optional query parameters, in field
    /// order.
    pub open spec fn params_part_c(&self) -> Seq<(Seq<char>, Seq<char>)> {
        opt_param("tier"@, opt_wire(self.tier, |v: Tier| v.wire_str()))
            + opt_param("region"@, opt_wire(self.region, |v: Region| v.wire_str()))
            + opt_param("mode"@, opt_wire(self.mode, |v: Mode| v.wire_str()))
    }

    #[verifier::rlimit(100)]
    fn push_params_c(&self, q: &mut QueryParams)
        ensures
            final(q)@ == old(q)@ + self.params_part_c(),
    {
        let ghost g0 = q@;
        if let Some(v) = &self.tier {
            q.push("tier", v.as_str().to_owned());
        }
        proof {
            assert(q@ =~= g0 + opt_param("tier"@, opt_wire(self.tier, |v: Tier| v.wire_str())));
        }
        let ghost g1 = q@;
        if let Some(v) = &self.region {
            q.push("region", v.as_str().to_owned());
        }
        proof {
            assert(q@ =~= g1 + opt_param("region"@, opt_wire(self.region, |v: Region| v.wire_str())));
        }
        let ghost g2 = q@;
        if let Some(v) = &self.mode {
            q.push("mode", v.as_str().to_owned());
        }
        proof {
            assert(q@ =~= g2 + opt_param("mode"@, opt_wire(self.mode, |v: Mode| v.wire_str())));
        }
        proof {
            assert(q@ =~= old(q)@ + self.params_part_c());
        }
    }

    /// One group of this descriptor's optional query parameters, in field
    /// order.
    pub open spec fn params_part_d(&self) -> Seq<(Seq<char>, Seq<char>)> {
        opt_param("group"@, opt_str(self.group))
            + opt_param("before"@, opt_wire(self.before, |v: DateTime| datetime_str(v)))
            + opt_param("after"@, opt_wire(self.after, |v: DateTime| datetime_str(v)))
    }

    #[verifier::rlimit(100)]
    fn push_params_d(&self, q: &mut QueryParams)
        ensures
            final(q)@ == old(q)@ + self.params_part_d(),
    {
        let ghost g0 = q@;
        if let Some(v) = &self.group {
            q.push("group", v.clone());
        }
        proof {
            assert(q@ =~= g0 + opt_param("group"@, opt_str(self.group)));
        }
        let ghost g1 = q@;
        if let Some(v) = &self.before {
            q.push("before", v.to_rfc3339());
        }
        proof {
            assert(q@ =~= g1 + opt_param("before"@, opt_wire(self.before, |v: DateTime| datetime_str(v))));
        }
        let ghost g2 = q@;
        if let Some(v) = &self.after {
            q.push("after", v.to_rfc3339());
        }
        proof {
            assert(q@ =~= g2 + opt_param("after"@, opt_wire(self.after, |v: DateTime| datetime_str(v))));
        }
        proof {
            assert(q@ =~= old(q)@ + self.params_part_d());
        }
    }

    /// One group of this descriptor's optional query parameters, in field
    /// order.
    pub open spec fn params_part_e(&self) -> Seq<(Seq<char>, Seq<char>)> {
        opt_param("bestOf"@, opt_wire(self.best_of, |v: BestOf| v.wire_str()))
            + opt_param("player"@, opt_wire(self.player, |v: PlayerId| v@))
            + opt_param("team"@, opt_wire(self.team, |v: TeamId| v@))
    }

    #[verifier::rlimit(100)]
    fn push_params_e(&self, q: &mut QueryParams)
        ensures
            final(q)@ == old(q)@ + self.params_part_e(),
    {
        let ghost g0 = q@;
        if let Some(v) = &self.best_of {
            q.push("bestOf", v.as_str().to_owned());
        }
        proof {
            assert(q@ =~= g0 + opt_param("bestOf"@, opt_wire(self.best_of, |v: BestOf| v.wire_str())));
        }
        let ghost g1 = q@;
        if let Some(v) = &self.player {
            q.push("player", v.as_str().to_owned());
        }
        proof {
            assert(q@ =~= g1 + opt_param("player"@, opt_wire(self.player, |v: PlayerId| v@)));
        }
        let ghost g2 = q@;
        if let Some(v) = &self.team {
            q.push("team", v.as_str().to_owned());
        }
        proof {
            assert(q@ =~= g2 + opt_param("team"@, opt_wire(self.team, |v: TeamId| v@)));
        }
        proof {
            assert(q@ =~= old(q)@ + self.params_part_e());
        }
    }
}

impl Endpoint for PlayerRecords {
    open spec fn path_spec(&self) -> Seq<char> {
        "records/players"@
    }

    open spec fn params_spec(&self) -> Seq<(Seq<char>, Seq<char>)> {
        seq![("type"@, self.aggregation_type.wire_str()), ("stat"@, self.stat@)] + self.params_part_a() + self.params_part_b() + self.params_part_c() + self.params_part_d() + self.params_part_e()
    }

    open spec fn method_spec(&self) -> Method {
        Method::Get
    }

    open spec fn params_ok(&self) -> bool {
        true
    }

    open spec fn body_spec(&self) -> Option<(Seq<char>, Seq<u8>)> {
        Option::None
    }

    open spec fn body_ok(&self) -> bool {
        true
    }

    fn method(&self) -> (r: Method) {
        Method::Get
    }

    fn body(&self) -> (r: Result<Option<(String, Vec<u8>)>, BodyError>) {
        Ok(None)
    }

    fn endpoint(&self) -> (r: String) {
        "records/players".to_owned()
    }

    fn query_parameters(&self) -> (r: Result<QueryParams, BodyError>) {
        let mut q = QueryParams::new();
        q.push("type", self.aggregation_type.as_str().to_owned());
        q.push("stat", self.stat.clone());
        proof {
            assert(q@ =~= seq![("type"@, self.aggregation_type.wire_str()), ("stat"@, self.stat@)]);
        }
        self.push_params_a(&mut q);
        self.push_params_b(&mut q);
        self.push_params_c(&mut q);
        self.push_params_d(&mut q);
        self.push_params_e(&mut q);
        proof {
            assert(q@ =~= self.params_spec());
        }
        Ok(q)
    }
}

/// `GET` series records.
#[derive(Debug, Clone)]
pub struct SeriesRecords {
    /// An event ID. Example: `"5f35882d53fbbb5894b43040"`.
    pub event: Option<EventId>,
    /// A stage ID. Example: `1`.
    pub stage: Option<StageId>,
    /// A match ID. Example: `"6043152fa09e7fba40d2ae62"`.
    pub match_id: Option<MatchId>,
    /// Is stage a qualifier. Example: `true`.
    pub qualifier: Option<bool>,
    /// Event tier. Example: `Tier::S`.
    pub tier: Option<Tier>,
    /// Event region. Example: `Region::NorthAmerica`.
    pub region: Option<Region>,
    /// Event mode. Example: `Mode::Three`.
    pub mode: Option<Mode>,
    /// Event group. Example: `"rlcsx"`.
    pub group: Option<String>,
    /// Filter events before this date.
    pub before: Option<DateTime>,
    /// Filter events after this date.
    pub after: Option<DateTime>,
    /// A match format. Example: `BestOf::Five`.
    pub best_of: Option<BestOf>,
    /// A player ID. Example: `"5f3d8fdd95f40596eae23d97"`.
    pub player: Option<PlayerId>,
    /// A team ID. Example: `"6020bc70f1e4807cc70023c7"`.
    pub team: Option<TeamId>,
}

impl SeriesRecords {
    /// Create a builder for this endpoint.
    pub fn builder() -> (r: SeriesRecordsBuilder)
        ensures
            r == (SeriesRecordsBuilder { event: None, stage: None, match_id: None, qualifier: None, tier: None, region: None, mode: None, group: None, before: None, after: None, best_of: None, player: None, team: None }),
    {
        SeriesRecordsBuilder { event: None, stage: None, match_id: None, qualifier: None, tier: None, region: None, mode: None, group: None, before: None, after: None, best_of: None, player: None, team: None }
    }
}

/// Builder for the [`SeriesRecords`] endpoint.
#[derive(Debug, Clone)]
pub struct SeriesRecordsBuilder {
    /// An event ID. Example: `"5f35882d53fbbb5894b43040"`.
    pub event: Option<EventId>,
    /// A stage ID. Example: `1`.
    pub stage: Option<StageId>,
    /// A match ID. Example: `"6043152fa09e7fba40d2ae62"`.
    pub match_id: Option<MatchId>,
    /// Is stage a qualifier. Example: `true`.
    pub qualifier: Option<bool>,
    /// Event tier. Example: `Tier::S`.
    pub tier: Option<Tier>,
    /// Event region. Example: `Region::NorthAmerica`.
    pub region: Option<Region>,
    /// Event mode. Example: `Mode::Three`.
    pub mode: Option<Mode>,
    /// Event group. Example: `"rlcsx"`.
    pub group: Option<String>,
    /// Filter events before this date.
    pub before: Option<DateTime>,
    /// Filter events after this date.
    pub after: Option<DateTime>,
    /// A match format. Example: `BestOf::Five`.
    pub best_of: Option<BestOf>,
    /// A player ID. Example: `"5f3d8fdd95f40596eae23d97"`.
    pub player: Option<PlayerId>,
    /// A team ID. Example: `"6020bc70f1e4807cc70023c7"`.
    pub team: Option<TeamId>,
}

impl SeriesRecordsBuilder {
    /// An event ID. Example: `"5f35882d53fbbb5894b43040"`.
    pub fn event(self, value: EventId) -> (r: Self)
        ensures
            r == (SeriesRecordsBuilder { event: Some(value), ..self }),
    {
        SeriesRecordsBuilder { event: Some(value), ..self }
    }

    /// A stage ID. Example: `1`.
    pub fn stage(self, value: StageId) -> (r: Self)
        ensures
            r == (SeriesRecordsBuilder { stage: Some(value), ..self }),
    {
        SeriesRecordsBuilder { stage: Some(value), ..self }
    }

    /// A match ID. Example: `"6043152fa09e7fba40d2ae62"`.
    pub fn match_id(self, value: MatchId) -> (r: Self)
        ensures
            r == (SeriesRecordsBuilder { match_id: Some(value), ..self }),
    {
        SeriesRecordsBuilder { match_id: Some(value), ..self }
    }

    /// Is stage a qualifier. Example: `true`.
    pub fn qualifier(self, value: bool) -> (r: Self)
        ensures
            r == (SeriesRecordsBuilder { qualifier: Some(value), ..self }),
    {
        SeriesRecordsBuilder { qualifier: Some(value), ..self }
    }

    /// Event tier. Example: `Tier::S`.
    pub fn tier(self, value: Tier) -> (r: Self)
        ensures
            r == (SeriesRecordsBuilder { tier: Some(value), ..self }),
    {
        SeriesRecordsBuilder { tier: Some(value), ..self }
    }

    /// Event region. Example: `Region::NorthAmerica`.
    pub fn region(self, value: Region) -> (r: Self)
        ensures
            r == (SeriesRecordsBuilder { region: Some(value), ..self }),
    {
        SeriesRecordsBuilder { region: Some(value), ..self }
    }

    /// Event mode. Example: `Mode::Three`.
    pub fn mode(self, value: Mode) -> (r: Self)
        ensures
            r == (SeriesRecordsBuilder { mode: Some(value), ..self }),
    {
        SeriesRecordsBuilder { mode: Some(value), ..self }
    }

    /// Event group. Example: `"rlcsx"`.
    pub fn group(self, value: String) -> (r: Self)
        ensures
            r == (SeriesRecordsBuilder { group: Some(value), ..self }),
    {
        SeriesRecordsBuilder { group: Some(value), ..self }
    }

    /// Filter events before this date.
    pub fn before(self, value: DateTime) -> (r: Self)
        ensures
            r == (SeriesRecordsBuilder { before: Some(value), ..self }),
    {
        SeriesRecordsBuilder { before: Some(value), ..self }
    }

    /// Filter events after this date.
    pub fn after(self, value: DateTime) -> (r: Self)
        ensures
            r == (SeriesRecordsBuilder { after: Some(value), ..self }),
    {
        SeriesRecordsBuilder { after: Some(value), ..self }
    }

    /// A match format. Example: `BestOf::Five`.
    pub fn best_of(self, value: BestOf) -> (r: Self)
        ensures
            r == (SeriesRecordsBuilder { best_of: Some(value), ..self }),
    {
        SeriesRecordsBuilder { best_of: Some(value), ..self }
    }

    /// A player ID. Example: `"5f3d8fdd95f40596eae23d97"`.
    pub fn player(self, value: PlayerId) -> (r: Self)
        ensures
            r == (SeriesRecordsBuilder { player: Some(value), ..self }),
    {
        SeriesRecordsBuilder { player: Some(value), ..self }
    }

    /// A team ID. Example: `"6020bc70f1e4807cc70023c7"`.
    pub fn team(self, value: TeamId) -> (r: Self)
        ensures
            r == (SeriesRecordsBuilder { team: Some(value), ..self }),
    {
        SeriesRecordsBuilder { team: Some(value), ..self }
    }

    /// Builds the descriptor; every field is optional, so this always
    /// succeeds.
    pub fn build(self) -> (r: Result<SeriesRecords, BuilderError>)
        ensures
            r matches Ok(l) && l == (SeriesRecords { event: self.event, stage: self.stage, match_id: self.match_id, qualifier: self.qualifier, tier: self.tier, region: self.region, mode: self.mode, group: self.group, before: self.before, after: self.after, best_of: self.best_of, player: self.player, team: self.team }),
    {
        Ok(SeriesRecords { event: self.event, stage: self.stage, match_id: self.match_id, qualifier: self.qualifier, tier: self.tier, region: self.region, mode: self.mode, group: self.group, before: self.before, after: self.after, best_of: self.best_of, player: self.player, team: self.team })
    }
}

impl SeriesRecords {
    /// One group of this descriptor's optional query parameters, in field
    /// order.
    pub open spec fn params_part_a(&self) -> Seq<(Seq<char>, Seq<char>)> {
        opt_param("event"@, opt_wire(self.event, |v: EventId| v@))
            + opt_param("stage"@, opt_wire(self.stage, |v: StageId| v.wire_str()))
            + opt_param("match"@, opt_wire(self.match_id, |v: MatchId| v@))
    }

    #[verifier::rlimit(100)]
    fn push_params_a(&self, q: &mut QueryParams)
        ensures
            final(q)@ == old(q)@ + self.params_part_a(),
    {
        let ghost g0 = q@;
        if let Some(v) = &self.event {
            q.push("event", v.as_str().to_owned());
        }
        proof {
            assert(q@ =~= g0 + opt_param("event"@, opt_wire(self.event, |v: EventId| v@)));
        }
        let ghost g1 = q@;
        if let Some(v) = &self.stage {
            q.push("stage", v.as_string());
        }
        proof {
            assert(q@ =~= g1 + opt_param("stage"@, opt_wire(self.stage, |v: StageId| v.wire_str())));
        }
        let ghost g2 = q@;
        if let Some(v) = &self.match_id {
            q.push("match", v.as_str().to_owned());
        }
        proof {
            assert(q@ =~= g2 + opt_param("match"@, opt_wire(self.match_id, |v: MatchId| v@)));
        }
        proof {
            assert(q@ =~= old(q)@ + self.params_part_a());
        }
    }

    /// One group of this descriptor's optional query parameters, in field
    /// order.
    pub open spec fn params_part_b(&self) -> Seq<(Seq<char>, Seq<char>)> {
        opt_param("qualifier"@, opt_wire(self.qualifier, |v: bool| bool_wire(v)))
            + opt_param("tier"@, opt_wire(self.tier, |v: Tier| v.wire_str()))
            + opt_param("region"@, opt_wire(self.region, |v: Region| v.wire_str()))
    }

    #[verifier::rlimit(100)]
    fn push_params_b(&self, q: &mut QueryParams)
        ensures
            final(q)@ == old(q)@ + self.params_part_b(),
    {
        let ghost g0 = q@;
        if let Some(v) = &self.qualifier {
            q.push("qualifier", bool_str(*v).to_owned());
        }
        proof {
            assert(q@ =~= g0 + opt_param("qualifier"@, opt_wire(self.qualifier, |v: bool| bool_wire(v))));
        }
        let ghost g1 = q@;
        if let Some(v) = &self.tier {
            q.push("tier", v.as_str().to_owned());
        }
        proof {
            assert(q@ =~= g1 + opt_param("tier"@, opt_wire(self.tier, |v: Tier| v.wire_str())));
        }
        let ghost g2 = q@;
        if let Some(v) = &self.region {
            q.push("region", v.as_str().to_owned());
        }
        proof {
            assert(q@ =~= g2 + opt_param("region"@, opt_wire(self.region, |v: Region| v.wire_str())));
        }
        proof {
            assert(q@ =~= old(q)@ + self.params_part_b());
        }
    }

    /// One group of this descriptor's optional query parameters, in field
    /// order.
    pub open spec fn params_part_c(&self) -> Seq<(Seq<char>, Seq<char>)> {
        opt_param("mode"@, opt_wire(self.mode, |v: Mode| v.wire_str()))
            + opt_param("group"@, opt_str(self.group))
            + opt_param("before"@, opt_wire(self.before, |v: DateTime| datetime_str(v)))
    }

    #[verifier::rlimit(100)]
    fn push_params_c(&self, q: &mut QueryParams)
        ensures
            final(q)@ == old(q)@ + self.params_part_c(),
    {
        let ghost g0 = q@;
        if let Some(v) = &self.mode {
            q.push("mode", v.as_str().to_owned());
        }
        proof {
            assert(q@ =~= g0 + opt_param("mode"@, opt_wire(self.mode, |v: Mode| v.wire_str())));
        }
        let ghost g1 = q@;
        if let Some(v) = &self.group {
            q.push("group", v.clone());
        }
        proof {
            assert(q@ =~= g1 + opt_param("group"@, opt_str(self.group)));
        }
        let ghost g2 = q@;
        if let Some(v) = &self.before {
            q.push("before", v.to_rfc3339());
        }
        proof {
            assert(q@ =~= g2 + opt_param("before"@, opt_wire(self.before, |v: DateTime| datetime_str(v))));
        }
        proof {
            assert(q@ =~= old(q)@ + self.params_part_c());
        }
    }

    /// One group of this descriptor's optional query parameters, in field
    /// order.
    pub open spec fn params_part_d(&self) -> Seq<(Seq<char>, Seq<char>)> {
        opt_param("after"@, opt_wire(self.after, |v: DateTime| datetime_str(v)))
            + opt_param("bestOf"@, opt_wire(self.best_of, |v: BestOf| v.wire_str()))
            + opt_param("player"@, opt_wire(self.player, |v: PlayerId| v@))
    }

    #[verifier::rlimit(100)]
    fn push_params_d(&self, q: &mut QueryParams)
        ensures
            final(q)@ == old(q)@ + self.params_part_d(),
    {
        let ghost g0 = q@;
        if let Some(v) = &self.after {
            q.push("after", v.to_rfc3339());
        }
        proof {
            assert(q@ =~= g0 + opt_param("after"@, opt_wire(self.after, |v: DateTime| datetime_str(v))));
        }
        let ghost g1 = q@;
        if let Some(v) = &self.best_of {
            q.push("bestOf", v.as_str().to_owned());
        }
        proof {
            assert(q@ =~= g1 + opt_param("bestOf"@, opt_wire(self.best_of, |v: BestOf| v.wire_str())));
        }
        let ghost g2 = q@;
        if let Some(v) = &self.player {
            q.push("player", v.as_str().to_owned());
        }
        proof {
            assert(q@ =~= g2 + opt_param("player"@, opt_wire(self.player, |v: PlayerId| v@)));
        }
        proof {
            assert(q@ =~= old(q)@ + self.params_part_d());
        }
    }

    /// One group of this descriptor's optional query parameters, in field
    /// order.
    pub open spec fn params_part_e(&self) -> Seq<(Seq<char>, Seq<char>)> {
        opt_param("team"@, opt_wire(self.team, |v: TeamId| v@))
    }

    #[verifier::rlimit(100)]
    fn push_params_e(&self, q: &mut QueryParams)
        ensures
            final(q)@ == old(q)@ + self.params_part_e(),
    {
        let ghost g0 = q@;
        if let Some(v) = &self.team {
            q.push("team", v.as_str().to_owned());
        }
        proof {
            assert(q@ =~= g0 + opt_param("team"@, opt_wire(self.team, |v: TeamId| v@)));
        }
        proof {
            assert(q@ =~= old(q)@ + self.params_part_e());
        }
    }
}

impl Endpoint for SeriesRecords {
    open spec fn path_spec(&self) -> Seq<char> {
        "records/series"@
    }

    open spec fn params_spec(&self) -> Seq<(Seq<char>, Seq<char>)> {
        self.params_part_a() + self.params_part_b() + self.params_part_c() + self.params_part_d() + self.params_part_e()
    }

    open spec fn method_spec(&self) -> Method {
        Method::Get
    }

    open spec fn params_ok(&self) -> bool {
        true
    }

    open spec fn body_spec(&self) -> Option<(Seq<char>, Seq<u8>)> {
        Option::None
    }

    open spec fn body_ok(&self) -> bool {
        true
    }

    fn method(&self) -> (r: Method) {
        Method::Get
    }

    fn body(&self) -> (r: Result<Option<(String, Vec<u8>)>, BodyError>) {
        Ok(None)
    }

    fn endpoint(&self) -> (r: String) {
        "records/series".to_owned()
    }

    fn query_parameters(&self) -> (r: Result<QueryParams, BodyError>) {
        let mut q = QueryParams::new();
        self.push_params_a(&mut q);
        self.push_params_b(&mut q);
        self.push_params_c(&mut q);
        self.push_params_d(&mut q);
        self.push_params_e(&mut q);
        proof {
            assert(q@ =~= self.params_spec());
        }
        Ok(q)
    }
}

/// `GET` team records.
#[derive(Debug, Clone)]
pub struct TeamRecords {
    /// Type of aggregation. Example: `AggregationType::Game`.
    pub aggregation_type: AggregationType,
    /// Stat for records. Example: `"score"`.
    pub stat: String,
    /// An event ID. Example: `"5f35882d53fbbb5894b43040"`.
    pub event: Option<EventId>,
    /// A stage ID. Example: `1`.
    pub stage: Option<StageId>,
    /// A match ID. Example: `"6043152fa09e7fba40d2ae62"`.
    pub match_id: Option<MatchId>,
    /// Is stage a qualifier. Example: `true`.
    pub qualifier: Option<bool>,
    /// Game or series winner. Example: `true`.
    pub winner: Option<bool>,
    /// A 2-letter country code. Example: `"us"`.
    pub nationality: Option<String>,
    /// Event tier. Example: `Tier::S`.
    pub tier: Option<Tier>,
    /// Event region. Example: `Region::NorthAmerica`.
    pub region: Option<Region>,
    /// Event mode. Example: `Mode::Three`.
    pub mode: Option<Mode>,
    /// Event group. Example: `"rlcsx"`.
    pub group: Option<String>,
    /// Filter events before this date.
    pub before: Option<DateTime>,
    /// Filter events after this date.
    pub after: Option<DateTime>,
    /// A match format. Example: `BestOf::Five`.
    pub best_of: Option<BestOf>,
    /// A team ID. Example: `"6020bc70f1e4807cc70023c7"`.
    pub team: Option<TeamId>,
}

impl TeamRecords {
    /// Create a builder for this endpoint.
    pub fn builder() -> (r: TeamRecordsBuilder)
        ensures
            r == (TeamRecordsBuilder { aggregation_type: None, stat: None, event: None, stage: None, match_id: None, qualifier: None, winner: None, nationality: None, tier: None, region: None, mode: None, group: None, before: None, after: None, best_of: None, team: None }),
    {
        TeamRecordsBuilder { aggregation_type: None, stat: None, event: None, stage: None, match_id: None, qualifier: None, winner: None, nationality: None, tier: None, region: None, mode: None, group: None, before: None, after: None, best_of: None, team: None }
    }
}

/// Builder for the [`TeamRecords`] endpoint.
#[derive(Debug, Clone)]
pub struct TeamRecordsBuilder {
    /// Type of aggregation. Example: `AggregationType::Game`.
    pub aggregation_type: Option<AggregationType>,
    /// Stat for records. Example: `"score"`.
    pub stat: Option<String>,
    /// An event ID. Example: `"5f35882d53fbbb5894b43040"`.
    pub event: Option<EventId>,
    /// A stage ID. Example: `1`.
    pub stage: Option<StageId>,
    /// A match ID. Example: `"6043152fa09e7fba40d2ae62"`.
    pub match_id: Option<MatchId>,
    /// Is stage a qualifier. Example: `true`.
    pub qualifier: Option<bool>,
    /// Game or series winner. Example: `true`.
    pub winner: Option<bool>,
    /// A 2-letter country code. Example: `"us"`.
    pub nationality: Option<String>,
    /// Event tier. Example: `Tier::S`.
    pub tier: Option<Tier>,
    /// Event region. Example: `Region::NorthAmerica`.
    pub region: Option<Region>,
    /// Event mode. Example: `Mode::Three`.
    pub mode: Option<Mode>,
    /// Event group. Example: `"rlcsx"`.
    pub group: Option<String>,
    /// Filter events before this date.
    pub before: Option<DateTime>,
    /// Filter events after this date.
    pub after: Option<DateTime>,
    /// A match format. Example: `BestOf::Five`.
    pub best_of: Option<BestOf>,
    /// A team ID. Example: `"6020bc70f1e4807cc70023c7"`.
    pub team: Option<TeamId>,
}

impl TeamRecordsBuilder {
    /// Type of aggregation. Example: `AggregationType::Game`.
    pub fn aggregation_type(self, value: AggregationType) -> (r: Self)
        ensures
            r == (TeamRecordsBuilder { aggregation_type: Some(value), ..self }),
    {
        TeamRecordsBuilder { aggregation_type: Some(value), ..self }
    }

    /// Stat for records. Example: `"score"`.
    pub fn stat(self, value: String) -> (r: Self)
        ensures
            r == (TeamRecordsBuilder { stat: Some(value), ..self }),
    {
        TeamRecordsBuilder { stat: Some(value), ..self }
    }

    /// An event ID. Example: `"5f35882d53fbbb5894b43040"`.
    pub fn event(self, value: EventId) -> (r: Self)
        ensures
            r == (TeamRecordsBuilder { event: Some(value), ..self }),
    {
        TeamRecordsBuilder { event: Some(value), ..self }
    }

    /// A stage ID. Example: `1`.
    pub fn stage(self, value: StageId) -> (r: Self)
        ensures
            r == (TeamRecordsBuilder { stage: Some(value), ..self }),
    {
        TeamRecordsBuilder { stage: Some(value), ..self }
    }

    /// A match ID. Example: `"6043152fa09e7fba40d2ae62"`.
    pub fn match_id(self, value: MatchId) -> (r: Self)
        ensures
            r == (TeamRecordsBuilder { match_id: Some(value), ..self }),
    {
        TeamRecordsBuilder { match_id: Some(value), ..self }
    }

    /// Is stage a qualifier. Example: `true`.
    pub fn qualifier(self, value: bool) -> (r: Self)
        ensures
            r == (TeamRecordsBuilder { qualifier: Some(value), ..self }),
    {
        TeamRecordsBuilder { qualifier: Some(value), ..self }
    }

    /// Game or series winner. Example: `true`.
    pub fn winner(self, value: bool) -> (r: Self)
        ensures
            r == (TeamRecordsBuilder { winner: Some(value), ..self }),
    {
        TeamRecordsBuilder { winner: Some(value), ..self }
    }

    /// A 2-letter country code. Example: `"us"`.
    pub fn nationality(self, value: String) -> (r: Self)
        ensures
            r == (TeamRecordsBuilder { nationality: Some(value), ..self }),
    {
        TeamRecordsBuilder { nationality: Some(value), ..self }
    }

    /// Event tier. Example: `Tier::S`.
    pub fn tier(self, value: Tier) -> (r: Self)
        ensures
            r == (TeamRecordsBuilder { tier: Some(value), ..self }),
    {
        TeamRecordsBuilder { tier: Some(value), ..self }
    }

    /// Event region. Example: `Region::NorthAmerica`.
    pub fn region(self, value: Region) -> (r: Self)
        ensures
            r == (TeamRecordsBuilder { region: Some(value), ..self }),
    {
        TeamRecordsBuilder { region: Some(value), ..self }
    }

    /// Event mode. Example: `Mode::Three`.
    pub fn mode(self, value: Mode) -> (r: Self)
        ensures
            r == (TeamRecordsBuilder { mode: Some(value), ..self }),
    {
        TeamRecordsBuilder { mode: Some(value), ..self }
    }

    /// Event group. Example: `"rlcsx"`.
    pub fn group(self, value: String) -> (r: Self)
        ensures
            r == (TeamRecordsBuilder { group: Some(value), ..self }),
    {
        TeamRecordsBuilder { group: Some(value), ..self }
    }

    /// Filter events before this date.
    pub fn before(self, value: DateTime) -> (r: Self)
        ensures
            r == (TeamRecordsBuilder { before: Some(value), ..self }),
    {
        TeamRecordsBuilder { before: Some(value), ..self }
    }

    /// Filter events after this date.
    pub fn after(self, value: DateTime) -> (r: Self)
        ensures
            r == (TeamRecordsBuilder { after: Some(value), ..self }),
    {
        TeamRecordsBuilder { after: Some(value), ..self }
    }

    /// A match format. Example: `BestOf::Five`.
    pub fn best_of(self, value: BestOf) -> (r: Self)
        ensures
            r == (TeamRecordsBuilder { best_of: Some(value), ..self }),
    {
        TeamRecordsBuilder { best_of: Some(value), ..self }
    }

    /// A team ID. Example: `"6020bc70f1e4807cc70023c7"`.
    pub fn team(self, value: TeamId) -> (r: Self)
        ensures
            r == (TeamRecordsBuilder { team: Some(value), ..self }),
    {
        TeamRecordsBuilder { team: Some(value), ..self }
    }

    /// Builds the descriptor; fails exactly when a required field is unset.
    pub fn build(self) -> (r: Result<TeamRecords, BuilderError>)
        ensures
            self.aggregation_type matches Some(aggregation_type_v) ==> self.stat matches Some(stat_v) ==> (r matches Ok(l) && l == (TeamRecords { aggregation_type: aggregation_type_v, stat: stat_v, event: self.event, stage: self.stage, match_id: self.match_id, qualifier: self.qualifier, winner: self.winner, nationality: self.nationality, tier: self.tier, region: self.region, mode: self.mode, group: self.group, before: self.before, after: self.after, best_of: self.best_of, team: self.team })),
            r is Err <==> (self.aggregation_type is None || self.stat is None),
    {
        let aggregation_type = match self.aggregation_type {
            Some(v) => v,
            None => return Err(BuilderError { field: "aggregation_type".to_owned() }),
        };
        let stat = match self.stat {
            Some(v) => v,
            None => return Err(BuilderError { field: "stat".to_owned() }),
        };
        Ok(TeamRecords { aggregation_type, stat, event: self.event, stage: self.stage, match_id: self.match_id, qualifier: self.qualifier, winner: self.winner, nationality: self.nationality, tier: self.tier, region: self.region, mode: self.mode, group: self.group, before: self.before, after: self.after, best_of: self.best_of, team: self.team })
    }
}

impl TeamRecords {
    /// One group of this descriptor's optional query parameters, in field
    /// order.
    pub open spec fn params_part_a(&self) -> Seq<(Seq<char>, Seq<char>)> {
        opt_param("event"@, opt_wire(self.event, |v: EventId| v@))
            + opt_param("stage"@, opt_wire(self.stage, |v: StageId| v.wire_str()))
            + opt_param("match"@, opt_wire(self.match_id, |v: MatchId| v@))
    }

    #[verifier::rlimit(100)]
    fn push_params_a(&self, q: &mut QueryParams)
        ensures
            final(q)@ == old(q)@ + self.params_part_a(),
    {
        let ghost g0 = q@;
        if let Some(v) = &self.event {
            q.push("event", v.as_str().to_owned());
        }
        proof {
            assert(q@ =~= g0 + opt_param("event"@, opt_wire(self.event, |v: EventId| v@)));
        }
        let ghost g1 = q@;
        if let Some(v) = &self.stage {
            q.push("stage", v.as_string());
        }
        proof {
            assert(q@ =~= g1 + opt_param("stage"@, opt_wire(self.stage, |v: StageId| v.wire_str())));
        }
        let ghost g2 = q@;
        if let Some(v) = &self.match_id {
            q.push("match", v.as_str().to_owned());
        }
        proof {
            assert(q@ =~= g2 + opt_param("match"@, opt_wire(self.match_id, |v: MatchId| v@)));
        }
        proof {
            assert(q@ =~= old(q)@ + self.params_part_a());
        }
    }

    /// One group of this descriptor's optional query parameters, in field
    /// order.
    pub open spec fn params_part_b(&self) -> Seq<(Seq<char>, Seq<char>)> {
        opt_param("qualifier"@, opt_wire(self.qualifier, |v: bool| bool_wire(v)))
            + opt_param("winner"@, opt_wire(self.winner, |v: bool| bool_wire(v)))
            + opt_param("nationality"@, opt_str(self.nationality))
    }

    #[verifier::rlimit(100)]
    fn push_params_b(&self, q: &mut QueryParams)
        ensures
            final(q)@ == old(q)@ + self.params_part_b(),
    {
        let ghost g0 = q@;
        if let Some(v) = &self.qualifier {
            q.push("qualifier", bool_str(*v).to_owned());
        }
        proof {
            assert(q@ =~= g0 + opt_param("qualifier"@, opt_wire(self.qualifier, |v: bool| bool_wire(v))));
        }
        let ghost g1 = q@;
        if let Some(v) = &self.winner {
            q.push("winner", bool_str(*v).to_owned());
        }
        proof {
            assert(q@ =~= g1 + opt_param("winner"@, opt_wire(self.winner, |v: bool| bool_wire(v))));
        }
        let ghost g2 = q@;
        if let Some(v) = &self.nationality {
            q.push("nationality", v.clone());
        }
        proof {
            assert(q@ =~= g2 + opt_param("nationality"@, opt_str(self.nationality)));
        }
        proof {
            assert(q@ =~= old(q)@ + self.params_part_b());
        }
    }

    /// One group of this descriptor's optional query parameters, in field
    /// order.
    pub open spec fn params_part_c(&self) -> Seq<(Seq<char>, Seq<char>)> {
        opt_param("tier"@, opt_wire(self.tier, |v: Tier| v.wire_str()))
            + opt_param("region"@, opt_wire(self.region, |v: Region| v.wire_str()))
            + opt_param("mode"@, opt_wire(self.mode, |v: Mode| v.wire_str()))
    }

    #[verifier::rlimit(100)]
    fn push_params_c(&self, q: &mut QueryParams)
        ensures
            final(q)@ == old(q)@ + self.params_part_c(),
    {
        let ghost g0 = q@;
        if let Some(v) = &self.tier {
            q.push("tier", v.as_str().to_owned());
        }
        proof {
            assert(q@ =~= g0 + opt_param("tier"@, opt_wire(self.tier, |v: Tier| v.wire_str())));
        }
        let ghost g1 = q@;
        if let Some(v) = &self.region {
            q.push("region", v.as_str().to_owned());
        }
        proof {
            assert(q@ =~= g1 + opt_param("region"@, opt_wire(self.region, |v: Region| v.wire_str())));
        }
        let ghost g2 = q@;
        if let Some(v) = &self.mode {
            q.push("mode", v.as_str().to_owned());
        }
        proof {
            assert(q@ =~= g2 + opt_param("mode"@, opt_wire(self.mode, |v: Mode| v.wire_str())));
        }
        proof {
            assert(q@ =~= old(q)@ + self.params_part_c());
        }
    }

    /// One group of this descriptor's optional query parameters, in field
    /// order.
    pub open spec fn params_part_d(&self) -> Seq<(Seq<char>, Seq<char>)> {
        opt_param("group"@, opt_str(self.group))
            + opt_param("before"@, opt_wire(self.before, |v: DateTime| datetime_str(v)))
            + opt_param("after"@, opt_wire(self.after, |v: DateTime| datetime_str(v)))
    }

    #[verifier::rlimit(100)]
    fn push_params_d(&self, q: &mut QueryParams)
        ensures
            final(q)@ == old(q)@ + self.params_part_d(),
    {
        let ghost g0 = q@;
        if let Some(v) = &self.group {
            q.push("group", v.clone());
        }
        proof {
            assert(q@ =~= g0 + opt_param("group"@, opt_str(self.group)));
        }
        let ghost g1 = q@;
        if let Some(v) = &self.before {
            q.push("before", v.to_rfc3339());
        }
        proof {
            assert(q@ =~= g1 + opt_param("before"@, opt_wire(self.before, |v: DateTime| datetime_str(v))));
        }
        let ghost g2 = q@;
        if let Some(v) = &self.after {
            q.push("after", v.to_rfc3339());
        }
        proof {
            assert(q@ =~= g2 + opt_param("after"@, opt_wire(self.after, |v: DateTime| datetime_str(v))));
        }
        proof {
            assert(q@ =~= old(q)@ + self.params_part_d());
        }
    }

    /// One group of this descriptor's optional query parameters, in field
    /// order.
    pub open spec fn params_part_e(&self) -> Seq<(Seq<char>, Seq<char>)> {
        opt_param("bestOf"@, opt_wire(self.best_of, |v: BestOf| v.wire_str()))
            + opt_param("team"@, opt_wire(self.team, |v: TeamId| v@))
    }

    #[verifier::rlimit(100)]
    fn push_params_e(&self, q: &mut QueryParams)
        ensures
            final(q)@ == old(q)@ + self.params_part_e(),
    {
        let ghost g0 = q@;
        if let Some(v) = &self.best_of {
            q.push("bestOf", v.as_str().to_owned());
        }
        proof {
            assert(q@ =~= g0 + opt_param("bestOf"@, opt_wire(self.best_of, |v: BestOf| v.wire_str())));
        }
        let ghost g1 = q@;
        if let Some(v) = &self.team {
            q.push("team", v.as_str().to_owned());
        }
        proof {
            assert(q@ =~= g1 + opt_param("team"@, opt_wire(self.team, |v: TeamId| v@)));
        }
        proof {
            assert(q@ =~= old(q)@ + self.params_part_e());
        }
    }
}

impl Endpoint for TeamRecords {
    open spec fn path_spec(&self) -> Seq<char> {
        "records/teams"@
    }

    open spec fn params_spec(&self) -> Seq<(Seq<char>, Seq<char>)> {
        seq![("type"@, self.aggregation_type.wire_str()), ("stat"@, self.stat@)] + self.params_part_a() + self.params_part_b() + self.params_part_c() + self.params_part_d() + self.params_part_e()
    }

    open spec fn method_spec(&self) -> Method {
        Method::Get
    }

    open spec fn params_ok(&self) -> bool {
        true
    }

    open spec fn body_spec(&self) -> Option<(Seq<char>, Seq<u8>)> {
        Option::None
    }

    open spec fn body_ok(&self) -> bool {
        true
    }

    fn method(&self) -> (r: Method) {
        Method::Get
    }

    fn body(&self) -> (r: Result<Option<(String, Vec<u8>)>, BodyError>) {
        Ok(None)
    }

    fn endpoint(&self) -> (r: String) {
        "records/teams".to_owned()
    }

    fn query_parameters(&self) -> (r: Result<QueryParams, BodyError>) {
        let mut q = QueryParams::new();
        q.push("type", self.aggregation_type.as_str().to_owned());
        q.push("stat", self.stat.clone());
        proof {
            assert(q@ =~= seq![("type"@, self.aggregation_type.wire_str()), ("stat"@, self.stat@)]);
        }
        self.push_params_a(&mut q);
        self.push_params_b(&mut q);
        self.push_params_c(&mut q);
        self.push_params_d(&mut q);
        self.push_params_e(&mut q);
        proof {
            assert(q@ =~= self.params_spec());
        }
        Ok(q)
    }
}

} // verus!
