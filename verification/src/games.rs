//! Endpoints for games.

use vstd::prelude::*;
use vstd::string::StringExecFns;

use crate::common::{BestOf, Direction, Mode, Region, Tier};
use crate::datetime::{datetime_str, DateTime};
use crate::endpoint::{Endpoint, Method};
use crate::error::{BodyError, BuilderError};
use crate::events::EventId;
use crate::matches::MatchId;
use crate::pagination::Pageable;
use crate::params::{opt_param, opt_sort, opt_str, opt_wire, sort_param, QueryParams};
use crate::players::PlayerId;
use crate::stages::StageId;
use crate::strutil::{bool_str, bool_wire};
use crate::teams::TeamId;

verus! {

/// Represents a game id.
#[derive(Debug, Clone, PartialEq, Eq, Hash)]
pub struct GameId {
    id: String,
}

impl View for GameId {
    type V = Seq<char>;

    closed spec fn view(&self) -> Seq<char> {
        self.id@
    }
}

impl GameId {
    /// Create a new [`GameId`].
    pub fn new(id: String) -> (r: Self)
        ensures
            r@ == id@,
    {
        GameId { id }
    }

    /// The id as text.
    pub fn as_str(&self) -> (r: &str)
        ensures
            r@ == self@,
    {
        self.id.as_str()
    }
}

/// `GET` a single game by its [`GameId`].
#[derive(Debug, Clone)]
pub struct Game {
    /// The id for this game.
    pub id: GameId,
}

impl Game {
    /// Create a builder for this endpoint.
    pub fn builder() -> (r: GameBuilder)
        ensures
            r == (GameBuilder { id: None }),
    {
        GameBuilder { id: None }
    }
}

/// Builder for the [`Game`] endpoint.
#[derive(Debug, Clone)]
pub struct GameBuilder {
    /// The id for this game.
    pub id: Option<GameId>,
}

impl GameBuilder {
    /// The id for this game.
    pub fn id(self, id: GameId) -> (r: Self)
        ensures
            r == (GameBuilder { id: Some(id) }),
    {
        GameBuilder { id: Some(id) }
    }

    /// Builds the descriptor; fails exactly when no id was set.
    pub fn build(self) -> (r: Result<Game, BuilderError>)
        ensures
            self.id matches Some(id) ==> (r matches Ok(e) && e == (Game { id })),
            r is Err <==> self.id is None,
    {
        match self.id {
            Some(id) => Ok(Game { id }),
            None => Err(BuilderError { field: "id".to_owned() }),
        }
    }
}

impl Endpoint for Game {
    open spec fn path_spec(&self) -> Seq<char> {
        "games/"@ + self.id@
    }

    open spec fn params_spec(&self) -> Seq<(Seq<char>, Seq<char>)> {
        Seq::empty()
    }

    open spec fn method_spec(&self) -> Method {
        Method::Get
    }

    open spec fn params_ok(&self) -> bool {
        true
    }

    open spec fn body_spec(&self) -> Option<(Seq<char>, Seq<u8>)> {
        Option::None
    }

    open spec fn body_ok(&self) -> bool {
        true
    }

    fn method(&self) -> (r: Method) {
        Method::Get
    }

    fn body(&self) -> (r: Result<Option<(String, Vec<u8>)>, BodyError>) {
        Ok(None)
    }

    fn endpoint(&self) -> (r: String) {
        "games/".to_owned().concat(self.id.as_str())
    }

    fn query_parameters(&self) -> (r: Result<QueryParams, BodyError>) {
        Ok(QueryParams::new())
    }
}

/// Field to sort games by.
#[derive(Debug, Clone, Copy, PartialEq, Eq, Structural)]
pub enum GamesSorting {
    /// Sort by `event`
    Event,
    /// Sort by `stage`
    Stage,
    /// Sort by `match`
    Match,
    /// Sort by `qualifier`
    Qualifier,
    /// Sort by `tier`
    Tier,
    /// Sort by `region`
    Region,
    /// Sort by `mode`
    Mode,
    /// Sort by `group`
    Group,
    /// Sort by `before`
    Before,
    /// Sort by `after`
    After,
    /// Sort by `bestOf`
    BestOf,
    /// Sort by `player`
    Player,
    /// Sort by `team`
    Team,
    /// Sort by `date`
    Date,
}

impl GamesSorting {
    /// The wire field name this sorting writes into the sort parameter.
    pub open spec fn wire_str(self) -> Seq<char> {
        match self {
            GamesSorting::Event => "event"@,
            GamesSorting::Stage => "stage"@,
            GamesSorting::Match => "match"@,
            GamesSorting::Qualifier => "qualifier"@,
            GamesSorting::Tier => "tier"@,
            GamesSorting::Region => "region"@,
            GamesSorting::Mode => "mode"@,
            GamesSorting::Group => "group"@,
            GamesSorting::Before => "before"@,
            GamesSorting::After => "after"@,
            GamesSorting::BestOf => "bestOf"@,
            GamesSorting::Player => "player"@,
            GamesSorting::Team => "team"@,
            GamesSorting::Date => "date"@,
        }
    }

    /// The wire field name for this sorting.
    pub fn as_str(&self) -> (r: &'static str)
        ensures
            r@ == self.wire_str(),
    {
        match self {
            GamesSorting::Event => "event",
            GamesSorting::Stage => "stage",
            GamesSorting::Match => "match",
            GamesSorting::Qualifier => "qualifier",
            GamesSorting::Tier => "tier",
            GamesSorting::Region => "region",
            GamesSorting::Mode => "mode",
            GamesSorting::Group => "group",
            GamesSorting::Before => "before",
            GamesSorting::After => "after",
            GamesSorting::BestOf => "bestOf",
            GamesSorting::Player => "player",
            GamesSorting::Team => "team",
            GamesSorting::Date => "date",
        }
    }
}

/// `GET` a list of all games.
#[derive(Debug, Clone)]
pub struct ListGames {
    /// An event id. Example: `"5f35882d53fbbb5894b43040"`.
    pub event: Option<EventId>,
    /// A stage id. Example: `1`.
    pub stage: Option<StageId>,
    /// A match id. Example: `"6043152fa09e7fba40d2ae62"`.
    pub match_id: Option<MatchId>,
    /// Is stage a qualifier. Example: `true`.
    pub qualifier: Option<bool>,
    /// An event tier. Example: `Tier::S`.
    pub tier: Option<Tier>,
    /// An event region. Example: `Region::NorthAmerica`.
    pub region: Option<Region>,
    /// An event mode. Example: `Mode::Three`.
    pub mode: Option<Mode>,
    /// An event group. Example: `"rlcsx"`.
    pub group: Option<String>,
    /// Filter matches before this date.
    pub before: Option<DateTime>,
    /// Filter matches after this date.
    pub after: Option<DateTime>,
    /// A match format. Example: `BestOf::Five`.
    pub best_of: Option<BestOf>,
    /// A player id. Example: `"5f3d8fdd95f40596eae23d97"`.
    pub player: Option<PlayerId>,
    /// A team id. Example: `"6020bc70f1e4807cc70023c7"`.
    pub team: Option<TeamId>,
    /// Sorting method for results.
    pub sort: Option<(GamesSorting, Direction)>,
}

impl ListGames {
    /// Create a builder for this endpoint.
    pub fn builder() -> (r: ListGamesBuilder)
        ensures
            r == (ListGamesBuilder { event: None, stage: None, match_id: None, qualifier: None, tier: None, region: None, mode: None, group: None, before: None, after: None, best_of: None, player: None, team: None, sort: None }),
    {
        ListGamesBuilder { event: None, stage: None, match_id: None, qualifier: None, tier: None, region: None, mode: None, group: None, before: None, after: None, best_of: None, player: None, team: None, sort: None }
    }
}

/// Builder for the [`ListGames`] endpoint.
#[derive(Debug, Clone)]
pub struct ListGamesBuilder {
    /// An event id. Example: `"5f35882d53fbbb5894b43040"`.
    pub event: Option<EventId>,
    /// A stage id. Example: `1`.
    pub stage: Option<StageId>,
    /// A match id. Example: `"6043152fa09e7fba40d2ae62"`.
    pub match_id: Option<MatchId>,
    /// Is stage a qualifier. Example: `true`.
    pub qualifier: Option<bool>,
    /// An event tier. Example: `Tier::S`.
    pub tier: Option<Tier>,
    /// An event region. Example: `Region::NorthAmerica`.
    pub region: Option<Region>,
    /// An event mode. Example: `Mode::Three`.
    pub mode: Option<Mode>,
    /// An event group. Example: `"rlcsx"`.
    pub group: Option<String>,
    /// Filter matches before this date.
    pub before: Option<DateTime>,
    /// Filter matches after this date.
    pub after: Option<DateTime>,
    /// A match format. Example: `BestOf::Five`.
    pub best_of: Option<BestOf>,
    /// A player id. Example: `"5f3d8fdd95f40596eae23d97"`.
    pub player: Option<PlayerId>,
    /// A team id. Example: `"6020bc70f1e4807cc70023c7"`.
    pub team: Option<TeamId>,
    /// Sorting method for results.
    pub sort: Option<(GamesSorting, Direction)>,
}

impl ListGamesBuilder {
    /// An event id. Example: `"5f35882d53fbbb5894b43040"`.
    pub fn event(self, value: EventId) -> (r: Self)
        ensures
            r == (ListGamesBuilder { event: Some(value), ..self }),
    {
        ListGamesBuilder { event: Some(value), ..self }
    }

    /// A stage id. Example: `1`.
    pub fn stage(self, value: StageId) -> (r: Self)
        ensures
            r == (ListGamesBuilder { stage: Some(value), ..self }),
    {
        ListGamesBuilder { stage: Some(value), ..self }
    }

    /// A match id. Example: `"6043152fa09e7fba40d2ae62"`.
    pub fn match_id(self, value: MatchId) -> (r: Self)
        ensures
            r == (ListGamesBuilder { match_id: Some(value), ..self }),
    {
        ListGamesBuilder { match_id: Some(value), ..self }
    }

    /// Is stage a qualifier. Example: `true`.
    pub fn qualifier(self, value: bool) -> (r: Self)
        ensures
            r == (ListGamesBuilder { qualifier: Some(value), ..self }),
    {
        ListGamesBuilder { qualifier: Some(value), ..self }
    }

    /// An event tier. Example: `Tier::S`.
    pub fn tier(self, value: Tier) -> (r: Self)
        ensures
            r == (ListGamesBuilder { tier: Some(value), ..self }),
    {
        ListGamesBuilder { tier: Some(value), ..self }
    }

    /// An event region. Example: `Region::NorthAmerica`.
    pub fn region(self, value: Region) -> (r: Self)
        ensures
            r == (ListGamesBuilder { region: Some(value), ..self }),
    {
        ListGamesBuilder { region: Some(value), ..self }
    }

    /// An event mode. Example: `Mode::Three`.
    pub fn mode(self, value: Mode) -> (r: Self)
        ensures
            r == (ListGamesBuilder { mode: Some(value), ..self }),
    {
        ListGamesBuilder { mode: Some(value), ..self }
    }

    /// An event group. Example: `"rlcsx"`.
    pub fn group(self, value: String) -> (r: Self)
        ensures
            r == (ListGamesBuilder { group: Some(value), ..self }),
    {
        ListGamesBuilder { group: Some(value), ..self }
    }

    /// Filter matches before this date.
    pub fn before(self, value: DateTime) -> (r: Self)
        ensures
            r == (ListGamesBuilder { before: Some(value), ..self }),
    {
        ListGamesBuilder { before: Some(value), ..self }
    }

    /// Filter matches after this date.
    pub fn after(self, value: DateTime) -> (r: Self)
        ensures
            r == (ListGamesBuilder { after: Some(value), ..self }),
    {
        ListGamesBuilder { after: Some(value), ..self }
    }

    /// A match format. Example: `BestOf::Five`.
    pub fn best_of(self, value: BestOf) -> (r: Self)
        ensures
            r == (ListGamesBuilder { best_of: Some(value), ..self }),
    {
        ListGamesBuilder { best_of: Some(value), ..self }
    }

    /// A player id. Example: `"5f3d8fdd95f40596eae23d97"`.
    pub fn player(self, value: PlayerId) -> (r: Self)
        ensures
            r == (ListGamesBuilder { player: Some(value), ..self }),
    {
        ListGamesBuilder { player: Some(value), ..self }
    }

    /// A team id. Example: `"6020bc70f1e4807cc70023c7"`.
    pub fn team(self, value: TeamId) -> (r: Self)
        ensures
            r == (ListGamesBuilder { team: Some(value), ..self }),
    {
        ListGamesBuilder { team: Some(value), ..self }
    }

    /// Sorting method for results. Takes a field to sort by and a sort
    /// direction.
    pub fn sort(self, value: GamesSorting, direction: Direction) -> (r: Self)
        ensures
            r == (ListGamesBuilder { sort: Some((value, direction)), ..self }),
    {
        ListGamesBuilder { sort: Some((value, direction)), ..self }
    }

    /// Builds the descriptor; every field is optional, so this always
    /// succeeds.
    pub fn build(self) -> (r: Result<ListGames, BuilderError>)
        ensures
            r matches Ok(l) && l == (ListGames { event: self.event, stage: self.stage, match_id: self.match_id, qualifier: self.qualifier, tier: self.tier, region: self.region, mode: self.mode, group: self.group, before: self.before, after: self.after, best_of: self.best_of, player: self.player, team: self.team, sort: self.sort }),
    {
        Ok(ListGames { event: self.event, stage: self.stage, match_id: self.match_id, qualifier: self.qualifier, tier: self.tier, region: self.region, mode: self.mode, group: self.group, before: self.before, after: self.after, best_of: self.best_of, player: self.player, team: self.team, sort: self.sort })
    }
}

impl ListGames {
    /// One group of this descriptor's optional query parameters, in field
    /// order.
    pub open spec fn params_part_a(&self) -> Seq<(Seq<char>, Seq<char>)> {
        opt_param("event"@, opt_wire(self.event, |v: EventId| v@))
            + opt_param("stage"@, opt_wire(self.stage, |v: StageId| v.wire_str()))
            + opt_param("match"@, opt_wire(self.match_id, |v: MatchId| v@))
    }

    #[verifier::rlimit(100)]
    fn push_params_a(&self, q: &mut QueryParams)
        ensures
            final(q)@ == old(q)@ + self.params_part_a(),
    {
        let ghost g0 = q@;
        if let Some(v) = &self.event {
            q.push("event", v.as_str().to_owned());
        }
        proof {
            assert(q@ =~= g0 + opt_param("event"@, opt_wire(self.event, |v: EventId| v@)));
        }
        let ghost g1 = q@;
        if let Some(v) = &self.stage {
            q.push("stage", v.as_string());
        }
        proof {
            assert(q@ =~= g1 + opt_param("stage"@, opt_wire(self.stage, |v: StageId| v.wire_str())));
        }
        let ghost g2 = q@;
        if let Some(v) = &self.match_id {
            q.push("match", v.as_str().to_owned());
        }
        proof {
            assert(q@ =~= g2 + opt_param("match"@, opt_wire(self.match_id, |v: MatchId| v@)));
        }
        proof {
            assert(q@ =~= old(q)@ + self.params_part_a());
        }
    }

    /// One group of this descriptor's optional query parameters, in field
    /// order.
    pub open spec fn params_part_b(&self) -> Seq<(Seq<char>, Seq<char>)> {
        opt_param("qualifier"@, opt_wire(self.qualifier, |v: bool| bool_wire(v)))
            + opt_param("tier"@, opt_wire(self.tier, |v: Tier| v.wire_str()))
            + opt_param("region"@, opt_wire(self.region, |v: Region| v.wire_str()))
    }

    #[verifier::rlimit(100)]
    fn push_params_b(&self, q: &mut QueryParams)
        ensures
            final(q)@ == old(q)@ + self.params_part_b(),
    {
        let ghost g0 = q@;
        if let Some(v) = &self.qualifier {
            q.push("qualifier", bool_str(*v).to_owned());
        }
        proof {
            assert(q@ =~= g0 + opt_param("qualifier"@, opt_wire(self.qualifier, |v: bool| bool_wire(v))));
        }
        let ghost g1 = q@;
        if let Some(v) = &self.tier {
            q.push("tier", v.as_str().to_owned());
        }
        proof {
            assert(q@ =~= g1 + opt_param("tier"@, opt_wire(self.tier, |v: Tier| v.wire_str())));
        }
        let ghost g2 = q@;
        if let Some(v) = &self.region {
            q.push("region", v.as_str().to_owned());
        }
        proof {
            assert(q@ =~= g2 + opt_param("region"@, opt_wire(self.region, |v: Region| v.wire_str())));
        }
        proof {
            assert(q@ =~= old(q)@ + self.params_part_b());
        }
    }

    /// One group of this descriptor's optional query parameters, in field
    /// order.
    pub open spec fn params_part_c(&self) -> Seq<(Seq<char>, Seq<char>)> {
        opt_param("mode"@, opt_wire(self.mode, |v: Mode| v.wire_str()))
            + opt_param("group"@, opt_str(self.group))
            + opt_param("before"@, opt_wire(self.before, |v: DateTime| datetime_str(v)))
    }

    #[verifier::rlimit(100)]
    fn push_params_c(&self, q: &mut QueryParams)
        ensures
            final(q)@ == old(q)@ + self.params_part_c(),
    {
        let ghost g0 = q@;
        if let Some(v) = &self.mode {
            q.push("mode", v.as_str().to_owned());
        }
        proof {
            assert(q@ =~= g0 + opt_param("mode"@, opt_wire(self.mode, |v: Mode| v.wire_str())));
        }
        let ghost g1 = q@;
        if let Some(v) = &self.group {
            q.push("group", v.clone());
        }
        proof {
            assert(q@ =~= g1 + opt_param("group"@, opt_str(self.group)));
        }
        let ghost g2 = q@;
        if let Some(v) = &self.before {
            q.push("before", v.to_rfc3339());
        }
        proof {
            assert(q@ =~= g2 + opt_param("before"@, opt_wire(self.before, |v: DateTime| datetime_str(v))));
        }
        proof {
            assert(q@ =~= old(q)@ + self.params_part_c());
        }
    }

    /// One group of this descriptor's optional query parameters, in field
    /// order.
    pub open spec fn params_part_d(&self) -> Seq<(Seq<char>, Seq<char>)> {
        opt_param("after"@, opt_wire(self.after, |v: DateTime| datetime_str(v)))
            + opt_param("bestOf"@, opt_wire(self.best_of, |v: BestOf| v.wire_str()))
            + opt_param("player"@, opt_wire(self.player, |v: PlayerId| v@))
    }

    #[verifier::rlimit(100)]
    fn push_params_d(&self, q: &mut QueryParams)
        ensures
            final(q)@ == old(q)@ + self.params_part_d(),
    {
        let ghost g0 = q@;
        if let Some(v) = &self.after {
            q.push("after", v.to_rfc3339());
        }
        proof {
            assert(q@ =~= g0 + opt_param("after"@, opt_wire(self.after, |v: DateTime| datetime_str(v))));
        }
        let ghost g1 = q@;
        if let Some(v) = &self.best_of {
            q.push("bestOf", v.as_str().to_owned());
        }
        proof {
            assert(q@ =~= g1 + opt_param("bestOf"@, opt_wire(self.best_of, |v: BestOf| v.wire_str())));
        }
        let ghost g2 = q@;
        if let Some(v) = &self.player {
            q.push("player", v.as_str().to_owned());
        }
        proof {
            assert(q@ =~= g2 + opt_param("player"@, opt_wire(self.player, |v: PlayerId| v@)));
        }
        proof {
            assert(q@ =~= old(q)@ + self.params_part_d());
        }
    }

    /// One group of this descriptor's optional query parameters, in field
    /// order.
    pub open spec fn params_part_e(&self) -> Seq<(Seq<char>, Seq<char>)> {
        opt_param("team"@, opt_wire(self.team, |v: TeamId| v@))
            + opt_param("sort"@, opt_sort(self.sort, |s: GamesSorting| s.wire_str()))
    }

    #[verifier::rlimit(100)]
    fn push_params_e(&self, q: &mut QueryParams)
        ensures
            final(q)@ == old(q)@ + self.params_part_e(),
    {
        let ghost g0 = q@;
        if let Some(v) = &self.team {
            q.push("team", v.as_str().to_owned());
        }
        proof {
            assert(q@ =~= g0 + opt_param("team"@, opt_wire(self.team, |v: TeamId| v@)));
        }
        let ghost g1 = q@;
        if let Some(s) = &self.sort {
            q.push("sort", sort_param(s.0.as_str(), s.1));
        }
        proof {
            assert(q@ =~= g1 + opt_param("sort"@, opt_sort(self.sort, |s: GamesSorting| s.wire_str())));
        }
        proof {
            assert(q@ =~= old(q)@ + self.params_part_e());
        }
    }
}

impl Endpoint for ListGames {
    open spec fn path_spec(&self) -> Seq<char> {
        "games"@
    }

    open spec fn params_spec(&self) -> Seq<(Seq<char>, Seq<char>)> {
        self.params_part_a() + self.params_part_b() + self.params_part_c() + self.params_part_d() + self.params_part_e()
    }

    open spec fn method_spec(&self) -> Method {
        Method::Get
    }

    open spec fn params_ok(&self) -> bool {
        true
    }

    open spec fn body_spec(&self) -> Option<(Seq<char>, Seq<u8>)> {
        Option::None
    }

    open spec fn body_ok(&self) -> bool {
        true
    }

    fn method(&self) -> (r: Method) {
        Method::Get
    }

    fn body(&self) -> (r: Result<Option<(String, Vec<u8>)>, BodyError>) {
        Ok(None)
    }

    fn endpoint(&self) -> (r: String) {
        "games".to_owned()
    }

    fn query_parameters(&self) -> (r: Result<QueryParams, BodyError>) {
        let mut q = QueryParams::new();
        self.push_params_a(&mut q);
        self.push_params_b(&mut q);
        self.push_params_c(&mut q);
        self.push_params_d(&mut q);
        self.push_params_e(&mut q);
        proof {
            assert(q@ =~= self.params_spec());
        }
        Ok(q)
    }
}

impl Pageable for ListGames {

}

} // verus!
