//! Endpoints for players.

use vstd::prelude::*;
use vstd::string::StringExecFns;

use crate::common::Direction;
use crate::endpoint::{Endpoint, Method};
use crate::error::{BodyError, BuilderError};
use crate::pagination::Pageable;
use crate::params::{opt_param, opt_sort, opt_str, opt_wire, sort_param, QueryParams};
use crate::teams::TeamId;

verus! {

/// Represents a player id.
#[derive(Debug, Clone, PartialEq, Eq, Hash)]
pub struct PlayerId {
    id: String,
}

impl View for PlayerId {
    type V = Seq<char>;

    closed spec fn view(&self) -> Seq<char> {
        self.id@
    }
}

impl PlayerId {
    /// Create a new [`PlayerId`].
    pub fn new(id: String) -> (r: Self)
        ensures
            r@ == id@,
    {
        PlayerId { id }
    }

    /// The id as text.
    pub fn as_str(&self) -> (r: &str)
        ensures
            r@ == self@,
    {
        self.id.as_str()
    }
}

/// `GET` a single player by its [`PlayerId`].
#[derive(Debug, Clone)]
pub struct Player {
    /// A player ID. Example: `"5f35882d53fbbb5894b43040"`.
    pub id: PlayerId,
}

impl Player {
    /// Create a builder for this endpoint.
    pub fn builder() -> (r: PlayerBuilder)
        ensures
            r == (PlayerBuilder { id: None }),
    {
        PlayerBuilder { id: None }
    }
}

/// Builder for the [`Player`] endpoint.
#[derive(Debug, Clone)]
pub struct PlayerBuilder {
    /// A player ID. Example: `"5f35882d53fbbb5894b43040"`.
    pub id: Option<PlayerId>,
}

impl PlayerBuilder {
    /// A player ID. Example: `"5f35882d53fbbb5894b43040"`.
    pub fn id(self, id: PlayerId) -> (r: Self)
        ensures
            r == (PlayerBuilder { id: Some(id) }),
    {
        PlayerBuilder { id: Some(id) }
    }

    /// Builds the descriptor; fails exactly when no id was set.
    pub fn build(self) -> (r: Result<Player, BuilderError>)
        ensures
            self.id matches Some(id) ==> (r matches Ok(e) && e == (Player { id })),
            r is Err <==> self.id is None,
    {
        match self.id {
            Some(id) => Ok(Player { id }),
            None => Err(BuilderError { field: "id".to_owned() }),
        }
    }
}

impl Endpoint for Player {
    open spec fn path_spec(&self) -> Seq<char> {
        "players/"@ + self.id@
    }

    open spec fn params_spec(&self) -> Seq<(Seq<char>, Seq<char>)> {
        Seq::empty()
    }

    open spec fn method_spec(&self) -> Method {
        Method::Get
    }

    open spec fn params_ok(&self) -> bool {
        true
    }

    open spec fn body_spec(&self) -> Option<(Seq<char>, Seq<u8>)> {
        Option::None
    }

    open spec fn body_ok(&self) -> bool {
        true
    }

    fn method(&self) -> (r: Method) {
        Method::Get
    }

    fn body(&self) -> (r: Result<Option<(String, Vec<u8>)>, BodyError>) {
        Ok(None)
    }

    fn endpoint(&self) -> (r: String) {
        "players/".to_owned().concat(self.id.as_str())
    }

    fn query_parameters(&self) -> (r: Result<QueryParams, BodyError>) {
        Ok(QueryParams::new())
    }
}

/// Field to sort players by.
#[derive(Debug, Clone, Copy, PartialEq, Eq, Structural)]
pub enum PlayersSorting {
    /// Sort by `tag`
    Tag,
    /// Sort by `country`
    Country,
    /// Sort by `team`
    Team,
}

impl PlayersSorting {
    /// The wire field name this sorting writes into the sort parameter.
    pub open spec fn wire_str(self) -> Seq<char> {
        match self {
            PlayersSorting::Tag => "tag"@,
            PlayersSorting::Country => "country"@,
            PlayersSorting::Team => "team"@,
        }
    }

    /// The wire field name for this sorting.
    pub fn as_str(&self) -> (r: &'static str)
        ensures
            r@ == self.wire_str(),
    {
        match self {
            PlayersSorting::Tag => "tag",
            PlayersSorting::Country => "country",
            PlayersSorting::Team => "team",
        }
    }
}

/// `GET` a list of all players.
#[derive(Debug, Clone)]
pub struct ListPlayers {
    /// A portion of the player tag. Example: `"Kro"`.
    pub tag: Option<String>,
    /// A 2-letter country code. Example: `"us"`.
    pub country: Option<String>,
    /// A team ID. Example: `"6020bc70f1e4807cc70023c7"`.
    pub team: Option<TeamId>,
    /// Sorting method for results.
    pub sort: Option<(PlayersSorting, Direction)>,
}

impl ListPlayers {
    /// Create a builder for this endpoint.
    pub fn builder() -> (r: ListPlayersBuilder)
        ensures
            r == (ListPlayersBuilder { tag: None, country: None, team: None, sort: None }),
    {
        ListPlayersBuilder { tag: None, country: None, team: None, sort: None }
    }
}

/// Builder for the [`ListPlayers`] endpoint.
#[derive(Debug, Clone)]
pub struct ListPlayersBuilder {
    /// A portion of the player tag. Example: `"Kro"`.
    pub tag: Option<String>,
    /// A 2-letter country code. Example: `"us"`.
    pub country: Option<String>,
    /// A team ID. Example: `"6020bc70f1e4807cc70023c7"`.
    pub team: Option<TeamId>,
    /// Sorting method for results.
    pub sort: Option<(PlayersSorting, Direction)>,
}

impl ListPlayersBuilder {
    /// A portion of the player tag. Example: `"Kro"`.
    pub fn tag(self, value: String) -> (r: Self)
        ensures
            r == (ListPlayersBuilder { tag: Some(value), ..self }),
    {
        ListPlayersBuilder { tag: Some(value), ..self }
    }

    /// A 2-letter country code. Example: `"us"`.
    pub fn country(self, value: String) -> (r: Self)
        ensures
            r == (ListPlayersBuilder { country: Some(value), ..self }),
    {
        ListPlayersBuilder { country: Some(value), ..self }
    }

    /// A team ID. Example: `"6020bc70f1e4807cc70023c7"`.
    pub fn team(self, value: TeamId) -> (r: Self)
        ensures
            r == (ListPlayersBuilder { team: Some(value), ..self }),
    {
        ListPlayersBuilder { team: Some(value), ..self }
    }

    /// Sorting method for results. Takes a field to sort by and a sort
    /// direction.
    pub fn sort(self, value: PlayersSorting, direction: Direction) -> (r: Self)
        ensures
            r == (ListPlayersBuilder { sort: Some((value, direction)), ..self }),
    {
        ListPlayersBuilder { sort: Some((value, direction)), ..self }
    }

    /// Builds the descriptor; every field is optional, so this always
    /// succeeds.
    pub fn build(self) -> (r: Result<ListPlayers, BuilderError>)
        ensures
            r matches Ok(l) && l == (ListPlayers { tag: self.tag, country: self.country, team: self.team, sort: self.sort }),
    {
        Ok(ListPlayers { tag: self.tag, country: self.country, team: self.team, sort: self.sort })
    }
}

impl ListPlayers {
    /// One group of this descriptor's optional query parameters, in field
    /// order.
    pub open spec fn params_part_a(&self) -> Seq<(Seq<char>, Seq<char>)> {
        opt_param("tag"@, opt_str(self.tag))
            + opt_param("country"@, opt_str(self.country))
            + opt_param("team"@, opt_wire(self.team, |v: TeamId| v@))
    }

    #[verifier::rlimit(100)]
    fn push_params_a(&self, q: &mut QueryParams)
        ensures
            final(q)@ == old(q)@ + self.params_part_a(),
    {
        let ghost g0 = q@;
        if let Some(v) = &self.tag {
            q.push("tag", v.clone());
        }
        proof {
            assert(q@ =~= g0 + opt_param("tag"@, opt_str(self.tag)));
        }
        let ghost g1 = q@;
        if let Some(v) = &self.country {
            q.push("country", v.clone());
        }
        proof {
            assert(q@ =~= g1 + opt_param("country"@, opt_str(self.country)));
        }
        let ghost g2 = q@;
        if let Some(v) = &self.team {
            q.push("team", v.as_str().to_owned());
        }
        proof {
            assert(q@ =~= g2 + opt_param("team"@, opt_wire(self.team, |v: TeamId| v@)));
        }
        proof {
            assert(q@ =~= old(q)@ + self.params_part_a());
        }
    }

    /// One group of this descriptor's optional query parameters, in field
    /// order.
    pub open spec fn params_part_b(&self) -> Seq<(Seq<char>, Seq<char>)> {
        opt_param("sort"@, opt_sort(self.sort, |s: PlayersSorting| s.wire_str()))
    }

    #[verifier::rlimit(100)]
    fn push_params_b(&self, q: &mut QueryParams)
        ensures
            final(q)@ == old(q)@ + self.params_part_b(),
    {
        let ghost g0 = q@;
        if let Some(s) = &self.sort {
            q.push("sort", sort_param(s.0.as_str(), s.1));
        }
        proof {
            assert(q@ =~= g0 + opt_param("sort"@, opt_sort(self.sort, |s: PlayersSorting| s.wire_str())));
        }
        proof {
            assert(q@ =~= old(q)@ + self.params_part_b());
        }
    }
}

impl Endpoint for ListPlayers {
    open spec fn path_spec(&self) -> Seq<char> {
        "players"@
    }

    open spec fn params_spec(&self) -> Seq<(Seq<char>, Seq<char>)> {
        self.params_part_a() + self.params_part_b()
    }

    open spec fn method_spec(&self) -> Method {
        Method::Get
    }

    open spec fn params_ok(&self) -> bool {
        true
    }

    open spec fn body_spec(&self) -> Option<(Seq<char>, Seq<u8>)> {
        Option::None
    }

    open spec fn body_ok(&self) -> bool {
        true
    }

    fn method(&self) -> (r: Method) {
        Method::Get
    }

    fn body(&self) -> (r: Result<Option<(String, Vec<u8>)>, BodyError>) {
        Ok(None)
    }

    fn endpoint(&self) -> (r: String) {
        "players".to_owned()
    }

    fn query_parameters(&self) -> (r: Result<QueryParams, BodyError>) {
        let mut q = QueryParams::new();
        self.push_params_a(&mut q);
        self.push_params_b(&mut q);
        proof {
            assert(q@ =~= self.params_spec());
        }
        Ok(q)
    }
}

impl Pageable for ListPlayers {

}

} // verus!
