//! Endpoints for teams.

use vstd::prelude::*;
use vstd::string::StringExecFns;

use crate::common::Direction;
use crate::endpoint::{Endpoint, Method};
use crate::error::{BodyError, BuilderError};
use crate::pagination::Pageable;
use crate::params::{opt_param, opt_sort, opt_str, sort_param, QueryParams};

verus! {

/// Represents a team id.
#[derive(Debug, Clone, PartialEq, Eq, Hash)]
pub struct TeamId {
    id: String,
}

impl View for TeamId {
    type V = Seq<char>;

    closed spec fn view(&self) -> Seq<char> {
        self.id@
    }
}

impl TeamId {
    /// Create a new [`TeamId`].
    pub fn new(id: String) -> (r: Self)
        ensures
            r@ == id@,
    {
        TeamId { id }
    }

    /// The id as text.
    pub fn as_str(&self) -> (r: &str)
        ensures
            r@ == self@,
    {
        self.id.as_str()
    }
}

/// `GET` a single team by its [`TeamId`].
#[derive(Debug, Clone)]
pub struct Team {
    /// A team ID. Example: `"6020bc70f1e4807cc70023c7"`.
    pub id: TeamId,
}

impl Team {
    /// Create a builder for this endpoint.
    pub fn builder() -> (r: TeamBuilder)
        ensures
            r == (TeamBuilder { id: None }),
    {
        TeamBuilder { id: None }
    }
}

/// Builder for the [`Team`] endpoint.
#[derive(Debug, Clone)]
pub struct TeamBuilder {
    /// A team ID. Example: `"6020bc70f1e4807cc70023c7"`.
    pub id: Option<TeamId>,
}

impl TeamBuilder {
    /// A team ID. Example: `"6020bc70f1e4807cc70023c7"`.
    pub fn id(self, id: TeamId) -> (r: Self)
        ensures
            r == (TeamBuilder { id: Some(id) }),
    {
        TeamBuilder { id: Some(id) }
    }

    /// Builds the descriptor; fails exactly when no id was set.
    pub fn build(self) -> (r: Result<Team, BuilderError>)
        ensures
            self.id matches Some(id) ==> (r matches Ok(e) && e == (Team { id })),
            r is Err <==> self.id is None,
    {
        match self.id {
            Some(id) => Ok(Team { id }),
            None => Err(BuilderError { field: "id".to_owned() }),
        }
    }
}

impl Endpoint for Team {
    open spec fn path_spec(&self) -> Seq<char> {
        "teams/"@ + self.id@
    }

    open spec fn params_spec(&self) -> Seq<(Seq<char>, Seq<char>)> {
        Seq::empty()
    }

    open spec fn method_spec(&self) -> Method {
        Method::Get
    }

    open spec fn params_ok(&self) -> bool {
        true
    }

    open spec fn body_spec(&self) -> Option<(Seq<char>, Seq<u8>)> {
        Option::None
    }

    open spec fn body_ok(&self) -> bool {
        true
    }

    fn method(&self) -> (r: Method) {
        Method::Get
    }

    fn body(&self) -> (r: Result<Option<(String, Vec<u8>)>, BodyError>) {
        Ok(None)
    }

    fn endpoint(&self) -> (r: String) {
        "teams/".to_owned().concat(self.id.as_str())
    }

    fn query_parameters(&self) -> (r: Result<QueryParams, BodyError>) {
        Ok(QueryParams::new())
    }
}

/// Field to sort teams by.
#[derive(Debug, Clone, Copy, PartialEq, Eq, Structural)]
pub enum TeamsSorting {
    /// Sort by `name`
    Name,
}

impl TeamsSorting {
    /// The wire field name this sorting writes into the sort parameter.
    pub open spec fn wire_str(self) -> Seq<char> {
        match self {
            TeamsSorting::Name => "name"@,
        }
    }

    /// The wire field name for this sorting.
    pub fn as_str(&self) -> (r: &'static str)
        ensures
            r@ == self.wire_str(),
    {
        match self {
            TeamsSorting::Name => "name",
        }
    }
}

/// `GET` a list of all teams.
#[derive(Debug, Clone)]
pub struct ListTeams {
    /// A portion of the team name. Example: `"Flip"`.
    pub name: Option<String>,
    /// Sorting method for results.
    pub sort: Option<(TeamsSorting, Direction)>,
}

impl ListTeams {
    /// Create a builder for this endpoint.
    pub fn builder() -> (r: ListTeamsBuilder)
        ensures
            r == (ListTeamsBuilder { name: None, sort: None }),
    {
        ListTeamsBuilder { name: None, sort: None }
    }
}

/// Builder for the [`ListTeams`] endpoint.
#[derive(Debug, Clone)]
pub struct ListTeamsBuilder {
    /// A portion of the team name. Example: `"Flip"`.
    pub name: Option<String>,
    /// Sorting method for results.
    pub sort: Option<(TeamsSorting, Direction)>,
}

impl ListTeamsBuilder {
    /// A portion of the team name. Example: `"Flip"`.
    pub fn name(self, value: String) -> (r: Self)
        ensures
            r == (ListTeamsBuilder { name: Some(value), ..self }),
    {
        ListTeamsBuilder { name: Some(value), ..self }
    }

    /// Sorting method for results. Takes a field to sort by and a sort
    /// direction.
    pub fn sort(self, value: TeamsSorting, direction: Direction) -> (r: Self)
        ensures
            r == (ListTeamsBuilder { sort: Some((value, direction)), ..self }),
    {
        ListTeamsBuilder { sort: Some((value, direction)), ..self }
    }

    /// Builds the descriptor; every field is optional, so this always
    /// succeeds.
    pub fn build(self) -> (r: Result<ListTeams, BuilderError>)
        ensures
            r matches Ok(l) && l == (ListTeams { name: self.name, sort: self.sort }),
    {
        Ok(ListTeams { name: self.name, sort: self.sort })
    }
}

impl ListTeams {
    /// One group of this descriptor's optional query parameters, in field
    /// order.
    pub open spec fn params_part_a(&self) -> Seq<(Seq<char>, Seq<char>)> {
        opt_param("name"@, opt_str(self.name))
            + opt_param("sort"@, opt_sort(self.sort, |s: TeamsSorting| s.wire_str()))
    }

    #[verifier::rlimit(100)]
    fn push_params_a(&self, q: &mut QueryParams)
        ensures
            final(q)@ == old(q)@ + self.params_part_a(),
    {
        let ghost g0 = q@;
        if let Some(v) = &self.name {
            q.push("name", v.clone());
        }
        proof {
            assert(q@ =~= g0 + opt_param("name"@, opt_str(self.name)));
        }
        let ghost g1 = q@;
        if let Some(s) = &self.sort {
            q.push("sort", sort_param(s.0.as_str(), s.1));
        }
        proof {
            assert(q@ =~= g1 + opt_param("sort"@, opt_sort(self.sort, |s: TeamsSorting| s.wire_str())));
        }
        proof {
            assert(q@ =~= old(q)@ + self.params_part_a());
        }
    }
}

impl Endpoint for ListTeams {
    open spec fn path_spec(&self) -> Seq<char> {
        "teams"@
    }

    open spec fn params_spec(&self) -> Seq<(Seq<char>, Seq<char>)> {
        self.params_part_a()
    }

    open spec fn method_spec(&self) -> Method {
        Method::Get
    }

    open spec fn params_ok(&self) -> bool {
        true
    }

    open spec fn body_spec(&self) -> Option<(Seq<char>, Seq<u8>)> {
        Option::None
    }

    open spec fn body_ok(&self) -> bool {
        true
    }

    fn method(&self) -> (r: Method) {
        Method::Get
    }

    fn body(&self) -> (r: Result<Option<(String, Vec<u8>)>, BodyError>) {
        Ok(None)
    }

    fn endpoint(&self) -> (r: String) {
        "teams".to_owned()
    }

    fn query_parameters(&self) -> (r: Result<QueryParams, BodyError>) {
        let mut q = QueryParams::new();
        self.push_params_a(&mut q);
        proof {
            assert(q@ =~= self.params_spec());
        }
        Ok(q)
    }
}

impl Pageable for ListTeams {

}

/// `GET` a list of active teams.
#[derive(Debug, Clone)]
pub struct ListActiveTeams {

}

impl ListActiveTeams {
    /// Create a builder for this endpoint.
    pub fn builder() -> (r: ListActiveTeamsBuilder)
        ensures
            r == (ListActiveTeamsBuilder {  }),
    {
        ListActiveTeamsBuilder {  }
    }
}

/// Builder for the [`ListActiveTeams`] endpoint.
#[derive(Debug, Clone)]
pub struct ListActiveTeamsBuilder {

}

impl ListActiveTeamsBuilder {


    /// Builds the descriptor; every field is optional, so this always
    /// succeeds.
    pub fn build(self) -> (r: Result<ListActiveTeams, BuilderError>)
        ensures
            r matches Ok(l) && l == (ListActiveTeams {  }),
    {
        Ok(ListActiveTeams {  })
    }
}

impl Endpoint for ListActiveTeams {
    open spec fn path_spec(&self) -> Seq<char> {
        "teams/active"@
    }

    open spec fn params_spec(&self) -> Seq<(Seq<char>, Seq<char>)> {
        Seq::empty()
    }

    open spec fn method_spec(&self) -> Method {
        Method::Get
    }

    open spec fn params_ok(&self) -> bool {
        true
    }

    open spec fn body_spec(&self) -> Option<(Seq<char>, Seq<u8>)> {
        Option::None
    }

    open spec fn body_ok(&self) -> bool {
        true
    }

    fn method(&self) -> (r: Method) {
        Method::Get
    }

    fn body(&self) -> (r: Result<Option<(String, Vec<u8>)>, BodyError>) {
        Ok(None)
    }

    fn endpoint(&self) -> (r: String) {
        "teams/active".to_owned()
    }

    fn query_parameters(&self) -> (r: Result<QueryParams, BodyError>) {
        let mut q = QueryParams::new();
        proof {
            assert(q@ =~= self.params_spec());
        }
        Ok(q)
    }
}

} // verus!
