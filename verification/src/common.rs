//! Shared wire-level types: the collection envelope, pagination metadata,
//! and the enumerated field values with their fixed wire tokens.

use vstd::prelude::*;

verus! {

/// Pagination metadata asserted by the server as part of every page response.
#[derive(Debug, Clone, Copy, PartialEq, Eq, Structural, Default)]
pub struct Pagination {
    /// Current page in the result set
    pub page: usize,
    /// Requested number of records per page
    pub per_page: usize,
    /// Number of records returned in this page
    pub page_size: usize,
}

/// The root type returned by queries against a collection endpoint: a sequence
/// of items plus pagination metadata when the endpoint paginates.
#[derive(Debug, Clone)]
pub struct Collection<T> {
    /// The inner collection
    pub inner: Vec<T>,
    /// Pagination metadata, if present
    pub pagination: Option<Pagination>,
}

impl<T> Collection<T> {
    /// Consumes the [`Collection`] returning the wrapped value.
    pub fn into_inner(self) -> (r: Vec<T>)
        ensures
            r == self.inner,
    {
        self.inner
    }
}

/// Event tier
#[derive(Debug, Clone, Copy, PartialEq, Eq, Structural)]
pub enum Tier {
    S,
    A,
    B,
    C,
    D,
    Monthly,
    Weekly,
    ShowMatch,
    Qualifier,
}

impl Tier {
    /// The token this tier writes into a query parameter value.
    pub open spec fn wire_str(self) -> Seq<char> {
        match self {
            Tier::S => "S"@,
            Tier::A => "A"@,
            Tier::B => "B"@,
            Tier::C => "C"@,
            Tier::D => "D"@,
            Tier::Monthly => "Monthly"@,
            Tier::Weekly => "Weekly"@,
            Tier::ShowMatch => "Show Match"@,
            Tier::Qualifier => "Qualifier"@,
        }
    }

    /// The wire token for this tier.
    pub fn as_str(&self) -> (r: &'static str)
        ensures
            r@ == self.wire_str(),
    {
        match self {
            Tier::S => "S",
            Tier::A => "A",
            Tier::B => "B",
            Tier::C => "C",
            Tier::D => "D",
            Tier::Monthly => "Monthly",
            Tier::Weekly => "Weekly",
            Tier::ShowMatch => "Show Match",
            Tier::Qualifier => "Qualifier",
        }
    }
}

/// Event region
#[derive(Debug, Clone, Copy, PartialEq, Eq, Structural)]
pub enum Region {
    NorthAmerica,
    Europe,
    Oceania,
    SouthAmerica,
    Asia,
    MiddleEast,
    International,
    Africa,
}

impl Region {
    /// The token this region writes into a query parameter value.
    pub open spec fn wire_str(self) -> Seq<char> {
        match self {
            Region::NorthAmerica => "NA"@,
            Region::Europe => "EU"@,
            Region::Oceania => "OCE"@,
            Region::SouthAmerica => "SAM"@,
            Region::Asia => "ASIA"@,
            Region::MiddleEast => "ME"@,
            Region::International => "INT"@,
            Region::Africa => "AF"@,
        }
    }

    /// The wire token for this region.
    pub fn as_str(&self) -> (r: &'static str)
        ensures
            r@ == self.wire_str(),
    {
        match self {
            Region::NorthAmerica => "NA",
            Region::Europe => "EU",
            Region::Oceania => "OCE",
            Region::SouthAmerica => "SAM",
            Region::Asia => "ASIA",
            Region::MiddleEast => "ME",
            Region::International => "INT",
            Region::Africa => "AF",
        }
    }
}

/// Event mode: team size of the event's games. Serialized by its number.
#[derive(Debug, Clone, Copy, PartialEq, Eq, Structural)]
pub enum Mode {
    One,
    Two,
    Three,
}

impl Mode {
    /// The token this mode writes into a query parameter value.
    pub open spec fn wire_str(self) -> Seq<char> {
        match self {
            Mode::One => "1"@,
            Mode::Two => "2"@,
            Mode::Three => "3"@,
        }
    }

    /// The wire token for this mode.
    pub fn as_str(&self) -> (r: &'static str)
        ensures
            r@ == self.wire_str(),
    {
        match self {
            Mode::One => "1",
            Mode::Two => "2",
            Mode::Three => "3",
        }
    }
}

/// Match format: length of the series. Serialized by its number.
#[derive(Debug, Clone, Copy, PartialEq, Eq, Structural)]
pub enum BestOf {
    Three,
    Five,
    Seven,
}

impl BestOf {
    /// The token this format writes into a query parameter value.
    pub open spec fn wire_str(self) -> Seq<char> {
        match self {
            BestOf::Three => "3"@,
            BestOf::Five => "5"@,
            BestOf::Seven => "7"@,
        }
    }

    /// The wire token for this format.
    pub fn as_str(&self) -> (r: &'static str)
        ensures
            r@ == self.wire_str(),
    {
        match self {
            BestOf::Three => "3",
            BestOf::Five => "5",
            BestOf::Seven => "7",
        }
    }
}

/// Sort direction
#[derive(Debug, Clone, Copy, PartialEq, Eq, Structural)]
pub enum Direction {
    /// Ascending
    Asc,
    /// Descending
    Desc,
}

impl Direction {
    /// The token this direction writes into the sort parameter value.
    pub open spec fn wire_str(self) -> Seq<char> {
        match self {
            Direction::Asc => "asc"@,
            Direction::Desc => "desc"@,
        }
    }

    /// The wire token for this direction.
    pub fn as_str(&self) -> (r: &'static str)
        ensures
            r@ == self.wire_str(),
    {
        match self {
            Direction::Asc => "asc",
            Direction::Desc => "desc",
        }
    }
}

} // verus!
