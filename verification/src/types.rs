//! Domain response types with plain fields, and how they are read out of
//! parsed JSON values.

use vstd::prelude::*;
use vstd::string::StringExecFns;

use crate::error::DecodeError;
use crate::games::GameId;
use crate::json::{json_as_bool, json_as_i64, json_as_string, json_get};
use crate::query::Decode;
use crate::strutil::{dec_str, u64_to_string};

verus! {

/// Represents a substage ID.
#[derive(Debug, Clone, Copy, PartialEq, Eq, Structural, Hash)]
pub struct SubstageId {
    id: u32,
}

impl SubstageId {
    /// The numeric id.
    pub closed spec fn id_spec(&self) -> u32 {
        self.id
    }

    /// Create a new [`SubstageId`].
    pub fn new(id: u32) -> (r: Self)
        ensures
            r.id_spec() == id,
    {
        SubstageId { id }
    }

    /// The id rendered in decimal.
    pub fn as_string(&self) -> (r: String)
        ensures
            r@ == dec_str(self.id_spec() as nat),
    {
        u64_to_string(self.id as u64)
    }
}

/// One substage of an event stage.
#[derive(Debug, Clone)]
pub struct Substage {
    /// The substage id.
    pub id: SubstageId,
    /// The substage name.
    pub name: String,
    /// The substage format, if stated.
    pub format: Option<String>,
}

/// Where an event takes place.
#[derive(Debug, Clone)]
pub struct Location {
    /// The venue name.
    pub venue: Option<String>,
    /// The city.
    pub city: Option<String>,
    /// The country.
    pub country: Option<String>,
}

/// Match format as the server reports it.
#[derive(Debug, Clone, Copy, PartialEq, Eq, Structural)]
pub enum Format {
    /// A best-of series of the given length.
    BestOf {
        /// Number of games in the series.
        length: i64,
    },
    /// A fixed set of games of the given length.
    FixedSet {
        /// Number of games in the set.
        length: i64,
    },
}

/// Demolitions inflicted and taken.
#[derive(Debug, Clone, Copy, PartialEq, Eq, Structural)]
pub struct DemoStats {
    /// Demolitions inflicted.
    pub inflicted: i64,
    /// Demolitions taken.
    pub taken: i64,
}

/// A player's platform account.
#[derive(Debug, Clone)]
pub struct Account {
    /// The platform name.
    pub platform: Option<String>,
    /// The platform-specific id.
    pub id: Option<String>,
}

/// The score line of one game.
#[derive(Debug, Clone)]
pub struct GameScore {
    /// The game id, when the server sends one.
    pub id: Option<GameId>,
    /// Goals of the blue side.
    pub blue: i64,
    /// Goals of the orange side.
    pub orange: i64,
    /// Game duration in seconds, if stated.
    pub duration: Option<i64>,
    /// A replay reference, if stated.
    pub ballchasing: Option<String>,
    /// Whether the game went to overtime; absent means no.
    pub overtime: bool,
}

/// The arena a game was played on.
#[derive(Debug, Clone)]
pub struct GameMap {
    /// The map name.
    pub name: Option<String>,
    /// The map id.
    pub id: Option<String>,
}

fn mistyped(kind: &str, key: &str) -> DecodeError {
    DecodeError { message: "field is not ".to_owned().concat(kind).concat(": ").concat(key) }
}

fn opt_string_field(v: &serde_json::Value, key: &str) -> Result<Option<String>, DecodeError> {
    match json_get(v, key) {
        Some(x) => match json_as_string(x) {
            Some(text) => Ok(Some(text)),
            None => Err(mistyped("a string", key)),
        },
        None => Ok(None),
    }
}

fn opt_i64_field(v: &serde_json::Value, key: &str) -> Result<Option<i64>, DecodeError> {
    match json_get(v, key) {
        Some(x) => match json_as_i64(x) {
            Some(n) => Ok(Some(n)),
            None => Err(mistyped("an integer", key)),
        },
        None => Ok(None),
    }
}

fn req_i64_field(v: &serde_json::Value, key: &str) -> Result<i64, DecodeError> {
    match json_get(v, key) {
        Some(x) => match json_as_i64(x) {
            Some(n) => Ok(n),
            None => Err(mistyped("an integer", key)),
        },
        None => Err(DecodeError { message: "missing required field: ".to_owned().concat(key) }),
    }
}

impl Decode for Account {
    /// Reads an account out of a JSON object; both fields are optional, but
    /// a present field of the wrong shape is a decode failure.
    fn decode(v: &serde_json::Value) -> Result<Self, DecodeError> {
        let platform = match opt_string_field(v, "platform") {
            Ok(p) => p,
            Err(e) => return Err(e),
        };
        let id = match opt_string_field(v, "id") {
            Ok(i) => i,
            Err(e) => return Err(e),
        };
        Ok(Account { platform, id })
    }
}

impl Decode for GameScore {
    /// Reads a game score out of a JSON object; the two goal counts are
    /// required and are never defaulted when missing, and a present field of
    /// the wrong shape is a decode failure. A missing `overtime` defaults to
    /// no overtime.
    fn decode(v: &serde_json::Value) -> Result<Self, DecodeError> {
        let blue = match req_i64_field(v, "blue") {
            Ok(n) => n,
            Err(e) => return Err(e),
        };
        let orange = match req_i64_field(v, "orange") {
            Ok(n) => n,
            Err(e) => return Err(e),
        };
        let id = match opt_string_field(v, "_id") {
            Ok(Some(text)) => Some(GameId::new(text)),
            Ok(None) => None,
            Err(e) => return Err(e),
        };
        let duration = match opt_i64_field(v, "duration") {
            Ok(d) => d,
            Err(e) => return Err(e),
        };
        let ballchasing = match opt_string_field(v, "ballchasing") {
            Ok(b) => b,
            Err(e) => return Err(e),
        };
        let overtime = match json_get(v, "overtime") {
            Some(x) => match json_as_bool(x) {
                Some(b) => b,
                None => return Err(mistyped("a boolean", "overtime")),
            },
            None => false,
        };
        Ok(GameScore { id, blue, orange, duration, ballchasing, overtime })
    }
}

} // verus!
