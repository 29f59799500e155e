//! Descriptor paths, builders, and the exact query strings they encode.

use octanezsr_api::common::{BestOf, Direction, Mode, Region, Tier};
use octanezsr_api::datetime::DateTime;
use octanezsr_api::endpoint::{Endpoint, Method};
use octanezsr_api::events::{Event, EventId, EventMatches, EventParticipants, EventSorting,
    ListEvents};
use octanezsr_api::games::{Game, GameId, GamesSorting, ListGames};
use octanezsr_api::matches::{ListMatches, Match, MatchGames, MatchId, MatchesSorting};
use octanezsr_api::params::encode_query_suffix;
use octanezsr_api::players::{ListPlayers, Player, PlayerId, PlayersSorting};
use octanezsr_api::records::{AggregationType, PlayerRecords, SeriesRecords, TeamRecords};
use octanezsr_api::stages::StageId;
use octanezsr_api::stats::{PlayerStats, TeamStats};
use octanezsr_api::teams::{ListActiveTeams, ListTeams, Team, TeamId, TeamsSorting};

fn suffix<E: Endpoint>(e: &E) -> String {
    encode_query_suffix(&e.query_parameters().unwrap())
}

#[test]
fn single_item_paths() {
    let e = Event::builder()
        .id(EventId::new(String::from("5f35882d53fbbb5894b43040")))
        .build()
        .unwrap();
    assert_eq!(e.endpoint(), "events/5f35882d53fbbb5894b43040");
    assert_eq!(e.method(), Method::Get);
    assert_eq!(suffix(&e), "");

    let g = Game::builder()
        .id(GameId::new(String::from("6082fb4c0d9dcf9da5a4d2ea")))
        .build()
        .unwrap();
    assert_eq!(g.endpoint(), "games/6082fb4c0d9dcf9da5a4d2ea");

    let m = Match::builder()
        .id(MatchId::new(String::from("6043152fa09e7fba40d2ae62")))
        .build()
        .unwrap();
    assert_eq!(m.endpoint(), "matches/6043152fa09e7fba40d2ae62");

    let p = Player::builder()
        .id(PlayerId::new(String::from("5f3d8fdd95f40596eae23d97")))
        .build()
        .unwrap();
    assert_eq!(p.endpoint(), "players/5f3d8fdd95f40596eae23d97");

    let t = Team::builder()
        .id(TeamId::new(String::from("6020bc70f1e4807cc70023c7")))
        .build()
        .unwrap();
    assert_eq!(t.endpoint(), "teams/6020bc70f1e4807cc70023c7");
}

#[test]
fn nested_paths() {
    let id = EventId::new(String::from("5f35882d53fbbb5894b43040"));
    let m = EventMatches::builder().id(id.clone()).build().unwrap();
    assert_eq!(m.endpoint(), "events/5f35882d53fbbb5894b43040/matches");
    let p = EventParticipants::builder().id(id).build().unwrap();
    assert_eq!(p.endpoint(), "events/5f35882d53fbbb5894b43040/participants");
    let g = MatchGames::builder()
        .id(MatchId::new(String::from("6043152fa09e7fba40d2ae62")))
        .build()
        .unwrap();
    assert_eq!(g.endpoint(), "matches/6043152fa09e7fba40d2ae62/games");
}

#[test]
fn missing_required_id_fails_build() {
    let r = Event::builder().build();
    assert!(r.is_err());
    assert_eq!(r.unwrap_err().field, "id");
}

#[test]
fn list_paths_have_no_leading_slash() {
    assert_eq!(ListEvents::builder().build().unwrap().endpoint(), "events");
    assert_eq!(ListGames::builder().build().unwrap().endpoint(), "games");
    assert_eq!(ListMatches::builder().build().unwrap().endpoint(), "matches");
    assert_eq!(ListPlayers::builder().build().unwrap().endpoint(), "players");
    assert_eq!(ListTeams::builder().build().unwrap().endpoint(), "teams");
    assert_eq!(
        ListActiveTeams::builder().build().unwrap().endpoint(),
        "teams/active"
    );
}

#[test]
fn list_events_full_query() {
    let e = ListEvents::builder()
        .name(String::from("RLCS"))
        .tier(Tier::S)
        .region(Region::NorthAmerica)
        .mode(Mode::Three)
        .group(String::from("rlcsx"))
        .before(DateTime::new(2016, 12, 3, 0, 0, 0))
        .after(DateTime::new(2016, 1, 1, 0, 0, 0))
        .date(DateTime::new(2016, 6, 1, 0, 0, 0))
        .sort(EventSorting::Tier, Direction::Desc)
        .build()
        .unwrap();
    assert_eq!(
        suffix(&e),
        "?name=RLCS&tier=S&region=NA&mode=3&group=rlcsx\
         &before=2016-12-03T00%3A00%3A00Z&after=2016-01-01T00%3A00%3A00Z\
         &date=2016-06-01T00%3A00%3A00Z&sort=tier%3Adesc"
    );
}

#[test]
fn absent_fields_write_no_parameter() {
    let e = ListEvents::builder().tier(Tier::A).build().unwrap();
    assert_eq!(suffix(&e), "?tier=A");
    let e = ListEvents::builder().build().unwrap();
    assert_eq!(suffix(&e), "");
}

#[test]
fn list_games_query_uses_wire_names() {
    let g = ListGames::builder()
        .event(EventId::new(String::from("abc")))
        .stage(StageId::new(1))
        .match_id(MatchId::new(String::from("m1")))
        .qualifier(true)
        .best_of(BestOf::Five)
        .sort(GamesSorting::Date, Direction::Asc)
        .build()
        .unwrap();
    assert_eq!(
        suffix(&g),
        "?event=abc&stage=1&match=m1&qualifier=true&bestOf=5&sort=date%3Aasc"
    );
}

#[test]
fn list_matches_reverse_sweep_parameters() {
    let m = ListMatches::builder()
        .reverse_sweep(true)
        .reverse_sweep_attempt(false)
        .sort(MatchesSorting::Date, Direction::Desc)
        .build()
        .unwrap();
    assert_eq!(
        suffix(&m),
        "?reverseSweep=true&reverseSweepAttempt=false&sort=date%3Adesc"
    );
}

#[test]
fn list_players_query() {
    let p = ListPlayers::builder()
        .tag(String::from("Kro"))
        .country(String::from("us"))
        .team(TeamId::new(String::from("6020bc70f1e4807cc70023c7")))
        .sort(PlayersSorting::Tag, Direction::Asc)
        .build()
        .unwrap();
    assert_eq!(
        suffix(&p),
        "?tag=Kro&country=us&team=6020bc70f1e4807cc70023c7&sort=tag%3Aasc"
    );
}

#[test]
fn list_teams_query() {
    let t = ListTeams::builder()
        .name(String::from("Flip"))
        .sort(TeamsSorting::Name, Direction::Asc)
        .build()
        .unwrap();
    assert_eq!(suffix(&t), "?name=Flip&sort=name%3Aasc");
}

#[test]
fn player_records_requires_type_and_stat() {
    let r = PlayerRecords::builder().build();
    assert_eq!(r.unwrap_err().field, "aggregation_type");
    let r = PlayerRecords::builder()
        .aggregation_type(AggregationType::Game)
        .build();
    assert_eq!(r.unwrap_err().field, "stat");
    let r = PlayerRecords::builder()
        .aggregation_type(AggregationType::Game)
        .stat(String::from("score"))
        .build()
        .unwrap();
    assert_eq!(r.endpoint(), "records/players");
    assert_eq!(suffix(&r), "?type=game&stat=score");
}

#[test]
fn team_records_query() {
    let r = TeamRecords::builder()
        .aggregation_type(AggregationType::Series)
        .stat(String::from("goals"))
        .winner(true)
        .build()
        .unwrap();
    assert_eq!(r.endpoint(), "records/teams");
    assert_eq!(suffix(&r), "?type=series&stat=goals&winner=true");
}

#[test]
fn series_records_all_fields_optional() {
    let r = SeriesRecords::builder().build().unwrap();
    assert_eq!(r.endpoint(), "records/series");
    assert_eq!(suffix(&r), "");
}

#[test]
fn player_stats_query() {
    let s = PlayerStats::builder()
        .stat(String::from("score"))
        .nationality(String::from("us"))
        .build()
        .unwrap();
    assert_eq!(s.endpoint(), "stats/players");
    assert_eq!(suffix(&s), "?stat=score&nationality=us");
}

#[test]
fn team_stats_query() {
    let s = TeamStats::builder()
        .stat(String::from("score"))
        .winner(true)
        .build()
        .unwrap();
    assert_eq!(s.endpoint(), "stats/teams");
    assert_eq!(suffix(&s), "?stat=score&winner=true");
}

#[test]
fn sorting_tokens() {
    assert_eq!(EventSorting::Group.as_str(), "group");
    assert_eq!(GamesSorting::BestOf.as_str(), "bestOf");
    assert_eq!(MatchesSorting::ReverseSweep.as_str(), "reverseSweep");
    assert_eq!(
        MatchesSorting::ReverseSweepAttempt.as_str(),
        "reverseSweepAttempt"
    );
    assert_eq!(PlayersSorting::Country.as_str(), "country");
    assert_eq!(TeamsSorting::Name.as_str(), "name");
}

#[test]
fn ids_keep_their_text() {
    assert_eq!(EventId::new(String::from("abc")).as_str(), "abc");
    assert_eq!(StageId::new(7).as_string(), "7");
    assert_eq!(
        octanezsr_api::types::SubstageId::new(12).as_string(),
        "12"
    );
}
