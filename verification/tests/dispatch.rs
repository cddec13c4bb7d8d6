use rs_pixel_backend::handlers::{resources, Capability, HandlerStep};
use rs_pixel_backend::query::ResourcesPath;
use rs_pixel_backend::registry::{
    build_route_table, endpoint_name, endpoint_route, match_path, parse_endpoint, route, Endpoint,
    Routed, ENDPOINT_COUNT,
};
use rs_pixel_backend::resources::{lookup_resource, resource_path, ResourceKind};

const ALL_ENDPOINTS: [Endpoint; 19] = [
    Endpoint::Key,
    Endpoint::Boosters,
    Endpoint::Leaderboards,
    Endpoint::PunishmentStats,
    Endpoint::Player,
    Endpoint::Guild,
    Endpoint::Counts,
    Endpoint::Status,
    Endpoint::RecentGames,
    Endpoint::SkyblockProfiles,
    Endpoint::SkyblockProfile,
    Endpoint::SkyblockBingo,
    Endpoint::SkyblockNews,
    Endpoint::SkyblockAuction,
    Endpoint::SkyblockAuctions,
    Endpoint::SkyblockAuctionsEnded,
    Endpoint::SkyblockBazaar,
    Endpoint::SkyblockFiresales,
    Endpoint::Resources,
];

const ALL_KINDS: [(ResourceKind, &str); 12] = [
    (ResourceKind::Games, "games"),
    (ResourceKind::Achievements, "achievements"),
    (ResourceKind::Challenges, "challenges"),
    (ResourceKind::Quests, "quests"),
    (ResourceKind::GuildAchievements, "guild/achievements"),
    (ResourceKind::VanityPets, "vanity/pets"),
    (ResourceKind::VanityCompanions, "vanity/companions"),
    (ResourceKind::SkyblockCollections, "skyblock/collections"),
    (ResourceKind::SkyblockSkills, "skyblock/skills"),
    (ResourceKind::SkyblockItems, "skyblock/items"),
    (ResourceKind::SkyblockElection, "skyblock/election"),
    (ResourceKind::SkyblockBingo, "skyblock/bingo"),
];

fn segments(kind_path: &str) -> ResourcesPath {
    let mut parts = kind_path.splitn(2, '/');
    let resource = parts.next().map(|s| s.to_string());
    let sub_resource = parts.next().map(|s| s.to_string());
    ResourcesPath { resource, sub_resource }
}

#[test]
fn every_catalog_kind_dispatches_exactly() {
    for (kind, kind_path) in ALL_KINDS {
        let r = resources(&segments(kind_path));
        assert_eq!(r, HandlerStep::Call(Capability::Resources(kind)));
        let full = format!("resources/{kind_path}");
        assert_eq!(lookup_resource(&full), Some(kind));
        assert_eq!(resource_path(kind), full);
    }
}

#[test]
fn unknown_resource_is_rejected() {
    let r = resources(&ResourcesPath { resource: Some("gamess".to_string()), sub_resource: None });
    assert_eq!(r, HandlerStep::Reject("Unknown resource provided".to_string()));
    // no prefix match: a known kind with a stray sub-segment matches nothing
    let r = resources(&ResourcesPath {
        resource: Some("games".to_string()),
        sub_resource: Some("extra".to_string()),
    });
    assert_eq!(r, HandlerStep::Reject("Unknown resource provided".to_string()));
    // nor does a known two-segment kind truncated to its first segment
    let r = resources(&ResourcesPath { resource: Some("vanity".to_string()), sub_resource: None });
    assert_eq!(r, HandlerStep::Reject("Unknown resource provided".to_string()));
}

#[test]
fn absent_resource_is_rejected() {
    let r = resources(&ResourcesPath { resource: None, sub_resource: None });
    assert_eq!(r, HandlerStep::Reject("No resource provided".to_string()));
}

#[test]
fn endpoint_names_parse_back() {
    for e in ALL_ENDPOINTS {
        assert_eq!(parse_endpoint(&endpoint_name(e)), Some(e));
    }
    assert_eq!(parse_endpoint(&"SKYBLOCK".to_string()), None);
    assert_eq!(parse_endpoint(&"key".to_string()), None);
}

#[test]
fn route_table_registers_exactly_the_true_flags() {
    let mut flags: Vec<Option<String>> = vec![None; ENDPOINT_COUNT];
    flags[4] = Some("true".to_string()); // PLAYER
    flags[5] = Some("false".to_string()); // GUILD
    let table = build_route_table(&flags).unwrap();
    assert!(table.is_enabled(Endpoint::Player));
    assert!(!table.is_enabled(Endpoint::Guild));
    assert!(!table.is_enabled(Endpoint::Key));
}

#[test]
fn malformed_flag_is_a_fatal_configuration_error() {
    let mut flags: Vec<Option<String>> = vec![None; ENDPOINT_COUNT];
    flags[6] = Some("yes".to_string()); // COUNTS
    let err = build_route_table(&flags).unwrap_err();
    assert_eq!(err.endpoint, Endpoint::Counts);
    assert_eq!(
        err.message(),
        "Unable to parse SERVER.ENDPOINT.COUNTS environment variable"
    );
}

#[test]
fn first_malformed_flag_is_reported() {
    let mut flags: Vec<Option<String>> = vec![None; ENDPOINT_COUNT];
    flags[2] = Some("True".to_string()); // LEADERBOARDS: parsing is exact
    flags[6] = Some("yes".to_string());
    let err = build_route_table(&flags).unwrap_err();
    assert_eq!(err.endpoint, Endpoint::Leaderboards);
}

#[test]
fn enabled_route_is_dispatched() {
    let mut flags: Vec<Option<String>> = vec![None; ENDPOINT_COUNT];
    flags[4] = Some("true".to_string()); // PLAYER
    let table = build_route_table(&flags).unwrap();
    assert_eq!(route(&table, &"/player".to_string()), Routed::To(Endpoint::Player));
}

#[test]
fn disabled_route_falls_through() {
    let mut flags: Vec<Option<String>> = vec![None; ENDPOINT_COUNT];
    flags[5] = Some("false".to_string()); // GUILD: explicitly disabled
    let table = build_route_table(&flags).unwrap();
    // explicitly disabled, absent, and unknown paths all take the fallback
    assert_eq!(route(&table, &"/guild".to_string()), Routed::Fallback);
    assert_eq!(route(&table, &"/player".to_string()), Routed::Fallback);
    assert_eq!(route(&table, &"/nowhere".to_string()), Routed::Fallback);
}

#[test]
fn fully_enabled_table_dispatches_every_route() {
    let flags: Vec<Option<String>> = vec![Some("true".to_string()); ENDPOINT_COUNT];
    let table = build_route_table(&flags).unwrap();
    for e in ALL_ENDPOINTS {
        assert!(table.is_enabled(e));
        assert_eq!(route(&table, &endpoint_route(e)), Routed::To(e));
    }
    assert_eq!(
        route(&table, &"/resources/games".to_string()),
        Routed::To(Endpoint::Resources)
    );
}

#[test]
fn every_route_matches_its_endpoint() {
    for e in ALL_ENDPOINTS {
        assert_eq!(match_path(&endpoint_route(e)), Some(e));
    }
}

#[test]
fn resource_extensions_match_the_resources_route() {
    assert_eq!(match_path(&"/resources".to_string()), Some(Endpoint::Resources));
    assert_eq!(match_path(&"/resources/games".to_string()), Some(Endpoint::Resources));
    assert_eq!(
        match_path(&"/resources/guild/achievements".to_string()),
        Some(Endpoint::Resources)
    );
    assert_eq!(match_path(&"/resourcesx".to_string()), None);
    assert_eq!(match_path(&"/resource".to_string()), None);
}
