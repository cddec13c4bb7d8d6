use rs_pixel_backend::handlers::{
    after_lookup, boosters, counts, guild, key, leaderboards, player, punishment_stats,
    recent_games, skyblock_auction, skyblock_auctions, skyblock_auctions_ended, skyblock_bazaar,
    skyblock_bingo, skyblock_fire_sales, skyblock_news, skyblock_profile, skyblock_profiles,
    status, AliasFetch, Capability, HandlerStep,
};
use rs_pixel_backend::query::{
    AuctionQuery, GuildQuery, PlayerQuery, RecentGamesQuery, SkyblockAuctionQuery,
    SkyblockBingoQuery, SkyblockProfileQuery, SkyblockProfilesQuery, StatusQuery,
};
use rs_pixel_backend::response::{complete, Reply, WebError};

fn some(s: &str) -> Option<String> {
    Some(s.to_string())
}

#[test]
fn player_empty_query_lists_accepted_fields() {
    let r = player(&PlayerQuery { username: None, uuid: None });
    assert_eq!(
        r,
        HandlerStep::Reject("Missing one or more fields [username, uuid]".to_string())
    );
}

#[test]
fn status_empty_query_lists_accepted_fields() {
    let r = status(&StatusQuery { username: None, uuid: None });
    assert_eq!(
        r,
        HandlerStep::Reject("Missing one or more fields [username, uuid]".to_string())
    );
}

#[test]
fn recent_games_empty_query_lists_accepted_fields() {
    let r = recent_games(&RecentGamesQuery { username: None, uuid: None });
    assert_eq!(
        r,
        HandlerStep::Reject("Missing one or more fields [username, uuid]".to_string())
    );
}

#[test]
fn skyblock_profiles_empty_query_lists_accepted_fields() {
    let r = skyblock_profiles(&SkyblockProfilesQuery { username: None, uuid: None });
    assert_eq!(
        r,
        HandlerStep::Reject("Missing one or more fields [username, uuid]".to_string())
    );
}

#[test]
fn skyblock_bingo_empty_query_lists_accepted_fields() {
    let r = skyblock_bingo(&SkyblockBingoQuery { username: None, uuid: None });
    assert_eq!(
        r,
        HandlerStep::Reject("Missing one or more fields [username, uuid]".to_string())
    );
}

#[test]
fn guild_empty_query_lists_accepted_fields() {
    let r = guild(&GuildQuery { id: None, name: None, player: None, username: None });
    assert_eq!(
        r,
        HandlerStep::Reject("Missing one or more fields [id, name, player, username]".to_string())
    );
}

#[test]
fn skyblock_profile_empty_query_lists_accepted_fields() {
    let r = skyblock_profile(&SkyblockProfileQuery { profile: None });
    assert_eq!(
        r,
        HandlerStep::Reject("Missing one or more fields [profile]".to_string())
    );
}

#[test]
fn skyblock_auction_empty_query_lists_accepted_fields() {
    let r = skyblock_auction(&AuctionQuery {
        player: None,
        uuid: None,
        profile: None,
        username: None,
    });
    assert_eq!(
        r,
        HandlerStep::Reject(
            "Missing one or more fields [player, uuid, profile, username]".to_string()
        )
    );
}

#[test]
fn player_uuid_is_taken_directly() {
    let r = player(&PlayerQuery { username: None, uuid: some("abc123") });
    assert_eq!(r, HandlerStep::Call(Capability::Player("abc123".to_string())));
}

#[test]
fn player_uuid_beside_alias_needs_no_lookup() {
    let r = player(&PlayerQuery { username: some("steve"), uuid: some("abc123") });
    assert_eq!(r, HandlerStep::Call(Capability::Player("abc123".to_string())));
}

#[test]
fn player_alias_alone_asks_for_one_lookup() {
    let r = player(&PlayerQuery { username: some("steve"), uuid: None });
    assert_eq!(
        r,
        HandlerStep::Lookup("steve".to_string(), AliasFetch::Player)
    );
}

#[test]
fn player_fetch_passes_payload_through() {
    let r = player(&PlayerQuery { username: None, uuid: some("abc123") });
    assert_eq!(r, HandlerStep::Call(Capability::Player("abc123".to_string())));
    let reply = complete(Ok("{\"player\":{}}".to_string()));
    assert_eq!(reply, Reply::Success("{\"player\":{}}".to_string()));
    assert_eq!(reply.status(), 200);
}

#[test]
fn guild_priority_id_over_all() {
    let r = guild(&GuildQuery {
        id: some("g1"),
        name: some("The Guild"),
        player: some("p1"),
        username: some("steve"),
    });
    assert_eq!(r, HandlerStep::Call(Capability::GuildById("g1".to_string())));
}

#[test]
fn guild_priority_name_over_player() {
    let r = guild(&GuildQuery {
        id: None,
        name: some("The Guild"),
        player: some("p1"),
        username: some("steve"),
    });
    assert_eq!(r, HandlerStep::Call(Capability::GuildByName("The Guild".to_string())));
}

#[test]
fn guild_priority_player_over_alias() {
    let r = guild(&GuildQuery {
        id: None,
        name: None,
        player: some("p1"),
        username: some("steve"),
    });
    assert_eq!(r, HandlerStep::Call(Capability::GuildByPlayer("p1".to_string())));
}

#[test]
fn guild_alias_alone_asks_for_one_lookup() {
    let r = guild(&GuildQuery { id: None, name: None, player: None, username: some("steve") });
    assert_eq!(
        r,
        HandlerStep::Lookup("steve".to_string(), AliasFetch::GuildByPlayer)
    );
}

#[test]
fn skyblock_auction_priority_player_over_all() {
    let r = skyblock_auction(&AuctionQuery {
        player: some("p1"),
        uuid: some("a1"),
        profile: some("pr1"),
        username: some("steve"),
    });
    assert_eq!(
        r,
        HandlerStep::Call(Capability::SkyblockAuctionByPlayer("p1".to_string()))
    );
}

#[test]
fn skyblock_auction_alias_over_uuid_and_profile() {
    let r = skyblock_auction(&AuctionQuery {
        player: None,
        uuid: some("a1"),
        profile: some("pr1"),
        username: some("steve"),
    });
    assert_eq!(
        r,
        HandlerStep::Lookup("steve".to_string(), AliasFetch::SkyblockAuctionByPlayer)
    );
}

#[test]
fn skyblock_auction_uuid_over_profile() {
    let r = skyblock_auction(&AuctionQuery {
        player: None,
        uuid: some("a1"),
        profile: some("pr1"),
        username: None,
    });
    assert_eq!(
        r,
        HandlerStep::Call(Capability::SkyblockAuctionByUuid("a1".to_string()))
    );
}

#[test]
fn skyblock_auction_profile_last() {
    let r = skyblock_auction(&AuctionQuery {
        player: None,
        uuid: None,
        profile: some("pr1"),
        username: None,
    });
    assert_eq!(
        r,
        HandlerStep::Call(Capability::SkyblockAuctionByProfile("pr1".to_string()))
    );
}

#[test]
fn skyblock_profile_is_taken_directly() {
    let r = skyblock_profile(&SkyblockProfileQuery { profile: some("pr1") });
    assert_eq!(r, HandlerStep::Call(Capability::SkyblockProfile("pr1".to_string())));
}

#[test]
fn auctions_page_defaults_to_zero() {
    let r = skyblock_auctions(&SkyblockAuctionQuery { page: None });
    assert_eq!(r, HandlerStep::Call(Capability::SkyblockAuctions(0)));
}

#[test]
fn auctions_page_is_passed_through() {
    let r = skyblock_auctions(&SkyblockAuctionQuery { page: Some(2) });
    assert_eq!(r, HandlerStep::Call(Capability::SkyblockAuctions(2)));
}

#[test]
fn after_lookup_continues_with_resolved_id() {
    let r = after_lookup(AliasFetch::Player, Ok("abc123".to_string()));
    assert_eq!(r, Ok(Capability::Player("abc123".to_string())));
    let r = after_lookup(AliasFetch::GuildByPlayer, Ok("abc123".to_string()));
    assert_eq!(r, Ok(Capability::GuildByPlayer("abc123".to_string())));
    let r = after_lookup(AliasFetch::SkyblockAuctionByPlayer, Ok("abc123".to_string()));
    assert_eq!(r, Ok(Capability::SkyblockAuctionByPlayer("abc123".to_string())));
}

#[test]
fn after_lookup_propagates_failure_verbatim() {
    let r = after_lookup(AliasFetch::Status, Err("Invalid username".to_string()));
    assert_eq!(r, Err("Invalid username".to_string()));
    let reply = complete(Err("Invalid username".to_string()));
    assert_eq!(
        reply,
        Reply::Failure(WebError { success: false, cause: "Invalid username".to_string() })
    );
    assert_eq!(reply.status(), 400);
}

#[test]
fn no_identity_families_name_their_capability() {
    assert_eq!(key(), HandlerStep::Call(Capability::Key));
    assert_eq!(boosters(), HandlerStep::Call(Capability::Boosters));
    assert_eq!(leaderboards(), HandlerStep::Call(Capability::Leaderboards));
    assert_eq!(punishment_stats(), HandlerStep::Call(Capability::PunishmentStats));
    assert_eq!(counts(), HandlerStep::Call(Capability::Counts));
    assert_eq!(skyblock_news(), HandlerStep::Call(Capability::SkyblockNews));
    assert_eq!(
        skyblock_auctions_ended(),
        HandlerStep::Call(Capability::SkyblockAuctionsEnded)
    );
    assert_eq!(skyblock_bazaar(), HandlerStep::Call(Capability::SkyblockBazaar));
    assert_eq!(skyblock_fire_sales(), HandlerStep::Call(Capability::SkyblockFireSales));
}
