//! One decision function per endpoint family.
//!
//! A handler's own work is pure: it validates the request's fields, picks
//! exactly one identity by the family's fixed priority order, and names the
//! collaborator capability to invoke. The caller performs the named call (an
//! alias lookup first, where one is needed) and hands the outcome back to
//! [`crate::response::complete`].

use vstd::prelude::*;
use crate::query::{
    AuctionQuery, GuildQuery, PlayerQuery, RecentGamesQuery, ResourcesPath, SkyblockAuctionQuery,
    SkyblockBingoQuery, SkyblockProfileQuery, SkyblockProfilesQuery, StatusQuery,
};
use crate::resources::{build_resource_path, built_resource_path, lookup_resource, resource_kind_of, ResourceKind};

verus! {

/// One collaborator capability, keyed by the identity it needs.
#[derive(Debug, Clone, PartialEq, Eq)]
pub enum Capability {
    Key,
    Boosters,
    Leaderboards,
    PunishmentStats,
    Counts,
    SkyblockNews,
    SkyblockAuctionsEnded,
    SkyblockBazaar,
    SkyblockFireSales,
    Player(String),
    GuildById(String),
    GuildByName(String),
    GuildByPlayer(String),
    Status(String),
    RecentGames(String),
    SkyblockProfiles(String),
    SkyblockProfile(String),
    SkyblockBingo(String),
    SkyblockAuctionByPlayer(String),
    SkyblockAuctionByUuid(String),
    SkyblockAuctionByProfile(String),
    SkyblockAuctions(i64),
    Resources(ResourceKind),
}

/// The capability a handler fetches with once an alias has been resolved to a
/// canonical id.
#[derive(Debug, Clone, Copy, PartialEq, Eq, Structural)]
pub enum AliasFetch {
    Player,
    GuildByPlayer,
    Status,
    RecentGames,
    SkyblockProfiles,
    SkyblockBingo,
    SkyblockAuctionByPlayer,
}

/// What a handler decides for one request: call a capability directly, resolve
/// an alias first and then fetch, or reject the request with a fixed cause.
#[derive(Debug, Clone, PartialEq, Eq)]
pub enum HandlerStep {
    Call(Capability),
    Lookup(String, AliasFetch),
    Reject(String),
}

/// The capability an alias fetch stands for, keyed by the resolved id.
pub open spec fn alias_capability(fetch: AliasFetch, id: String) -> Capability {
    match fetch {
        AliasFetch::Player => Capability::Player(id),
        AliasFetch::GuildByPlayer => Capability::GuildByPlayer(id),
        AliasFetch::Status => Capability::Status(id),
        AliasFetch::RecentGames => Capability::RecentGames(id),
        AliasFetch::SkyblockProfiles => Capability::SkyblockProfiles(id),
        AliasFetch::SkyblockBingo => Capability::SkyblockBingo(id),
        AliasFetch::SkyblockAuctionByPlayer => Capability::SkyblockAuctionByPlayer(id),
    }
}

/// Continues a pending alias fetch with the lookup's outcome: a resolved id
/// names the capability to fetch with; the collaborator's failure is
/// propagated verbatim, with no local wrapping and no retry.
pub fn after_lookup(fetch: AliasFetch, looked_up: Result<String, String>) -> (r: Result<
    Capability,
    String,
>)
    ensures
        looked_up matches Ok(id) ==> r == Ok::<Capability, String>(alias_capability(fetch, id)),
        looked_up matches Err(e) ==> r == Err::<Capability, String>(e),
{
    match looked_up {
        Ok(id) => Ok(
            match fetch {
                AliasFetch::Player => Capability::Player(id),
                AliasFetch::GuildByPlayer => Capability::GuildByPlayer(id),
                AliasFetch::Status => Capability::Status(id),
                AliasFetch::RecentGames => Capability::RecentGames(id),
                AliasFetch::SkyblockProfiles => Capability::SkyblockProfiles(id),
                AliasFetch::SkyblockBingo => Capability::SkyblockBingo(id),
                AliasFetch::SkyblockAuctionByPlayer => Capability::SkyblockAuctionByPlayer(id),
            },
        ),
        Err(e) => Err(e),
    }
}

/// The cause text rejecting a request that carries none of the fields
/// `/player`, `/status`, `/recentGames`, `/skyblock/profiles` and
/// `/skyblock/bingo` accept.
pub open spec fn missing_username_uuid_cause() -> Seq<char> {
    "Missing one or more fields [username, uuid]"@
}

/// What the player family decides: `uuid` is taken directly when present,
/// else `username` is looked up as an alias, else the request is rejected.
pub open spec fn player_step(q: PlayerQuery, r: HandlerStep) -> bool {
    &&& q.username is None && q.uuid is None ==> (r matches HandlerStep::Reject(c)
        && c@ == missing_username_uuid_cause())
    &&& q.uuid matches Some(u) ==> r == HandlerStep::Call(Capability::Player(u))
    &&& q.uuid is None ==> (q.username matches Some(name) ==> r == HandlerStep::Lookup(
        name,
        AliasFetch::Player,
    ))
}

pub fn player(q: &PlayerQuery) -> (r: HandlerStep)
    ensures
        player_step(*q, r),
{
    if q.username.is_none() && q.uuid.is_none() {
        return HandlerStep::Reject("Missing one or more fields [username, uuid]".to_owned());
    }
    if let Some(uuid) = &q.uuid {
        HandlerStep::Call(Capability::Player(uuid.clone()))
    } else {
        let username = q.username.as_ref().unwrap().clone();
        HandlerStep::Lookup(username, AliasFetch::Player)
    }
}

/// What the status family decides: as the player family, fetching status.
pub open spec fn status_step(q: StatusQuery, r: HandlerStep) -> bool {
    &&& q.username is None && q.uuid is None ==> (r matches HandlerStep::Reject(c)
        && c@ == missing_username_uuid_cause())
    &&& q.uuid matches Some(u) ==> r == HandlerStep::Call(Capability::Status(u))
    &&& q.uuid is None ==> (q.username matches Some(name) ==> r == HandlerStep::Lookup(
        name,
        AliasFetch::Status,
    ))
}

pub fn status(q: &StatusQuery) -> (r: HandlerStep)
    ensures
        status_step(*q, r),
{
    if q.username.is_none() && q.uuid.is_none() {
        return HandlerStep::Reject("Missing one or more fields [username, uuid]".to_owned());
    }
    if let Some(uuid) = &q.uuid {
        HandlerStep::Call(Capability::Status(uuid.clone()))
    } else {
        let username = q.username.as_ref().unwrap().clone();
        HandlerStep::Lookup(username, AliasFetch::Status)
    }
}

/// What the recent-games family decides: as the player family.
pub open spec fn recent_games_step(q: RecentGamesQuery, r: HandlerStep) -> bool {
    &&& q.username is None && q.uuid is None ==> (r matches HandlerStep::Reject(c)
        && c@ == missing_username_uuid_cause())
    &&& q.uuid matches Some(u) ==> r == HandlerStep::Call(Capability::RecentGames(u))
    &&& q.uuid is None ==> (q.username matches Some(name) ==> r == HandlerStep::Lookup(
        name,
        AliasFetch::RecentGames,
    ))
}

pub fn recent_games(q: &RecentGamesQuery) -> (r: HandlerStep)
    ensures
        recent_games_step(*q, r),
{
    if q.username.is_none() && q.uuid.is_none() {
        return HandlerStep::Reject("Missing one or more fields [username, uuid]".to_owned());
    }
    if let Some(uuid) = &q.uuid {
        HandlerStep::Call(Capability::RecentGames(uuid.clone()))
    } else {
        let username = q.username.as_ref().unwrap().clone();
        HandlerStep::Lookup(username, AliasFetch::RecentGames)
    }
}

/// What the skyblock-profiles family decides: as the player family.
pub open spec fn skyblock_profiles_step(q: SkyblockProfilesQuery, r: HandlerStep) -> bool {
    &&& q.username is None && q.uuid is None ==> (r matches HandlerStep::Reject(c)
        && c@ == missing_username_uuid_cause())
    &&& q.uuid matches Some(u) ==> r == HandlerStep::Call(Capability::SkyblockProfiles(u))
    &&& q.uuid is None ==> (q.username matches Some(name) ==> r == HandlerStep::Lookup(
        name,
        AliasFetch::SkyblockProfiles,
    ))
}

pub fn skyblock_profiles(q: &SkyblockProfilesQuery) -> (r: HandlerStep)
    ensures
        skyblock_profiles_step(*q, r),
{
    if q.username.is_none() && q.uuid.is_none() {
        return HandlerStep::Reject("Missing one or more fields [username, uuid]".to_owned());
    }
    if let Some(uuid) = &q.uuid {
        HandlerStep::Call(Capability::SkyblockProfiles(uuid.clone()))
    } else {
        let username = q.username.as_ref().unwrap().clone();
        HandlerStep::Lookup(username, AliasFetch::SkyblockProfiles)
    }
}

/// What the skyblock-bingo family decides: as the player family.
pub open spec fn skyblock_bingo_step(q: SkyblockBingoQuery, r: HandlerStep) -> bool {
    &&& q.username is None && q.uuid is None ==> (r matches HandlerStep::Reject(c)
        && c@ == missing_username_uuid_cause())
    &&& q.uuid matches Some(u) ==> r == HandlerStep::Call(Capability::SkyblockBingo(u))
    &&& q.uuid is None ==> (q.username matches Some(name) ==> r == HandlerStep::Lookup(
        name,
        AliasFetch::SkyblockBingo,
    ))
}

pub fn skyblock_bingo(q: &SkyblockBingoQuery) -> (r: HandlerStep)
    ensures
        skyblock_bingo_step(*q, r),
{
    if q.username.is_none() && q.uuid.is_none() {
        return HandlerStep::Reject("Missing one or more fields [username, uuid]".to_owned());
    }
    if let Some(uuid) = &q.uuid {
        HandlerStep::Call(Capability::SkyblockBingo(uuid.clone()))
    } else {
        let username = q.username.as_ref().unwrap().clone();
        HandlerStep::Lookup(username, AliasFetch::SkyblockBingo)
    }
}

/// The cause text rejecting a guild request that carries no accepted field.
pub open spec fn missing_guild_cause() -> Seq<char> {
    "Missing one or more fields [id, name, player, username]"@
}

/// What the guild family decides, by its priority order: a guild id is
/// fetched by id; else a guild name by name; else a player id by player;
/// else a player alias is looked up and fetched by player.
pub open spec fn guild_step(q: GuildQuery, r: HandlerStep) -> bool {
    &&& q.id matches Some(id) ==> r == HandlerStep::Call(Capability::GuildById(id))
    &&& q.id is None ==> (q.name matches Some(name) ==> r == HandlerStep::Call(
        Capability::GuildByName(name),
    ))
    &&& q.id is None && q.name is None ==> (q.player matches Some(p) ==> r == HandlerStep::Call(
        Capability::GuildByPlayer(p),
    ))
    &&& q.id is None && q.name is None && q.player is None ==> (q.username matches Some(u) ==> r
        == HandlerStep::Lookup(u, AliasFetch::GuildByPlayer))
    &&& q.id is None && q.name is None && q.player is None && q.username is None ==> (r
        matches HandlerStep::Reject(c) && c@ == missing_guild_cause())
}

pub fn guild(q: &GuildQuery) -> (r: HandlerStep)
    ensures
        guild_step(*q, r),
{
    if let Some(id) = &q.id {
        HandlerStep::Call(Capability::GuildById(id.clone()))
    } else if let Some(name) = &q.name {
        HandlerStep::Call(Capability::GuildByName(name.clone()))
    } else if let Some(player) = &q.player {
        HandlerStep::Call(Capability::GuildByPlayer(player.clone()))
    } else if let Some(username) = &q.username {
        HandlerStep::Lookup(username.clone(), AliasFetch::GuildByPlayer)
    } else {
        HandlerStep::Reject("Missing one or more fields [id, name, player, username]".to_owned())
    }
}

/// The cause text rejecting a skyblock-profile request without a profile id.
pub open spec fn missing_profile_cause() -> Seq<char> {
    "Missing one or more fields [profile]"@
}

/// What the skyblock-profile family decides: the profile id is taken
/// directly, and is the only accepted field.
pub open spec fn skyblock_profile_step(q: SkyblockProfileQuery, r: HandlerStep) -> bool {
    &&& q.profile matches Some(p) ==> r == HandlerStep::Call(Capability::SkyblockProfile(p))
    &&& q.profile is None ==> (r matches HandlerStep::Reject(c) && c@ == missing_profile_cause())
}

pub fn skyblock_profile(q: &SkyblockProfileQuery) -> (r: HandlerStep)
    ensures
        skyblock_profile_step(*q, r),
{
    if let Some(profile) = &q.profile {
        HandlerStep::Call(Capability::SkyblockProfile(profile.clone()))
    } else {
        HandlerStep::Reject("Missing one or more fields [profile]".to_owned())
    }
}

/// The cause text rejecting an auction request that carries no accepted field.
pub open spec fn missing_auction_cause() -> Seq<char> {
    "Missing one or more fields [player, uuid, profile, username]"@
}

/// What the skyblock-auction family decides, by its priority order: a player
/// id is fetched by player; else a player alias is looked up and fetched by
/// player; else an auction uuid by uuid; else a profile id by profile.
pub open spec fn skyblock_auction_step(q: AuctionQuery, r: HandlerStep) -> bool {
    &&& q.player matches Some(p) ==> r == HandlerStep::Call(Capability::SkyblockAuctionByPlayer(p))
    &&& q.player is None ==> (q.username matches Some(name) ==> r == HandlerStep::Lookup(
        name,
        AliasFetch::SkyblockAuctionByPlayer,
    ))
    &&& q.player is None && q.username is None ==> (q.uuid matches Some(u) ==> r
        == HandlerStep::Call(Capability::SkyblockAuctionByUuid(u)))
    &&& q.player is None && q.username is None && q.uuid is None ==> (q.profile matches Some(p)
        ==> r == HandlerStep::Call(Capability::SkyblockAuctionByProfile(p)))
    &&& q.player is None && q.username is None && q.uuid is None && q.profile is None ==> (r
        matches HandlerStep::Reject(c) && c@ == missing_auction_cause())
}

pub fn skyblock_auction(q: &AuctionQuery) -> (r: HandlerStep)
    ensures
        skyblock_auction_step(*q, r),
{
    if q.player.is_some() || q.username.is_some() {
        if let Some(player) = &q.player {
            HandlerStep::Call(Capability::SkyblockAuctionByPlayer(player.clone()))
        } else {
            let username = q.username.as_ref().unwrap().clone();
            HandlerStep::Lookup(username, AliasFetch::SkyblockAuctionByPlayer)
        }
    } else if let Some(uuid) = &q.uuid {
        HandlerStep::Call(Capability::SkyblockAuctionByUuid(uuid.clone()))
    } else if let Some(profile) = &q.profile {
        HandlerStep::Call(Capability::SkyblockAuctionByProfile(profile.clone()))
    } else {
        HandlerStep::Reject(
            "Missing one or more fields [player, uuid, profile, username]".to_owned(),
        )
    }
}

/// What the auctions-listing family decides: the page defaults to the first
/// page when absent, with no upper bound checked locally.
pub open spec fn skyblock_auctions_step(q: SkyblockAuctionQuery, r: HandlerStep) -> bool {
    r == HandlerStep::Call(
        Capability::SkyblockAuctions(
            match q.page {
                Some(page) => page,
                None => 0,
            },
        ),
    )
}

pub fn skyblock_auctions(q: &SkyblockAuctionQuery) -> (r: HandlerStep)
    ensures
        skyblock_auctions_step(*q, r),
{
    let page: i64 = match q.page {
        Some(page) => page,
        None => 0,
    };
    HandlerStep::Call(Capability::SkyblockAuctions(page))
}

/// The cause text rejecting a resource request whose path names no catalog
/// entry.
pub open spec fn unknown_resource_cause() -> Seq<char> {
    "Unknown resource provided"@
}

/// The cause text rejecting a resource request without a resource segment.
pub open spec fn no_resource_cause() -> Seq<char> {
    "No resource provided"@
}

/// What the resources family decides: the path rebuilt from the segments must
/// equal a catalog path exactly; otherwise the request is rejected, and a
/// request with no resource segment at all is rejected with its own cause.
/// The catalog path a resource request asks for, rebuilt from its segments.
pub open spec fn requested_resource_path(p: ResourcesPath) -> Seq<char>
    recommends
        p.resource is Some,
{
    built_resource_path(
        p.resource->0@,
        match p.sub_resource {
            Some(sub) => Some(sub@),
            None => None,
        },
    )
}

pub open spec fn resources_step(p: ResourcesPath, r: HandlerStep) -> bool {
    match p.resource {
        None => r matches HandlerStep::Reject(c) && c@ == no_resource_cause(),
        Some(_) => match resource_kind_of(requested_resource_path(p)) {
            Some(k) => r == HandlerStep::Call(Capability::Resources(k)),
            None => r matches HandlerStep::Reject(c) && c@ == unknown_resource_cause(),
        },
    }
}

/// The key family needs no identity: it names its capability outright.
pub fn key() -> (r: HandlerStep)
    ensures
        r == HandlerStep::Call(Capability::Key),
{
    HandlerStep::Call(Capability::Key)
}

/// The boosters family needs no identity.
pub fn boosters() -> (r: HandlerStep)
    ensures
        r == HandlerStep::Call(Capability::Boosters),
{
    HandlerStep::Call(Capability::Boosters)
}

/// The leaderboards family needs no identity.
pub fn leaderboards() -> (r: HandlerStep)
    ensures
        r == HandlerStep::Call(Capability::Leaderboards),
{
    HandlerStep::Call(Capability::Leaderboards)
}

/// The punishment-stats family needs no identity.
pub fn punishment_stats() -> (r: HandlerStep)
    ensures
        r == HandlerStep::Call(Capability::PunishmentStats),
{
    HandlerStep::Call(Capability::PunishmentStats)
}

/// The counts family needs no identity.
pub fn counts() -> (r: HandlerStep)
    ensures
        r == HandlerStep::Call(Capability::Counts),
{
    HandlerStep::Call(Capability::Counts)
}

/// The skyblock-news family needs no identity.
pub fn skyblock_news() -> (r: HandlerStep)
    ensures
        r == HandlerStep::Call(Capability::SkyblockNews),
{
    HandlerStep::Call(Capability::SkyblockNews)
}

/// The ended-auctions family needs no identity.
pub fn skyblock_auctions_ended() -> (r: HandlerStep)
    ensures
        r == HandlerStep::Call(Capability::SkyblockAuctionsEnded),
{
    HandlerStep::Call(Capability::SkyblockAuctionsEnded)
}

/// The bazaar family needs no identity.
pub fn skyblock_bazaar() -> (r: HandlerStep)
    ensures
        r == HandlerStep::Call(Capability::SkyblockBazaar),
{
    HandlerStep::Call(Capability::SkyblockBazaar)
}

/// The fire-sales family needs no identity.
pub fn skyblock_fire_sales() -> (r: HandlerStep)
    ensures
        r == HandlerStep::Call(Capability::SkyblockFireSales),
{
    HandlerStep::Call(Capability::SkyblockFireSales)
}

pub fn resources(p: &ResourcesPath) -> (r: HandlerStep)
    ensures
        resources_step(*p, r),
{
    if let Some(resource) = &p.resource {
        let resource_path = build_resource_path(resource, &p.sub_resource);
        match lookup_resource(&resource_path) {
            Some(kind) => HandlerStep::Call(Capability::Resources(kind)),
            None => HandlerStep::Reject("Unknown resource provided".to_owned()),
        }
    } else {
        HandlerStep::Reject("No resource provided".to_owned())
    }
}

/// Priority for the player, status, recent-games, skyblock-profiles and
/// skyblock-bingo families: when a direct id stands beside an alias, the
/// decision never asks for an alias lookup.
pub proof fn lemma_player_direct_id_wins(q: PlayerQuery, r: HandlerStep)
    requires
        q.uuid is Some,
        player_step(q, r),
    ensures
        !(r is Lookup),
{
}

pub proof fn lemma_status_direct_id_wins(q: StatusQuery, r: HandlerStep)
    requires
        q.uuid is Some,
        status_step(q, r),
    ensures
        !(r is Lookup),
{
}

pub proof fn lemma_recent_games_direct_id_wins(q: RecentGamesQuery, r: HandlerStep)
    requires
        q.uuid is Some,
        recent_games_step(q, r),
    ensures
        !(r is Lookup),
{
}

pub proof fn lemma_skyblock_profiles_direct_id_wins(q: SkyblockProfilesQuery, r: HandlerStep)
    requires
        q.uuid is Some,
        skyblock_profiles_step(q, r),
    ensures
        !(r is Lookup),
{
}

pub proof fn lemma_skyblock_bingo_direct_id_wins(q: SkyblockBingoQuery, r: HandlerStep)
    requires
        q.uuid is Some,
        skyblock_bingo_step(q, r),
    ensures
        !(r is Lookup),
{
}

/// Priority for the guild family: any of the three direct fields beside the
/// alias keeps the decision from asking for an alias lookup.
pub proof fn lemma_guild_direct_id_wins(q: GuildQuery, r: HandlerStep)
    requires
        q.id is Some || q.name is Some || q.player is Some,
        guild_step(q, r),
    ensures
        !(r is Lookup),
{
}

/// Priority for the skyblock-auction family: a direct player id beside the
/// alias keeps the decision from asking for an alias lookup. (The alias
/// outranks the auction uuid and the profile id in this family, so those two
/// do not keep a lookup away.)
pub proof fn lemma_skyblock_auction_direct_id_wins(q: AuctionQuery, r: HandlerStep)
    requires
        q.player is Some,
        skyblock_auction_step(q, r),
    ensures
        !(r is Lookup),
{
}

} // verus!

