//! The optional identifying fields each endpoint family accepts on a request.
//!
//! A request may carry more than one of a family's fields; resolution picks
//! exactly one by a fixed priority order and never combines them.

use vstd::prelude::*;

verus! {

#[derive(Debug, Clone, PartialEq, Eq)]
pub struct PlayerQuery {
    pub username: Option<String>,
    pub uuid: Option<String>,
}

#[derive(Debug, Clone, PartialEq, Eq)]
pub struct GuildQuery {
    pub id: Option<String>,
    pub name: Option<String>,
    pub player: Option<String>,
    pub username: Option<String>,
}

#[derive(Debug, Clone, PartialEq, Eq)]
pub struct StatusQuery {
    pub username: Option<String>,
    pub uuid: Option<String>,
}

#[derive(Debug, Clone, PartialEq, Eq)]
pub struct RecentGamesQuery {
    pub username: Option<String>,
    pub uuid: Option<String>,
}

#[derive(Debug, Clone, PartialEq, Eq)]
pub struct SkyblockProfilesQuery {
    pub username: Option<String>,
    pub uuid: Option<String>,
}

#[derive(Debug, Clone, PartialEq, Eq)]
pub struct SkyblockProfileQuery {
    pub profile: Option<String>,
}

#[derive(Debug, Clone, PartialEq, Eq)]
pub struct SkyblockBingoQuery {
    pub username: Option<String>,
    pub uuid: Option<String>,
}

#[derive(Debug, Clone, PartialEq, Eq)]
pub struct AuctionQuery {
    pub player: Option<String>,
    pub uuid: Option<String>,
    pub profile: Option<String>,
    pub username: Option<String>,
}

#[derive(Debug, Clone, PartialEq, Eq)]
pub struct SkyblockAuctionQuery {
    pub page: Option<i64>,
}

/// The two optional path segments of a resource route,
/// `/resources/{resource}/{sub_resource}`.
#[derive(Debug, Clone, PartialEq, Eq)]
pub struct ResourcesPath {
    pub resource: Option<String>,
    pub sub_resource: Option<String>,
}

} // verus!
