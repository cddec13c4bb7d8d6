//! The closed endpoint registry and the dispatcher built from it.
//!
//! The registry is a fixed set of named endpoint descriptors. At startup each
//! descriptor's enablement flag decides whether its route is registered: a
//! route whose flag is absent or `false` is never registered, and a request to
//! it falls through to the default handler. A flag that is present but parses
//! as neither `true` nor `false` is a fatal configuration error.

use vstd::prelude::*;
use vstd::string::{StrSliceExecFns, StringExecFns};

verus! {

/// How many endpoint families the registry holds.
pub const ENDPOINT_COUNT: usize = 19;

/// The closed set of endpoint families.
#[derive(Debug, Clone, Copy, PartialEq, Eq, Structural)]
pub enum Endpoint {
    Key,
    Boosters,
    Leaderboards,
    PunishmentStats,
    Player,
    Guild,
    Counts,
    Status,
    RecentGames,
    SkyblockProfiles,
    SkyblockProfile,
    SkyblockBingo,
    SkyblockNews,
    SkyblockAuction,
    SkyblockAuctions,
    SkyblockAuctionsEnded,
    SkyblockBazaar,
    SkyblockFiresales,
    Resources,
}

/// The position of a family in the registry's fixed order.
pub open spec fn endpoint_index(e: Endpoint) -> int {
    match e {
        Endpoint::Key => 0,
        Endpoint::Boosters => 1,
        Endpoint::Leaderboards => 2,
        Endpoint::PunishmentStats => 3,
        Endpoint::Player => 4,
        Endpoint::Guild => 5,
        Endpoint::Counts => 6,
        Endpoint::Status => 7,
        Endpoint::RecentGames => 8,
        Endpoint::SkyblockProfiles => 9,
        Endpoint::SkyblockProfile => 10,
        Endpoint::SkyblockBingo => 11,
        Endpoint::SkyblockNews => 12,
        Endpoint::SkyblockAuction => 13,
        Endpoint::SkyblockAuctions => 14,
        Endpoint::SkyblockAuctionsEnded => 15,
        Endpoint::SkyblockBazaar => 16,
        Endpoint::SkyblockFiresales => 17,
        Endpoint::Resources => 18,
    }
}

/// Every family sits inside the registry's fixed order.
pub proof fn lemma_endpoint_index_bounds(e: Endpoint)
    ensures
        0 <= endpoint_index(e) < ENDPOINT_COUNT,
{
}

/// The name under which a family's enablement flag is configured.
pub open spec fn endpoint_key(e: Endpoint) -> Seq<char> {
    match e {
        Endpoint::Key => "KEY"@,
        Endpoint::Boosters => "BOOSTERS"@,
        Endpoint::Leaderboards => "LEADERBOARDS"@,
        Endpoint::PunishmentStats => "PUNISHMENT_STATS"@,
        Endpoint::Player => "PLAYER"@,
        Endpoint::Guild => "GUILD"@,
        Endpoint::Counts => "COUNTS"@,
        Endpoint::Status => "STATUS"@,
        Endpoint::RecentGames => "RECENT_GAMES"@,
        Endpoint::SkyblockProfiles => "SKYBLOCK_PROFILES"@,
        Endpoint::SkyblockProfile => "SKYBLOCK_PROFILE"@,
        Endpoint::SkyblockBingo => "SKYBLOCK_BINGO"@,
        Endpoint::SkyblockNews => "SKYBLOCK_NEWS"@,
        Endpoint::SkyblockAuction => "SKYBLOCK_AUCTION"@,
        Endpoint::SkyblockAuctions => "SKYBLOCK_AUCTIONS"@,
        Endpoint::SkyblockAuctionsEnded => "SKYBLOCK_AUCTIONS_ENDED"@,
        Endpoint::SkyblockBazaar => "SKYBLOCK_BAZAAR"@,
        Endpoint::SkyblockFiresales => "SKYBLOCK_FIRESALES"@,
        Endpoint::Resources => "RESOURCES"@,
    }
}

/// The configuration name of a family.
pub fn endpoint_name(e: Endpoint) -> (r: String)
    ensures
        r@ == endpoint_key(e),
{
    match e {
        Endpoint::Key => "KEY".to_owned(),
        Endpoint::Boosters => "BOOSTERS".to_owned(),
        Endpoint::Leaderboards => "LEADERBOARDS".to_owned(),
        Endpoint::PunishmentStats => "PUNISHMENT_STATS".to_owned(),
        Endpoint::Player => "PLAYER".to_owned(),
        Endpoint::Guild => "GUILD".to_owned(),
        Endpoint::Counts => "COUNTS".to_owned(),
        Endpoint::Status => "STATUS".to_owned(),
        Endpoint::RecentGames => "RECENT_GAMES".to_owned(),
        Endpoint::SkyblockProfiles => "SKYBLOCK_PROFILES".to_owned(),
        Endpoint::SkyblockProfile => "SKYBLOCK_PROFILE".to_owned(),
        Endpoint::SkyblockBingo => "SKYBLOCK_BINGO".to_owned(),
        Endpoint::SkyblockNews => "SKYBLOCK_NEWS".to_owned(),
        Endpoint::SkyblockAuction => "SKYBLOCK_AUCTION".to_owned(),
        Endpoint::SkyblockAuctions => "SKYBLOCK_AUCTIONS".to_owned(),
        Endpoint::SkyblockAuctionsEnded => "SKYBLOCK_AUCTIONS_ENDED".to_owned(),
        Endpoint::SkyblockBazaar => "SKYBLOCK_BAZAAR".to_owned(),
        Endpoint::SkyblockFiresales => "SKYBLOCK_FIRESALES".to_owned(),
        Endpoint::Resources => "RESOURCES".to_owned(),
    }
}

/// The family at a position of the registry's fixed order.
pub fn endpoint_at(i: usize) -> (e: Endpoint)
    requires
        i < ENDPOINT_COUNT,
    ensures
        endpoint_index(e) == i,
{
    if i == 0 {
        Endpoint::Key
    } else if i == 1 {
        Endpoint::Boosters
    } else if i == 2 {
        Endpoint::Leaderboards
    } else if i == 3 {
        Endpoint::PunishmentStats
    } else if i == 4 {
        Endpoint::Player
    } else if i == 5 {
        Endpoint::Guild
    } else if i == 6 {
        Endpoint::Counts
    } else if i == 7 {
        Endpoint::Status
    } else if i == 8 {
        Endpoint::RecentGames
    } else if i == 9 {
        Endpoint::SkyblockProfiles
    } else if i == 10 {
        Endpoint::SkyblockProfile
    } else if i == 11 {
        Endpoint::SkyblockBingo
    } else if i == 12 {
        Endpoint::SkyblockNews
    } else if i == 13 {
        Endpoint::SkyblockAuction
    } else if i == 14 {
        Endpoint::SkyblockAuctions
    } else if i == 15 {
        Endpoint::SkyblockAuctionsEnded
    } else if i == 16 {
        Endpoint::SkyblockBazaar
    } else if i == 17 {
        Endpoint::SkyblockFiresales
    } else {
        Endpoint::Resources
    }
}

/// The family a configuration name denotes, if any.
pub open spec fn spec_parse_endpoint(s: Seq<char>) -> Option<Endpoint> {
    if s == endpoint_key(Endpoint::Key) {
        Some(Endpoint::Key)
    } else if s == endpoint_key(Endpoint::Boosters) {
        Some(Endpoint::Boosters)
    } else if s == endpoint_key(Endpoint::Leaderboards) {
        Some(Endpoint::Leaderboards)
    } else if s == endpoint_key(Endpoint::PunishmentStats) {
        Some(Endpoint::PunishmentStats)
    } else if s == endpoint_key(Endpoint::Player) {
        Some(Endpoint::Player)
    } else if s == endpoint_key(Endpoint::Guild) {
        Some(Endpoint::Guild)
    } else if s == endpoint_key(Endpoint::Counts) {
        Some(Endpoint::Counts)
    } else if s == endpoint_key(Endpoint::Status) {
        Some(Endpoint::Status)
    } else if s == endpoint_key(Endpoint::RecentGames) {
        Some(Endpoint::RecentGames)
    } else if s == endpoint_key(Endpoint::SkyblockProfiles) {
        Some(Endpoint::SkyblockProfiles)
    } else if s == endpoint_key(Endpoint::SkyblockProfile) {
        Some(Endpoint::SkyblockProfile)
    } else if s == endpoint_key(Endpoint::SkyblockBingo) {
        Some(Endpoint::SkyblockBingo)
    } else if s == endpoint_key(Endpoint::SkyblockNews) {
        Some(Endpoint::SkyblockNews)
    } else if s == endpoint_key(Endpoint::SkyblockAuction) {
        Some(Endpoint::SkyblockAuction)
    } else if s == endpoint_key(Endpoint::SkyblockAuctions) {
        Some(Endpoint::SkyblockAuctions)
    } else if s == endpoint_key(Endpoint::SkyblockAuctionsEnded) {
        Some(Endpoint::SkyblockAuctionsEnded)
    } else if s == endpoint_key(Endpoint::SkyblockBazaar) {
        Some(Endpoint::SkyblockBazaar)
    } else if s == endpoint_key(Endpoint::SkyblockFiresales) {
        Some(Endpoint::SkyblockFiresales)
    } else if s == endpoint_key(Endpoint::Resources) {
        Some(Endpoint::Resources)
    } else {
        None
    }
}

/// Parses a configuration name to its family. An unknown name is a fatal
/// configuration error for the caller to raise.
pub fn parse_endpoint(name: &String) -> (r: Option<Endpoint>)
    ensures
        r == spec_parse_endpoint(name@),
{
    if *name == endpoint_name(Endpoint::Key) {
        Some(Endpoint::Key)
    } else if *name == endpoint_name(Endpoint::Boosters) {
        Some(Endpoint::Boosters)
    } else if *name == endpoint_name(Endpoint::Leaderboards) {
        Some(Endpoint::Leaderboards)
    } else if *name == endpoint_name(Endpoint::PunishmentStats) {
        Some(Endpoint::PunishmentStats)
    } else if *name == endpoint_name(Endpoint::Player) {
        Some(Endpoint::Player)
    } else if *name == endpoint_name(Endpoint::Guild) {
        Some(Endpoint::Guild)
    } else if *name == endpoint_name(Endpoint::Counts) {
        Some(Endpoint::Counts)
    } else if *name == endpoint_name(Endpoint::Status) {
        Some(Endpoint::Status)
    } else if *name == endpoint_name(Endpoint::RecentGames) {
        Some(Endpoint::RecentGames)
    } else if *name == endpoint_name(Endpoint::SkyblockProfiles) {
        Some(Endpoint::SkyblockProfiles)
    } else if *name == endpoint_name(Endpoint::SkyblockProfile) {
        Some(Endpoint::SkyblockProfile)
    } else if *name == endpoint_name(Endpoint::SkyblockBingo) {
        Some(Endpoint::SkyblockBingo)
    } else if *name == endpoint_name(Endpoint::SkyblockNews) {
        Some(Endpoint::SkyblockNews)
    } else if *name == endpoint_name(Endpoint::SkyblockAuction) {
        Some(Endpoint::SkyblockAuction)
    } else if *name == endpoint_name(Endpoint::SkyblockAuctions) {
        Some(Endpoint::SkyblockAuctions)
    } else if *name == endpoint_name(Endpoint::SkyblockAuctionsEnded) {
        Some(Endpoint::SkyblockAuctionsEnded)
    } else if *name == endpoint_name(Endpoint::SkyblockBazaar) {
        Some(Endpoint::SkyblockBazaar)
    } else if *name == endpoint_name(Endpoint::SkyblockFiresales) {
        Some(Endpoint::SkyblockFiresales)
    } else if *name == endpoint_name(Endpoint::Resources) {
        Some(Endpoint::Resources)
    } else {
        None
    }
}

/// The route a family answers on. The resources family additionally answers
/// on the one- and two-segment extensions of its route.
pub open spec fn endpoint_route_view(e: Endpoint) -> Seq<char> {
    match e {
        Endpoint::Key => "/key"@,
        Endpoint::Boosters => "/boosters"@,
        Endpoint::Leaderboards => "/leaderboards"@,
        Endpoint::PunishmentStats => "/punishmentstats"@,
        Endpoint::Player => "/player"@,
        Endpoint::Guild => "/guild"@,
        Endpoint::Counts => "/counts"@,
        Endpoint::Status => "/status"@,
        Endpoint::RecentGames => "/recentGames"@,
        Endpoint::SkyblockProfiles => "/skyblock/profiles"@,
        Endpoint::SkyblockProfile => "/skyblock/profile"@,
        Endpoint::SkyblockBingo => "/skyblock/bingo"@,
        Endpoint::SkyblockNews => "/skyblock/news"@,
        Endpoint::SkyblockAuction => "/skyblock/auction"@,
        Endpoint::SkyblockAuctions => "/skyblock/auctions"@,
        Endpoint::SkyblockAuctionsEnded => "/skyblock/auctions_ended"@,
        Endpoint::SkyblockBazaar => "/skyblock/bazaar"@,
        Endpoint::SkyblockFiresales => "/skyblock/firesales"@,
        Endpoint::Resources => "/resources"@,
    }
}

/// The route a family answers on.
pub fn endpoint_route(e: Endpoint) -> (r: String)
    ensures
        r@ == endpoint_route_view(e),
{
    match e {
        Endpoint::Key => "/key".to_owned(),
        Endpoint::Boosters => "/boosters".to_owned(),
        Endpoint::Leaderboards => "/leaderboards".to_owned(),
        Endpoint::PunishmentStats => "/punishmentstats".to_owned(),
        Endpoint::Player => "/player".to_owned(),
        Endpoint::Guild => "/guild".to_owned(),
        Endpoint::Counts => "/counts".to_owned(),
        Endpoint::Status => "/status".to_owned(),
        Endpoint::RecentGames => "/recentGames".to_owned(),
        Endpoint::SkyblockProfiles => "/skyblock/profiles".to_owned(),
        Endpoint::SkyblockProfile => "/skyblock/profile".to_owned(),
        Endpoint::SkyblockBingo => "/skyblock/bingo".to_owned(),
        Endpoint::SkyblockNews => "/skyblock/news".to_owned(),
        Endpoint::SkyblockAuction => "/skyblock/auction".to_owned(),
        Endpoint::SkyblockAuctions => "/skyblock/auctions".to_owned(),
        Endpoint::SkyblockAuctionsEnded => "/skyblock/auctions_ended".to_owned(),
        Endpoint::SkyblockBazaar => "/skyblock/bazaar".to_owned(),
        Endpoint::SkyblockFiresales => "/skyblock/firesales".to_owned(),
        Endpoint::Resources => "/resources".to_owned(),
    }
}

/// Whether an enablement flag's raw value turns its route on: only the exact
/// string `true` does.
pub open spec fn flag_enables(v: Option<String>) -> bool {
    v matches Some(s) && s@ == "true"@
}

/// Whether an enablement flag's raw value parses at all: it is absent, or it
/// is exactly `true` or `false`.
pub open spec fn flag_wellformed(v: Option<String>) -> bool {
    v is None || v->0@ == "true"@ || v->0@ == "false"@
}

/// A fatal startup error: one family's enablement flag did not parse.
#[derive(Debug, Clone, PartialEq, Eq)]
pub struct ConfigError {
    pub endpoint: Endpoint,
}

/// The message of a fatal configuration error, naming the flag that did not
/// parse.
pub open spec fn config_error_text(e: Endpoint) -> Seq<char> {
    "Unable to parse SERVER.ENDPOINT."@ + endpoint_key(e) + " environment variable"@
}

impl ConfigError {
    /// The error's message text.
    pub fn message(&self) -> (r: String)
        ensures
            r@ == config_error_text(self.endpoint),
    {
        "Unable to parse SERVER.ENDPOINT.".to_owned().concat(
            endpoint_name(self.endpoint).as_str(),
        ).concat(" environment variable")
    }
}

/// The routes that were registered at startup: one decision per family, in
/// the registry's fixed order. Immutable once built.
#[derive(Debug)]
pub struct RouteTable {
    registered: Vec<bool>,
}

impl RouteTable {
    /// The table holds exactly one decision per family.
    pub closed spec fn wf(self) -> bool {
        self.registered@.len() == ENDPOINT_COUNT
    }

    /// Whether a family's route was registered.
    pub closed spec fn spec_enabled(self, e: Endpoint) -> bool {
        self.registered@[endpoint_index(e)]
    }

    /// Whether a family's route was registered.
    pub fn is_enabled(&self, e: Endpoint) -> (r: bool)
        requires
            self.wf(),
        ensures
            r == self.spec_enabled(e),
    {
        self.registered[endpoint_position(e)]
    }
}

/// The position of a family in the registry's fixed order.
fn endpoint_position(e: Endpoint) -> (i: usize)
    ensures
        i == endpoint_index(e),
{
    match e {
        Endpoint::Key => 0,
        Endpoint::Boosters => 1,
        Endpoint::Leaderboards => 2,
        Endpoint::PunishmentStats => 3,
        Endpoint::Player => 4,
        Endpoint::Guild => 5,
        Endpoint::Counts => 6,
        Endpoint::Status => 7,
        Endpoint::RecentGames => 8,
        Endpoint::SkyblockProfiles => 9,
        Endpoint::SkyblockProfile => 10,
        Endpoint::SkyblockBingo => 11,
        Endpoint::SkyblockNews => 12,
        Endpoint::SkyblockAuction => 13,
        Endpoint::SkyblockAuctions => 14,
        Endpoint::SkyblockAuctionsEnded => 15,
        Endpoint::SkyblockBazaar => 16,
        Endpoint::SkyblockFiresales => 17,
        Endpoint::Resources => 18,
    }
}

/// The table registers exactly the families whose flag, in the registry's
/// fixed order, is the string `true`.
pub open spec fn registered_from(table: RouteTable, flags: Seq<Option<String>>) -> bool {
    &&& table.wf()
    &&& forall|e: Endpoint| #[trigger] table.spec_enabled(e) == flag_enables(
        flags[endpoint_index(e)],
    )
}

/// Builds the route table from the families' enablement flags, given in the
/// registry's fixed order. Every present flag must parse as a boolean;
/// otherwise building fails, fatally, naming the first family whose flag did
/// not parse.
pub fn build_route_table(flags: &Vec<Option<String>>) -> (r: Result<RouteTable, ConfigError>)
    requires
        flags@.len() == ENDPOINT_COUNT,
    ensures
        (r is Ok) <==> (forall|i: int|
            0 <= i < flags@.len() ==> #[trigger] flag_wellformed(flags@[i])),
        r matches Ok(table) ==> registered_from(table, flags@),
        r matches Err(err) ==> !flag_wellformed(flags@[endpoint_index(err.endpoint)]) && (forall|
            i: int,
        |
            0 <= i < endpoint_index(err.endpoint) ==> #[trigger] flag_wellformed(flags@[i])),
{
    let mut registered: Vec<bool> = Vec::new();
    let mut i: usize = 0;
    while i < ENDPOINT_COUNT
        invariant
            flags@.len() == ENDPOINT_COUNT,
            i <= ENDPOINT_COUNT,
            registered@.len() == i,
            forall|j: int| 0 <= j < i ==> #[trigger] flag_wellformed(flags@[j]),
            forall|j: int|
                0 <= j < i ==> registered@[j] == flag_enables(#[trigger] flags@[j]),
        decreases ENDPOINT_COUNT - i,
    {
        match &flags[i] {
            None => registered.push(false),
            Some(value) => {
                if *value == "true".to_owned() {
                    registered.push(true);
                } else if *value == "false".to_owned() {
                    registered.push(false);
                } else {
                    proof {
                        assert(!flag_wellformed(flags@[i as int]));
                    }
                    return Err(ConfigError { endpoint: endpoint_at(i) });
                }
            },
        }
        i += 1;
    }
    let table = RouteTable { registered };
    proof {
        assert forall|e: Endpoint| #[trigger] table.spec_enabled(e) == flag_enables(
            flags@[endpoint_index(e)],
        ) by {
            lemma_endpoint_index_bounds(e);
        }
    }
    Ok(table)
}

/// Where the dispatcher sends a request: to a family's handler, or to the
/// default fallback.
#[derive(Debug, Clone, Copy, PartialEq, Eq, Structural)]
pub enum Routed {
    To(Endpoint),
    Fallback,
}

/// The family whose route a request path hits, disregarding enablement. The
/// eighteen plain routes match exactly; the resources family also answers on
/// the one- and two-segment extensions of its route.
pub open spec fn spec_match_path(s: Seq<char>) -> Option<Endpoint> {
    if s == endpoint_route_view(Endpoint::Key) {
        Some(Endpoint::Key)
    } else if s == endpoint_route_view(Endpoint::Boosters) {
        Some(Endpoint::Boosters)
    } else if s == endpoint_route_view(Endpoint::Leaderboards) {
        Some(Endpoint::Leaderboards)
    } else if s == endpoint_route_view(Endpoint::PunishmentStats) {
        Some(Endpoint::PunishmentStats)
    } else if s == endpoint_route_view(Endpoint::Player) {
        Some(Endpoint::Player)
    } else if s == endpoint_route_view(Endpoint::Guild) {
        Some(Endpoint::Guild)
    } else if s == endpoint_route_view(Endpoint::Counts) {
        Some(Endpoint::Counts)
    } else if s == endpoint_route_view(Endpoint::Status) {
        Some(Endpoint::Status)
    } else if s == endpoint_route_view(Endpoint::RecentGames) {
        Some(Endpoint::RecentGames)
    } else if s == endpoint_route_view(Endpoint::SkyblockProfiles) {
        Some(Endpoint::SkyblockProfiles)
    } else if s == endpoint_route_view(Endpoint::SkyblockProfile) {
        Some(Endpoint::SkyblockProfile)
    } else if s == endpoint_route_view(Endpoint::SkyblockBingo) {
        Some(Endpoint::SkyblockBingo)
    } else if s == endpoint_route_view(Endpoint::SkyblockNews) {
        Some(Endpoint::SkyblockNews)
    } else if s == endpoint_route_view(Endpoint::SkyblockAuction) {
        Some(Endpoint::SkyblockAuction)
    } else if s == endpoint_route_view(Endpoint::SkyblockAuctions) {
        Some(Endpoint::SkyblockAuctions)
    } else if s == endpoint_route_view(Endpoint::SkyblockAuctionsEnded) {
        Some(Endpoint::SkyblockAuctionsEnded)
    } else if s == endpoint_route_view(Endpoint::SkyblockBazaar) {
        Some(Endpoint::SkyblockBazaar)
    } else if s == endpoint_route_view(Endpoint::SkyblockFiresales) {
        Some(Endpoint::SkyblockFiresales)
    } else if s == endpoint_route_view(Endpoint::Resources) || "/resources/"@.is_prefix_of(s) {
        Some(Endpoint::Resources)
    } else {
        None
    }
}

/// Where the dispatcher sends a request whose path is `s`: to the family
/// whose registered route it hits, and to the fallback when no route matches
/// or the matching family was not registered.
pub open spec fn route_spec(table: RouteTable, s: Seq<char>) -> Routed {
    match spec_match_path(s) {
        Some(e) => if table.spec_enabled(e) {
            Routed::To(e)
        } else {
            Routed::Fallback
        },
        None => Routed::Fallback,
    }
}

/// Sends a request path to its handler, or to the default fallback.
pub fn route(table: &RouteTable, path: &String) -> (r: Routed)
    requires
        table.wf(),
    ensures
        r == route_spec(*table, path@),
{
    let target = match_path(path);
    match target {
        Some(e) => {
            if table.is_enabled(e) {
                Routed::To(e)
            } else {
                Routed::Fallback
            }
        },
        None => Routed::Fallback,
    }
}

/// The family whose route a request path hits, disregarding enablement.
pub fn match_path(path: &String) -> (r: Option<Endpoint>)
    ensures
        r == spec_match_path(path@),
{
    if *path == endpoint_route(Endpoint::Key) {
        Some(Endpoint::Key)
    } else if *path == endpoint_route(Endpoint::Boosters) {
        Some(Endpoint::Boosters)
    } else if *path == endpoint_route(Endpoint::Leaderboards) {
        Some(Endpoint::Leaderboards)
    } else if *path == endpoint_route(Endpoint::PunishmentStats) {
        Some(Endpoint::PunishmentStats)
    } else if *path == endpoint_route(Endpoint::Player) {
        Some(Endpoint::Player)
    } else if *path == endpoint_route(Endpoint::Guild) {
        Some(Endpoint::Guild)
    } else if *path == endpoint_route(Endpoint::Counts) {
        Some(Endpoint::Counts)
    } else if *path == endpoint_route(Endpoint::Status) {
        Some(Endpoint::Status)
    } else if *path == endpoint_route(Endpoint::RecentGames) {
        Some(Endpoint::RecentGames)
    } else if *path == endpoint_route(Endpoint::SkyblockProfiles) {
        Some(Endpoint::SkyblockProfiles)
    } else if *path == endpoint_route(Endpoint::SkyblockProfile) {
        Some(Endpoint::SkyblockProfile)
    } else if *path == endpoint_route(Endpoint::SkyblockBingo) {
        Some(Endpoint::SkyblockBingo)
    } else if *path == endpoint_route(Endpoint::SkyblockNews) {
        Some(Endpoint::SkyblockNews)
    } else if *path == endpoint_route(Endpoint::SkyblockAuction) {
        Some(Endpoint::SkyblockAuction)
    } else if *path == endpoint_route(Endpoint::SkyblockAuctions) {
        Some(Endpoint::SkyblockAuctions)
    } else if *path == endpoint_route(Endpoint::SkyblockAuctionsEnded) {
        Some(Endpoint::SkyblockAuctionsEnded)
    } else if *path == endpoint_route(Endpoint::SkyblockBazaar) {
        Some(Endpoint::SkyblockBazaar)
    } else if *path == endpoint_route(Endpoint::SkyblockFiresales) {
        Some(Endpoint::SkyblockFiresales)
    } else if *path == endpoint_route(Endpoint::Resources) {
        Some(Endpoint::Resources)
    } else if resources_prefixed(path) {
        Some(Endpoint::Resources)
    } else {
        None
    }
}

/// Whether the path begins with the resources route followed by a segment
/// separator.
fn resources_prefixed(path: &String) -> (r: bool)
    ensures
        r == "/resources/"@.is_prefix_of(path@),
{
    proof {
        reveal_strlit("/resources/");
    }
    let n = path.as_str().unicode_len();
    if n < 11 {
        proof {
            assert(!"/resources/"@.is_prefix_of(path@));
        }
        false
    } else {
        let head = path.as_str().substring_char(0, 11).to_owned();
        let matched = head == "/resources/".to_owned();
        proof {
            if matched {
                assert("/resources/"@.is_prefix_of(path@)) by {
                    assert(path@.subrange(0, 11) == "/resources/"@);
                }
            } else {
                assert(!"/resources/"@.is_prefix_of(path@)) by {
                    assert(path@.subrange(0, 11) == head@);
                }
            }
        }
        matched
    }
}

/// Registry entries are globally unique by name and by route: two distinct
/// families never share a configuration name, a route, or a position.
pub proof fn lemma_registry_unique(a: Endpoint, b: Endpoint)
    requires
        a != b,
    ensures
        endpoint_key(a) != endpoint_key(b),
        endpoint_route_view(a) != endpoint_route_view(b),
        endpoint_index(a) != endpoint_index(b),
{
    broadcast use vstd::string::group_string_axioms;

    reveal_strlit("KEY");
    reveal_strlit("BOOSTERS");
    reveal_strlit("LEADERBOARDS");
    reveal_strlit("PUNISHMENT_STATS");
    reveal_strlit("PLAYER");
    reveal_strlit("GUILD");
    reveal_strlit("COUNTS");
    reveal_strlit("STATUS");
    reveal_strlit("RECENT_GAMES");
    reveal_strlit("SKYBLOCK_PROFILES");
    reveal_strlit("SKYBLOCK_PROFILE");
    reveal_strlit("SKYBLOCK_BINGO");
    reveal_strlit("SKYBLOCK_NEWS");
    reveal_strlit("SKYBLOCK_AUCTION");
    reveal_strlit("SKYBLOCK_AUCTIONS");
    reveal_strlit("SKYBLOCK_AUCTIONS_ENDED");
    reveal_strlit("SKYBLOCK_BAZAAR");
    reveal_strlit("SKYBLOCK_FIRESALES");
    reveal_strlit("RESOURCES");
    reveal_strlit("/key");
    reveal_strlit("/boosters");
    reveal_strlit("/leaderboards");
    reveal_strlit("/punishmentstats");
    reveal_strlit("/player");
    reveal_strlit("/guild");
    reveal_strlit("/counts");
    reveal_strlit("/status");
    reveal_strlit("/recentGames");
    reveal_strlit("/skyblock/profiles");
    reveal_strlit("/skyblock/profile");
    reveal_strlit("/skyblock/bingo");
    reveal_strlit("/skyblock/news");
    reveal_strlit("/skyblock/auction");
    reveal_strlit("/skyblock/auctions");
    reveal_strlit("/skyblock/auctions_ended");
    reveal_strlit("/skyblock/bazaar");
    reveal_strlit("/skyblock/firesales");
    reveal_strlit("/resources");
    // names of equal length are told apart by a character
    assert("KEY"@.len() == 3 && "BOOSTERS"@.len() == 8 && "GUILD"@.len() == 5);
    assert("LEADERBOARDS"@.len() == 12 && "RECENT_GAMES"@.len() == 12);
    assert("PLAYER"@.len() == 6 && "COUNTS"@.len() == 6 && "STATUS"@.len() == 6);
    assert("PUNISHMENT_STATS"@.len() == 16 && "RESOURCES"@.len() == 9);
    assert("SKYBLOCK_PROFILES"@.len() == 17 && "SKYBLOCK_PROFILE"@.len() == 16);
    assert("SKYBLOCK_BINGO"@.len() == 14 && "SKYBLOCK_NEWS"@.len() == 13);
    assert("SKYBLOCK_AUCTION"@.len() == 16 && "SKYBLOCK_AUCTIONS"@.len() == 17);
    assert("SKYBLOCK_AUCTIONS_ENDED"@.len() == 23 && "SKYBLOCK_BAZAAR"@.len() == 15);
    assert("SKYBLOCK_FIRESALES"@.len() == 18);
    assert("PLAYER"@[0] == 'P' && "COUNTS"@[0] == 'C' && "STATUS"@[0] == 'S');
    assert("LEADERBOARDS"@[0] == 'L' && "RECENT_GAMES"@[0] == 'R');
    assert("PUNISHMENT_STATS"@[0] == 'P' && "SKYBLOCK_PROFILE"@[0] == 'S');
    assert("SKYBLOCK_PROFILE"@[9] == 'P' && "SKYBLOCK_AUCTION"@[9] == 'A');
    assert("SKYBLOCK_PROFILES"@[9] == 'P' && "SKYBLOCK_AUCTIONS"@[9] == 'A');
    assert("/key"@.len() == 4 && "/boosters"@.len() == 9 && "/guild"@.len() == 6);
    assert("/leaderboards"@.len() == 13 && "/recentGames"@.len() == 12);
    assert("/player"@.len() == 7 && "/counts"@.len() == 7 && "/status"@.len() == 7);
    assert("/punishmentstats"@.len() == 16 && "/resources"@.len() == 10);
    assert("/skyblock/profiles"@.len() == 18 && "/skyblock/profile"@.len() == 17);
    assert("/skyblock/bingo"@.len() == 15 && "/skyblock/news"@.len() == 14);
    assert("/skyblock/auction"@.len() == 17 && "/skyblock/auctions"@.len() == 18);
    assert("/skyblock/auctions_ended"@.len() == 24 && "/skyblock/bazaar"@.len() == 16);
    assert("/skyblock/firesales"@.len() == 19);
    assert("/player"@[1] == 'p' && "/counts"@[1] == 'c' && "/status"@[1] == 's');
    assert("/punishmentstats"@[1] == 'p' && "/skyblock/bazaar"@[1] == 's');
    assert("/skyblock/profile"@[10] == 'p' && "/skyblock/auction"@[10] == 'a');
    assert("/skyblock/profiles"@[10] == 'p' && "/skyblock/auctions"@[10] == 'a');
}

/// A family's configuration name denotes that family and no other.
pub proof fn lemma_parse_endpoint_roundtrip(e: Endpoint)
    ensures
        spec_parse_endpoint(endpoint_key(e)) == Some(e),
{
    assert forall|d: Endpoint| d != e implies endpoint_key(d) != endpoint_key(e) by {
        lemma_registry_unique(d, e);
    }
}

/// A family's own route dispatches to that family and no other.
pub proof fn lemma_route_roundtrip(e: Endpoint)
    ensures
        spec_match_path(endpoint_route_view(e)) == Some(e),
{
    assert forall|d: Endpoint| d != e implies endpoint_route_view(d) != endpoint_route_view(e) by {
        lemma_registry_unique(d, e);
    }
}

/// A family whose enablement flag is absent, `false`, or anything but the
/// string `true` is unreachable: no request path is dispatched to it.
pub proof fn lemma_disabled_endpoint_unreachable(
    table: RouteTable,
    flags: Seq<Option<String>>,
    e: Endpoint,
    path: Seq<char>,
)
    requires
        registered_from(table, flags),
        !flag_enables(flags[endpoint_index(e)]),
    ensures
        route_spec(table, path) != Routed::To(e),
{
    assert(!table.spec_enabled(e));
}

} // verus!
