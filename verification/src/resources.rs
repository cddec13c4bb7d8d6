//! The static catalog of resource kinds served under `/resources/...`.
//!
//! A resource route is matched by rebuilding the two-level path from its
//! segments and comparing it, exactly, against the catalog's path strings: no
//! partial or prefix match.

use vstd::prelude::*;
use vstd::string::StringExecFns;

verus! {

/// The closed set of static resource kinds the collaborator can fetch.
#[derive(Debug, Clone, Copy, PartialEq, Eq, Structural)]
pub enum ResourceKind {
    Games,
    Achievements,
    Challenges,
    Quests,
    GuildAchievements,
    VanityPets,
    VanityCompanions,
    SkyblockCollections,
    SkyblockSkills,
    SkyblockItems,
    SkyblockElection,
    SkyblockBingo,
}

/// The catalog path string of a resource kind, as the collaborator names it.
pub open spec fn resource_path_view(k: ResourceKind) -> Seq<char> {
    match k {
        ResourceKind::Games => "resources/games"@,
        ResourceKind::Achievements => "resources/achievements"@,
        ResourceKind::Challenges => "resources/challenges"@,
        ResourceKind::Quests => "resources/quests"@,
        ResourceKind::GuildAchievements => "resources/guild/achievements"@,
        ResourceKind::VanityPets => "resources/vanity/pets"@,
        ResourceKind::VanityCompanions => "resources/vanity/companions"@,
        ResourceKind::SkyblockCollections => "resources/skyblock/collections"@,
        ResourceKind::SkyblockSkills => "resources/skyblock/skills"@,
        ResourceKind::SkyblockItems => "resources/skyblock/items"@,
        ResourceKind::SkyblockElection => "resources/skyblock/election"@,
        ResourceKind::SkyblockBingo => "resources/skyblock/bingo"@,
    }
}

/// The resource kind whose catalog path equals `path` exactly, if any.
pub open spec fn resource_kind_of(path: Seq<char>) -> Option<ResourceKind> {
    if path == resource_path_view(ResourceKind::Games) {
        Some(ResourceKind::Games)
    } else if path == resource_path_view(ResourceKind::Achievements) {
        Some(ResourceKind::Achievements)
    } else if path == resource_path_view(ResourceKind::Challenges) {
        Some(ResourceKind::Challenges)
    } else if path == resource_path_view(ResourceKind::Quests) {
        Some(ResourceKind::Quests)
    } else if path == resource_path_view(ResourceKind::GuildAchievements) {
        Some(ResourceKind::GuildAchievements)
    } else if path == resource_path_view(ResourceKind::VanityPets) {
        Some(ResourceKind::VanityPets)
    } else if path == resource_path_view(ResourceKind::VanityCompanions) {
        Some(ResourceKind::VanityCompanions)
    } else if path == resource_path_view(ResourceKind::SkyblockCollections) {
        Some(ResourceKind::SkyblockCollections)
    } else if path == resource_path_view(ResourceKind::SkyblockSkills) {
        Some(ResourceKind::SkyblockSkills)
    } else if path == resource_path_view(ResourceKind::SkyblockItems) {
        Some(ResourceKind::SkyblockItems)
    } else if path == resource_path_view(ResourceKind::SkyblockElection) {
        Some(ResourceKind::SkyblockElection)
    } else if path == resource_path_view(ResourceKind::SkyblockBingo) {
        Some(ResourceKind::SkyblockBingo)
    } else {
        None
    }
}

/// A path matches the catalog exactly when it equals one of the twelve
/// catalog path strings; every other path matches nothing.
pub proof fn lemma_resource_match_exact(path: Seq<char>)
    ensures
        resource_kind_of(path) is Some <==> exists|k: ResourceKind|
            path == #[trigger] resource_path_view(k),
        resource_kind_of(path) matches Some(k) ==> path == resource_path_view(k),
{
    match resource_kind_of(path) {
        Some(k) => {
            assert(path == resource_path_view(k));
        },
        None => {},
    }
}

/// Catalog entries are unique: two distinct resource kinds never share a
/// path string.
pub proof fn lemma_catalog_unique(a: ResourceKind, b: ResourceKind)
    requires
        a != b,
    ensures
        resource_path_view(a) != resource_path_view(b),
{
    broadcast use vstd::string::group_string_axioms;

    reveal_strlit("resources/games");
    reveal_strlit("resources/achievements");
    reveal_strlit("resources/challenges");
    reveal_strlit("resources/quests");
    reveal_strlit("resources/guild/achievements");
    reveal_strlit("resources/vanity/pets");
    reveal_strlit("resources/vanity/companions");
    reveal_strlit("resources/skyblock/collections");
    reveal_strlit("resources/skyblock/skills");
    reveal_strlit("resources/skyblock/items");
    reveal_strlit("resources/skyblock/election");
    reveal_strlit("resources/skyblock/bingo");
    // paths of equal length are told apart by a character
    assert("resources/games"@.len() == 15 && "resources/achievements"@.len() == 22);
    assert("resources/challenges"@.len() == 20 && "resources/quests"@.len() == 16);
    assert("resources/guild/achievements"@.len() == 28);
    assert("resources/vanity/pets"@.len() == 21 && "resources/vanity/companions"@.len() == 27);
    assert("resources/skyblock/collections"@.len() == 30);
    assert("resources/skyblock/skills"@.len() == 25 && "resources/skyblock/items"@.len() == 24);
    assert("resources/skyblock/election"@.len() == 27 && "resources/skyblock/bingo"@.len() == 24);
    assert("resources/skyblock/items"@[19] == 'i' && "resources/skyblock/bingo"@[19] == 'b');
    assert("resources/vanity/companions"@[10] == 'v' && "resources/skyblock/election"@[10] == 's');
}

/// A catalog path matches its own resource kind and no other.
pub proof fn lemma_catalog_roundtrip(k: ResourceKind)
    ensures
        resource_kind_of(resource_path_view(k)) == Some(k),
{
    assert forall|d: ResourceKind| d != k implies resource_path_view(d) != resource_path_view(k) by {
        lemma_catalog_unique(d, k);
    }
}

/// The catalog path string of a resource kind.
pub fn resource_path(k: ResourceKind) -> (r: String)
    ensures
        r@ == resource_path_view(k),
{
    match k {
        ResourceKind::Games => "resources/games".to_owned(),
        ResourceKind::Achievements => "resources/achievements".to_owned(),
        ResourceKind::Challenges => "resources/challenges".to_owned(),
        ResourceKind::Quests => "resources/quests".to_owned(),
        ResourceKind::GuildAchievements => "resources/guild/achievements".to_owned(),
        ResourceKind::VanityPets => "resources/vanity/pets".to_owned(),
        ResourceKind::VanityCompanions => "resources/vanity/companions".to_owned(),
        ResourceKind::SkyblockCollections => "resources/skyblock/collections".to_owned(),
        ResourceKind::SkyblockSkills => "resources/skyblock/skills".to_owned(),
        ResourceKind::SkyblockItems => "resources/skyblock/items".to_owned(),
        ResourceKind::SkyblockElection => "resources/skyblock/election".to_owned(),
        ResourceKind::SkyblockBingo => "resources/skyblock/bingo".to_owned(),
    }
}

/// Looks `path` up in the catalog by exact string comparison.
pub fn lookup_resource(path: &String) -> (r: Option<ResourceKind>)
    ensures
        r == resource_kind_of(path@),
{
    if *path == resource_path(ResourceKind::Games) {
        Some(ResourceKind::Games)
    } else if *path == resource_path(ResourceKind::Achievements) {
        Some(ResourceKind::Achievements)
    } else if *path == resource_path(ResourceKind::Challenges) {
        Some(ResourceKind::Challenges)
    } else if *path == resource_path(ResourceKind::Quests) {
        Some(ResourceKind::Quests)
    } else if *path == resource_path(ResourceKind::GuildAchievements) {
        Some(ResourceKind::GuildAchievements)
    } else if *path == resource_path(ResourceKind::VanityPets) {
        Some(ResourceKind::VanityPets)
    } else if *path == resource_path(ResourceKind::VanityCompanions) {
        Some(ResourceKind::VanityCompanions)
    } else if *path == resource_path(ResourceKind::SkyblockCollections) {
        Some(ResourceKind::SkyblockCollections)
    } else if *path == resource_path(ResourceKind::SkyblockSkills) {
        Some(ResourceKind::SkyblockSkills)
    } else if *path == resource_path(ResourceKind::SkyblockItems) {
        Some(ResourceKind::SkyblockItems)
    } else if *path == resource_path(ResourceKind::SkyblockElection) {
        Some(ResourceKind::SkyblockElection)
    } else if *path == resource_path(ResourceKind::SkyblockBingo) {
        Some(ResourceKind::SkyblockBingo)
    } else {
        None
    }
}

/// The two-level catalog path rebuilt from a request's path segments:
/// `resources/{resource}` or `resources/{resource}/{sub_resource}`.
pub open spec fn built_resource_path(resource: Seq<char>, sub_resource: Option<Seq<char>>) -> Seq<
    char,
> {
    match sub_resource {
        Some(sub) => "resources/"@ + resource + "/"@ + sub,
        None => "resources/"@ + resource,
    }
}

/// Rebuilds the catalog path from the request's path segments.
pub fn build_resource_path(resource: &String, sub_resource: &Option<String>) -> (r: String)
    ensures
        r@ == built_resource_path(
            resource@,
            match sub_resource {
                Some(sub) => Some(sub@),
                None => None,
            },
        ),
{
    let base = "resources/".to_owned().concat(resource.as_str());
    match sub_resource {
        Some(sub) => base.concat("/").concat(sub.as_str()),
        None => base,
    }
}

} // verus!
