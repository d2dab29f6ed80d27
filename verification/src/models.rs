//! Rows of the database tables and the bodies of the HTTP responses.

use vstd::prelude::*;

verus! {

/// A row of the `players` table.
#[derive(Clone, Debug)]
pub struct PlayerRecord {
    pub player_uuid: String,
    pub name: String,
}

/// A row of the `stat_categories` table.
#[derive(Clone, Debug)]
pub struct StatCategoryRecord {
    pub id: i32,
    pub name: String,
}

/// A row of the `player_stats` table.
#[derive(Clone, Debug)]
pub struct PlayerStatRecord {
    pub player_uuid: String,
    pub stat_categories_id: i32,
    pub stat_name: String,
    pub value: i32,
}

/// A row of the `items` table.
#[derive(Clone, Debug)]
pub struct ItemRecord {
    pub id: i32,
    pub name: String,
}

/// The statistics of one category.
pub struct CategoryStatsResponse {
    pub category: StatCategoryRecord,
    pub stats: Vec<PlayerStatRecord>,
}

/// The statistics of one player.
pub struct PlayerStatsResponse {
    pub player_uuid: String,
    pub stats: Vec<PlayerStatRecord>,
}

} // verus!
