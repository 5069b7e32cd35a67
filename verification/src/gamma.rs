//! Read-only market-metadata records: plain request and response shapes
//! for the teams, sports and tags listings. These mirror the REST API
//! and carry no invariants; timestamps travel as Unix seconds.

use vstd::prelude::*;

verus! {

/// Filters and paging of the teams listing.
#[derive(Clone, Debug, Default)]
pub struct ListTeamsRequest {
    pub limit: Option<u32>,
    pub offset: Option<u32>,
    /// Comma-separated list of fields to order by.
    pub order: Option<String>,
    pub ascending: Option<bool>,
    pub league: Option<Vec<String>>,
    pub name: Option<Vec<String>>,
    pub abbreviation: Option<Vec<String>>,
}

/// One listed team.
#[derive(Clone, Debug, PartialEq)]
pub struct ListedTeam {
    pub id: u32,
    pub name: Option<String>,
    pub league: Option<String>,
    pub record: Option<String>,
    pub logo: Option<String>,
    pub abbreviation: Option<String>,
    pub alias: Option<String>,
    /// Unix seconds.
    pub created_at: Option<i64>,
    /// Unix seconds.
    pub updated_at: Option<i64>,
}

pub type ListTeamsResponse = Vec<ListedTeam>;

/// One sport's metadata row.
#[derive(Clone, Debug, PartialEq)]
pub struct Sport {
    pub sport: String,
    pub image: String,
    pub resolution: String,
    pub ordering: String,
    pub tags: String,
    pub series: String,
}

pub type SportsMetadataResponse = Vec<Sport>;

/// The market types a sport offers.
#[derive(Clone, Debug, PartialEq)]
pub struct SportsMarketTypesResponse {
    pub market_types: Vec<String>,
}

/// Filters and paging of the tags listing.
#[derive(Clone, Debug, Default)]
pub struct TagsRequest {
    pub limit: Option<u64>,
    pub offset: Option<u64>,
    /// Comma-separated list of fields to order by.
    pub order: Option<String>,
    pub ascending: Option<bool>,
    pub include_template: Option<bool>,
    pub is_carousel: Option<bool>,
}

/// One tag.
#[derive(Clone, Debug, PartialEq)]
pub struct Tag {
    pub id: String,
    pub label: Option<String>,
    pub slug: Option<String>,
    pub force_show: Option<bool>,
    pub published_at: Option<String>,
    pub created_by: Option<i64>,
    pub updated_by: Option<i64>,
    /// Unix seconds.
    pub created_at: Option<i64>,
    /// Unix seconds.
    pub updated_at: Option<i64>,
    pub force_hide: Option<bool>,
    pub is_carousel: Option<bool>,
}

/// A relation from one tag to another, with its rank.
#[derive(Clone, Debug, PartialEq)]
pub struct TagRelationship {
    pub id: String,
    pub tag_id: Option<i64>,
    pub related_tag_id: Option<u64>,
    pub rank: Option<u64>,
}

/// Which related tags a lookup asks for.
#[derive(Clone, Copy, Debug, PartialEq, Eq, Structural)]
pub enum RelatedTagsStatus {
    Active,
    Closed,
    All,
}

/// A related-tags lookup by numeric tag id.
#[derive(Clone, Debug)]
pub struct RelatedTagsByIdRequest {
    pub id: u64,
    pub omit_empty: Option<bool>,
    pub status: Option<RelatedTagsStatus>,
}

/// A related-tags lookup by tag slug.
#[derive(Clone, Debug)]
pub struct RelatedTagsBySlugRequest {
    pub slug: String,
    pub omit_empty: Option<bool>,
    pub status: Option<RelatedTagsStatus>,
}

} // verus!
