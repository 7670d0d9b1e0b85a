//! The records the relay answers with.

use vstd::prelude::*;
use vstd::string::StringExecFns;

verus! {

/// Heartbeat response.
#[derive(Debug, Clone)]
pub struct Heartbeat {
    pub ok: bool,
    pub beat_count: u64,
    pub assessment: String,
    pub seo: SeoInfo,
}

/// SEO information returned with heartbeats.
#[derive(Debug, Clone)]
pub struct SeoInfo {
    pub profile_url: String,
    pub dofollow: bool,
}

impl Default for SeoInfo {
    /// No profile URL and no dofollow link.
    fn default() -> (info: Self)
        ensures
            info.profile_url@.len() == 0,
            !info.dofollow,
    {
        SeoInfo { profile_url: String::new(), dofollow: false }
    }
}

/// Agent SEO stats from `/relay/seo/stats/{id}`.
#[derive(Debug, Clone)]
pub struct SeoStats {
    pub agent_id: String,
    pub seo_grade: String,
    pub seo_score: u32,
    pub profiles: ProfileUrls,
    pub schema_org: bool,
    pub speakable_markup: bool,
    pub og_tags: bool,
    pub has_custom_seo_url: bool,
    pub enhancement_summary: String,
    pub recommendation: Option<String>,
}

/// Profile URLs in multiple formats.
#[derive(Debug, Clone)]
pub struct ProfileUrls {
    pub html: String,
    pub json: String,
    pub xml: String,
}

/// Aggregate SEO report from `/relay/seo/report`.
#[derive(Debug, Clone)]
pub struct SeoReport {
    pub total_agents: u32,
    pub native_agents: u32,
    pub relay_agents: u32,
    pub agents_with_custom_seo: u32,
    pub version: String,
}

/// Discovered agent from `/relay/discover`.
#[derive(Debug, Clone)]
pub struct DiscoveredAgent {
    pub agent_id: String,
    pub name: String,
    pub provider: String,
    pub status: String,
    pub beat_count: u64,
    pub capabilities: Vec<String>,
    pub profile_url: String,
    pub seo_url: String,
}

} // verus!
