//! The relay client: its normalised base URL and the address of each
//! relay endpoint.

use crate::text::{joined, lemma_trim_shape, trim_end_slashes, trim_trailing_slashes};
use vstd::prelude::*;
use vstd::string::StringExecFns;

verus! {

/// Beacon Atlas relay client.
///
/// Holds the relay's base URL with every trailing `'/'` removed; every
/// endpoint address is that base followed by the endpoint's path.
pub struct RelayClient {
    base_url: String,
}

impl View for RelayClient {
    type V = Seq<char>;

    /// The base URL.
    closed spec fn view(&self) -> Seq<char> {
        self.base_url@
    }
}

/// `base` followed by the path `path`.
pub open spec fn endpoint(base: Seq<char>, path: Seq<char>) -> Seq<char> {
    base + path
}

/// The address of the discovery endpoint, with the `include_dead` query when asked.
pub open spec fn discover_endpoint(base: Seq<char>, include_dead: bool) -> Seq<char> {
    if include_dead {
        base + "/beacon/relay/discover?include_dead=true"@
    } else {
        base + "/beacon/relay/discover"@
    }
}

/// Every endpoint address begins with the base URL and continues with the
/// endpoint's path, character for character.
pub proof fn lemma_endpoint_extends_base(base: Seq<char>, path: Seq<char>)
    ensures
        endpoint(base, path).len() == base.len() + path.len(),
        endpoint(base, path).subrange(0, base.len() as int) == base,
        forall|i: int| 0 <= i < path.len() ==> #[trigger] endpoint(base, path)[base.len() + i] == path[i],
{
    assert(endpoint(base, path).subrange(0, base.len() as int) =~= base);
}

/// Asking to include dead agents adds exactly the query
/// `?include_dead=true` to the plain discovery address, for every base.
pub proof fn lemma_discover_include_dead_adds_query(base: Seq<char>)
    ensures
        discover_endpoint(base, true) == discover_endpoint(base, false) + "?include_dead=true"@,
        discover_endpoint(base, false) == base + "/beacon/relay/discover"@,
{
    reveal_strlit("/beacon/relay/discover?include_dead=true");
    reveal_strlit("/beacon/relay/discover");
    reveal_strlit("?include_dead=true");
    assert("/beacon/relay/discover?include_dead=true"@ =~= "/beacon/relay/discover"@ + "?include_dead=true"@);
    assert(discover_endpoint(base, true) =~= discover_endpoint(base, false) + "?include_dead=true"@);
}

impl RelayClient {
    /// Creates a client for the relay at `base_url` (default relay:
    /// `https://rustchain.org`). Every trailing `'/'` is removed, so the
    /// stored base never ends in `'/'` and what was cut off was only `'/'`.
    pub fn new(base_url: &str) -> (client: Self)
        ensures
            client@ == trim_trailing_slashes(base_url@),
            client@.len() <= base_url@.len(),
            client@ =~= base_url@.subrange(0, client@.len() as int),
            client@.len() == 0 || client@.last() != '/',
            forall|i: int| client@.len() <= i < base_url@.len() ==> #[trigger] base_url@[i] == '/',
    {
        proof {
            lemma_trim_shape(base_url@);
        }
        RelayClient { base_url: trim_end_slashes(base_url) }
    }

    /// The normalised base URL.
    pub fn base_url(&self) -> (url: &str)
        ensures
            url@ == self@,
    {
        self.base_url.as_str()
    }

    /// `{base}/beacon/relay/register`
    pub fn register_url(&self) -> (url: String)
        ensures
            url@ == endpoint(self@, "/beacon/relay/register"@),
            url@ == self@ + "/beacon/relay/register"@,
    {
        joined(self.base_url.as_str(), "/beacon/relay/register")
    }

    /// `{base}/beacon/relay/heartbeat`
    pub fn heartbeat_url(&self) -> (url: String)
        ensures
            url@ == endpoint(self@, "/beacon/relay/heartbeat"@),
            url@ == self@ + "/beacon/relay/heartbeat"@,
    {
        joined(self.base_url.as_str(), "/beacon/relay/heartbeat")
    }

    /// `{base}/beacon/relay/heartbeat/seo`
    pub fn heartbeat_seo_url(&self) -> (url: String)
        ensures
            url@ == endpoint(self@, "/beacon/relay/heartbeat/seo"@),
            url@ == self@ + "/beacon/relay/heartbeat/seo"@,
    {
        joined(self.base_url.as_str(), "/beacon/relay/heartbeat/seo")
    }

    /// `{base}/beacon/relay/seo/stats/{agent_id}`
    pub fn seo_stats_url(&self, agent_id: &str) -> (url: String)
        ensures
            url@ == endpoint(self@, "/beacon/relay/seo/stats/"@ + agent_id@),
            url@ == self@ + "/beacon/relay/seo/stats/"@ + agent_id@,
    {
        let mut url = joined(self.base_url.as_str(), "/beacon/relay/seo/stats/");
        url.append(agent_id);
        url
    }

    /// `{base}/beacon/relay/seo/report`
    pub fn seo_report_url(&self) -> (url: String)
        ensures
            url@ == endpoint(self@, "/beacon/relay/seo/report"@),
            url@ == self@ + "/beacon/relay/seo/report"@,
    {
        joined(self.base_url.as_str(), "/beacon/relay/seo/report")
    }

    /// `{base}/beacon/relay/discover`, with `?include_dead=true` when
    /// `include_dead` holds.
    pub fn discover_url(&self, include_dead: bool) -> (url: String)
        ensures
            url@ == discover_endpoint(self@, include_dead),
            include_dead ==> url@ == self@ + "/beacon/relay/discover?include_dead=true"@,
            !include_dead ==> url@ == self@ + "/beacon/relay/discover"@,
    {
        if include_dead {
            joined(self.base_url.as_str(), "/beacon/relay/discover?include_dead=true")
        } else {
            joined(self.base_url.as_str(), "/beacon/relay/discover")
        }
    }

    /// `{base}/beacon/agent/{agent_id}.json`
    pub fn agent_profile_json_url(&self, agent_id: &str) -> (url: String)
        ensures
            url@ == endpoint(self@, "/beacon/agent/"@ + agent_id@ + ".json"@),
            url@ == self@ + "/beacon/agent/"@ + agent_id@ + ".json"@,
    {
        let mut url = joined(self.base_url.as_str(), "/beacon/agent/");
        url.append(agent_id);
        url.append(".json");
        url
    }

    /// `{base}/beacon/agent/{agent_id}.xml`
    pub fn agent_profile_xml_url(&self, agent_id: &str) -> (url: String)
        ensures
            url@ == endpoint(self@, "/beacon/agent/"@ + agent_id@ + ".xml"@),
            url@ == self@ + "/beacon/agent/"@ + agent_id@ + ".xml"@,
    {
        let mut url = joined(self.base_url.as_str(), "/beacon/agent/");
        url.append(agent_id);
        url.append(".xml");
        url
    }

    /// `{base}/beacon/llms.txt`
    pub fn llms_txt_url(&self) -> (url: String)
        ensures
            url@ == endpoint(self@, "/beacon/llms.txt"@),
            url@ == self@ + "/beacon/llms.txt"@,
    {
        joined(self.base_url.as_str(), "/beacon/llms.txt")
    }
}

} // verus!
