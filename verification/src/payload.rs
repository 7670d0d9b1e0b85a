//! The bodies that registration and heartbeats send, and the requests
//! that carry them.

use crate::client::{endpoint, RelayClient};
use crate::pubkey::{agent_pubkey, derive_pubkey, hex_lower, is_lower_hex, key_seed, sha256};
use vstd::utf8::encode_utf8;
use vstd::prelude::*;
use vstd::string::StringExecFns;

verus! {

/// The registration body: a JSON object with the keys `pubkey_hex`,
/// `model_id`, `provider`, `capabilities` and `name`.
pub struct RegisterPayload {
    pub pubkey_hex: String,
    pub model_id: String,
    pub provider: String,
    pub capabilities: Vec<String>,
    pub name: String,
}

/// What a registration body holds, as text.
pub struct RegisterBody {
    pub pubkey_hex: Seq<char>,
    pub model_id: Seq<char>,
    pub provider: Seq<char>,
    pub capabilities: Seq<Seq<char>>,
    pub name: Seq<char>,
}

impl View for RegisterPayload {
    type V = RegisterBody;

    open spec fn view(&self) -> RegisterBody {
        RegisterBody {
            pubkey_hex: self.pubkey_hex@,
            model_id: self.model_id@,
            provider: self.provider@,
            capabilities: self.capabilities@.map_values(|c: String| c@),
            name: self.name@,
        }
    }
}

/// The registration body for an agent: its derived key, the model id
/// `rust-native`, and the provider, capabilities and name as given.
pub open spec fn register_body(name: Seq<char>, provider: Seq<char>, capabilities: Seq<Seq<char>>) -> RegisterBody {
    RegisterBody {
        pubkey_hex: agent_pubkey(name),
        model_id: "rust-native"@,
        provider,
        capabilities,
        name,
    }
}

/// The heartbeat body: a JSON object with the keys `agent_id` and
/// `status`, and `seo_url` and `seo_description` only when present.
pub struct HeartbeatPayload {
    pub agent_id: String,
    pub status: String,
    pub seo_url: Option<String>,
    pub seo_description: Option<String>,
}

/// What a heartbeat body holds, as text.
pub struct HeartbeatBody {
    pub agent_id: Seq<char>,
    pub status: Seq<char>,
    pub seo_url: Option<Seq<char>>,
    pub seo_description: Option<Seq<char>>,
}

/// The text of an optional string.
pub open spec fn opt_text(o: Option<String>) -> Option<Seq<char>> {
    match o {
        Some(s) => Some(s@),
        None => None,
    }
}

/// The text of an optional string slice.
pub open spec fn opt_str_text(o: Option<&str>) -> Option<Seq<char>> {
    match o {
        Some(s) => Some(s@),
        None => None,
    }
}

impl View for HeartbeatPayload {
    type V = HeartbeatBody;

    open spec fn view(&self) -> HeartbeatBody {
        HeartbeatBody {
            agent_id: self.agent_id@,
            status: self.status@,
            seo_url: opt_text(self.seo_url),
            seo_description: opt_text(self.seo_description),
        }
    }
}

/// The SEO heartbeat body: the agent, status `alive`, and the SEO URL and
/// description where they are given.
pub open spec fn heartbeat_seo_body(
    agent_id: Seq<char>,
    seo_url: Option<Seq<char>>,
    seo_description: Option<Seq<char>>,
) -> HeartbeatBody {
    HeartbeatBody { agent_id, status: "alive"@, seo_url, seo_description }
}

/// The standard heartbeat body: the agent and status `alive`.
pub open spec fn heartbeat_body(agent_id: Seq<char>) -> HeartbeatBody {
    HeartbeatBody { agent_id, status: "alive"@, seo_url: None, seo_description: None }
}

/// A registration request: where it is posted and what it carries.
pub struct RegisterRequest {
    pub url: String,
    pub payload: RegisterPayload,
}

/// A heartbeat request: where it is posted, the bearer token it is
/// authorised with, and what it carries.
pub struct HeartbeatRequest {
    pub url: String,
    pub token: String,
    pub payload: HeartbeatPayload,
}

fn own_optional(o: Option<&str>) -> (r: Option<String>)
    ensures
        opt_text(r) == opt_str_text(o),
{
    match o {
        Some(s) => Some(String::from_str(s)),
        None => None,
    }
}

impl RelayClient {
    /// The request that registers an agent: posted to
    /// `{base}/beacon/relay/register`, with a body whose key is derived
    /// from the name alone.
    pub fn register_request(&self, name: &str, provider: &str, capabilities: &[&str]) -> (req:
        RegisterRequest)
        ensures
            req.url@ == endpoint(self@, "/beacon/relay/register"@),
            req.url@ == self@ + "/beacon/relay/register"@,
            req.payload@ == register_body(
                name@,
                provider@,
                capabilities@.map_values(|c: &str| c@),
            ),
            req.payload.pubkey_hex@ == hex_lower(sha256(encode_utf8(key_seed(name@)))),
            req.payload.pubkey_hex@ == hex_lower(sha256(encode_utf8("beacon-rust-agent-"@ + name@))),
            req.payload.model_id@ == "rust-native"@,
            req.payload.provider@ == provider@,
            req.payload.name@ == name@,
            req.payload.capabilities@.len() == capabilities@.len(),
            forall|i: int|
                0 <= i < capabilities@.len() ==> #[trigger] req.payload.capabilities@[i]@
                    == capabilities@[i]@,
            sha256(encode_utf8(key_seed(name@))).len() == 32,
            req.payload.pubkey_hex@.len() == 64,
            forall|i: int| 0 <= i < 64 ==> is_lower_hex(#[trigger] req.payload.pubkey_hex@[i]),
    {
        let pubkey_hex = derive_pubkey(name);
        let mut caps: Vec<String> = Vec::new();
        let n = capabilities.len();
        for i in 0..n
            invariant
                n == capabilities@.len(),
                caps@.len() == i,
                forall|j: int| 0 <= j < i ==> #[trigger] caps@[j]@ == capabilities@[j]@,
        {
            caps.push(String::from_str(capabilities[i]));
        }
        let payload = RegisterPayload {
            pubkey_hex,
            model_id: String::from_str("rust-native"),
            provider: String::from_str(provider),
            capabilities: caps,
            name: String::from_str(name),
        };
        assert(payload@.capabilities =~= capabilities@.map_values(|c: &str| c@));
        RegisterRequest { url: self.register_url(), payload }
    }

    /// The standard heartbeat: posted to `{base}/beacon/relay/heartbeat`
    /// with bearer `token`, reporting the agent `alive`.
    pub fn heartbeat_request(&self, agent_id: &str, token: &str) -> (req: HeartbeatRequest)
        ensures
            req.url@ == endpoint(self@, "/beacon/relay/heartbeat"@),
            req.url@ == self@ + "/beacon/relay/heartbeat"@,
            req.token@ == token@,
            req.payload@ == heartbeat_body(agent_id@),
            req.payload.agent_id@ == agent_id@,
            req.payload.status@ == "alive"@,
            req.payload.seo_url is None,
            req.payload.seo_description is None,
    {
        let payload = HeartbeatPayload {
            agent_id: String::from_str(agent_id),
            status: String::from_str("alive"),
            seo_url: None,
            seo_description: None,
        };
        HeartbeatRequest { url: self.heartbeat_url(), token: String::from_str(token), payload }
    }

    /// The SEO heartbeat: posted to `{base}/beacon/relay/heartbeat/seo`
    /// with bearer `token`, carrying the SEO URL (for a dofollow backlink)
    /// and description exactly when they are given.
    pub fn heartbeat_seo_request(
        &self,
        agent_id: &str,
        token: &str,
        seo_url: Option<&str>,
        seo_description: Option<&str>,
    ) -> (req: HeartbeatRequest)
        ensures
            req.url@ == endpoint(self@, "/beacon/relay/heartbeat/seo"@),
            req.url@ == self@ + "/beacon/relay/heartbeat/seo"@,
            req.token@ == token@,
            req.payload@ == heartbeat_seo_body(
                agent_id@,
                opt_str_text(seo_url),
                opt_str_text(seo_description),
            ),
            req.payload.agent_id@ == agent_id@,
            req.payload.status@ == "alive"@,
            opt_text(req.payload.seo_url) == opt_str_text(seo_url),
            opt_text(req.payload.seo_description) == opt_str_text(seo_description),
    {
        let payload = HeartbeatPayload {
            agent_id: String::from_str(agent_id),
            status: String::from_str("alive"),
            seo_url: own_optional(seo_url),
            seo_description: own_optional(seo_description),
        };
        HeartbeatRequest { url: self.heartbeat_seo_url(), token: String::from_str(token), payload }
    }
}

/// A registration body carries the agent's key, the model id
/// `rust-native`, and the provider, the whole capability list (in order) and
/// the name exactly as given.
pub proof fn lemma_register_body_fields(
    name: Seq<char>,
    provider: Seq<char>,
    capabilities: Seq<Seq<char>>,
)
    ensures
        register_body(name, provider, capabilities).pubkey_hex == agent_pubkey(name),
        register_body(name, provider, capabilities).model_id == "rust-native"@,
        register_body(name, provider, capabilities).provider == provider,
        register_body(name, provider, capabilities).capabilities.len() == capabilities.len(),
        forall|i: int|
            0 <= i < capabilities.len() ==> #[trigger] register_body(
                name,
                provider,
                capabilities,
            ).capabilities[i] == capabilities[i],
        register_body(name, provider, capabilities).name == name,
{
}

/// A heartbeat body names the agent exactly as given and reports it
/// `alive`; the plain heartbeat carries no SEO fields.
pub proof fn lemma_heartbeat_body_fields(agent_id: Seq<char>)
    ensures
        heartbeat_body(agent_id).agent_id == agent_id,
        heartbeat_body(agent_id).status == "alive"@,
        heartbeat_body(agent_id).seo_url is None,
        heartbeat_body(agent_id).seo_description is None,
{
}

/// An SEO heartbeat names the agent exactly as given, reports it `alive`,
/// and carries the SEO URL and the description each exactly as given,
/// independently of one another: changing one never changes the other.
pub proof fn lemma_heartbeat_seo_body_fields(
    agent_id: Seq<char>,
    seo_url: Option<Seq<char>>,
    other_url: Option<Seq<char>>,
    seo_description: Option<Seq<char>>,
    other_description: Option<Seq<char>>,
)
    ensures
        heartbeat_seo_body(agent_id, seo_url, seo_description).agent_id == agent_id,
        heartbeat_seo_body(agent_id, seo_url, seo_description).status == "alive"@,
        heartbeat_seo_body(agent_id, seo_url, seo_description).seo_url == seo_url,
        heartbeat_seo_body(agent_id, seo_url, seo_description).seo_description == seo_description,
        heartbeat_seo_body(agent_id, other_url, seo_description).seo_description
            == heartbeat_seo_body(agent_id, seo_url, seo_description).seo_description,
        heartbeat_seo_body(agent_id, seo_url, other_description).seo_url
            == heartbeat_seo_body(agent_id, seo_url, seo_description).seo_url,
{
}

/// The plain and the SEO heartbeat of one agent name the same agent.
pub proof fn lemma_heartbeats_name_same_agent(
    agent_id: Seq<char>,
    seo_url: Option<Seq<char>>,
    seo_description: Option<Seq<char>>,
)
    ensures
        heartbeat_body(agent_id).agent_id == heartbeat_seo_body(
            agent_id,
            seo_url,
            seo_description,
        ).agent_id,
{
}

/// An SEO heartbeat that gives neither an SEO URL nor a description
/// carries the same body as a standard heartbeat.
pub proof fn lemma_plain_seo_heartbeat_body(agent_id: Seq<char>)
    ensures
        heartbeat_seo_body(agent_id, None, None) == heartbeat_body(agent_id),
{
}

/// Two registrations under one name carry the same agent key, whatever
/// their provider and capabilities.
pub proof fn lemma_register_key_follows_name(
    name: Seq<char>,
    provider_a: Seq<char>,
    capabilities_a: Seq<Seq<char>>,
    provider_b: Seq<char>,
    capabilities_b: Seq<Seq<char>>,
)
    ensures
        register_body(name, provider_a, capabilities_a).pubkey_hex == register_body(
            name,
            provider_b,
            capabilities_b,
        ).pubkey_hex,
{
}

} // verus!
