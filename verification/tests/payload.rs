use beacon_skill::pubkey::derive_pubkey;
use beacon_skill::RelayClient;

#[test]
fn pubkey_is_sha256_hex_of_seed() {
    assert_eq!(
        derive_pubkey("MyAgent"),
        "991262906622be747b1de066172e696081a85ce93d7183df1f2a81fc9102bd13"
    );
    assert_eq!(
        derive_pubkey("MyCoolAgent"),
        "f9d794616164232392071245de69507e2ba08b350ba7ce3d2de17149b518b5cc"
    );
    assert_eq!(
        derive_pubkey(""),
        "2d908ec42b898d01d29238530c86710f848d13919dd547eab9f1b026453bf69e"
    );
}

#[test]
fn pubkey_is_sixty_four_lowercase_hex_digits() {
    let key = derive_pubkey("Sophia Elya");
    assert_eq!(key.chars().count(), 64);
    assert!(key.chars().all(|c| c.is_ascii_digit() || ('a'..='f').contains(&c)));
}

#[test]
fn pubkey_follows_the_name_only() {
    let client = RelayClient::new("https://rustchain.org");
    let a = client.register_request("MyAgent", "elyan", &["coding"]);
    let b = client.register_request("MyAgent", "other", &["analysis", "coding"]);
    let c = client.register_request("OtherAgent", "elyan", &["coding"]);
    assert_eq!(a.payload.pubkey_hex, b.payload.pubkey_hex);
    assert_ne!(a.payload.pubkey_hex, c.payload.pubkey_hex);
}

#[test]
fn register_request_carries_the_agent() {
    let client = RelayClient::new("https://rustchain.org/");
    let req = client.register_request("MyAgent", "elyan", &["coding", "analysis"]);
    assert_eq!(req.url, "https://rustchain.org/beacon/relay/register");
    assert_eq!(
        req.payload.pubkey_hex,
        "991262906622be747b1de066172e696081a85ce93d7183df1f2a81fc9102bd13"
    );
    assert_eq!(req.payload.model_id, "rust-native");
    assert_eq!(req.payload.provider, "elyan");
    assert_eq!(req.payload.capabilities, vec!["coding".to_string(), "analysis".to_string()]);
    assert_eq!(req.payload.name, "MyAgent");
}

#[test]
fn register_request_without_capabilities() {
    let client = RelayClient::new("https://rustchain.org");
    let req = client.register_request("MyAgent", "elyan", &[]);
    assert!(req.payload.capabilities.is_empty());
}

#[test]
fn heartbeat_request_reports_alive() {
    let client = RelayClient::new("https://rustchain.org");
    let req = client.heartbeat_request("bcn_test", "tok-123");
    assert_eq!(req.url, "https://rustchain.org/beacon/relay/heartbeat");
    assert_eq!(req.token, "tok-123");
    assert_eq!(req.payload.agent_id, "bcn_test");
    assert_eq!(req.payload.status, "alive");
    assert_eq!(req.payload.seo_url, None);
    assert_eq!(req.payload.seo_description, None);
}

#[test]
fn heartbeat_seo_request_carries_extras_when_given() {
    let client = RelayClient::new("https://rustchain.org");
    let req = client.heartbeat_seo_request(
        "bcn_test",
        "tok-123",
        Some("https://mycoolagent.dev"),
        Some("An agent that writes great code"),
    );
    assert_eq!(req.url, "https://rustchain.org/beacon/relay/heartbeat/seo");
    assert_eq!(req.token, "tok-123");
    assert_eq!(req.payload.agent_id, "bcn_test");
    assert_eq!(req.payload.status, "alive");
    assert_eq!(req.payload.seo_url.as_deref(), Some("https://mycoolagent.dev"));
    assert_eq!(
        req.payload.seo_description.as_deref(),
        Some("An agent that writes great code")
    );

    let only_url = client.heartbeat_seo_request("bcn_test", "tok", Some("https://a.dev"), None);
    assert_eq!(only_url.payload.seo_url.as_deref(), Some("https://a.dev"));
    assert_eq!(only_url.payload.seo_description, None);
}

#[test]
fn heartbeat_seo_without_extras_matches_plain_heartbeat_body() {
    let client = RelayClient::new("https://rustchain.org");
    let plain = client.heartbeat_request("bcn_test", "tok");
    let seo = client.heartbeat_seo_request("bcn_test", "tok", None, None);
    assert_eq!(plain.payload.agent_id, seo.payload.agent_id);
    assert_eq!(plain.payload.status, seo.payload.status);
    assert_eq!(plain.payload.seo_url, seo.payload.seo_url);
    assert_eq!(plain.payload.seo_description, seo.payload.seo_description);
    assert_ne!(plain.url, seo.url);
}
