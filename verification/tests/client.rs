use beacon_skill::RelayClient;

#[test]
fn test_client_creation() {
    let client = RelayClient::new("https://rustchain.org");
    assert_eq!(client.base_url(), "https://rustchain.org");
}

#[test]
fn test_client_strips_trailing_slash() {
    let client = RelayClient::new("https://rustchain.org/");
    assert_eq!(client.base_url(), "https://rustchain.org");
}

#[test]
fn client_strips_every_trailing_slash() {
    let client = RelayClient::new("https://rustchain.org///");
    assert_eq!(client.base_url(), "https://rustchain.org");
}

#[test]
fn client_keeps_inner_slashes() {
    let client = RelayClient::new("http://host/relay/v1/");
    assert_eq!(client.base_url(), "http://host/relay/v1");
}

#[test]
fn client_of_only_slashes_is_empty() {
    let client = RelayClient::new("///");
    assert_eq!(client.base_url(), "");
    let empty = RelayClient::new("");
    assert_eq!(empty.base_url(), "");
}

#[test]
fn client_normalising_twice_changes_nothing() {
    let once = RelayClient::new("https://rustchain.org//");
    let twice = RelayClient::new(once.base_url());
    assert_eq!(once.base_url(), twice.base_url());
}

#[test]
fn client_non_ascii_base_is_trimmed_by_characters() {
    let client = RelayClient::new("https://bücher.example/é/");
    assert_eq!(client.base_url(), "https://bücher.example/é");
}

#[test]
fn endpoint_addresses() {
    let client = RelayClient::new("https://rustchain.org/");
    assert_eq!(client.register_url(), "https://rustchain.org/beacon/relay/register");
    assert_eq!(client.heartbeat_url(), "https://rustchain.org/beacon/relay/heartbeat");
    assert_eq!(
        client.heartbeat_seo_url(),
        "https://rustchain.org/beacon/relay/heartbeat/seo"
    );
    assert_eq!(
        client.seo_stats_url("bcn_sophia_elya"),
        "https://rustchain.org/beacon/relay/seo/stats/bcn_sophia_elya"
    );
    assert_eq!(client.seo_report_url(), "https://rustchain.org/beacon/relay/seo/report");
    assert_eq!(client.discover_url(false), "https://rustchain.org/beacon/relay/discover");
    assert_eq!(
        client.discover_url(true),
        "https://rustchain.org/beacon/relay/discover?include_dead=true"
    );
    assert_eq!(
        client.agent_profile_json_url("missing"),
        "https://rustchain.org/beacon/agent/missing.json"
    );
    assert_eq!(
        client.agent_profile_xml_url("private"),
        "https://rustchain.org/beacon/agent/private.xml"
    );
    assert_eq!(client.llms_txt_url(), "https://rustchain.org/beacon/llms.txt");
}
