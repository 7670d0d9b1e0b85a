use beacon_skill::{heartbeat_verdict, register_verdict, relay_verdict, RelayReply, SeoInfo};

fn reply(ok: Option<bool>, error: Option<&str>) -> RelayReply {
    RelayReply { ok, error: error.map(|e| e.to_string()) }
}

#[test]
fn reply_with_ok_true_is_accepted() {
    assert_eq!(register_verdict(&reply(Some(true), None)), Ok(()));
    assert_eq!(heartbeat_verdict(&reply(Some(true), Some("ignored"))), Ok(()));
}

#[test]
fn reply_with_ok_false_is_rejected_with_its_error() {
    assert_eq!(
        register_verdict(&reply(Some(false), Some("name taken"))),
        Err("name taken".to_string())
    );
    assert_eq!(
        heartbeat_verdict(&reply(Some(false), Some("bad token"))),
        Err("bad token".to_string())
    );
}

#[test]
fn rejection_without_error_uses_the_fallback() {
    assert_eq!(register_verdict(&reply(Some(false), None)), Err("unknown error".to_string()));
    assert_eq!(heartbeat_verdict(&reply(None, None)), Err("unknown".to_string()));
    assert_eq!(relay_verdict(&reply(None, None), "nope"), Err("nope".to_string()));
}

#[test]
fn reply_without_boolean_ok_is_rejected() {
    assert_eq!(register_verdict(&reply(None, Some("no ok"))), Err("no ok".to_string()));
}

#[test]
fn seo_info_defaults_are_empty() {
    let info = SeoInfo::default();
    assert_eq!(info.profile_url, "");
    assert!(!info.dofollow);
}
