use curiefense::config::{Config, ContentFilterProfile, SecurityPolicy};
use curiefense::grasshopper::{
    challenge_phase01, challenge_phase02, gh_fail_decision, DummyGrasshopper, GHMode,
    Grasshopper, InputData, OutputData, PrecisionLevel,
};
use curiefense::inspect_generic_request_map_init;
use curiefense::interface::BlockReason;
use curiefense::requestfields::RequestField;
use curiefense::strutil::replace_char;
use curiefense::utils::{RawRequest, RequestMeta};
use curiefense::wire::{encode_fields, encode_query};

const PHASE02_PREFIX: &str = "/7060ac19f50208cbb6b45328ef94140a612ee92387e015594234077b4d1e64f1/";

/// A capability that accepts exactly one decoded token for `is_human` and
/// one proof for `verify_challenge`.
struct ScriptedCapability {
    accepted_cookie: String,
    minted_token: String,
}

impl Grasshopper for ScriptedCapability {
    fn is_human(&self, input: InputData<'_>, _mode: GHMode) -> Result<OutputData, String> {
        match input.cookies.get("rbzid") {
            Some(v) if v == self.accepted_cookie => Ok(OutputData {
                precision_level: PrecisionLevel::Active,
                str_response: "challenge-page".to_string(),
                headers: vec![("Content-Type".to_string(), "text/html".to_string())],
            }),
            _ => Ok(OutputData {
                precision_level: PrecisionLevel::Invalid,
                str_response: String::new(),
                headers: Vec::new(),
            }),
        }
    }

    fn verify_challenge(&self, headers: &RequestField) -> Result<String, String> {
        if headers.get("user-agent").is_some() {
            Ok(self.minted_token.clone())
        } else {
            Err("no user agent".to_string())
        }
    }
}

fn one_policy_config() -> Config {
    Config {
        revision: "rev-1".to_string(),
        policies: vec![SecurityPolicy {
            name: "default".to_string(),
            host: "example.com".to_string(),
            path_prefix: "/".to_string(),
            content_filter_profile: ContentFilterProfile { max_body_size: 1000, max_body_depth: 5 },
        }],
        content_filter_profiles: vec![],
        flows: vec![],
    }
}

fn raw_request(host: &str, path: &str, headers: Vec<(&str, &str)>) -> RawRequest {
    let mut hf = RequestField::new();
    for (k, v) in headers {
        hf.add(k.to_string(), v.to_string());
    }
    RawRequest {
        ipstr: "203.0.113.7".to_string(),
        headers: hf,
        mbody: None,
        meta: RequestMeta {
            authority: Some(host.to_string()),
            method: "GET".to_string(),
            path: path.to_string(),
            protocol: "HTTP/1.1".to_string(),
        },
    }
}

fn fields(pairs: Vec<(&str, &str)>) -> RequestField {
    let mut f = RequestField::new();
    for (k, v) in pairs {
        f.add(k.to_string(), v.to_string());
    }
    f
}

#[test]
fn cookie_value_round_trip() {
    let token = "AB=CD==";
    let encoded = replace_char(token, '=', "-");
    assert_eq!(encoded, "AB-CD--");
    let decoded = replace_char(encoded.as_str(), '-', "=");
    assert_eq!(decoded, token);
}

#[test]
fn verified_cookie_sets_flag() {
    let cfg = one_policy_config();
    let gh = ScriptedCapability {
        accepted_cookie: "AB=CD".to_string(),
        minted_token: String::new(),
    };
    // the cookie carries the folded form; the check must decode it back
    let raw = raw_request(
        "example.com",
        "/",
        vec![("user-agent", "test-agent"), ("cookie", "rbzid=AB-CD")],
    );
    match inspect_generic_request_map_init(&cfg, Some(&gh), &raw) {
        Ok(p0) => {
            assert!(p0.is_human);
            assert!(p0.itags.contains("human"));
        }
        Err(_) => panic!("a verified request must not be answered with a decision"),
    }
}

#[test]
fn wrong_cookie_leaves_flag_down() {
    let cfg = one_policy_config();
    let gh = ScriptedCapability {
        accepted_cookie: "AB=CD".to_string(),
        minted_token: String::new(),
    };
    let raw = raw_request(
        "example.com",
        "/",
        vec![("user-agent", "test-agent"), ("cookie", "rbzid=XX-YY")],
    );
    match inspect_generic_request_map_init(&cfg, Some(&gh), &raw) {
        Ok(p0) => assert!(!p0.is_human),
        Err(_) => panic!("expected a handoff"),
    }
}

#[test]
fn phase02_mints_cookie() {
    let gh = ScriptedCapability {
        accepted_cookie: String::new(),
        minted_token: "tok=1".to_string(),
    };
    let headers = fields(vec![("user-agent", "test-agent"), ("x-zebra-proof", "work")]);
    let out = challenge_phase02(&gh, PHASE02_PREFIX, &headers);
    let decision = out.expect("a phase-02 decision");
    let action = decision.maction.expect("a phase-02 action");
    assert_eq!(action.status, 248);
    assert!(action.block_mode);
    assert_eq!(action.content, "{}");
    let hdrs = action.headers.expect("response headers");
    assert_eq!(hdrs.len(), 1);
    assert_eq!(hdrs[0].0, "Set-Cookie");
    assert_eq!(hdrs[0].1, "rbzid=tok-1; Path=/; HttpOnly");
    let tags = action.extra_tags.expect("extra tags");
    assert!(tags.contains(&"challenge_phase02".to_string()));
    assert_eq!(decision.reasons.len(), 1);
    assert!(matches!(decision.reasons[0], BlockReason::Phase02));
}

#[test]
fn phase02_inapplicable_paths() {
    let gh = ScriptedCapability {
        accepted_cookie: String::new(),
        minted_token: "tok".to_string(),
    };
    let full = fields(vec![("user-agent", "ua"), ("x-zebra-proof", "work")]);
    // path outside the reserved namespace
    assert!(challenge_phase02(&gh, "/ordinary/path", &full).is_none());
    // no user-agent
    let no_ua = fields(vec![("x-zebra-proof", "work")]);
    assert!(challenge_phase02(&gh, PHASE02_PREFIX, &no_ua).is_none());
    // no proof header
    let no_proof = fields(vec![("user-agent", "ua")]);
    assert!(challenge_phase02(&gh, PHASE02_PREFIX, &no_proof).is_none());
}

#[test]
fn phase02_applies_under_the_namespace() {
    let gh = ScriptedCapability {
        accepted_cookie: String::new(),
        minted_token: "abc".to_string(),
    };
    let headers = fields(vec![("user-agent", "ua"), ("x-zebra-proof", "work")]);
    let mut uri = PHASE02_PREFIX.to_string();
    uri.push_str("verify");
    let out = challenge_phase02(&gh, uri.as_str(), &headers);
    assert_eq!(out.expect("a decision").maction.expect("an action").status, 248);
}

#[test]
fn phase02_never_fires_without_capability() {
    let gh = DummyGrasshopper {};
    let headers = fields(vec![("user-agent", "ua"), ("x-zebra-proof", "work")]);
    assert!(challenge_phase02(&gh, PHASE02_PREFIX, &headers).is_none());
}

#[test]
fn phase01_carries_capability_payload() {
    let gh = ScriptedCapability {
        accepted_cookie: String::new(),
        minted_token: String::new(),
    };
    let reasons = vec![BlockReason::phase02()];
    let decision = challenge_phase01(&gh, "test-agent", reasons);
    let action = decision.maction.expect("a challenge action");
    assert_eq!(action.status, 247);
    assert!(action.block_mode);
    // the body and headers are exactly what the capability prescribed
    assert_eq!(action.content, "");
    assert_eq!(action.headers.expect("headers").len(), 0);
    let tags = action.extra_tags.expect("extra tags");
    assert!(tags.contains(&"challenge_phase01".to_string()));
    assert_eq!(decision.reasons.len(), 1);
}

#[test]
fn phase01_failure_fails_closed() {
    let gh = DummyGrasshopper {};
    let decision = challenge_phase01(&gh, "test-agent", Vec::new());
    let action = decision.maction.expect("the fail-closed action");
    assert_eq!(action.status, 500);
    assert!(action.block_mode);
    assert_eq!(action.content, "internal_error");
    assert_eq!(decision.reasons.len(), 1);
    match &decision.reasons[0] {
        BlockReason::Phase01Unknown { explanation } => {
            assert_eq!(explanation, "not implemented")
        }
        other => panic!("wrong reason: {:?}", other),
    }
}

#[test]
fn fail_decision_shape() {
    let d = gh_fail_decision("boom");
    let action = d.maction.expect("the fail-closed action");
    assert_eq!(action.status, 500);
    assert!(action.block_mode);
    assert_eq!(action.content, "internal_error");
    assert!(action.headers.is_none());
    match &d.reasons[0] {
        BlockReason::Phase01Unknown { explanation } => assert_eq!(explanation, "boom"),
        other => panic!("wrong reason: {:?}", other),
    }
}

#[test]
fn stub_capability_fails_with_not_implemented() {
    let gh = DummyGrasshopper {};
    let headers = fields(vec![("user-agent", "ua")]);
    let cookies = RequestField::new();
    let input = InputData {
        headers: &headers,
        cookies: &cookies,
        ip: "1.2.3.4",
        protocol: "HTTP/1.1",
    };
    assert_eq!(gh.is_human(input, GHMode::Passive).unwrap_err(), "not implemented");
    assert_eq!(gh.verify_challenge(&headers).unwrap_err(), "not implemented");
}

#[test]
fn precision_levels() {
    assert!(PrecisionLevel::Active.is_human());
    assert!(PrecisionLevel::Passive.is_human());
    assert!(PrecisionLevel::Interactive.is_human());
    assert!(PrecisionLevel::MobileSdk.is_human());
    assert!(!PrecisionLevel::Invalid.is_human());
}

#[test]
fn query_encoding_is_exact() {
    let headers = fields(vec![("a", "b")]);
    let cookies = RequestField::new();
    let input = InputData {
        headers: &headers,
        cookies: &cookies,
        ip: "1.2.3.4",
        protocol: "HTTP/1.1",
    };
    let encoded = encode_query(&input);
    assert_eq!(
        encoded,
        "{\"headers\":{\"a\":\"b\"},\"cookies\":{},\"ip\":\"1.2.3.4\",\"protocol\":\"HTTP/1.1\"}"
    );
}

#[test]
fn query_encoding_escapes() {
    let headers = fields(vec![("k\"ey", "va\\lue"), ("ctl", "a\nb\u{0}c")]);
    let encoded = encode_fields(&headers);
    assert_eq!(
        encoded,
        "{\"k\\\"ey\":\"va\\\\lue\",\"ctl\":\"a\\u000ab\\u0000c\"}"
    );
    // in particular the encoding never contains a raw NUL
    assert!(!encoded.contains('\u{0}'));
}
