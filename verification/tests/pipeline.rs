use curiefense::config::{Config, ContentFilterProfile, SecurityPolicy};
use curiefense::executor::{inspect_async_free, inspect_async_step, Executor, Progress};
use curiefense::grasshopper::DummyGrasshopper;
use curiefense::inspect_generic_request_map_init;
use curiefense::content_filter_check_generic_request_map;
use curiefense::interface::{Action, ActionType, BlockReason, Decision};
use curiefense::requestfields::RequestField;
use curiefense::utils::{map_request, RawRequest, RequestMeta};

fn profile(max_body_size: usize, max_body_depth: usize) -> ContentFilterProfile {
    ContentFilterProfile { max_body_size, max_body_depth }
}

fn one_policy_config(host: &str, prefix: &str, max_body_size: usize) -> Config {
    Config {
        revision: "rev-1".to_string(),
        policies: vec![SecurityPolicy {
            name: "default".to_string(),
            host: host.to_string(),
            path_prefix: prefix.to_string(),
            content_filter_profile: profile(max_body_size, 5),
        }],
        content_filter_profiles: vec![("default".to_string(), profile(1000, 5))],
        flows: vec!["flow-1".to_string()],
    }
}

fn raw_request(
    host: &str,
    path: &str,
    headers: Vec<(&str, &str)>,
    body: Option<Vec<u8>>,
) -> RawRequest {
    let mut hf = RequestField::new();
    for (k, v) in headers {
        hf.add(k.to_string(), v.to_string());
    }
    RawRequest {
        ipstr: "203.0.113.7".to_string(),
        headers: hf,
        mbody: body,
        meta: RequestMeta {
            authority: Some(host.to_string()),
            method: "GET".to_string(),
            path: path.to_string(),
            protocol: "HTTP/1.1".to_string(),
        },
    }
}

fn no_gh() -> Option<&'static DummyGrasshopper> {
    None
}

#[test]
fn unmatched_host_passes() {
    let cfg = one_policy_config("example.com", "/", 1000);
    let raw = raw_request("nope.example", "/anything", vec![], None);
    let out = inspect_generic_request_map_init(&cfg, no_gh(), &raw);
    match out {
        Err(res) => {
            assert!(res.decision.is_pass());
            assert!(res.decision.maction.is_none());
            assert!(res.decision.reasons.is_empty());
            assert!(res.tags.contains("all"));
        }
        Ok(_) => panic!("an unmatched request must pass immediately"),
    }
}

#[test]
fn unmatched_host_passes_regardless_of_body() {
    let cfg = one_policy_config("example.com", "/", 10);
    let raw = raw_request("nope.example", "/x", vec![], Some(vec![0u8; 100000]));
    let out = inspect_generic_request_map_init(&cfg, no_gh(), &raw);
    match out {
        Err(res) => assert!(res.decision.maction.is_none()),
        Ok(_) => panic!("an unmatched request must pass immediately"),
    }
}

#[test]
fn oversized_body_blocks() {
    let cfg = one_policy_config("example.com", "/", 1000);
    let raw = raw_request("example.com", "/upload", vec![], Some(vec![0u8; 10000]));
    let out = inspect_generic_request_map_init(&cfg, no_gh(), &raw);
    match out {
        Err(res) => {
            let action = res.decision.maction.expect("a block action");
            assert_eq!(action.status, 403);
            assert!(action.block_mode);
            assert!(matches!(action.atype, ActionType::Block));
            assert_eq!(res.decision.reasons.len(), 1);
            match &res.decision.reasons[0] {
                BlockReason::BodyTooLarge { allowed, actual } => {
                    assert_eq!(*allowed, 1000);
                    assert_eq!(*actual, 10000);
                }
                other => panic!("wrong reason: {:?}", other),
            }
            // no tag derived from body content: only the reserved tag
            assert!(res.tags.contains("all"));
            assert_eq!(res.tags.entries.len(), 1);
            // the body was not parsed
            assert_eq!(res.rinfo.body_depth, 0);
        }
        Ok(_) => panic!("an oversized body must block"),
    }
}

#[test]
fn all_tag_present_on_every_path() {
    let cfg = one_policy_config("example.com", "/", 1000);
    // no-policy path
    let raw1 = raw_request("other.example", "/", vec![], None);
    match inspect_generic_request_map_init(&cfg, no_gh(), &raw1) {
        Err(res) => assert!(res.tags.contains("all")),
        Ok(_) => panic!("expected an early exit"),
    }
    // body-too-large path
    let raw2 = raw_request("example.com", "/", vec![], Some(vec![1u8; 2000]));
    match inspect_generic_request_map_init(&cfg, no_gh(), &raw2) {
        Err(res) => assert!(res.tags.contains("all")),
        Ok(_) => panic!("expected an early exit"),
    }
    // handoff path, capability absent (treated as a capability failure)
    let raw3 = raw_request("example.com", "/", vec![], None);
    match inspect_generic_request_map_init(&cfg, no_gh(), &raw3) {
        Ok(p0) => assert!(p0.itags.contains("all")),
        Err(_) => panic!("expected a handoff"),
    }
}

#[test]
fn no_capability_means_not_verified() {
    let cfg = one_policy_config("example.com", "/", 1000);
    let raw = raw_request(
        "example.com",
        "/",
        vec![("user-agent", "test-agent"), ("cookie", "rbzid=AB-CD")],
        None,
    );
    match inspect_generic_request_map_init(&cfg, no_gh(), &raw) {
        Ok(p0) => {
            assert!(!p0.is_human);
            assert!(p0.itags.contains("bot"));
            assert!(!p0.itags.contains("human"));
        }
        Err(_) => panic!("expected a handoff"),
    }
}

#[test]
fn dummy_capability_means_not_verified() {
    let cfg = one_policy_config("example.com", "/", 1000);
    let gh = DummyGrasshopper {};
    let raw = raw_request(
        "example.com",
        "/",
        vec![("user-agent", "test-agent"), ("cookie", "rbzid=AB-CD")],
        None,
    );
    match inspect_generic_request_map_init(&cfg, Some(&gh), &raw) {
        Ok(p0) => assert!(!p0.is_human),
        Err(_) => panic!("expected a handoff"),
    }
}

#[test]
fn step_after_done_keeps_returning_done() {
    let cfg = one_policy_config("example.com", "/", 1000);
    let raw = raw_request("nope.example", "/", vec![], None);
    let outcome = inspect_generic_request_map_init(&cfg, no_gh(), &raw);
    let mut exec = Executor::new();
    let h = exec.register(outcome);
    for _ in 0..3 {
        match inspect_async_step(&mut exec, h) {
            Progress::Done(res) => {
                assert!(res.decision.maction.is_none());
                assert!(res.tags.contains("all"));
            }
            other => panic!("expected Done, got {:?}", other),
        }
    }
}

#[test]
fn step_after_free_reports_error() {
    let cfg = one_policy_config("example.com", "/", 1000);
    let raw = raw_request("nope.example", "/", vec![], None);
    let outcome = inspect_generic_request_map_init(&cfg, no_gh(), &raw);
    let mut exec = Executor::new();
    let h = exec.register(outcome);
    assert!(inspect_async_free(&mut exec, h));
    // freeing twice reports failure instead of undefined behaviour
    assert!(!inspect_async_free(&mut exec, h));
    match inspect_async_step(&mut exec, h) {
        Progress::Error(e) => assert_eq!(e, "invalid task handle"),
        other => panic!("expected Error, got {:?}", other),
    }
    // error answers are sticky too
    match inspect_async_step(&mut exec, h) {
        Progress::Error(e) => assert_eq!(e, "invalid task handle"),
        other => panic!("expected Error, got {:?}", other),
    }
}

#[test]
fn handoff_waits_then_completes_with_analysis() {
    let cfg = one_policy_config("example.com", "/", 1000);
    let raw = raw_request("example.com", "/", vec![], None);
    let outcome = inspect_generic_request_map_init(&cfg, no_gh(), &raw);
    assert!(outcome.is_ok());
    let mut exec = Executor::new();
    let h = exec.register(outcome);
    match inspect_async_step(&mut exec, h) {
        Progress::Pending => {}
        other => panic!("expected Pending, got {:?}", other),
    }
    let verdict = Decision::pass(Vec::new());
    let stats = curiefense::interface::Stats::at_stage(&"rev-1".to_string(), 1);
    let mut analysis_tags = curiefense::interface::Tags::new();
    analysis_tags.insert("acl-checked", curiefense::interface::Location::Request);
    match exec.supply_analysis(h, verdict, analysis_tags, stats) {
        Progress::Done(res) => {
            assert!(res.decision.maction.is_none());
            assert!(res.tags.contains("all"));
            assert!(res.tags.contains("bot"));
            // the analysis collaborator's tags joined the set
            assert!(res.tags.contains("acl-checked"));
        }
        other => panic!("expected Done, got {:?}", other),
    }
    match inspect_async_step(&mut exec, h) {
        Progress::Done(_) => {}
        other => panic!("expected Done, got {:?}", other),
    }
}

#[test]
fn cookies_parsed_from_cookie_header() {
    let raw = raw_request(
        "example.com",
        "/",
        vec![("Cookie", "a=1; b=2; malformed; c=x=y")],
        None,
    );
    let rinfo = map_request(3, &raw);
    assert_eq!(rinfo.cookies.len(), 3);
    assert_eq!(rinfo.cookies.get("a"), Some("1".to_string()));
    assert_eq!(rinfo.cookies.get("b"), Some("2".to_string()));
    assert_eq!(rinfo.cookies.get("c"), Some("x=y".to_string()));
    assert_eq!(rinfo.cookies.get("malformed"), None);
    assert_eq!(rinfo.body_depth, 3);
}

#[test]
fn host_falls_back_to_host_header() {
    let mut raw = raw_request("ignored", "/", vec![("Host", "example.com")], None);
    raw.meta.authority = None;
    assert_eq!(raw.get_host(), "example.com");
    let cfg = one_policy_config("example.com", "/", 1000);
    match inspect_generic_request_map_init(&cfg, no_gh(), &raw) {
        Ok(p0) => assert_eq!(p0.secpolname, "default"),
        Err(_) => panic!("expected the host header to match the policy"),
    }
}

#[test]
fn header_lookup_is_case_insensitive() {
    let raw = raw_request("example.com", "/", vec![("User-Agent", "abc")], None);
    let rinfo = map_request(0, &raw);
    assert_eq!(rinfo.headers.get("user-agent"), Some("abc".to_string()));
    assert_eq!(rinfo.headers.get("USER-AGENT"), Some("abc".to_string()));
    assert_eq!(rinfo.headers.get("x-missing"), None);
}

#[test]
fn first_matching_policy_wins() {
    let cfg = Config {
        revision: "rev-2".to_string(),
        policies: vec![
            SecurityPolicy {
                name: "api".to_string(),
                host: "example.com".to_string(),
                path_prefix: "/api/".to_string(),
                content_filter_profile: profile(10, 2),
            },
            SecurityPolicy {
                name: "site".to_string(),
                host: "example.com".to_string(),
                path_prefix: "/".to_string(),
                content_filter_profile: profile(1000, 5),
            },
        ],
        content_filter_profiles: vec![],
        flows: vec![],
    };
    let raw = raw_request("example.com", "/api/v1", vec![], None);
    match inspect_generic_request_map_init(&cfg, no_gh(), &raw) {
        Ok(p0) => assert_eq!(p0.secpolname, "api"),
        Err(_) => panic!("expected a handoff"),
    }
    let raw2 = raw_request("example.com", "/home", vec![], None);
    match inspect_generic_request_map_init(&cfg, no_gh(), &raw2) {
        Ok(p0) => assert_eq!(p0.secpolname, "site"),
        Err(_) => panic!("expected a handoff"),
    }
}

#[test]
fn content_filter_entry_paths() {
    let cfg = one_policy_config("example.com", "/", 1000);
    // unknown profile: pass, the engine never ran, no tags, default stats
    let raw = raw_request("example.com", "/", vec![], None);
    let (d, rinfo, tags, stats) = content_filter_check_generic_request_map(
        &cfg,
        &raw,
        "nope",
        None,
        curiefense::interface::Tags::new(),
    );
    assert!(d.maction.is_none());
    assert_eq!(rinfo.body_depth, 25);
    assert!(tags.entries.is_empty());
    assert_eq!(stats.revision, "");
    // oversized body: block, the engine never ran
    let raw2 = raw_request("example.com", "/", vec![], Some(vec![0u8; 2000]));
    let (d2, rinfo2, tags2, _stats2) = content_filter_check_generic_request_map(
        &cfg,
        &raw2,
        "default",
        None,
        curiefense::interface::Tags::new(),
    );
    let a2 = d2.maction.expect("a block action");
    assert_eq!(a2.status, 403);
    assert_eq!(rinfo2.body_depth, 0);
    assert!(tags2.entries.is_empty());
    // the engine's verdict and tag contribution are both returned
    let raw3 = raw_request("example.com", "/", vec![], None);
    let verdict = Decision::action(
        Action {
            atype: ActionType::Block,
            block_mode: true,
            headers: None,
            status: 503,
            content: "blocked".to_string(),
            extra_tags: None,
        },
        Vec::new(),
    );
    let mut engine_tags = curiefense::interface::Tags::new();
    engine_tags.insert("cf-rule-hit", curiefense::interface::Location::Body);
    let (d3, _rinfo3, tags3, _stats3) =
        content_filter_check_generic_request_map(&cfg, &raw3, "default", Some(verdict), engine_tags);
    assert_eq!(d3.maction.expect("engine verdict").status, 503);
    assert!(tags3.contains("cf-rule-hit"));
}

#[test]
fn flow_rules_carried_through_handoff() {
    let cfg = one_policy_config("example.com", "/", 1000);
    let raw = raw_request("example.com", "/", vec![], None);
    match inspect_generic_request_map_init(&cfg, no_gh(), &raw) {
        Ok(p0) => assert_eq!(p0.flows, vec!["flow-1".to_string()]),
        Err(_) => panic!("expected a handoff"),
    }
}
