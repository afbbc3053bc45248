use std::collections::HashMap;

use framework::bridge::{
    add_method, begin_bridge_call, bridge_arg_lens, bridge_identifier_for_log, bridge_name,
    bridge_reply, bridge_survives_view_close, bump_webview_close_era, drop_all_bridges,
    drop_bridges_for, drop_bridges_for_view_closed, has_webview_bridges, kind_of_return,
    marshal_bridge_return, parse_bridge_payload, plan_arg, plan_args, plan_bridge_call,
    refused_outcome, register_bridge, request_arg_lens, select_overload_index, webview_close_era, wire_methods, ArgKind, BridgeCall,
    BridgeMethodMeta, BridgeMethods, BridgeOutcome, BridgeRefusal, BridgeRequest, BridgeValue,
    Bridges, ReturnKind, ReturnValue,
};
use framework::cookies::{
    cookie_to_set, cookie_to_set_at, epoch_seconds, expiry_epoch_s, fixup_webview_cookie_url, format_cookies,
    parse_cookie_expiry_epoch_s, parse_set_cookie, parse_set_cookie_at, CookieEntry,
    CookieUrlFixup,
};
use framework::json::{number_or_quote, number_or_quoted, JsonKind};
use framework::main_dispatch::{
    first_time, is_degraded, main_dispatch_gate, notes_registrar, offer_main_job, retire_main_upcall_dispatch,
    take_main_job, MainDispatchGate, MainDispatchSlot,
};
use framework::view_registry::{allocate, set_frame, ViewRegistry};
use framework::web_callbacks::{
    answer_cookie_clear, answer_cookie_set, answer_eval, await_cookie_clear, await_cookie_set,
    await_eval, drain_all_webview_callbacks, drain_eval_callbacks_for_view, eval_drain_victims,
    webview_callbacks_in_flight, WebCallbacks,
};
use framework::web_view::{
    direct_webview_steps, set_user_agent, web_view_create_dims, DirectStep, DirectWebViewMode,
    UserAgentRequest, ROBLOX_LOGIN_URL,
};
use serde_json::Value;

#[test]
fn parse_set_cookie_extracts_name_value_domain_path_flags_and_expires() {
    let c = parse_set_cookie("ECLIPSE_TEST=1; Path=/");
    assert_eq!(c.name, "ECLIPSE_TEST");
    assert_eq!(c.value, "1");
    assert_eq!(c.path, "/");
    assert_eq!(c.domain, "");
    assert!(!c.secure && !c.http_only);
    assert_eq!(c.expires_epoch_s, 0, "no Expires/Max-Age → session (0)");

    let c = parse_set_cookie(
        ".ROBLOSECURITY=abc; Domain=.roblox.com; Path=/; Secure; HttpOnly; Max-Age=3600",
    );
    assert_eq!(c.name, ".ROBLOSECURITY");
    assert_eq!(c.value, "abc");
    assert_eq!(c.domain, ".roblox.com");
    assert_eq!(c.path, "/");
    assert!(c.secure);
    assert!(c.http_only);
    assert!(
        c.expires_epoch_s > 0,
        "Max-Age resolves to an absolute future epoch"
    );

    let c = parse_set_cookie("persist=1; Expires=Sun, 06 Nov 1994 08:49:37 GMT; Path=/");
    assert_eq!(
        c.expires_epoch_s, 784_111_777,
        "an HTTP-date expiry must not be mislabeled as a session cookie"
    );
    let c = parse_set_cookie("delete=1; Expires=Thu, 01 Jan 1970 00:00:00 GMT; Path=/");
    assert_eq!(
        c.expires_epoch_s, -1,
        "the explicit Unix epoch must not collide with the session-cookie sentinel"
    );
    let c = parse_set_cookie("precedence=1; Max-Age=3600; Expires=Thu, 01 Jan 1970 00:00:00 GMT");
    assert!(
        c.expires_epoch_s > 784_111_777,
        "Max-Age must take precedence over Expires regardless of attribute order"
    );

    let c = parse_set_cookie("justname");
    assert_eq!(c.name, "justname");
    assert_eq!(c.value, "");
}

#[test]
fn cookie_manager_url_fixup_matches_androids_relaxed_host_boundary() {
    assert_eq!(
        fixup_webview_cookie_url("roblox.com"),
        CookieUrlFixup {
            url: "http://roblox.com/".to_string(),
            implied_domain: None,
        }
    );
    assert_eq!(
        fixup_webview_cookie_url("roblox.com/account"),
        CookieUrlFixup {
            url: "http://roblox.com/account".to_string(),
            implied_domain: None,
        }
    );
    assert_eq!(
        fixup_webview_cookie_url("roblox.com:443"),
        CookieUrlFixup {
            url: "https://roblox.com:443/".to_string(),
            implied_domain: None,
        }
    );
    assert_eq!(
        fixup_webview_cookie_url(".roblox.com"),
        CookieUrlFixup {
            url: "http://roblox.com/".to_string(),
            implied_domain: Some(".roblox.com".to_string()),
        }
    );
    let full = "https://auth.roblox.com/v2/login";
    assert_eq!(fixup_webview_cookie_url(full).url, full);
    let invalid = "not a host value";
    assert_eq!(fixup_webview_cookie_url(invalid).url, invalid);

    let fixed = fixup_webview_cookie_url(".roblox.com");
    let mut no_domain = parse_set_cookie("session=value; Path=/");
    no_domain.domain = fixed.implied_domain.expect("compat domain");
    assert_eq!(no_domain.domain, ".roblox.com");
    assert_eq!(
        parse_set_cookie("session=value; Domain=auth.roblox.com").domain,
        "auth.roblox.com"
    );
}

#[test]
fn format_cookies_joins_name_value_with_semicolons() {
    let entry = |n: &str, v: &str| CookieEntry {
        name: n.to_string(),
        value: v.to_string(),
        domain: String::new(),
        path: String::new(),
        secure: false,
        http_only: false,
    };
    assert_eq!(format_cookies(&[]), "");
    assert_eq!(format_cookies(&[entry("a", "1")]), "a=1");
    assert_eq!(
        format_cookies(&[entry("a", "1"), entry("b", "2")]),
        "a=1; b=2"
    );
}

#[test]
fn a_cookie_gets_the_domain_that_its_url_implies() {
    let (url, cookie) = cookie_to_set_at(".roblox.com", "a=1; Max-Age=5", 100);
    assert_eq!(url, "http://roblox.com/");
    assert_eq!(cookie.domain, ".roblox.com");
    assert_eq!(cookie.expires_epoch_s, 105);
    let (_, kept) = cookie_to_set_at(".roblox.com", "a=1; Domain=x.com", 100);
    assert_eq!(kept.domain, "x.com");
    let (url, session) = cookie_to_set(".roblox.com", "a=1");
    assert_eq!(url, "http://roblox.com/");
    assert_eq!(session.domain, ".roblox.com");
    assert_eq!(session.expires_epoch_s, 0);
    let (_, lasting) = cookie_to_set("roblox.com", "a=1; Max-Age=5");
    assert_eq!(lasting.domain, "");
    assert!(lasting.expires_epoch_s > 1_000_000_005);
}

#[test]
fn a_completed_address_is_complete() {
    for address in ["roblox.com", ".roblox.com/a", "roblox.com:443", "https://x.com", "a b", ""] {
        let once = fixup_webview_cookie_url(address).url;
        let twice = fixup_webview_cookie_url(&once);
        assert_eq!(twice.url, once);
        assert_eq!(twice.implied_domain, None);
    }
}

#[test]
fn a_clock_out_of_range_is_cut_off() {
    assert_eq!(epoch_seconds(None), 0);
    assert_eq!(epoch_seconds(Some(77)), 77);
    assert_eq!(epoch_seconds(Some(i64::MAX as u64)), i64::MAX);
    assert_eq!(epoch_seconds(Some(u64::MAX)), i64::MAX);
}

#[test]
fn expiries_are_numbers_or_dates_and_never_the_session_mark() {
    assert_eq!(parse_cookie_expiry_epoch_s("77"), Some(77));
    assert_eq!(parse_cookie_expiry_epoch_s("0"), Some(-1));
    assert_eq!(parse_cookie_expiry_epoch_s("soon"), None);
    assert_eq!(
        parse_cookie_expiry_epoch_s("Sun, 06 Nov 1994 08:49:37 GMT"),
        Some(784_111_777)
    );
    assert_eq!(expiry_epoch_s(None, Some(5)), Some(5));
    assert_eq!(expiry_epoch_s(Some(3), Some(5)), Some(3));
    assert_eq!(expiry_epoch_s(None, None), None);
    let late = parse_set_cookie_at("a=1; Max-Age=9223372036854775807", 10);
    assert_eq!(late.expires_epoch_s, i64::MAX);
}

#[test]
fn a_session_cookie_does_not_say_when_it_ends() {
    let ends = |value: &str| parse_set_cookie_at(value, 1000).expires_epoch_s;
    for session in [
        "a=1",
        "a=1; Path=/; Secure; HttpOnly",
        "a=1; Max-Age=soon",
        "a=1; Expires=soon; Max-Age",
        "Max-Age=5; Path=/",
    ] {
        assert_eq!(ends(session), 0, "{session}");
    }
    assert_eq!(ends("a=1; Max-Age=5"), 1005);
    assert_eq!(ends("a=1; max-age=0"), 1000);
    assert_eq!(ends("a=1; Expires=0"), -1);
    assert_eq!(ends("a=1; Expires=77; Max-Age=soon"), 77);
    assert_eq!(ends("a=1; Expires=Thu, 01 Jan 1970 00:00:00 GMT"), -1);
    assert_eq!(ends("a=1; Max-Age=-1000; Max-Age=2"), 1002);
    // A lifetime that ends at the epoch itself reads like no lifetime at all.
    assert_eq!(ends("a=1; Max-Age=-1000"), 0);
}

fn object(pairs: &[(&str, Value)]) -> Value {
    let mut map = serde_json::Map::new();
    for (key, value) in pairs {
        map.insert((*key).to_string(), value.clone());
    }
    Value::Object(map)
}

#[test]
fn bridge_args_marshal_supported_types_and_reject_unsupported() {
    let hi = Value::from("hi");
    let three = Value::from(3);
    assert_eq!(plan_arg(&hi, "java.lang.String"), ArgKind::Str);
    assert_eq!(plan_arg(&hi, "java.lang.CharSequence"), ArgKind::Str);
    assert_eq!(plan_arg(&hi, "java.lang.Object"), ArgKind::Str);
    assert_eq!(plan_arg(&hi, "int"), ArgKind::Reject);
    assert_eq!(plan_arg(&three, "int"), ArgKind::IntBox);
    assert_eq!(plan_arg(&three, "long"), ArgKind::LongBox);
    assert_eq!(plan_arg(&three, "double"), ArgKind::DoubleBox);
    assert_eq!(plan_arg(&three, "java.lang.Object"), ArgKind::DoubleBox);
    assert_eq!(plan_arg(&three, "java.lang.String"), ArgKind::Reject);
    assert_eq!(plan_arg(&Value::from(true), "boolean"), ArgKind::BoolBox);
    assert_eq!(plan_arg(&Value::from(true), "int"), ArgKind::Reject);
    assert_eq!(plan_arg(&Value::Null, "java.lang.String"), ArgKind::Null);

    assert_eq!(plan_arg(&Value::Null, "int"), ArgKind::Reject);

    assert_eq!(
        plan_arg(&Value::from(vec![1, 2]), "java.lang.Object"),
        ArgKind::Reject
    );
    assert_eq!(
        plan_arg(&object(&[("a", Value::from(1))]), "java.lang.Object"),
        ArgKind::Reject
    );
}

#[test]
fn numbers_are_boxed_as_their_parameters_ask() {
    let n = Value::from(-2.5);
    assert_eq!(plan_arg(&n, "java.lang.Integer"), ArgKind::IntBox);
    assert_eq!(plan_arg(&n, "short"), ArgKind::ShortBox);
    assert_eq!(plan_arg(&n, "java.lang.Byte"), ArgKind::ByteBox);
    assert_eq!(plan_arg(&n, "float"), ArgKind::FloatBox);
    assert_eq!(plan_arg(&n, "java.lang.Number"), ArgKind::DoubleBox);
    assert_eq!(plan_arg(&n, "char"), ArgKind::Reject);
}

#[test]
fn bridge_arg_lens_returns_serialized_lengths_and_never_the_values() {
    let args = vec![
        Value::from("SECRETTOKEN"),
        Value::from(42),
        Value::from(true),
        Value::Null,
    ];
    let lens = bridge_arg_lens(&args);

    assert_eq!(lens, vec![13, 2, 4, 4]);
    assert!(
        !format!("{lens:?}").contains("SECRET"),
        "arg_lens must never echo an arg value"
    );
    assert_eq!(bridge_arg_lens(&[]), Vec::<usize>::new());
}

#[test]
fn bridge_identifier_for_log_passes_identifiers_and_redacts_page_controlled_shapes() {
    assert_eq!(
        bridge_identifier_for_log("__globalRobloxAndroidBridge__"),
        "__globalRobloxAndroidBridge__"
    );
    assert_eq!(bridge_identifier_for_log("emitEvent"), "emitEvent");
    assert_eq!(bridge_identifier_for_log("$fn_1"), "$fn_1");

    for hostile in [
        "https://apps.roblox.com/challenge?token=SECRETTOKEN",
        "name with spaces",
        "1leadingdigit",
        "",
        "semi;colon",
    ] {
        assert_eq!(bridge_identifier_for_log(hostile), "<non-identifier>");
    }

    let over = "A".repeat(65);
    assert_eq!(bridge_identifier_for_log(&over), "<non-identifier>");
    let max = "A".repeat(64);
    assert_eq!(bridge_identifier_for_log(&max), max);
}

#[test]
fn bridge_return_number_or_quote_embeds_valid_numbers_and_quotes_the_rest() {
    assert_eq!(number_or_quote("42"), "42");
    assert_eq!(number_or_quote("-1.5"), "-1.5");
    assert_eq!(number_or_quote("NaN"), "\"NaN\"");
    assert_eq!(number_or_quote("Infinity"), "\"Infinity\"");
    assert_eq!(
        number_or_quote("a\"\\/\u{8}\t\n\u{b}\u{c}\r\u{0}\u{1f}\u{7f}é💫"),
        "\"a\\\"\\\\/\\b\\t\\n\\u000b\\f\\r\\u0000\\u001f\u{7f}é💫\""
    );
    assert_eq!(number_or_quote(""), "\"\"");
    assert_eq!(number_or_quoted(true, "a", "b"), "a");
    assert_eq!(number_or_quoted(false, "a", "b"), "b");
}

#[test]
fn bridge_overloads_resolve_by_arity_like_the_android_java_bridge() {
    assert_eq!(select_overload_index(&[1, 2], 2), Some(1));
    assert_eq!(select_overload_index(&[1, 2], 1), Some(0));

    assert_eq!(select_overload_index(&[1, 2], 3), None);
    assert_eq!(select_overload_index(&[], 0), None);

    assert_eq!(select_overload_index(&[2, 2], 2), Some(0));
}

#[test]
fn eval_drain_victims_selects_only_pre_close_era_callbacks_of_the_closed_view() {
    let mut m = HashMap::new();
    m.insert(1_u32, (7_i64, 0_u64, ()));
    m.insert(2_u32, (7_i64, 3_u64, ()));
    m.insert(3_u32, (7_i64, 4_u64, ()));
    m.insert(4_u32, (9_i64, 0_u64, ()));
    let mut victims = eval_drain_victims(&m, 7, 3);
    victims.sort_unstable();
    assert_eq!(victims, vec![1, 2]);

    assert_eq!(eval_drain_victims(&m, 9, 0), vec![4]);
}

#[test]
fn webview_callback_gate_prefers_the_main_looper_and_degrades_honestly() {
    assert_eq!(
        main_dispatch_gate(false, true, true, true),
        MainDispatchGate::Post
    );
    assert_eq!(
        main_dispatch_gate(true, true, true, true),
        MainDispatchGate::InlineOnMainThread
    );

    assert_eq!(
        main_dispatch_gate(true, false, false, false),
        MainDispatchGate::InlineOnMainThread
    );
    assert_eq!(
        main_dispatch_gate(false, false, true, true),
        MainDispatchGate::InlineNoMainLooper
    );
    assert_eq!(
        main_dispatch_gate(false, true, false, true),
        MainDispatchGate::InlineDrainRetired
    );
    assert_eq!(
        main_dispatch_gate(false, true, true, false),
        MainDispatchGate::InlineSlotBusy
    );
}

#[test]
fn bridge_survives_view_close_only_for_entries_born_after_the_close() {
    assert!(!bridge_survives_view_close(7, 3, 7, 3));
    assert!(!bridge_survives_view_close(7, 0, 7, 3));
    assert!(bridge_survives_view_close(7, 4, 7, 3));
    assert!(bridge_survives_view_close(9, 0, 7, 3));
}

fn meta(method: u32, params: &[&str], result: &str) -> BridgeMethodMeta<u32> {
    BridgeMethodMeta {
        method,
        param_types: params.iter().map(|p| (*p).to_string()).collect(),
        return_type: result.to_string(),
    }
}

fn bridges() -> Bridges<u32> {
    let mut methods: Vec<BridgeMethods<u32>> = Vec::new();
    add_method(&mut methods, "emit", meta(1, &["java.lang.String"], "void"));
    add_method(&mut methods, "size", meta(2, &[], "int"));
    add_method(
        &mut methods,
        "emit",
        meta(3, &["java.lang.String", "boolean"], "void"),
    );
    let mut all = Bridges::new();
    register_bridge(&mut all, 7, "Native", 100, methods);
    all
}

#[test]
fn methods_of_a_name_are_kept_together() {
    let all = bridges();
    let wire = wire_methods(&all.entries[0].methods);
    assert_eq!(wire.len(), 2);
    assert_eq!(wire[0].name, "emit");
    assert!(!wire[0].returns_value);
    assert_eq!(wire[1].name, "size");
    assert!(wire[1].returns_value);
    assert_eq!(all.entries[0].methods[0].overloads.len(), 2);
}

#[test]
fn a_pages_call_finds_its_method_and_arguments() {
    let all = bridges();
    let payload = "{\"iface\":\"Native\",\"method\":\"emit\",\"args\":[\"h\\u0069\", true]}";
    match begin_bridge_call(&all, 7, payload) {
        BridgeCall::Invoke(object, method, args) => {
            assert_eq!(*object, 100);
            assert_eq!(method.method, 3);
            assert_eq!(args.len(), 2);
            assert_eq!(args[0].kind, ArgKind::Str);
            assert_eq!(args[0].text, "hi");
            assert_eq!(args[1].kind, ArgKind::BoolBox);
            assert!(args[1].flag);
        }
        _ => panic!("the call is made"),
    }
    assert!(matches!(
        begin_bridge_call(&all, 7, "{\"iface\":\"Native\",\"method\":\"size\"}"),
        BridgeCall::Invoke(_, _, _)
    ));
    assert!(matches!(
        begin_bridge_call(&all, 8, payload),
        BridgeCall::Unknown
    ));
    assert!(matches!(
        begin_bridge_call(&all, 7, "{\"iface\":\"Native\",\"method\":\"none\"}"),
        BridgeCall::Unknown
    ));
    match begin_bridge_call(&all, 7, "{\"iface\":\"Native\",\"method\":\"emit\",\"args\":[]}") {
        BridgeCall::NoOverload(arities) => assert_eq!(arities, [1, 2]),
        _ => panic!("no overload takes nothing"),
    }
    assert!(matches!(
        begin_bridge_call(&all, 7, "{\"iface\":\"Native\",\"method\":\"emit\",\"args\":[1]}"),
        BridgeCall::BadArgument
    ));
    for bad in [
        "not json",
        "[]",
        "{\"iface\":1,\"method\":\"emit\"}",
        "{\"iface\":\"Native\"}",
    ] {
        assert!(matches!(
            begin_bridge_call(&all, 7, bad),
            BridgeCall::BadPayload
        ));
    }
}

#[test]
fn a_payload_is_read_into_plain_values() {
    let request = parse_bridge_payload(
        "{\"iface\":\"I\",\"method\":\"m\",\"args\":[null, 1.50, {\"a\": 1}, [2], \"x\", false]}",
    )
    .expect("a request");
    let kinds: Vec<JsonKind> = request.args.iter().map(|a| a.kind).collect();
    assert_eq!(
        kinds,
        [
            JsonKind::Null,
            JsonKind::Number,
            JsonKind::Object,
            JsonKind::Array,
            JsonKind::Text,
            JsonKind::Bool
        ]
    );
    assert_eq!(request.args[1].json, "1.5");
    assert_eq!(request.args[2].json, "{\"a\":1}");
    assert_eq!(request.args[4].text, "x");
    assert_eq!(request.args[4].json, "\"x\"");
    assert!(!request.args[5].flag);
    let odd = parse_bridge_payload("{\"iface\":\"I\",\"method\":\"m\",\"args\":5}").expect("read");
    assert!(odd.args.is_empty());
}

fn text_value(text: &str) -> BridgeValue {
    BridgeValue {
        kind: JsonKind::Text,
        json: format!("\"{text}\""),
        text: text.to_string(),
        flag: false,
    }
}

#[test]
fn a_read_request_is_planned() {
    let all = bridges();
    let request = BridgeRequest {
        iface: "Native".to_string(),
        method: "emit".to_string(),
        args: vec![text_value("a")],
    };
    match plan_bridge_call(&all, 7, Some(&request)) {
        BridgeCall::Invoke(_, method, args) => {
            assert_eq!(method.method, 1);
            assert_eq!(args[0].text, "a");
        }
        _ => panic!("the call is made"),
    }
    assert!(matches!(
        plan_bridge_call(&all, 7, None),
        BridgeCall::BadPayload
    ));
    assert!(plan_args(&vec![text_value("a")], &vec!["int".to_string()]).is_none());
}

#[test]
fn a_refused_call_is_answered_by_what_was_wrong_with_it() {
    let all = bridges();
    let answer = |widget: i64, payload: &str| {
        refused_outcome(&begin_bridge_call(&all, widget, payload)).map(bridge_reply)
    };
    let bad = Some((false, "\"eclipse: bad bridge payload\"".to_string()));
    let rejected = Some((false, "null".to_string()));
    assert_eq!(answer(7, "not json"), bad);
    assert_eq!(answer(7, "{\"iface\":\"Native\"}"), bad);
    assert_eq!(answer(8, "{\"method\":\"size\"}"), bad);
    let size = "{\"iface\":\"Native\",\"method\":\"size\"}";
    assert_eq!(answer(8, size), rejected, "an unknown object");
    assert_eq!(
        answer(7, "{\"iface\":\"Native\",\"method\":\"emit\",\"args\":[]}"),
        rejected,
        "no overload"
    );
    assert_eq!(
        answer(7, "{\"iface\":\"Native\",\"method\":\"emit\",\"args\":[1]}"),
        rejected,
        "an argument that does not fit"
    );
    assert_eq!(answer(7, size), None, "a method is called");
}

#[test]
fn the_log_shows_how_long_arguments_are() {
    let payload = "{\"iface\":\"N\",\"method\":\"m\",\"args\":[\"h\\u00e9\", [1, 2], null]}";
    let request = parse_bridge_payload(payload).expect("a request");
    assert_eq!(request_arg_lens(&request.args), [5, 5, 4]);
    assert!(request_arg_lens(&[]).is_empty());
}

#[test]
fn a_page_is_answered() {
    assert_eq!(
        bridge_reply(BridgeOutcome::BadPayload),
        (false, "\"eclipse: bad bridge payload\"".to_string())
    );
    assert_eq!(
        bridge_reply(BridgeOutcome::Rejected),
        (false, "null".to_string())
    );
    assert_eq!(
        bridge_reply(BridgeOutcome::Threw),
        (false, "\"eclipse: bridge invocation error\"".to_string())
    );
    assert_eq!(
        bridge_reply(BridgeOutcome::Returned("7".to_string())),
        (true, "7".to_string())
    );
    assert_eq!(kind_of_return("boolean"), ReturnKind::Boolean);
    assert_eq!(kind_of_return("java.lang.Character"), ReturnKind::Number);
    assert_eq!(kind_of_return("java.lang.String"), ReturnKind::Text);
    let text = |s: &str| ReturnValue::Text(Some(s.to_string()));
    assert_eq!(
        marshal_bridge_return(&ReturnValue::Null, ReturnKind::Text),
        "null"
    );
    assert_eq!(
        marshal_bridge_return(&ReturnValue::Boolean(Some(true)), ReturnKind::Boolean),
        "true"
    );
    assert_eq!(
        marshal_bridge_return(&ReturnValue::Boolean(None), ReturnKind::Boolean),
        "null"
    );
    assert_eq!(marshal_bridge_return(&text("12"), ReturnKind::Number), "12");
    assert_eq!(
        marshal_bridge_return(&text("x"), ReturnKind::Number),
        "\"x\""
    );
    assert_eq!(
        marshal_bridge_return(&text("a\"b"), ReturnKind::Text),
        "\"a\\\"b\""
    );
    assert_eq!(
        marshal_bridge_return(&ReturnValue::Text(None), ReturnKind::Text),
        "null"
    );
}

#[test]
fn bridges_go_with_their_view_and_era() {
    let mut all = bridges();
    assert!(has_webview_bridges(&all));
    register_bridge(&mut all, 9, "Native", 200, Vec::new());
    let ended = bump_webview_close_era(&mut all);
    assert_eq!(ended, 0);
    assert_eq!(webview_close_era(&all), 1);
    register_bridge(&mut all, 7, "Late", 300, Vec::new());
    drop_bridges_for_view_closed(&mut all, 7, ended);
    let left: Vec<u32> = all.entries.iter().map(|e| e.object).collect();
    assert_eq!(left, [200, 300]);
    register_bridge(&mut all, 7, "Late", 301, Vec::new());
    let replaced: Vec<u32> = all.entries.iter().map(|e| e.object).collect();
    assert_eq!(replaced, [200, 301]);
    drop_bridges_for(&mut all, 7);
    assert_eq!(all.entries.len(), 1);
    drop_all_bridges(&mut all);
    assert!(!has_webview_bridges(&all));
}

#[test]
fn an_object_is_bridged_under_a_name() {
    assert_eq!(bridge_name(true, false, Some("I")), Ok("I"));
    assert_eq!(
        bridge_name(false, true, None),
        Err(BridgeRefusal::InvalidView)
    );
    assert_eq!(
        bridge_name(true, true, Some("I")),
        Err(BridgeRefusal::NullObject)
    );
    assert_eq!(bridge_name(true, false, None), Err(BridgeRefusal::NoName));
    assert_eq!(
        bridge_name(true, false, Some("")),
        Err(BridgeRefusal::NoName)
    );
}

#[test]
fn callbacks_are_answered_once() {
    let mut callbacks: WebCallbacks<&str> = WebCallbacks::new();
    await_eval(&mut callbacks, 1, 7, 0, "one");
    await_eval(&mut callbacks, 2, 7, 5, "two");
    await_cookie_set(&mut callbacks, 3, "three");
    await_cookie_clear(&mut callbacks, 4, "four");
    assert_eq!(webview_callbacks_in_flight(&callbacks), 4);
    assert_eq!(answer_eval(&mut callbacks, 9, true, "1"), None);
    assert_eq!(
        answer_eval(&mut callbacks, 1, true, "42"),
        Some(("one", "42"))
    );
    assert_eq!(answer_eval(&mut callbacks, 1, true, "42"), None);
    assert_eq!(
        answer_eval(&mut callbacks, 2, false, "42"),
        Some(("two", "null"))
    );
    assert_eq!(answer_cookie_set(&mut callbacks, 3), Some("three"));
    assert_eq!(answer_cookie_set(&mut callbacks, 3), None);
    assert_eq!(answer_cookie_clear(&mut callbacks, 4), Some("four"));
    assert_eq!(webview_callbacks_in_flight(&callbacks), 0);
}

#[test]
fn callbacks_go_with_their_view_or_with_the_engine() {
    let mut callbacks: WebCallbacks<u8> = WebCallbacks::new();
    await_eval(&mut callbacks, 1, 7, 0, 1);
    await_eval(&mut callbacks, 2, 7, 4, 2);
    await_eval(&mut callbacks, 3, 9, 0, 3);
    let taken = drain_eval_callbacks_for_view(&mut callbacks, 7, 3);
    assert_eq!(taken, [(1, (7, 0, 1))]);
    assert_eq!(webview_callbacks_in_flight(&callbacks), 2);
    await_cookie_set(&mut callbacks, 8, 8);
    let lost = drain_all_webview_callbacks(&mut callbacks);
    assert_eq!(lost.evals.len(), 2);
    assert_eq!(lost.cookie_sets, [(8, 8)]);
    assert!(lost.cookie_clears.is_empty());
    assert_eq!(webview_callbacks_in_flight(&callbacks), 0);
}

#[test]
fn work_waits_for_the_main_thread_in_one_place() {
    let mut slot: MainDispatchSlot<u8> = MainDispatchSlot::new();
    assert_eq!(
        offer_main_job(&mut slot, false, true, 1),
        (MainDispatchGate::Post, None)
    );
    assert_eq!(
        offer_main_job(&mut slot, false, true, 2),
        (MainDispatchGate::InlineSlotBusy, Some(2))
    );
    assert_eq!(take_main_job(&mut slot), Some(1));
    assert_eq!(take_main_job(&mut slot), None);
    offer_main_job(&mut slot, false, true, 3);
    assert_eq!(retire_main_upcall_dispatch(&mut slot), Some(3));
    assert_eq!(
        offer_main_job(&mut slot, false, true, 4),
        (MainDispatchGate::InlineDrainRetired, Some(4))
    );
    let mut noted = false;
    assert!(first_time(&mut noted));
    assert!(!first_time(&mut noted));
    assert!(is_degraded(MainDispatchGate::InlineSlotBusy));
    assert!(!is_degraded(MainDispatchGate::InlineOnMainThread));
}

#[test]
fn a_web_view_is_created_at_a_size() {
    let mut views = ViewRegistry::new();
    let view = allocate(&mut views, "android.webkit.WebView").expect("a view");
    assert_eq!(web_view_create_dims(&views, view, None), (1024, 768));
    assert_eq!(
        web_view_create_dims(&views, view, Some((70_000, 10))),
        (65_535, 10)
    );
    assert_eq!(web_view_create_dims(&views, view, Some((0, 10))), (1024, 768));
    assert!(set_frame(&mut views, view, [10, 20, 110, 70]));
    assert_eq!(web_view_create_dims(&views, view, Some((5, 5))), (100, 50));
    assert!(set_frame(&mut views, view, [10, 20, 10, 70]));
    assert_eq!(web_view_create_dims(&views, view, Some((5, 6))), (5, 6));
    assert_eq!(web_view_create_dims(&views, 0, None), (1024, 768));
}

#[test]
fn a_web_view_opens_step_by_step() {
    let smoke = direct_webview_steps(DirectWebViewMode::Smoke);
    let login = direct_webview_steps(DirectWebViewMode::RobloxLogin);
    assert_eq!(smoke.len(), 8);
    assert!(smoke.contains(&DirectStep::AddProbeInterface));
    assert!(!login.contains(&DirectStep::AddProbeInterface));
    assert!(login.contains(&DirectStep::SetPlainClient));
    assert_eq!(login.last(), Some(&DirectStep::LoadUrl));
}

#[test]
fn an_apps_user_agent_is_kept() {
    let mut ua = None;
    set_user_agent(&mut ua, UserAgentRequest::Text("App/1".to_string()));
    assert_eq!(ua.as_deref(), Some("App/1"));
    set_user_agent(&mut ua, UserAgentRequest::Unreadable);
    assert_eq!(ua.as_deref(), Some("App/1"));
    set_user_agent(&mut ua, UserAgentRequest::Default);
    assert_eq!(ua, None);
    assert_eq!(ROBLOX_LOGIN_URL, "https://www.roblox.com/login");
}

#[test]
fn a_callback_from_another_thread_is_noted_once() {
    let mut noted = false;
    assert!(!notes_registrar(false, false, &mut noted));
    assert!(!notes_registrar(true, true, &mut noted));
    assert!(notes_registrar(true, false, &mut noted));
    assert!(!notes_registrar(true, false, &mut noted));
}
