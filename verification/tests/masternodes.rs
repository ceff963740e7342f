use dash_shielded::json_text::nonzero_fractions;
use dash_shielded::masternodes::{
    active_masternodes, fallback_uri, fetch_active_masternodes, hosts_from_table, masternodes_url,
    node_uris, Fetched,
};

fn some(text: &str) -> Option<String> {
    Some(text.to_string())
}

#[test]
fn list_is_below_the_base_address() {
    assert_eq!(masternodes_url("https://q.org"), "https://q.org/masternodes");
    assert_eq!(masternodes_url("https://q.org//"), "https://q.org/masternodes");
}

#[test]
fn only_enabled_nodes_of_the_right_version_are_used() {
    let rows = vec![
        (some("ENABLED"), some("success"), some("1.1.1.1:9999")),
        (some("POSE_BANNED"), some("success"), some("2.2.2.2:9999")),
        (some("ENABLED"), some("fail"), some("3.3.3.3:9999")),
        (some("ENABLED"), some("success"), None),
        (some("ENABLED"), some("success"), some("4.4.4.4")),
        (None, some("success"), some("5.5.5.5:9999")),
        (some("ENABLED"), None, some("6.6.6.6:9999")),
        (some("enabled"), some("success"), some("7.7.7.7:9999")),
        (some("ENABLED"), some("success"), some("[2001:db8::1]:19999")),
    ];
    assert_eq!(active_masternodes(&rows), vec!["1.1.1.1", "[2001:db8::1]"]);
    assert_eq!(hosts_from_table(Ok(rows)).unwrap().len(), 2);
    assert_eq!(
        hosts_from_table(Err("eof".to_string())),
        Err("masternode list json: eof".to_string())
    );
}

#[test]
fn answers_of_the_service_are_read() {
    let body = r#"{"success": true, "data": [
        {"address": "1.1.1.1:9999", "status": "ENABLED", "versionCheck": "success", "x": 1},
        {"address": "2.2.2.2:9999", "status": "ENABLED", "versionCheck": "fail"},
        {"address": "3.3.3.3:9999", "status": "POSE_BANNED", "versionCheck": "success"},
        {"address": 17, "status": "ENABLED", "versionCheck": "success"},
        17,
        {"status": "ENABLED", "versionCheck": "success"},
        {"address": "4.4.4.4:443", "status": "ENABLED", "versionCheck": "success"}
    ]}"#;
    assert_eq!(
        fetch_active_masternodes(Fetched::Body(body.to_string())),
        Ok(vec!["1.1.1.1".to_string(), "4.4.4.4".to_string()])
    );
}

#[test]
fn answers_without_a_list_have_no_nodes() {
    for body in ["{}", r#"{"data": 5}"#, "[]", "null", r#"{"data": []}"#] {
        assert_eq!(fetch_active_masternodes(Fetched::Body(body.to_string())), Ok(Vec::new()));
    }
}

#[test]
fn failures_of_the_service_are_told() {
    let e = json::parse("{\"data\":").unwrap_err();
    assert_eq!(
        fetch_active_masternodes(Fetched::Body("{\"data\":".to_string())),
        Err(format!("masternode list json: {}", e))
    );
    assert_eq!(
        fetch_active_masternodes(Fetched::Unreachable("refused".to_string())),
        Err("masternode list: refused".to_string())
    );
    assert_eq!(
        fetch_active_masternodes(Fetched::Unreadable("cut".to_string())),
        Err("masternode list body: cut".to_string())
    );
}

#[test]
fn long_fractions_are_read() {
    let node = r#"{"address": "1.1.1.1:9999", "status": "ENABLED", "versionCheck": "success"}"#;
    let zeros = |n: usize| "0".repeat(n);
    let numbers = [
        "0".to_string(),
        "0.05".to_string(),
        "1.0e-7".to_string(),
        format!("0.{}", zeros(32768)),
        format!("0.{}", zeros(32769)),
        format!("-0.{}", zeros(40000)),
        format!("0.{}{}", zeros(32749), "9".repeat(20)),
        format!("0.{}{}", zeros(32749), "1".repeat(100)),
        format!("0.1{}", zeros(40000)),
        format!("1.{}", zeros(40000)),
        format!("\"0.{}\"", zeros(40000)),
        format!("\"\\\"0.{}\"", zeros(40000)),
        format!("\"\\\\\", \"x\": 0.{}", zeros(40000)),
    ];
    for number in numbers {
        let body = format!("{{\"load\": {}, \"data\": [{}]}}", number, node);
        assert_eq!(
            fetch_active_masternodes(Fetched::Body(body)),
            Ok(vec!["1.1.1.1".to_string()])
        );
    }
    let list = format!("[0.{}{}]", zeros(32749), "9".repeat(20));
    assert_eq!(fetch_active_masternodes(Fetched::Body(list)), Ok(Vec::new()));
}

#[test]
fn errors_name_their_place_behind_fractions() {
    for body in ["[0.05, x]", "[0.0.0]", "[\"0.0\", 0.0x]", "[1.00\n, 2.0 \u{e9}]", "[0.", "\".0"] {
        let e = json::parse(body).unwrap_err();
        assert_eq!(
            fetch_active_masternodes(Fetched::Body(body.to_string())),
            Err(format!("masternode list json: {}", e))
        );
    }
}

#[test]
fn only_zeros_behind_a_point_are_replaced() {
    assert_eq!(nonzero_fractions("[0.00, -1.05, 2.5]"), "[0.10, -1.15, 2.5]");
    assert_eq!(nonzero_fractions("{\"a.0\": 0.0}"), "{\"a.0\": 0.1}");
    assert_eq!(nonzero_fractions("[\"\\\".0\", .0]"), "[\"\\\".0\", .1]");
    assert_eq!(nonzero_fractions("[\"\\\\\", 0.0]"), "[\"\\\\\", 0.1]");
    assert_eq!(nonzero_fractions("\u{e9}\u{20ac}\u{1f600}0.0"), "\u{e9}\u{20ac}\u{1f600}0.1");
    assert_eq!(nonzero_fractions(""), "");
}

#[test]
fn texts_of_rows_are_kept_beside_fractions() {
    let body = r#"{"load": 0.01, "data": [
        {"score": 1.05, "address": "10.0.0.1:9999", "status": "ENABLED", "versionCheck": "success"}
    ]}"#;
    assert_eq!(
        fetch_active_masternodes(Fetched::Body(body.to_string())),
        Ok(vec!["10.0.0.1".to_string()])
    );
}

#[test]
fn endpoints_are_written() {
    assert_eq!(
        node_uris(&vec!["1.1.1.1".to_string(), "[::1]".to_string()]),
        vec!["https://1.1.1.1:443", "https://[::1]:443"]
    );
    assert_eq!(node_uris(&Vec::new()), Vec::<String>::new());
    assert_eq!(fallback_uri("localhost", 443), "https://localhost:443");
    assert_eq!(fallback_uri("localhost", 3000), "http://localhost:3000");
    assert_eq!(fallback_uri("h", u32::MAX), "http://h:4294967295");
}
