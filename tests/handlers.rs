use env_report::service::{get_env, get_health, miss, root, route, Route};

fn vars(pairs: &[(&str, &str)]) -> Vec<(String, String)> {
    pairs.iter().map(|(k, v)| (k.to_string(), v.to_string())).collect()
}

#[test]
fn test_root() {
    let r = root(&vars(&[("PATH", "/usr/bin")]), "node-1".to_string(), Some("10.0.0.5".to_string()));
    assert_eq!(r.status, 200);
    assert_eq!(r.content_type, "text/html; charset=utf-8");
}

#[test]
fn test_get_env() {
    let r = get_env(&vars(&[("PATH", "/usr/bin")]));
    assert_eq!(r.status, 200);
    assert_eq!(r.content_type, "application/json");
}

#[test]
fn test_get_health() {
    let r = get_health();
    assert_eq!(r.status, 200);
}

#[test]
fn health_body_is_ok_as_plain_text() {
    let r = get_health();
    assert_eq!(r.body, "OK");
    assert_eq!(r.content_type, "text/plain");
}

#[test]
fn health_is_repeatable() {
    let a = get_health();
    let b = get_health();
    assert_eq!(a.status, b.status);
    assert_eq!(a.content_type, b.content_type);
    assert_eq!(a.body, b.body);
}

#[test]
fn api_shows_injected_variable() {
    let r = get_env(&vars(&[("PATH", "/bin"), ("FOO", "bar")]));
    assert!(r.body.contains("\"FOO\":\"bar\""));
}

#[test]
fn api_exact_object() {
    let r = get_env(&vars(&[("A", "1"), ("B", "2")]));
    assert_eq!(r.body, "{\"A\":\"1\",\"B\":\"2\"}");
}

#[test]
fn api_empty_environment() {
    let r = get_env(&Vec::new());
    assert_eq!(r.status, 200);
    assert_eq!(r.body, "{}");
}

#[test]
fn api_later_pair_overrides() {
    let r = get_env(&vars(&[("A", "1"), ("B", "2"), ("A", "3")]));
    assert_eq!(r.body, "{\"A\":\"3\",\"B\":\"2\"}");
}

#[test]
fn api_escapes_values() {
    let r = get_env(&vars(&[("Q", "a\"b\\c\nd\te\u{1}f\u{8}\u{c}\r")]));
    assert_eq!(r.body, "{\"Q\":\"a\\\"b\\\\c\\nd\\te\\u0001f\\b\\f\\r\"}");
}

#[test]
fn api_escapes_control_character_with_hex_letter() {
    let r = get_env(&vars(&[("K\u{1f}", "é")]));
    assert_eq!(r.body, "{\"K\\u001f\":\"é\"}");
}

#[test]
fn scenario_foo_bar() {
    let env = vars(&[("FOO", "bar")]);
    let api = get_env(&env);
    assert_eq!(api.status, 200);
    assert!(api.body.contains("\"FOO\":\"bar\""));
    let health = get_health();
    assert_eq!(health.status, 200);
    assert_eq!(health.body, "OK");
    let page = root(&env, "node-1".to_string(), Some("10.0.0.5".to_string()));
    assert_eq!(page.status, 200);
    assert!(page.body.contains("<td>FOO</td><td>bar</td>"));
}

#[test]
fn root_shows_hostname_and_address() {
    let r = root(&vars(&[("HOSTNAME", "stale")]), "node-7".to_string(), Some("192.168.1.9".to_string()));
    assert!(r.body.contains("<title>Welcome node-7</title>"));
    assert!(r.body.contains("<span class=\"rainbow\">node-7</span>"));
    assert!(r.body.contains("<p>192.168.1.9</p>"));
    assert!(r.body.contains("<td>HOSTNAME</td><td>node-7</td>"));
    assert!(!r.body.contains("stale"));
    assert!(r.body.contains("<td>LOCAL_IP</td><td>192.168.1.9</td>"));
}

#[test]
fn root_one_row_per_variable() {
    let r = root(&vars(&[("A", "1"), ("B", "2"), ("C", "3")]), "h".to_string(), Some("10.1.1.1".to_string()));
    assert_eq!(r.body.matches("<tr><td>").count(), 5);
    assert!(r.body.contains("<table class=\"table\">"));
}

#[test]
fn root_with_only_synthetic_variables() {
    let r = root(&Vec::new(), "solo".to_string(), Some("10.0.0.1".to_string()));
    assert_eq!(r.status, 200);
    assert_eq!(r.body.matches("<tr><td>").count(), 2);
    assert!(r.body.contains("<td>HOSTNAME</td><td>solo</td>"));
    assert!(r.body.contains("</html>"));
}

#[test]
fn root_without_address_fails() {
    let r = root(&vars(&[("FOO", "bar")]), "node-1".to_string(), None);
    assert_eq!(r.status, 503);
    assert_eq!(r.content_type, "text/plain");
    assert!(!r.body.contains("<html>"));
}

#[test]
fn routes_by_exact_path() {
    assert_eq!(route("GET", "/"), Route::Root);
    assert_eq!(route("GET", "/health"), Route::Health);
    assert_eq!(route("GET", "/api"), Route::Api);
    assert_eq!(route("GET", "/health/"), Route::NotFound);
    assert_eq!(route("GET", "/apis"), Route::NotFound);
    assert_eq!(route("GET", ""), Route::NotFound);
}

#[test]
fn routes_other_methods_apart() {
    assert_eq!(route("POST", "/"), Route::MethodNotAllowed);
    assert_eq!(route("DELETE", "/api"), Route::MethodNotAllowed);
    assert_eq!(route("POST", "/missing"), Route::NotFound);
}

#[test]
fn miss_answers() {
    let r = miss(Route::NotFound);
    assert_eq!(r.status, 404);
    let r = miss(Route::MethodNotAllowed);
    assert_eq!(r.status, 405);
}
