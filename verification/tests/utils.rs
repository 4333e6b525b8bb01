use esp32_lighting::utils::{find_query_value, get_query_value, url_encode_params, FormParams};

#[test]
fn query_value_first_match() {
    assert_eq!(get_query_value("light=on&x=1", "light"), Some("on".to_string()));
    assert_eq!(get_query_value("a=1&a=2", "a"), Some("1".to_string()));
    assert_eq!(get_query_value("a=1", "b"), None);
    assert_eq!(get_query_value("", "a"), None);
}

#[test]
fn query_value_is_decoded() {
    assert_eq!(get_query_value("q=a%20b+c", "q"), Some("a b c".to_string()));
    assert_eq!(get_query_value("%6Bey=v", "key"), Some("v".to_string()));
    assert_eq!(get_query_value("flag", "flag"), Some(String::new()));
    assert_eq!(get_query_value("&&a=1&&", "a"), Some("1".to_string()));
}

#[test]
fn find_query_value_in_pairs() {
    let pairs = vec![
        ("x".to_string(), "1".to_string()),
        ("y".to_string(), "2".to_string()),
        ("x".to_string(), "3".to_string()),
    ];
    assert_eq!(find_query_value(&pairs, "x"), Some("1".to_string()));
    assert_eq!(find_query_value(&pairs, "y"), Some("2".to_string()));
    assert_eq!(find_query_value(&pairs, "z"), None);
}

#[test]
fn url_encode_params_joins_pairs() {
    let mut params = FormParams::new();
    assert_eq!(url_encode_params(&params), "");
    params.insert("code", "abc");
    assert_eq!(url_encode_params(&params), "code=abc");
    params.insert("redirect_uri", "http://1.2.3.4/cb");
    assert_eq!(url_encode_params(&params), "code=abc&redirect_uri=http://1.2.3.4/cb");
}

#[test]
fn form_params_insert_replaces() {
    let mut params = FormParams::new();
    params.insert("a", "1");
    params.insert("b", "2");
    params.insert("a", "3");
    assert_eq!(
        params.pairs(),
        &vec![("a".to_string(), "3".to_string()), ("b".to_string(), "2".to_string())]
    );
    assert_eq!(url_encode_params(&params), "a=3&b=2");
}
