use weather_app::endpoint::base_url;
use weather_app::endpoint::build_request_url;

#[test]
fn endpoint_is_fixed() {
    assert_eq!(base_url(), "https://api.weatherapi.com/v1/current.json");
}

#[test]
fn url_carries_key_and_query() {
    let url = build_request_url("testkey", "London");
    assert_eq!(
        url,
        "https://api.weatherapi.com/v1/current.json?key=testkey&q=London"
    );
}

#[test]
fn sentinel_query_is_passed_verbatim() {
    let url = build_request_url("testkey", "auto:ip");
    assert_eq!(
        url,
        "https://api.weatherapi.com/v1/current.json?key=testkey&q=auto:ip"
    );
}

#[test]
fn empty_query_still_targets_the_endpoint() {
    let url = build_request_url("k", "");
    assert_eq!(url, "https://api.weatherapi.com/v1/current.json?key=k&q=");
}
