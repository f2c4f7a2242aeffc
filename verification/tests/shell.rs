use weather_app::report::Condition;
use weather_app::report::Current;
use weather_app::report::FetchError;
use weather_app::report::Location;
use weather_app::report::WeatherResponse;
use weather_app::shell::UiAction;
use weather_app::shell::UiEvent;
use weather_app::shell::UiState;
use weather_app::shell::init;
use weather_app::shell::step;

fn oslo_snow() -> WeatherResponse {
    WeatherResponse {
        location: Location {
            name: String::from("Oslo"),
            region: String::from("Oslo"),
            country: String::from("Norway"),
        },
        current: Current {
            temp_c: format!("{}", -2.5),
            feelslike_c: format!("{}", -7.0),
            wind_kph: format!("{}", 14.4),
            wind_dir: String::from("NE"),
            pressure_mb: format!("{}", 998.0),
            precip_mm: format!("{}", 1.2),
            humidity: 88,
            cloud: 100,
            condition: Condition { text: String::from("Snow"), code: 1210 },
        },
    }
}

#[test]
fn startup_fetches_with_the_sentinel_query() {
    let (state, action) = init();
    assert_eq!(state, UiState::Fetching);
    match action {
        UiAction::StartFetch(query) => assert_eq!(query, "auto:ip"),
        _ => panic!("startup must begin a fetch"),
    }
}

#[test]
fn submission_starts_a_fetch() {
    let (state, action) = step(UiState::Idle, UiEvent::Submit(String::from("Paris")));
    assert_eq!(state, UiState::Fetching);
    match action {
        UiAction::StartFetch(query) => assert_eq!(query, "Paris"),
        _ => panic!("a submission must begin a fetch"),
    }
}

#[test]
fn successful_fetch_shows_the_report() {
    let (state, action) = step(UiState::Fetching, UiEvent::FetchDone(Ok(oslo_snow())));
    assert_eq!(state, UiState::ShowingReport);
    match action {
        UiAction::Show(text) => {
            assert!(text.contains("❄️ Oslo, Norway"));
            assert!(text.contains("-2.5°C (Feels like: -7°C)"));
            assert!(text.contains("Humidity: 88%"));
        }
        _ => panic!("a finished fetch must update the display"),
    }
}

#[test]
fn failed_fetch_shows_the_fallback_message() {
    let (state, action) = step(
        UiState::Fetching,
        UiEvent::FetchDone(Err(FetchError::Network)),
    );
    assert_eq!(state, UiState::ShowingError);
    match action {
        UiAction::Show(text) => assert_eq!(text, "Failed to fetch weather data."),
        _ => panic!("a failed fetch must update the display"),
    }
}

#[test]
fn interface_accepts_a_query_right_after_a_failure() {
    let (state, _) = step(
        UiState::Fetching,
        UiEvent::FetchDone(Err(FetchError::Network)),
    );
    assert_eq!(state, UiState::ShowingError);
    let (next, action) = step(state, UiEvent::Submit(String::from("Berlin")));
    assert_eq!(next, UiState::Fetching);
    match action {
        UiAction::StartFetch(query) => assert_eq!(query, "Berlin"),
        _ => panic!("an error must leave the interface able to fetch again"),
    }
}

#[test]
fn malformed_body_is_shown_like_a_network_failure() {
    let (decode_state, decode_action) = step(
        UiState::Fetching,
        UiEvent::FetchDone(Err(FetchError::Decode)),
    );
    let (network_state, network_action) = step(
        UiState::Fetching,
        UiEvent::FetchDone(Err(FetchError::Network)),
    );
    assert_eq!(decode_state, network_state);
    match (decode_action, network_action) {
        (UiAction::Show(a), UiAction::Show(b)) => assert_eq!(a, b),
        _ => panic!("both failures must update the display"),
    }
}

#[test]
fn submission_while_fetching_is_ignored() {
    let (state, action) = step(UiState::Fetching, UiEvent::Submit(String::from("Rome")));
    assert_eq!(state, UiState::Fetching);
    assert!(matches!(action, UiAction::Ignore));
}

#[test]
fn stray_fetch_result_is_ignored() {
    let (state, action) = step(UiState::Idle, UiEvent::FetchDone(Err(FetchError::Protocol)));
    assert_eq!(state, UiState::Idle);
    assert!(matches!(action, UiAction::Ignore));
}

#[test]
fn quit_exits_from_any_state() {
    for state in [
        UiState::Idle,
        UiState::Fetching,
        UiState::ShowingReport,
        UiState::ShowingError,
    ] {
        let (next, action) = step(state, UiEvent::Quit);
        assert_eq!(next, state);
        assert!(matches!(action, UiAction::Exit));
    }
}
