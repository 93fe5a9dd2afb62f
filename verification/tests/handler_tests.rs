use sensor_gateway::channel_state::ChannelState;
use sensor_gateway::device_auth::{calculate_hash, KeyManager};
use sensor_gateway::handlers::{
    device_param, handle_bundle_data, handle_current_channel, handle_sensor_data,
    handle_switch_auth, route, status_body, Route,
};
use sensor_gateway::types::{status_code, BundleData, GatewayError, SensorData, SwitchAuth};

fn whitelist(ids: &[&str]) -> KeyManager {
    KeyManager::new(ids.iter().map(|s| s.to_string()).collect())
}

fn reading(device: &str, timestamp: u64, sensors: &str) -> SensorData {
    SensorData {
        device: device.to_string(),
        timestamp,
        sensors: sensors.to_string(),
    }
}

#[test]
fn routing_table_matches_the_http_surface() {
    assert_eq!(route("POST", "/sensor_data"), Route::SensorData);
    assert_eq!(route("POST", "/bundle_data"), Route::BundleData);
    assert_eq!(route("POST", "/switch_channel"), Route::SwitchChannel);
    assert_eq!(route("GET", "/current_channel"), Route::CurrentChannel);
    assert_eq!(route("GET", "/status"), Route::Status);
    assert_eq!(route("GET", "/sensor_data"), Route::NotFound);
    assert_eq!(route("POST", "/status"), Route::NotFound);
    assert_eq!(route("POST", "/unknown"), Route::NotFound);
    assert_eq!(route("DELETE", "/status"), Route::NotFound);
}

#[test]
fn status_handler_acknowledges() {
    assert_eq!(status_body(), "OK");
}

#[test]
fn status_codes_per_error_kind() {
    assert_eq!(status_code(&GatewayError::MalformedPayload), 400);
    assert_eq!(status_code(&GatewayError::Unauthorized), 401);
    assert_eq!(status_code(&GatewayError::SessionUnavailable), 408);
    assert_eq!(status_code(&GatewayError::NotFound), 404);
}

#[test]
fn sensor_data_authorized_is_anonymized_and_forwarded() {
    let km = whitelist(&["dev-a"]);
    let state = ChannelState::new("ADDR".to_string(), "MSG".to_string());
    let parsed = Some(reading("dev-a", 0, "{\"temp\":21}"));
    let out = handle_sensor_data(parsed, &km, 99).expect("authorized reading is forwarded");
    assert_eq!(out.device, calculate_hash("dev-a".to_string()));
    assert_ne!(out.device, "dev-a");
    assert_eq!(out.timestamp, 99);
    assert_eq!(out.sensors, "{\"temp\":21}");
    // after a successful backend write the response echoes the session id
    assert_eq!(state.forward_result(true), Ok("ADDR:MSG".to_string()));
}

#[test]
fn sensor_data_unlisted_device_is_rejected() {
    let km = whitelist(&["dev-a"]);
    let r = handle_sensor_data(Some(reading("dev-x", 0, "{}")), &km, 99);
    assert_eq!(r, Err(GatewayError::Unauthorized));
    assert_eq!(status_code(&r.unwrap_err()), 401);
}

#[test]
fn sensor_data_unparsed_body_is_malformed() {
    let km = whitelist(&["dev-a"]);
    let r = handle_sensor_data(None, &km, 99);
    assert_eq!(r, Err(GatewayError::MalformedPayload));
    assert_eq!(status_code(&r.unwrap_err()), 400);
}

#[test]
fn bundle_with_one_unlisted_device_forwards_nothing() {
    let km = whitelist(&["dev-a", "dev-b"]);
    let parsed = Some(BundleData {
        bundle: vec![
            reading("dev-a", 1, "{}"),
            reading("dev-x", 2, "{}"),
            reading("dev-b", 3, "{}"),
        ],
    });
    let r = handle_bundle_data(parsed, &km, 99);
    assert_eq!(r, Err(GatewayError::Unauthorized));
    assert_eq!(status_code(&r.unwrap_err()), 401);
}

#[test]
fn bundle_with_all_devices_listed_is_anonymized_wholesale() {
    let km = whitelist(&["dev-a", "dev-b"]);
    let parsed = Some(BundleData {
        bundle: vec![
            reading("dev-a", 1, "{\"x\":1}"),
            reading("dev-b", 2, "{\"x\":2}"),
            reading("dev-a", 3, "{\"x\":3}"),
        ],
    });
    let out = handle_bundle_data(parsed, &km, 99).expect("fully authorized bundle is forwarded");
    assert_eq!(out.bundle.len(), 3);
    let da = calculate_hash("dev-a".to_string());
    let db = calculate_hash("dev-b".to_string());
    assert_eq!(out.bundle[0].device, da);
    assert_eq!(out.bundle[1].device, db);
    assert_eq!(out.bundle[2].device, da);
    // every forwarded reading carries the gateway's receipt time, never the
    // device-supplied one; measurements are kept
    assert_eq!(out.bundle[0].timestamp, 99);
    assert_eq!(out.bundle[1].timestamp, 99);
    assert_eq!(out.bundle[2].timestamp, 99);
    assert_eq!(out.bundle[2].sensors, "{\"x\":3}");
}

#[test]
fn empty_bundle_is_forwarded_empty() {
    let km = whitelist(&["dev-a"]);
    let out = handle_bundle_data(Some(BundleData { bundle: vec![] }), &km, 99)
        .expect("empty bundle");
    assert!(out.bundle.is_empty());
}

#[test]
fn bundle_unparsed_body_is_malformed() {
    let km = whitelist(&["dev-a"]);
    assert_eq!(
        handle_bundle_data(None, &km, 99),
        Err(GatewayError::MalformedPayload)
    );
}

#[test]
fn switch_request_decisions() {
    let km = whitelist(&["dev-a"]);
    assert_eq!(
        handle_switch_auth(None, &km),
        Err(GatewayError::MalformedPayload)
    );
    assert_eq!(
        handle_switch_auth(
            Some(SwitchAuth {
                device: "dev-x".to_string()
            }),
            &km
        ),
        Err(GatewayError::Unauthorized)
    );
    assert_eq!(
        handle_switch_auth(
            Some(SwitchAuth {
                device: "dev-a".to_string()
            }),
            &km
        ),
        Ok(())
    );
}

#[test]
fn device_query_parameter_extraction() {
    assert_eq!(device_param("device=dev-a"), Some("dev-a".to_string()));
    assert_eq!(device_param("x=1&device=dev-a"), Some("dev-a".to_string()));
    assert_eq!(device_param("device=a&device=b"), Some("a".to_string()));
    assert_eq!(device_param("device="), Some("".to_string()));
    assert_eq!(device_param("dev-a"), None);
    assert_eq!(device_param(""), None);
    assert_eq!(device_param("xdevice=q"), None);
    assert_eq!(device_param("devic=a&b=c"), None);
    assert_eq!(device_param("a=b&&device=z"), Some("z".to_string()));
}

#[test]
fn current_channel_identity_from_query_string() {
    let km = whitelist(&["dev-a"]);
    let state = ChannelState::new("ADDR".to_string(), "MSG".to_string());
    let r = handle_current_channel(None, Some("dev-a".to_string()), &km, &state);
    assert_eq!(r, Ok("ADDR:MSG".to_string()));
}

#[test]
fn current_channel_identity_from_body() {
    let km = whitelist(&["dev-a"]);
    let state = ChannelState::new("ADDR".to_string(), "MSG".to_string());
    let r = handle_current_channel(Some("dev-a".to_string()), None, &km, &state);
    assert_eq!(r, Ok("ADDR:MSG".to_string()));
}

#[test]
fn current_channel_body_identity_wins_over_query() {
    let km = whitelist(&["dev-a"]);
    let state = ChannelState::new("ADDR".to_string(), "MSG".to_string());
    let r = handle_current_channel(
        Some("dev-x".to_string()),
        Some("dev-a".to_string()),
        &km,
        &state,
    );
    assert_eq!(r, Err(GatewayError::Unauthorized));
}

#[test]
fn current_channel_without_any_identity_is_rejected() {
    let km = whitelist(&["dev-a"]);
    let state = ChannelState::new("ADDR".to_string(), "MSG".to_string());
    let r = handle_current_channel(None, None, &km, &state);
    assert_eq!(r, Err(GatewayError::Unauthorized));
    assert_eq!(status_code(&r.unwrap_err()), 401);
}

#[test]
fn current_channel_unlisted_identity_is_rejected() {
    let km = whitelist(&["dev-a"]);
    let state = ChannelState::new("ADDR".to_string(), "MSG".to_string());
    let r = handle_current_channel(None, Some("dev-x".to_string()), &km, &state);
    assert_eq!(r, Err(GatewayError::Unauthorized));
}
