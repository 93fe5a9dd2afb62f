use sensor_gateway::channel_state::{ChannelState, OpenOutcome};
use sensor_gateway::types::GatewayError;

#[test]
fn session_identifier_is_address_colon_message_id() {
    let state = ChannelState::new("ADDR".to_string(), "MSG".to_string());
    assert_eq!(state.channel_id, "ADDR:MSG");
    assert_eq!(state.current_id(), "ADDR:MSG");
}

#[test]
fn successful_switch_replaces_the_state_wholesale() {
    let mut state = ChannelState::new("A1".to_string(), "M1".to_string());
    let r = state.switch(OpenOutcome::Opened("A2".to_string(), "M2".to_string()));
    assert_eq!(r, Ok("A2:M2".to_string()));
    assert_eq!(state.address, "A2");
    assert_eq!(state.msg_id, "M2");
    assert_eq!(state.current_id(), "A2:M2");
}

#[test]
fn failed_switch_leaves_current_id_unchanged() {
    let mut state = ChannelState::new("A1".to_string(), "M1".to_string());
    let before = state.current_id();
    let r = state.switch(OpenOutcome::Failed);
    assert_eq!(r, Err(GatewayError::SessionUnavailable));
    assert_eq!(state.current_id(), before);
    assert_eq!(
        state,
        ChannelState::new("A1".to_string(), "M1".to_string())
    );
}

#[test]
fn after_many_switches_the_last_successful_one_names_the_session() {
    let mut state = ChannelState::new("A1".to_string(), "M1".to_string());
    let first = state.switch(OpenOutcome::Opened("A2".to_string(), "M2".to_string()));
    let second = state.switch(OpenOutcome::Opened("A3".to_string(), "M3".to_string()));
    let third = state.switch(OpenOutcome::Failed);
    assert_eq!(first, Ok("A2:M2".to_string()));
    assert_eq!(second, Ok("A3:M3".to_string()));
    assert_eq!(third, Err(GatewayError::SessionUnavailable));
    // the surviving state is exactly the one the last successful switch made
    assert_eq!(state.current_id(), "A3:M3");
    assert_eq!(state.address, "A3");
    assert_eq!(state.msg_id, "M3");
}

#[test]
fn forward_echoes_session_id_on_success() {
    let state = ChannelState::new("ADDR".to_string(), "MSG".to_string());
    assert_eq!(state.forward_result(true), Ok("ADDR:MSG".to_string()));
}

#[test]
fn forward_surfaces_backend_failure() {
    let state = ChannelState::new("ADDR".to_string(), "MSG".to_string());
    let before = state.current_id();
    assert_eq!(
        state.forward_result(false),
        Err(GatewayError::SessionUnavailable)
    );
    assert_eq!(state.current_id(), before);
}
