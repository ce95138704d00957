use freertos_rt::event_group::{CONNECTED_BIT, ESPTOUCH_DONE_BIT};
use freertos_rt::provisioning::{
    classify_event, credential_to_config, worker_step, worker_task_config, EventBase,
    HandlerAction, ProvisioningCredential, ProvisioningModel, ProvisioningPhase,
    IP_EVENT_STA_GOT_IP, SC_EVENT_FOUND_CHANNEL, SC_EVENT_GOT_SSID_PSWD, SC_EVENT_SCAN_DONE,
    SC_EVENT_SEND_ACK_DONE, WIFI_EVENT_STA_DISCONNECTED, WIFI_EVENT_STA_START, WORKER_WAIT_MASK,
};

fn home_credential() -> ProvisioningCredential {
    ProvisioningCredential {
        ssid: b"home".to_vec(),
        password: b"secret1".to_vec(),
        bssid: vec![0; 6],
        bssid_set: false,
    }
}

fn run_provisioning_round(model: &mut ProvisioningModel) {
    model.dispatch(Some(EventBase::WifiEvent), WIFI_EVENT_STA_START, None);
    model.dispatch(
        Some(EventBase::ScEvent),
        SC_EVENT_GOT_SSID_PSWD,
        Some(&home_credential()),
    );
    model.dispatch(Some(EventBase::IpEvent), IP_EVENT_STA_GOT_IP, None);
    model.dispatch(Some(EventBase::ScEvent), SC_EVENT_SEND_ACK_DONE, None);
}

#[test]
fn classification_table() {
    assert_eq!(
        classify_event(Some(EventBase::WifiEvent), WIFI_EVENT_STA_START),
        HandlerAction::SpawnWorker
    );
    assert_eq!(
        classify_event(Some(EventBase::WifiEvent), WIFI_EVENT_STA_DISCONNECTED),
        HandlerAction::ClearConnected
    );
    assert_eq!(
        classify_event(Some(EventBase::IpEvent), IP_EVENT_STA_GOT_IP),
        HandlerAction::SetConnected
    );
    assert_eq!(
        classify_event(Some(EventBase::ScEvent), SC_EVENT_SCAN_DONE),
        HandlerAction::LogScanDone
    );
    assert_eq!(
        classify_event(Some(EventBase::ScEvent), SC_EVENT_FOUND_CHANNEL),
        HandlerAction::LogFoundChannel
    );
    assert_eq!(
        classify_event(Some(EventBase::ScEvent), SC_EVENT_GOT_SSID_PSWD),
        HandlerAction::ApplyCredential
    );
    assert_eq!(
        classify_event(Some(EventBase::ScEvent), SC_EVENT_SEND_ACK_DONE),
        HandlerAction::SetProvisioningDone
    );
}

#[test]
fn unrecognized_pairs_are_ignored() {
    assert_eq!(
        classify_event(Some(EventBase::WifiEvent), 99),
        HandlerAction::Ignore
    );
    assert_eq!(
        classify_event(Some(EventBase::IpEvent), 5),
        HandlerAction::Ignore
    );
    assert_eq!(
        classify_event(Some(EventBase::ScEvent), 42),
        HandlerAction::Ignore
    );
    assert_eq!(classify_event(None, WIFI_EVENT_STA_START), HandlerAction::Ignore);
}

#[test]
fn credential_without_fixed_peer() {
    let config = credential_to_config(&home_credential());
    assert_eq!(config.ssid, b"home".to_vec());
    assert_eq!(config.password, b"secret1".to_vec());
    assert_eq!(config.bssid, None);
}

#[test]
fn credential_with_fixed_peer() {
    let mut credential = home_credential();
    credential.bssid = vec![1, 2, 3, 4, 5, 6];
    credential.bssid_set = true;
    let config = credential_to_config(&credential);
    assert_eq!(config.bssid, Some(vec![1, 2, 3, 4, 5, 6]));
}

#[test]
fn worker_task_is_pinned_and_elevated() {
    let request = worker_task_config().prepare().expect("worker name encodes");
    assert_eq!(request.name_with_nul, b"smartconfig_example_task\0".to_vec());
    assert_eq!(request.stack_size, 4096);
    assert_eq!(request.priority, 3);
    assert_eq!(request.core_id, 0);
}

#[test]
fn worker_wakes() {
    assert_eq!(WORKER_WAIT_MASK, CONNECTED_BIT | ESPTOUCH_DONE_BIT);
    assert_eq!(worker_step(0), (false, false));
    assert_eq!(worker_step(CONNECTED_BIT), (true, false));
    assert_eq!(worker_step(ESPTOUCH_DONE_BIT), (false, true));
    assert_eq!(worker_step(CONNECTED_BIT | ESPTOUCH_DONE_BIT), (true, true));
}

#[test]
fn provisioning_scenario() {
    let mut model = ProvisioningModel::new();
    assert_eq!(model.phase, ProvisioningPhase::Idle);

    model.dispatch(Some(EventBase::WifiEvent), WIFI_EVENT_STA_START, None);
    assert_eq!(model.workers_spawned, 1, "exactly one worker task is spawned");
    assert_eq!(model.phase, ProvisioningPhase::Scanning);

    model.dispatch(
        Some(EventBase::ScEvent),
        SC_EVENT_GOT_SSID_PSWD,
        Some(&home_credential()),
    );
    assert_eq!(model.disconnects, 1);
    assert_eq!(model.connects, 1);
    assert_eq!(model.configs_applied.len(), 1, "the config is written exactly once");
    assert_eq!(model.configs_applied[0].ssid, b"home".to_vec());
    assert_eq!(model.configs_applied[0].password, b"secret1".to_vec());
    assert_eq!(model.phase, ProvisioningPhase::CredentialsReceived);

    model.dispatch(Some(EventBase::IpEvent), IP_EVENT_STA_GOT_IP, None);
    assert_eq!(model.phase, ProvisioningPhase::Connected);

    model.dispatch(Some(EventBase::ScEvent), SC_EVENT_SEND_ACK_DONE, None);
    assert_eq!(model.phase, ProvisioningPhase::ProvisioningDone);

    // The worker observes both bits before terminating.
    let woke = model
        .group
        .try_wait_bits(WORKER_WAIT_MASK, true, false)
        .expect("both bits are set");
    assert_eq!(worker_step(woke), (true, true));

    assert_eq!(model.workers_spawned, 1, "no further spawn in the whole round");
}

#[test]
fn repeating_a_round_spawns_a_second_worker() {
    // Two full provisioning rounds spawn exactly two worker tasks: the
    // handler never deduplicates across rounds.
    let mut model = ProvisioningModel::new();
    run_provisioning_round(&mut model);
    assert_eq!(model.workers_spawned, 1);
    run_provisioning_round(&mut model);
    assert_eq!(model.workers_spawned, 2);
    assert_eq!(model.configs_applied.len(), 2);
}

#[test]
fn disconnect_clears_only_the_connected_bit() {
    let mut model = ProvisioningModel::new();
    run_provisioning_round(&mut model);
    assert_eq!(model.group.get_bits(), CONNECTED_BIT | ESPTOUCH_DONE_BIT);
    model.dispatch(Some(EventBase::WifiEvent), WIFI_EVENT_STA_DISCONNECTED, None);
    assert_eq!(model.group.get_bits(), ESPTOUCH_DONE_BIT);
    assert_eq!(model.phase, ProvisioningPhase::Connecting);
}

#[test]
fn credential_event_without_payload_changes_nothing() {
    let mut model = ProvisioningModel::new();
    model.dispatch(Some(EventBase::ScEvent), SC_EVENT_GOT_SSID_PSWD, None);
    assert_eq!(model.configs_applied.len(), 0);
    assert_eq!(model.disconnects, 0);
    assert_eq!(model.phase, ProvisioningPhase::Idle);
}

#[test]
fn scan_and_channel_events_only_move_the_phase() {
    let mut model = ProvisioningModel::new();
    model.dispatch(Some(EventBase::WifiEvent), WIFI_EVENT_STA_START, None);
    model.dispatch(Some(EventBase::ScEvent), SC_EVENT_SCAN_DONE, None);
    assert_eq!(model.phase, ProvisioningPhase::Scanning);
    model.dispatch(Some(EventBase::ScEvent), SC_EVENT_FOUND_CHANNEL, None);
    assert_eq!(model.phase, ProvisioningPhase::CredentialsAwaited);
    assert_eq!(model.group.get_bits(), 0);
    assert_eq!(model.disconnects, 0);
    assert_eq!(model.connects, 0);
}
