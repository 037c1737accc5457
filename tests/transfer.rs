use oras_client::{
    assemble_image, check_layers, collect_layers, mount_message, protocol_for, ClientError, ErrorKind, NapiConfig,
    NapiImageLayer, Protocol, PushSession, PushStep,
};

fn layer(b: u8) -> NapiImageLayer {
    NapiImageLayer { data: vec![b, b], media_type: "application/vnd.oci.image.layer.v1.tar".to_string(), annotations: None }
}

fn config() -> NapiConfig {
    NapiConfig { data: b"{}".to_vec(), media_type: "application/vnd.oci.image.config.v1+json".to_string(), annotations: None }
}

fn missing(what: &str) -> ClientError {
    ClientError::new(ErrorKind::NotFound, what.to_string())
}

#[test]
fn check_layers_accepts_known_types() {
    let types = vec!["a".to_string(), "b".to_string(), "a".to_string()];
    let accepted = vec!["b".to_string(), "a".to_string()];
    assert!(check_layers(&types, &accepted).is_ok());
}

#[test]
fn check_layers_refuses_no_layers() {
    let e = check_layers(&vec![], &vec!["a".to_string()]).unwrap_err();
    assert_eq!(e.kind, ErrorKind::NoLayers);
}

#[test]
fn check_layers_refuses_unaccepted_type() {
    let e = check_layers(&vec!["a".to_string(), "c".to_string()], &vec!["a".to_string()]).unwrap_err();
    assert_eq!(e.kind, ErrorKind::IncompatibleLayer);
    assert_eq!(e.cause, "c");
}

#[test]
fn collect_layers_keeps_order() {
    let got = collect_layers(vec![Ok(layer(1)), Ok(layer(2)), Ok(layer(3))]).unwrap();
    assert_eq!(got, vec![layer(1), layer(2), layer(3)]);
}

#[test]
fn collect_layers_first_failure_wins() {
    let e = collect_layers(vec![Ok(layer(1)), Err(missing("second")), Err(missing("third"))]).unwrap_err();
    assert_eq!(e.cause, "second");
}

#[test]
fn assemble_image_all_present() {
    let d = assemble_image("sha256:abc".to_string(), Ok(config()), vec![Ok(layer(1)), Ok(layer(2))]).unwrap();
    assert_eq!(d.digest.as_deref(), Some("sha256:abc"));
    assert_eq!(d.config, Some(config()));
    assert_eq!(d.layers, vec![layer(1), layer(2)]);
}

#[test]
fn assemble_image_one_missing_blob_fails_whole_pull() {
    let r = assemble_image("sha256:abc".to_string(), Ok(config()), vec![Ok(layer(1)), Err(missing("layer 2")), Ok(layer(3))]);
    let e = r.unwrap_err();
    assert_eq!(e.kind, ErrorKind::NotFound);
    assert_eq!(e.cause, "layer 2");
}

#[test]
fn assemble_image_missing_config_fails() {
    let e = assemble_image("sha256:abc".to_string(), Err(missing("config")), vec![Err(missing("layer"))]).unwrap_err();
    assert_eq!(e.cause, "config");
}

#[test]
fn push_session_orders_blobs_before_manifest() {
    let mut s = PushSession::new(2);
    let mut seen = Vec::new();
    loop {
        let step = s.next_step();
        seen.push(step);
        if step == PushStep::Finished || step == PushStep::Aborted {
            break;
        }
        s.record(true);
    }
    assert_eq!(seen, vec![PushStep::Config, PushStep::Layer(0), PushStep::Layer(1), PushStep::Manifest, PushStep::Finished]);
}

#[test]
fn push_session_failed_blob_prevents_manifest() {
    let mut s = PushSession::new(3);
    assert_eq!(s.next_step(), PushStep::Config);
    s.record(true);
    assert_eq!(s.next_step(), PushStep::Layer(0));
    s.record(true);
    assert_eq!(s.next_step(), PushStep::Layer(1));
    s.record(false);
    for _ in 0..5 {
        assert_eq!(s.next_step(), PushStep::Aborted);
        s.record(true);
    }
}

#[test]
fn push_session_without_layers() {
    let mut s = PushSession::new(0);
    assert_eq!(s.next_step(), PushStep::Config);
    s.record(true);
    assert_eq!(s.next_step(), PushStep::Manifest);
    s.record(true);
    assert_eq!(s.next_step(), PushStep::Finished);
}

#[test]
fn protocol_follows_insecure_flag() {
    assert_eq!(protocol_for(Some(true)), Protocol::Http);
    assert_eq!(protocol_for(Some(false)), Protocol::Https);
    assert_eq!(protocol_for(None), Protocol::Https);
}

#[test]
fn mount_message_words() {
    assert_eq!(
        mount_message("sha256:abc", "ghcr.io/a/src:v1", "ghcr.io/a/dst:v1"),
        "Mounted blob sha256:abc from ghcr.io/a/src:v1 to ghcr.io/a/dst:v1"
    );
}

#[test]
fn error_message_names_action_and_cause() {
    let e = ClientError::new(ErrorKind::NotFound, "manifest unknown".to_string());
    assert_eq!(e.message("pull manifest"), "Failed to pull manifest: manifest unknown");
}
