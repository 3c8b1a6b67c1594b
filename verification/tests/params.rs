use quicforge::api::{runs_limit, BenchParamsInput};
use quicforge::errors::InvalidParam;
use quicforge::params::{BenchParams, ConnectionCount, PayloadSize, RequestCount, TargetAddr, TargetIp};

fn local_target(port: u16) -> TargetAddr {
    TargetAddr { ip: TargetIp::V4(0x7f00_0001), port }
}

#[test]
fn payload_size_validates_range() {
    assert!(PayloadSize::new(0).is_err());
    assert!(PayloadSize::new(1).is_ok());
    assert_eq!(PayloadSize::new(1232).unwrap().get(), 1232);
    assert!(PayloadSize::new(PayloadSize::MAX).is_ok());
    assert!(PayloadSize::new(PayloadSize::MAX + 1).is_err());
    assert_eq!(PayloadSize::default().get(), 1232);
}

#[test]
fn counts_reject_zero() {
    assert_eq!(ConnectionCount::new(0), Err(InvalidParam::ZeroConnections));
    assert_eq!(RequestCount::new(0), Err(InvalidParam::ZeroRequests));
    assert_eq!(ConnectionCount::new(8).unwrap().get(), 8);
    assert_eq!(RequestCount::new(5).unwrap().get(), 5);
}

#[test]
fn total_requests_multiplies() {
    let params = BenchParams::new(
        local_target(9000),
        ConnectionCount::new(4).unwrap(),
        RequestCount::new(250).unwrap(),
        PayloadSize::default(),
    );
    assert_eq!(params.total_requests(), 1000);
}

#[test]
fn payload_error_carries_the_size() {
    assert_eq!(PayloadSize::new(0), Err(InvalidParam::PayloadSize(0)));
    assert_eq!(
        PayloadSize::new(PayloadSize::MAX + 1),
        Err(InvalidParam::PayloadSize(1_048_577))
    );
    assert_eq!(PayloadSize::MIN, 1);
    assert_eq!(PayloadSize::MAX, 1_048_576);
}

#[test]
fn count_defaults() {
    assert_eq!(ConnectionCount::default().get(), 1);
    assert_eq!(RequestCount::default().get(), 1000);
}

fn input(connections: u32, requests: u64, payload: u32) -> BenchParamsInput {
    BenchParamsInput {
        target: "127.0.0.1:9000".to_string(),
        connections,
        requests_per_connection: requests,
        payload_bytes: payload,
    }
}

#[test]
fn input_is_validated_in_order() {
    let target = local_target(9000);
    assert_eq!(input(0, 0, 0).to_params(target).unwrap_err(), InvalidParam::ZeroConnections);
    assert_eq!(input(1, 0, 0).to_params(target).unwrap_err(), InvalidParam::ZeroRequests);
    assert_eq!(input(1, 1, 0).to_params(target).unwrap_err(), InvalidParam::PayloadSize(0));
    let params = input(2, 5, 256).to_params(target).unwrap();
    assert_eq!(params.target, target);
    assert_eq!(params.connections.get(), 2);
    assert_eq!(params.requests_per_connection.get(), 5);
    assert_eq!(params.payload.get(), 256);
    assert_eq!(params.total_requests(), 10);
}

#[test]
fn runs_limit_is_clamped() {
    assert_eq!(runs_limit(-5), 1);
    assert_eq!(runs_limit(0), 1);
    assert_eq!(runs_limit(1), 1);
    assert_eq!(runs_limit(20), 20);
    assert_eq!(runs_limit(200), 200);
    assert_eq!(runs_limit(201), 200);
}
