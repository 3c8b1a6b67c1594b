use quicforge::config::{BenchArgs, ServeArgs, Transport};
use quicforge::sim::LoopbackConnector;

#[test]
fn argument_defaults() {
    let serve = ServeArgs::default();
    assert_eq!(serve.host, "127.0.0.1");
    assert_eq!(serve.port, 8080);
    assert_eq!(serve.transport, Transport::Loopback);
    let bench = BenchArgs::default();
    assert_eq!(bench.target, "127.0.0.1:0");
    assert_eq!((bench.connections, bench.requests, bench.payload), (1, 1000, 1232));
    assert!(!bench.spawn_echo);
    assert_eq!(bench.sim_delay_us, 0);
    assert_eq!(Transport::default(), Transport::Loopback);
}

#[test]
fn loopback_connector_delays() {
    assert_eq!(LoopbackConnector::new().delay(), None);
    let d = std::time::Duration::from_micros(5);
    assert_eq!(LoopbackConnector::with_delay(d).delay(), Some(d));
    assert_eq!(LoopbackConnector::default().delay(), None);
}
