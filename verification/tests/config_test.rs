use mrv_drwa::config::{ChainType, Config};

#[test]
fn chain_simulator_config_points_at_the_local_simulator() {
    let c = Config::chain_simulator_config();
    assert_eq!(c.gateway_uri(), "http://localhost:8085");
    assert!(c.use_chain_simulator());
}

#[test]
fn real_chain_is_not_a_simulator() {
    let c = Config { gateway_uri: "https://gateway.multiversx.com".to_string(), chain_type: ChainType::Real };
    assert!(!c.use_chain_simulator());
    assert_eq!(c.gateway_uri(), "https://gateway.multiversx.com");
}
