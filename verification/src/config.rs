//! Configuration of the DRWA interactor: which gateway it talks to and
//! whether that gateway is a chain simulator.
use vstd::prelude::*;

verus! {

/// The kind of chain behind the gateway.
#[derive(Clone, Copy, PartialEq, Eq, Structural, Debug)]
pub enum ChainType {
    Real,
    Simulator,
}

/// DRWA interactor configuration.
pub struct Config {
    pub gateway_uri: String,
    pub chain_type: ChainType,
}

impl Config {
    /// The configuration of a local chain simulator.
    pub fn chain_simulator_config() -> (c: Self)
        ensures
            c.gateway_uri@ == "http://localhost:8085"@,
            c.chain_type == ChainType::Simulator,
    {
        Config { gateway_uri: "http://localhost:8085".to_owned(), chain_type: ChainType::Simulator }
    }

    /// Returns the gateway URI.
    pub fn gateway_uri(&self) -> (r: &str)
        ensures
            r@ == self.gateway_uri@,
    {
        self.gateway_uri.as_str()
    }

    /// Returns `true` when the configured chain type is `Simulator`.
    pub fn use_chain_simulator(&self) -> (r: bool)
        ensures
            r == (self.chain_type == ChainType::Simulator),
    {
        match self.chain_type {
            ChainType::Real => false,
            ChainType::Simulator => true,
        }
    }
}

} // verus!
