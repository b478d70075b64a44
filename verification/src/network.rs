//! The state of a node's connection to the network, and its initialisation.

use crate::address::Address;
use crate::views::opt_view;
use vstd::prelude::*;

verus! {

/// What a node tells the network when it joins: the DNA it runs and the
/// agent it runs it for.
#[derive(Debug, PartialEq, Eq)]
pub struct TrackDnaData {
    pub dna_address: Address,
    pub agent_id: String,
}

/// Mathematical model of a [`TrackDnaData`].
pub struct TrackDnaDataView {
    pub dna_address: Seq<char>,
    pub agent_id: Seq<char>,
}

impl View for TrackDnaData {
    type V = TrackDnaDataView;

    open spec fn view(&self) -> TrackDnaDataView {
        TrackDnaDataView { dna_address: self.dna_address@, agent_id: self.agent_id@ }
    }
}

/// The settings with which a node's network is initialised.
#[derive(Debug, PartialEq, Eq)]
pub struct NetworkSettings {
    pub dna_address: Address,
    pub agent_id: String,
}

/// Mathematical model of a [`NetworkSettings`].
pub struct NetworkSettingsView {
    pub dna_address: Seq<char>,
    pub agent_id: Seq<char>,
}

impl View for NetworkSettings {
    type V = NetworkSettingsView;

    open spec fn view(&self) -> NetworkSettingsView {
        NetworkSettingsView { dna_address: self.dna_address@, agent_id: self.agent_id@ }
    }
}

/// The network part of a node's state. `N` is the connection to the
/// network, which this library only keeps.
#[derive(Debug, PartialEq, Eq)]
pub struct NetworkState<N> {
    /// The connection, once the network is initialised.
    pub network: Option<N>,
    /// The DNA that the node tracks, once the network is initialised.
    pub dna_address: Option<Address>,
    /// The agent that the node runs for, once the network is initialised.
    pub agent_id: Option<String>,
}

impl<N> NetworkState<N> {
    /// The state of a node that has not joined a network.
    pub fn new() -> (state: NetworkState<N>)
        ensures
            state.network is None,
            state.dna_address is None,
            state.agent_id is None,
    {
        NetworkState { network: None, dna_address: None, agent_id: None }
    }

    /// Whether the network is initialised.
    pub open spec fn is_initialised(&self) -> bool {
        self.network is Some
    }
}

/// The message with which a node with these settings joins the network.
pub fn track_dna_message(network_settings: &NetworkSettings) -> (message: TrackDnaData)
    ensures
        message@.dna_address == network_settings@.dna_address,
        message@.agent_id == network_settings@.agent_id,
{
    TrackDnaData {
        dna_address: network_settings.dna_address.clone(),
        agent_id: network_settings.agent_id.clone(),
    }
}

/// Initialises the network part of the state, given the connection that
/// was opened and whether the message of [`track_dna_message`] could be
/// sent over it. If it was sent, the state keeps the connection and takes
/// the DNA address and agent from the settings; if not, the state stays as
/// it was and the connection is dropped.
pub fn reduce_init<N>(
    state: &mut NetworkState<N>,
    network_settings: &NetworkSettings,
    network: N,
    sent: bool,
)
    ensures
        sent ==> {
            &&& final(state).network == Some(network)
            &&& opt_view(final(state).dna_address) == Some(network_settings@.dna_address)
            &&& opt_view(final(state).agent_id) == Some(network_settings@.agent_id)
        },
        !sent ==> *final(state) == *old(state),
{
    if sent {
        state.network = Some(network);
        state.dna_address = Some(network_settings.dna_address.clone());
        state.agent_id = Some(network_settings.agent_id.clone());
    }
}

} // verus!
