//! The settings a node runs with, as the resolution of a caller's configuration leaves
//! them.

use vstd::prelude::*;
use vstd::string::*;
use crate::worker::NodeType;

verus! {

/// The settings that the resolution of a configuration writes. The host copies them onto
/// the node's own configuration before it constructs the node.
#[derive(Debug)]
pub struct RawConfiguration {
    pub node_type: Option<NodeType>,
    pub block_db_type: String,
    pub conflux_data_dir: String,
    pub block_db_dir: Option<String>,
    pub netconf_dir: Option<String>,
    pub chain_id: Option<u32>,
    pub evm_chain_id: Option<u32>,
    pub bootnodes: Option<String>,
    pub mining_author: Option<String>,
    pub stratum_listen_address: String,
    pub mining_type: Option<String>,
    pub stratum_port: u16,
    pub stratum_secret: Option<String>,
    pub pow_problem_window_size: usize,
    pub mode: Option<String>,
    pub dev_block_interval_ms: Option<u64>,
    pub dev_pack_tx_immediately: Option<bool>,
    pub genesis_secrets: Option<String>,
    pub genesis_evm_secrets: Option<String>,
    pub tcp_port: u16,
    pub udp_port: Option<u16>,
    pub public_address: Option<String>,
    pub public_rpc_apis: String,
    pub public_evm_rpc_apis: String,
    pub jsonrpc_ws_port: Option<u16>,
    pub jsonrpc_http_port: Option<u16>,
    pub jsonrpc_tcp_port: Option<u16>,
    pub jsonrpc_http_eth_port: Option<u16>,
    pub jsonrpc_ws_eth_port: Option<u16>,
    pub jsonrpc_local_tcp_port: Option<u16>,
    pub jsonrpc_local_http_port: Option<u16>,
    pub jsonrpc_local_ws_port: Option<u16>,
    pub jsonrpc_http_keep_alive: bool,
    pub dev_pos_private_key_encryption_password: Option<String>,
    pub pos_reference_enable_height: u64,
    pub pos_config_path: Option<String>,
    pub pos_initial_nodes_path: String,
    pub pos_private_key_path: String,
    pub default_transition_time: Option<u64>,
    pub cip1559_transition_height: Option<u64>,
    pub hydra_transition_number: Option<u64>,
    pub hydra_transition_height: Option<u64>,
    pub cip112_transition_height: Option<u64>,
    pub log_conf: Option<String>,
    pub print_memory_usage_period_s: Option<u64>,
    pub poll_lifetime_in_seconds: Option<u32>,
    pub get_logs_filter_max_limit: Option<usize>,
}

/// The settings as contracts see them: text as sequences of characters.
pub struct RawConfigurationView {
    pub node_type: Option<NodeType>,
    pub block_db_type: Seq<char>,
    pub conflux_data_dir: Seq<char>,
    pub block_db_dir: Option<Seq<char>>,
    pub netconf_dir: Option<Seq<char>>,
    pub chain_id: Option<u32>,
    pub evm_chain_id: Option<u32>,
    pub bootnodes: Option<Seq<char>>,
    pub mining_author: Option<Seq<char>>,
    pub stratum_listen_address: Seq<char>,
    pub mining_type: Option<Seq<char>>,
    pub stratum_port: u16,
    pub stratum_secret: Option<Seq<char>>,
    pub pow_problem_window_size: usize,
    pub mode: Option<Seq<char>>,
    pub dev_block_interval_ms: Option<u64>,
    pub dev_pack_tx_immediately: Option<bool>,
    pub genesis_secrets: Option<Seq<char>>,
    pub genesis_evm_secrets: Option<Seq<char>>,
    pub tcp_port: u16,
    pub udp_port: Option<u16>,
    pub public_address: Option<Seq<char>>,
    pub public_rpc_apis: Seq<char>,
    pub public_evm_rpc_apis: Seq<char>,
    pub jsonrpc_ws_port: Option<u16>,
    pub jsonrpc_http_port: Option<u16>,
    pub jsonrpc_tcp_port: Option<u16>,
    pub jsonrpc_http_eth_port: Option<u16>,
    pub jsonrpc_ws_eth_port: Option<u16>,
    pub jsonrpc_local_tcp_port: Option<u16>,
    pub jsonrpc_local_http_port: Option<u16>,
    pub jsonrpc_local_ws_port: Option<u16>,
    pub jsonrpc_http_keep_alive: bool,
    pub dev_pos_private_key_encryption_password: Option<Seq<char>>,
    pub pos_reference_enable_height: u64,
    pub pos_config_path: Option<Seq<char>>,
    pub pos_initial_nodes_path: Seq<char>,
    pub pos_private_key_path: Seq<char>,
    pub default_transition_time: Option<u64>,
    pub cip1559_transition_height: Option<u64>,
    pub hydra_transition_number: Option<u64>,
    pub hydra_transition_height: Option<u64>,
    pub cip112_transition_height: Option<u64>,
    pub log_conf: Option<Seq<char>>,
    pub print_memory_usage_period_s: Option<u64>,
    pub poll_lifetime_in_seconds: Option<u32>,
    pub get_logs_filter_max_limit: Option<usize>,
}

/// The characters of an optional text.
pub open spec fn text(value: Option<String>) -> Option<Seq<char>> {
    match value {
        Some(s) => Some(s@),
        None => None,
    }
}

impl View for RawConfiguration {
    type V = RawConfigurationView;

    open spec fn view(&self) -> RawConfigurationView {
        RawConfigurationView {
            node_type: self.node_type,
            block_db_type: self.block_db_type@,
            conflux_data_dir: self.conflux_data_dir@,
            block_db_dir: text(self.block_db_dir),
            netconf_dir: text(self.netconf_dir),
            chain_id: self.chain_id,
            evm_chain_id: self.evm_chain_id,
            bootnodes: text(self.bootnodes),
            mining_author: text(self.mining_author),
            stratum_listen_address: self.stratum_listen_address@,
            mining_type: text(self.mining_type),
            stratum_port: self.stratum_port,
            stratum_secret: text(self.stratum_secret),
            pow_problem_window_size: self.pow_problem_window_size,
            mode: text(self.mode),
            dev_block_interval_ms: self.dev_block_interval_ms,
            dev_pack_tx_immediately: self.dev_pack_tx_immediately,
            genesis_secrets: text(self.genesis_secrets),
            genesis_evm_secrets: text(self.genesis_evm_secrets),
            tcp_port: self.tcp_port,
            udp_port: self.udp_port,
            public_address: text(self.public_address),
            public_rpc_apis: self.public_rpc_apis@,
            public_evm_rpc_apis: self.public_evm_rpc_apis@,
            jsonrpc_ws_port: self.jsonrpc_ws_port,
            jsonrpc_http_port: self.jsonrpc_http_port,
            jsonrpc_tcp_port: self.jsonrpc_tcp_port,
            jsonrpc_http_eth_port: self.jsonrpc_http_eth_port,
            jsonrpc_ws_eth_port: self.jsonrpc_ws_eth_port,
            jsonrpc_local_tcp_port: self.jsonrpc_local_tcp_port,
            jsonrpc_local_http_port: self.jsonrpc_local_http_port,
            jsonrpc_local_ws_port: self.jsonrpc_local_ws_port,
            jsonrpc_http_keep_alive: self.jsonrpc_http_keep_alive,
            dev_pos_private_key_encryption_password: text(self.dev_pos_private_key_encryption_password),
            pos_reference_enable_height: self.pos_reference_enable_height,
            pos_config_path: text(self.pos_config_path),
            pos_initial_nodes_path: self.pos_initial_nodes_path@,
            pos_private_key_path: self.pos_private_key_path@,
            default_transition_time: self.default_transition_time,
            cip1559_transition_height: self.cip1559_transition_height,
            hydra_transition_number: self.hydra_transition_number,
            hydra_transition_height: self.hydra_transition_height,
            cip112_transition_height: self.cip112_transition_height,
            log_conf: text(self.log_conf),
            print_memory_usage_period_s: self.print_memory_usage_period_s,
            poll_lifetime_in_seconds: self.poll_lifetime_in_seconds,
            get_logs_filter_max_limit: self.get_logs_filter_max_limit,
        }
    }
}

impl RawConfigurationView {
    /// Settings with nothing written yet: no value where a setting is optional, empty text,
    /// zero and `false` elsewhere.
    pub open spec fn unset() -> RawConfigurationView {
        RawConfigurationView {
            node_type: None,
            block_db_type: Seq::empty(),
            conflux_data_dir: Seq::empty(),
            block_db_dir: None,
            netconf_dir: None,
            chain_id: None,
            evm_chain_id: None,
            bootnodes: None,
            mining_author: None,
            stratum_listen_address: Seq::empty(),
            mining_type: None,
            stratum_port: 0,
            stratum_secret: None,
            pow_problem_window_size: 0,
            mode: None,
            dev_block_interval_ms: None,
            dev_pack_tx_immediately: None,
            genesis_secrets: None,
            genesis_evm_secrets: None,
            tcp_port: 0,
            udp_port: None,
            public_address: None,
            public_rpc_apis: Seq::empty(),
            public_evm_rpc_apis: Seq::empty(),
            jsonrpc_ws_port: None,
            jsonrpc_http_port: None,
            jsonrpc_tcp_port: None,
            jsonrpc_http_eth_port: None,
            jsonrpc_ws_eth_port: None,
            jsonrpc_local_tcp_port: None,
            jsonrpc_local_http_port: None,
            jsonrpc_local_ws_port: None,
            jsonrpc_http_keep_alive: false,
            dev_pos_private_key_encryption_password: None,
            pos_reference_enable_height: 0,
            pos_config_path: None,
            pos_initial_nodes_path: Seq::empty(),
            pos_private_key_path: Seq::empty(),
            default_transition_time: None,
            cip1559_transition_height: None,
            hydra_transition_number: None,
            hydra_transition_height: None,
            cip112_transition_height: None,
            log_conf: None,
            print_memory_usage_period_s: None,
            poll_lifetime_in_seconds: None,
            get_logs_filter_max_limit: None,
        }
    }
}

impl RawConfiguration {
    /// Settings with nothing written yet.
    pub fn unset() -> (raw_conf: RawConfiguration)
        ensures
            raw_conf@ == RawConfigurationView::unset(),
    {
        RawConfiguration {
            node_type: None,
            block_db_type: String::new(),
            conflux_data_dir: String::new(),
            block_db_dir: None,
            netconf_dir: None,
            chain_id: None,
            evm_chain_id: None,
            bootnodes: None,
            mining_author: None,
            stratum_listen_address: String::new(),
            mining_type: None,
            stratum_port: 0,
            stratum_secret: None,
            pow_problem_window_size: 0,
            mode: None,
            dev_block_interval_ms: None,
            dev_pack_tx_immediately: None,
            genesis_secrets: None,
            genesis_evm_secrets: None,
            tcp_port: 0,
            udp_port: None,
            public_address: None,
            public_rpc_apis: String::new(),
            public_evm_rpc_apis: String::new(),
            jsonrpc_ws_port: None,
            jsonrpc_http_port: None,
            jsonrpc_tcp_port: None,
            jsonrpc_http_eth_port: None,
            jsonrpc_ws_eth_port: None,
            jsonrpc_local_tcp_port: None,
            jsonrpc_local_http_port: None,
            jsonrpc_local_ws_port: None,
            jsonrpc_http_keep_alive: false,
            dev_pos_private_key_encryption_password: None,
            pos_reference_enable_height: 0,
            pos_config_path: None,
            pos_initial_nodes_path: String::new(),
            pos_private_key_path: String::new(),
            default_transition_time: None,
            cip1559_transition_height: None,
            hydra_transition_number: None,
            hydra_transition_height: None,
            cip112_transition_height: None,
            log_conf: None,
            print_memory_usage_period_s: None,
            poll_lifetime_in_seconds: None,
            get_logs_filter_max_limit: None,
        }
    }
}

} // verus!
