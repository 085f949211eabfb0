//! The caller's configuration and its resolution into the settings a node runs with.

use vstd::prelude::*;
use vstd::string::*;
use crate::error::{ErrorKind, ErrorView, NodeError};
use crate::settings::{text, RawConfiguration, RawConfigurationView};
use crate::text::{append, same_text};
use crate::worker::{unknown_node_type, NodeType};

verus! {

/// The flat set of optional fields a caller may supply. Every field left out takes the
/// default given in its description.
#[derive(Debug)]
pub struct ConfluxConfig {
    /// A configuration file to read the settings from instead of the fields below.
    pub config_file: Option<String>,
    /// `"full"`, `"archive"` or `"light"`. Default: `"full"`.
    pub node_type: Option<String>,
    /// Database type for block data: `rocksdb` or `sqlite`. Default: `sqlite`.
    pub block_db_type: Option<String>,
    /// The directory the node keeps its data in. Default: a temporary directory.
    pub conflux_data_dir: Option<String>,
    /// Accepted for compatibility; the block database lives under the data directory.
    pub block_db_dir: Option<String>,
    /// Accepted for compatibility; the network state lives under the data directory.
    pub netconf_dir: Option<String>,
    /// Chain id of the core space. Default: 1234.
    pub chain_id: Option<u32>,
    /// Chain id of the eSpace. Default: 1235.
    pub evm_chain_id: Option<u32>,
    /// The nodes trusted for the first synchronisation.
    pub bootnodes: Option<String>,
    /// The address that receives mining rewards.
    pub mining_author: Option<String>,
    /// Listen address for stratum. Default: `127.0.0.1`.
    pub stratum_listen_address: Option<String>,
    /// `stratum`, `cpu` or `disable`.
    pub mining_type: Option<String>,
    /// Port for stratum. Default: 32525.
    pub stratum_port: Option<u16>,
    /// Secret key for stratum, 64 hex digits.
    pub stratum_secret: Option<String>,
    /// Window size of the proof-of-work manager. Default: 1.
    pub pow_problem_window_size: Option<u32>,
    /// Interval of automatic block generation, in milliseconds.
    pub dev_block_interval_ms: Option<i64>,
    /// Whether a block is packed as soon as a transaction arrives.
    pub dev_pack_tx_immediately: Option<bool>,
    /// Private keys of the genesis accounts of the core space.
    pub genesis_secrets: Option<Vec<String>>,
    /// Private keys of the genesis accounts of the eSpace.
    pub genesis_evm_secrets: Option<Vec<String>>,
    /// TCP port for peer-to-peer messages. Default: 32323.
    pub tcp_port: Option<u16>,
    /// UDP port for node discovery. Default: 32323.
    pub udp_port: Option<u16>,
    /// The address this node announces.
    pub public_address: Option<String>,
    /// Core-space API names served publicly. Default: `all`.
    pub public_rpc_apis: Option<String>,
    /// eSpace API names served publicly. Default: `evm,ethdebug`.
    pub public_evm_rpc_apis: Option<String>,
    pub jsonrpc_ws_port: Option<u16>,
    pub jsonrpc_http_port: Option<u16>,
    pub jsonrpc_tcp_port: Option<u16>,
    pub jsonrpc_http_eth_port: Option<u16>,
    pub jsonrpc_ws_eth_port: Option<u16>,
    pub jsonrpc_local_tcp_port: Option<u16>,
    pub jsonrpc_local_http_port: Option<u16>,
    pub jsonrpc_local_ws_port: Option<u16>,
    /// Whether HTTP connections are kept alive. Default: false.
    pub jsonrpc_http_keep_alive: Option<bool>,
    /// Password that encrypts the PoS private key. Default: `123456`.
    pub dev_pos_private_key_encryption_password: Option<String>,
    /// Default: 0.
    pub pos_reference_enable_height: Option<i64>,
    /// Default: `./pos_config/pos_config.yaml`.
    pub pos_config_path: Option<String>,
    /// Default: `./pos_config/initial_nodes.json`.
    pub pos_initial_nodes_path: Option<String>,
    /// Default: `./pos_config/pos_key`.
    pub pos_private_key_path: Option<String>,
    /// Default: 1.
    pub default_transition_time: Option<i64>,
    /// Default: 1.
    pub cip1559_transition_height: Option<i64>,
    /// Default: 1.
    pub hydra_transition_number: Option<i64>,
    /// Default: 1.
    pub hydra_transition_height: Option<i64>,
    /// Default: 1.
    pub cip112_transition_height: Option<i64>,
    /// Path of the logging configuration file.
    pub log_conf: Option<String>,
    /// Accepted for compatibility; the logging configuration file decides the level.
    pub log_level: Option<String>,
    /// Period for printing memory usage, in seconds.
    pub print_memory_usage_period_s: Option<u32>,
    /// Lifetime of a poll, in seconds. Default: 600.
    pub poll_lifetime_in_seconds: Option<u32>,
    /// Upper bound on the logs a filter query may return.
    pub get_logs_filter_max_limit: Option<u32>,
}

impl ConfluxConfig {
    /// The configuration that supplies nothing: every field takes its default.
    pub open spec fn nothing_supplied() -> ConfluxConfig {
        ConfluxConfig {
            config_file: None,
            node_type: None,
            block_db_type: None,
            conflux_data_dir: None,
            block_db_dir: None,
            netconf_dir: None,
            chain_id: None,
            evm_chain_id: None,
            bootnodes: None,
            mining_author: None,
            stratum_listen_address: None,
            mining_type: None,
            stratum_port: None,
            stratum_secret: None,
            pow_problem_window_size: None,
            dev_block_interval_ms: None,
            dev_pack_tx_immediately: None,
            genesis_secrets: None,
            genesis_evm_secrets: None,
            tcp_port: None,
            udp_port: None,
            public_address: None,
            public_rpc_apis: None,
            public_evm_rpc_apis: None,
            jsonrpc_ws_port: None,
            jsonrpc_http_port: None,
            jsonrpc_tcp_port: None,
            jsonrpc_http_eth_port: None,
            jsonrpc_ws_eth_port: None,
            jsonrpc_local_tcp_port: None,
            jsonrpc_local_http_port: None,
            jsonrpc_local_ws_port: None,
            jsonrpc_http_keep_alive: None,
            dev_pos_private_key_encryption_password: None,
            pos_reference_enable_height: None,
            pos_config_path: None,
            pos_initial_nodes_path: None,
            pos_private_key_path: None,
            default_transition_time: None,
            cip1559_transition_height: None,
            hydra_transition_number: None,
            hydra_transition_height: None,
            cip112_transition_height: None,
            log_conf: None,
            log_level: None,
            print_memory_usage_period_s: None,
            poll_lifetime_in_seconds: None,
            get_logs_filter_max_limit: None,
        }
    }
}

impl Default for ConfluxConfig {
    /// The configuration that supplies nothing.
    fn default() -> (config: ConfluxConfig)
        ensures
            config == ConfluxConfig::nothing_supplied(),
    {
        ConfluxConfig {
            config_file: None,
            node_type: None,
            block_db_type: None,
            conflux_data_dir: None,
            block_db_dir: None,
            netconf_dir: None,
            chain_id: None,
            evm_chain_id: None,
            bootnodes: None,
            mining_author: None,
            stratum_listen_address: None,
            mining_type: None,
            stratum_port: None,
            stratum_secret: None,
            pow_problem_window_size: None,
            dev_block_interval_ms: None,
            dev_pack_tx_immediately: None,
            genesis_secrets: None,
            genesis_evm_secrets: None,
            tcp_port: None,
            udp_port: None,
            public_address: None,
            public_rpc_apis: None,
            public_evm_rpc_apis: None,
            jsonrpc_ws_port: None,
            jsonrpc_http_port: None,
            jsonrpc_tcp_port: None,
            jsonrpc_http_eth_port: None,
            jsonrpc_ws_eth_port: None,
            jsonrpc_local_tcp_port: None,
            jsonrpc_local_http_port: None,
            jsonrpc_local_ws_port: None,
            jsonrpc_http_keep_alive: None,
            dev_pos_private_key_encryption_password: None,
            pos_reference_enable_height: None,
            pos_config_path: None,
            pos_initial_nodes_path: None,
            pos_private_key_path: None,
            default_transition_time: None,
            cip1559_transition_height: None,
            hydra_transition_number: None,
            hydra_transition_height: None,
            cip112_transition_height: None,
            log_conf: None,
            log_level: None,
            print_memory_usage_period_s: None,
            poll_lifetime_in_seconds: None,
            get_logs_filter_max_limit: None,
        }
    }
}

/// What the host has established before a configuration is resolved.
#[derive(Debug)]
pub struct HostContext {
    /// Where the file of core-space genesis keys is written.
    pub genesis_secrets_path: String,
    /// Where the file of eSpace genesis keys is written.
    pub genesis_evm_secrets_path: String,
    /// Whether the node recognises the requested core-space API names.
    pub rpc_apis_recognised: bool,
    /// Whether the node recognises the requested eSpace API names.
    pub evm_rpc_apis_recognised: bool,
}

/// A resolved configuration: either the name of a file that the node reads its settings
/// from, or the settings themselves.
#[derive(Debug)]
pub enum Configuration {
    FromFile(String),
    Resolved(RawConfiguration),
}

/// The characters of an optional text, or `default` where there is none.
pub open spec fn text_or(value: Option<String>, default: Seq<char>) -> Seq<char> {
    match value {
        Some(s) => s@,
        None => default,
    }
}

/// A signed number read as the unsigned number with the same 64 bits.
pub open spec fn as_unsigned(n: i64) -> u64 {
    if n >= 0 {
        n as u64
    } else {
        (n + 0x1_0000_0000_0000_0000) as u64
    }
}

/// The node type that a name selects. No name selects a full node; a name other than
/// `full`, `archive` and `light` selects nothing.
pub open spec fn node_type_named(name: Option<Seq<char>>) -> Option<NodeType> {
    match name {
        None => Some(NodeType::Full),
        Some(n) => if n == "full"@ {
            Some(NodeType::Full)
        } else if n == "archive"@ {
            Some(NodeType::Archive)
        } else if n == "light"@ {
            Some(NodeType::Light)
        } else {
            None
        },
    }
}

/// The API names to serve: those requested where the node recognises them, else `default`.
pub open spec fn api_names(requested: Option<String>, recognised: bool, default: Seq<char>) -> Seq<
    char,
> {
    match requested {
        Some(names) => if recognised {
            names@
        } else {
            default
        },
        None => default,
    }
}

/// The activation height to install for the process, if one is still to be installed:
/// nothing where a height is installed already, else the declared height, or the largest
/// height where none is declared.
pub open spec fn height_to_install(installed: Option<u64>, declared: Option<u64>) -> Option<u64> {
    match installed {
        Some(_) => None,
        None => Some(declared.unwrap_or(u64::MAX)),
    }
}

/// The error for an activation height that was installed by someone else in the meantime.
pub open spec fn height_already_set() -> ErrorView {
    ErrorView { kind: ErrorKind::Configuration, message: "CIP112_TRANSITION_HEIGHT already set"@ }
}

/// Decides which CIP-112 activation height the host installs for the process, given the
/// height that is installed and the height that the resolved settings declare.
pub fn cip112_height_to_install(installed: Option<u64>, declared: Option<u64>) -> (height: Option<
    u64,
>)
    ensures
        height == height_to_install(installed, declared),
{
    match installed {
        Some(_) => None,
        None => Some(declared.unwrap_or(u64::MAX)),
    }
}

/// Turns the host's attempt to install the activation height into a result: an attempt
/// that was not accepted is a configuration error.
pub fn cip112_install_result(accepted: bool) -> (r: Result<(), NodeError>)
    ensures
        accepted ==> r is Ok,
        !accepted ==> (r matches Err(e) && e@ == height_already_set()),
{
    if accepted {
        Ok(())
    } else {
        Err(NodeError::Configuration("CIP112_TRANSITION_HEIGHT already set".to_owned()))
    }
}

/// The error for a configuration file that could not be loaded: a configuration error
/// that carries the loader's reason as it is.
pub fn load_failure(reason: &str) -> (e: NodeError)
    ensures
        e@ == (ErrorView { kind: ErrorKind::Configuration, message: reason@ }),
{
    NodeError::Configuration(reason.to_owned())
}

fn copy_text(value: &Option<String>) -> (out: Option<String>)
    ensures
        text(out) == text(*value),
{
    match value {
        Some(s) => Some(s.clone()),
        None => None,
    }
}

fn owned_text_or(value: &Option<String>, default: &str) -> (out: String)
    ensures
        out@ == text_or(*value, default@),
{
    match value {
        Some(s) => s.clone(),
        None => default.to_owned(),
    }
}

fn to_unsigned(n: i64) -> (out: u64)
    ensures
        out == as_unsigned(n),
{
    if n >= 0 {
        n as u64
    } else {
        ((n - i64::MIN) as u64) + 0x8000_0000_0000_0000u64
    }
}

fn unsigned_or(value: Option<i64>, default: i64) -> (out: u64)
    ensures
        out == as_unsigned(value.unwrap_or(default)),
{
    match value {
        Some(n) => to_unsigned(n),
        None => to_unsigned(default),
    }
}

fn choose_api_names(requested: &Option<String>, recognised: bool, default: &str) -> (out: String)
    ensures
        out@ == api_names(*requested, recognised, default@),
{
    match requested {
        Some(names) => if recognised {
            names.clone()
        } else {
            default.to_owned()
        },
        None => default.to_owned(),
    }
}

impl ConfluxConfig {
    /// The node type the configuration asks for, if its name is known.
    pub open spec fn requested_node_type(&self) -> Option<NodeType> {
        node_type_named(text(self.node_type))
    }

    /// The node type and the block database, written over `base`.
    pub open spec fn with_node(&self, base: RawConfigurationView) -> RawConfigurationView {
        RawConfigurationView {
            node_type: self.requested_node_type(),
            block_db_type: text_or(self.block_db_type, "sqlite"@),
            ..base
        }
    }

    /// The data directory and the directories beneath it, written over `base`.
    pub open spec fn with_directories(
        &self,
        base: RawConfigurationView,
        temp_dir_path: Seq<char>,
    ) -> RawConfigurationView {
        let data_dir = text_or(self.conflux_data_dir, temp_dir_path);
        RawConfigurationView {
            conflux_data_dir: data_dir,
            block_db_dir: Some(data_dir + "/blockchain_db"@),
            netconf_dir: Some(data_dir + "/net_config"@),
            ..base
        }
    }

    /// The chain identifiers and the boot nodes, written over `base`.
    pub open spec fn with_chain(&self, base: RawConfigurationView) -> RawConfigurationView {
        RawConfigurationView {
            chain_id: Some(self.chain_id.unwrap_or(1234)),
            evm_chain_id: Some(self.evm_chain_id.unwrap_or(1235)),
            bootnodes: text(self.bootnodes),
            ..base
        }
    }

    /// The mining settings, written over `base`.
    pub open spec fn with_mining(&self, base: RawConfigurationView) -> RawConfigurationView {
        RawConfigurationView {
            mining_author: text(self.mining_author),
            stratum_listen_address: text_or(self.stratum_listen_address, "127.0.0.1"@),
            mining_type: text(self.mining_type),
            stratum_port: self.stratum_port.unwrap_or(32525),
            stratum_secret: text(self.stratum_secret),
            pow_problem_window_size: self.pow_problem_window_size.unwrap_or(1) as usize,
            ..base
        }
    }

    /// The development-mode settings, written over `base`. The paths of the genesis key
    /// files are written only where keys were supplied.
    pub open spec fn with_dev(
        &self,
        base: RawConfigurationView,
        host: &HostContext,
    ) -> RawConfigurationView {
        RawConfigurationView {
            mode: Some("dev"@),
            dev_block_interval_ms: match self.dev_block_interval_ms {
                Some(n) => Some(as_unsigned(n)),
                None => None,
            },
            dev_pack_tx_immediately: self.dev_pack_tx_immediately,
            genesis_secrets: if self.genesis_secrets is Some {
                Some(host.genesis_secrets_path@)
            } else {
                base.genesis_secrets
            },
            genesis_evm_secrets: if self.genesis_evm_secrets is Some {
                Some(host.genesis_evm_secrets_path@)
            } else {
                base.genesis_evm_secrets
            },
            ..base
        }
    }

    /// The network ports and the announced address, written over `base`.
    pub open spec fn with_network(&self, base: RawConfigurationView) -> RawConfigurationView {
        RawConfigurationView {
            tcp_port: self.tcp_port.unwrap_or(32323),
            udp_port: Some(self.udp_port.unwrap_or(32323)),
            public_address: text(self.public_address),
            ..base
        }
    }

    /// The JSON-RPC settings, written over `base`.
    pub open spec fn with_rpc(
        &self,
        base: RawConfigurationView,
        host: &HostContext,
    ) -> RawConfigurationView {
        RawConfigurationView {
            public_rpc_apis: api_names(self.public_rpc_apis, host.rpc_apis_recognised, "all"@),
            public_evm_rpc_apis: api_names(
                self.public_evm_rpc_apis,
                host.evm_rpc_apis_recognised,
                "evm,ethdebug"@,
            ),
            jsonrpc_ws_port: self.jsonrpc_ws_port,
            jsonrpc_http_port: self.jsonrpc_http_port,
            jsonrpc_tcp_port: self.jsonrpc_tcp_port,
            jsonrpc_http_eth_port: self.jsonrpc_http_eth_port,
            jsonrpc_ws_eth_port: self.jsonrpc_ws_eth_port,
            jsonrpc_local_tcp_port: self.jsonrpc_local_tcp_port,
            jsonrpc_local_http_port: self.jsonrpc_local_http_port,
            jsonrpc_local_ws_port: self.jsonrpc_local_ws_port,
            jsonrpc_http_keep_alive: self.jsonrpc_http_keep_alive.unwrap_or(false),
            ..base
        }
    }

    /// The proof-of-stake settings, written over `base`.
    pub open spec fn with_pos(&self, base: RawConfigurationView) -> RawConfigurationView {
        RawConfigurationView {
            dev_pos_private_key_encryption_password: Some(
                text_or(self.dev_pos_private_key_encryption_password, "123456"@),
            ),
            pos_reference_enable_height: as_unsigned(self.pos_reference_enable_height.unwrap_or(0)),
            pos_config_path: Some(text_or(self.pos_config_path, "./pos_config/pos_config.yaml"@)),
            pos_initial_nodes_path: text_or(
                self.pos_initial_nodes_path,
                "./pos_config/initial_nodes.json"@,
            ),
            pos_private_key_path: text_or(self.pos_private_key_path, "./pos_config/pos_key"@),
            ..base
        }
    }

    /// The activation points of the protocol upgrades, written over `base`.
    pub open spec fn with_cip(&self, base: RawConfigurationView) -> RawConfigurationView {
        RawConfigurationView {
            default_transition_time: Some(as_unsigned(self.default_transition_time.unwrap_or(1))),
            cip1559_transition_height: Some(
                as_unsigned(self.cip1559_transition_height.unwrap_or(1)),
            ),
            hydra_transition_number: Some(as_unsigned(self.hydra_transition_number.unwrap_or(1))),
            hydra_transition_height: Some(as_unsigned(self.hydra_transition_height.unwrap_or(1))),
            cip112_transition_height: Some(as_unsigned(self.cip112_transition_height.unwrap_or(1))),
            ..base
        }
    }

    /// The logging settings, written over `base`.
    pub open spec fn with_logging(&self, base: RawConfigurationView) -> RawConfigurationView {
        RawConfigurationView {
            log_conf: text(self.log_conf),
            print_memory_usage_period_s: match self.print_memory_usage_period_s {
                Some(period) => Some(period as u64),
                None => None,
            },
            ..base
        }
    }

    /// The filter and poll settings, written over `base`.
    pub open spec fn with_filter_poll(&self, base: RawConfigurationView) -> RawConfigurationView {
        RawConfigurationView {
            poll_lifetime_in_seconds: Some(self.poll_lifetime_in_seconds.unwrap_or(600)),
            get_logs_filter_max_limit: match self.get_logs_filter_max_limit {
                Some(limit) => Some(limit as usize),
                None => None,
            },
            ..base
        }
    }

    /// The settings that result from writing this configuration over `base`: every setting
    /// takes the caller's value or its default; the paths of the genesis key files are
    /// written only where the caller supplied keys.
    pub open spec fn resolved_onto(
        &self,
        base: RawConfigurationView,
        temp_dir_path: Seq<char>,
        host: &HostContext,
    ) -> RawConfigurationView {
        self.with_filter_poll(
            self.with_logging(
                self.with_cip(
                    self.with_pos(
                        self.with_rpc(
                            self.with_network(
                                self.with_dev(
                                    self.with_mining(
                                        self.with_chain(
                                            self.with_directories(
                                                self.with_node(base),
                                                temp_dir_path,
                                            ),
                                        ),
                                    ),
                                    host,
                                ),
                            ),
                            host,
                        ),
                    ),
                ),
            ),
        )
    }

    fn apply_node_config(&self, raw_conf: &mut RawConfiguration) -> (r: Result<(), NodeError>)
        ensures
            r is Ok <==> self.requested_node_type() is Some,
            r is Ok ==> final(raw_conf)@ == self.with_node(old(raw_conf)@),
            r matches Err(e) ==> e@ == unknown_node_type() && *final(raw_conf) == *old(raw_conf),
    {
        let node_type = match &self.node_type {
            None => NodeType::Full,
            Some(name) => if same_text(name.as_str(), "full") {
                NodeType::Full
            } else if same_text(name.as_str(), "archive") {
                NodeType::Archive
            } else if same_text(name.as_str(), "light") {
                NodeType::Light
            } else {
                return Err(NodeError::Configuration("Unknown node type".to_owned()));
            },
        };
        raw_conf.node_type = Some(node_type);
        raw_conf.block_db_type = owned_text_or(&self.block_db_type, "sqlite");
        Ok(())
    }

    fn apply_directory_config(&self, raw_conf: &mut RawConfiguration, temp_dir_path: &str)
        ensures
            final(raw_conf)@ == self.with_directories(old(raw_conf)@, temp_dir_path@),
    {
        let data_dir = owned_text_or(&self.conflux_data_dir, temp_dir_path);
        raw_conf.block_db_dir = Some(append(data_dir.as_str(), "/blockchain_db"));
        raw_conf.netconf_dir = Some(append(data_dir.as_str(), "/net_config"));
        raw_conf.conflux_data_dir = data_dir;
    }

    fn apply_chain_config(&self, raw_conf: &mut RawConfiguration)
        ensures
            final(raw_conf)@ == self.with_chain(old(raw_conf)@),
    {
        raw_conf.chain_id = Some(self.chain_id.unwrap_or(1234));
        raw_conf.evm_chain_id = Some(self.evm_chain_id.unwrap_or(1235));
        raw_conf.bootnodes = copy_text(&self.bootnodes);
    }

    fn apply_mining_config(&self, raw_conf: &mut RawConfiguration)
        ensures
            final(raw_conf)@ == self.with_mining(old(raw_conf)@),
    {
        raw_conf.mining_author = copy_text(&self.mining_author);
        raw_conf.stratum_listen_address = owned_text_or(&self.stratum_listen_address, "127.0.0.1");
        raw_conf.mining_type = copy_text(&self.mining_type);
        raw_conf.stratum_port = self.stratum_port.unwrap_or(32525);
        raw_conf.stratum_secret = copy_text(&self.stratum_secret);
        raw_conf.pow_problem_window_size = self.pow_problem_window_size.unwrap_or(1) as usize;
    }

    fn apply_dev_config(&self, raw_conf: &mut RawConfiguration, host: &HostContext)
        ensures
            final(raw_conf)@ == self.with_dev(old(raw_conf)@, host),
    {
        raw_conf.mode = Some("dev".to_owned());
        raw_conf.dev_block_interval_ms = match self.dev_block_interval_ms {
            Some(n) => Some(to_unsigned(n)),
            None => None,
        };
        raw_conf.dev_pack_tx_immediately = self.dev_pack_tx_immediately;
        if self.genesis_secrets.is_some() {
            raw_conf.genesis_secrets = Some(host.genesis_secrets_path.clone());
        }
        if self.genesis_evm_secrets.is_some() {
            raw_conf.genesis_evm_secrets = Some(host.genesis_evm_secrets_path.clone());
        }
    }

    fn apply_network_config(&self, raw_conf: &mut RawConfiguration)
        ensures
            final(raw_conf)@ == self.with_network(old(raw_conf)@),
    {
        raw_conf.tcp_port = self.tcp_port.unwrap_or(32323);
        raw_conf.udp_port = Some(self.udp_port.unwrap_or(32323));
        raw_conf.public_address = copy_text(&self.public_address);
    }

    fn apply_rpc_config(&self, raw_conf: &mut RawConfiguration, host: &HostContext)
        ensures
            final(raw_conf)@ == self.with_rpc(old(raw_conf)@, host),
    {
        raw_conf.public_rpc_apis = choose_api_names(
            &self.public_rpc_apis,
            host.rpc_apis_recognised,
            "all",
        );
        raw_conf.public_evm_rpc_apis = choose_api_names(
            &self.public_evm_rpc_apis,
            host.evm_rpc_apis_recognised,
            "evm,ethdebug",
        );
        raw_conf.jsonrpc_ws_port = self.jsonrpc_ws_port;
        raw_conf.jsonrpc_http_port = self.jsonrpc_http_port;
        raw_conf.jsonrpc_tcp_port = self.jsonrpc_tcp_port;
        raw_conf.jsonrpc_http_eth_port = self.jsonrpc_http_eth_port;
        raw_conf.jsonrpc_ws_eth_port = self.jsonrpc_ws_eth_port;
        raw_conf.jsonrpc_local_tcp_port = self.jsonrpc_local_tcp_port;
        raw_conf.jsonrpc_local_http_port = self.jsonrpc_local_http_port;
        raw_conf.jsonrpc_local_ws_port = self.jsonrpc_local_ws_port;
        raw_conf.jsonrpc_http_keep_alive = self.jsonrpc_http_keep_alive.unwrap_or(false);
    }

    fn apply_pos_config(&self, raw_conf: &mut RawConfiguration)
        ensures
            final(raw_conf)@ == self.with_pos(old(raw_conf)@),
    {
        raw_conf.dev_pos_private_key_encryption_password = Some(
            owned_text_or(&self.dev_pos_private_key_encryption_password, "123456"),
        );
        raw_conf.pos_reference_enable_height = unsigned_or(self.pos_reference_enable_height, 0);
        raw_conf.pos_config_path = Some(
            owned_text_or(&self.pos_config_path, "./pos_config/pos_config.yaml"),
        );
        raw_conf.pos_initial_nodes_path = owned_text_or(
            &self.pos_initial_nodes_path,
            "./pos_config/initial_nodes.json",
        );
        raw_conf.pos_private_key_path = owned_text_or(
            &self.pos_private_key_path,
            "./pos_config/pos_key",
        );
    }

    fn apply_cip_config(&self, raw_conf: &mut RawConfiguration)
        ensures
            final(raw_conf)@ == self.with_cip(old(raw_conf)@),
    {
        raw_conf.default_transition_time = Some(unsigned_or(self.default_transition_time, 1));
        raw_conf.cip1559_transition_height = Some(unsigned_or(self.cip1559_transition_height, 1));
        raw_conf.hydra_transition_number = Some(unsigned_or(self.hydra_transition_number, 1));
        raw_conf.hydra_transition_height = Some(unsigned_or(self.hydra_transition_height, 1));
        raw_conf.cip112_transition_height = Some(unsigned_or(self.cip112_transition_height, 1));
    }

    fn apply_logging_config(&self, raw_conf: &mut RawConfiguration)
        ensures
            final(raw_conf)@ == self.with_logging(old(raw_conf)@),
    {
        raw_conf.log_conf = copy_text(&self.log_conf);
        raw_conf.print_memory_usage_period_s = match self.print_memory_usage_period_s {
            Some(period) => Some(period as u64),
            None => None,
        };
    }

    fn apply_filter_poll_config(&self, raw_conf: &mut RawConfiguration)
        ensures
            final(raw_conf)@ == self.with_filter_poll(old(raw_conf)@),
    {
        raw_conf.poll_lifetime_in_seconds = Some(self.poll_lifetime_in_seconds.unwrap_or(600));
        raw_conf.get_logs_filter_max_limit = match self.get_logs_filter_max_limit {
            Some(limit) => Some(limit as usize),
            None => None,
        };
    }

    /// Writes the configuration over `raw_conf`.
    ///
    /// Fails, and leaves `raw_conf` as it was, exactly where the node type is named by
    /// something other than `full`, `archive` or `light`.
    pub fn apply_to_raw_config(
        &self,
        raw_conf: &mut RawConfiguration,
        temp_dir_path: &str,
        host: &HostContext,
    ) -> (r: Result<(), NodeError>)
        ensures
            r is Ok <==> self.requested_node_type() is Some,
            r is Ok ==> final(raw_conf)@ == self.resolved_onto(
                old(raw_conf)@,
                temp_dir_path@,
                host,
            ),
            r matches Err(e) ==> e@ == unknown_node_type() && *final(raw_conf) == *old(raw_conf),
    {
        match self.apply_node_config(raw_conf) {
            Ok(_) => {},
            Err(e) => {
                return Err(e);
            },
        }
        self.apply_directory_config(raw_conf, temp_dir_path);
        self.apply_chain_config(raw_conf);
        self.apply_mining_config(raw_conf);
        self.apply_dev_config(raw_conf, host);
        self.apply_network_config(raw_conf);
        self.apply_rpc_config(raw_conf, host);
        self.apply_pos_config(raw_conf);
        self.apply_cip_config(raw_conf);
        self.apply_logging_config(raw_conf);
        self.apply_filter_poll_config(raw_conf);
        Ok(())
    }

    /// Resolves the configuration.
    ///
    /// Where a configuration file is named, the node reads its settings from that file and
    /// the other fields are not consulted. Otherwise the settings are the fields written
    /// over settings with nothing set; this fails exactly where the node type is unknown.
    pub fn to_configuration(&self, temp_dir_path: &str, host: &HostContext) -> (r: Result<
        Configuration,
        NodeError,
    >)
        ensures
            match self.config_file {
                Some(file) => r matches Ok(Configuration::FromFile(path)) && path@ == file@,
                None => if self.requested_node_type() is Some {
                    r matches Ok(Configuration::Resolved(raw_conf)) && raw_conf@
                        == self.resolved_onto(RawConfigurationView::unset(), temp_dir_path@, host)
                } else {
                    r matches Err(e) && e@ == unknown_node_type()
                },
            },
    {
        if let Some(file) = &self.config_file {
            return Ok(Configuration::FromFile(file.clone()));
        }
        let mut raw_conf = RawConfiguration::unset();
        match self.apply_to_raw_config(&mut raw_conf, temp_dir_path, host) {
            Ok(_) => Ok(Configuration::Resolved(raw_conf)),
            Err(e) => Err(e),
        }
    }
}

} // verus!
