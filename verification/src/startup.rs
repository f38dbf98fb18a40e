//! Start-up: connecting to the SDK and opening the quote database.

use crate::backend::{BackendView, BreezBackend};
use crate::sdk::{
    Config, ConnectRequest, GetInfoRequest, Network, OptimizationConfig, Seed, Unset,
};
use vstd::prelude::*;

verus! {

/// What the backend is started with.
#[derive(Debug)]
pub struct BackendConfig {
    pub api_key: String,
    pub mnemonic: String,
    pub passphrase: Option<String>,
    /// Where the SDK keeps its files.
    pub storage_dir: String,
    /// Where the quote database lies.
    pub db_path: String,
}

/// Why the backend did not start. `D` is the quote database's own error.
#[derive(Debug, PartialEq, Eq)]
pub enum StartError<D> {
    Message(String),
    Database(D),
}

impl<D> StartError<D> {
    /// The error says `text`.
    pub open spec fn says(self, text: Seq<char>) -> bool {
        self matches StartError::Message(message) && message@ == text
    }
}

/// The connection was asked for.
#[derive(Debug, PartialEq, Eq)]
pub struct AwaitConnection {
    pub db_path: String,
}

/// The state of the wallet was asked for.
#[derive(Debug, PartialEq, Eq)]
pub struct AwaitInfo {
    pub db_path: String,
}

/// The quote database at `db_path` is to be opened.
#[derive(Debug, PartialEq, Eq)]
pub struct AwaitDatabase {
    pub db_path: String,
}

/// The connection that `config` asks for.
pub open spec fn connects_as(config: BackendConfig, request: ConnectRequest) -> bool {
    &&& request.config.api_key == Some(config.api_key)
    &&& request.config.network == Network::Mainnet
    &&& request.config.sync_interval_secs == 600
    &&& request.config.lnurl_domain is None
    &&& request.config.prefer_spark_over_lightning
    &&& request.config.use_default_external_input_parsers
    &&& request.config.real_time_sync_server_url is None
    &&& !request.config.private_enabled_default
    &&& request.config.optimization_config == (OptimizationConfig {
        auto_enabled: true,
        multiplicity: 5,
    })
    &&& request.config.max_concurrent_claims == 5
    &&& !request.config.support_lnurl_verify
    &&& request.seed == (Seed::Mnemonic {
        mnemonic: config.mnemonic,
        passphrase: config.passphrase,
    })
    &&& request.storage_dir == config.storage_dir
}

impl BreezBackend {
    /// Starts a backend: checks the configuration and asks for a connection.
    pub fn new<D>(config: BackendConfig) -> (result: Result<
        (ConnectRequest, AwaitConnection),
        StartError<D>,
    >)
        ensures
            if config.api_key@.len() == 0 {
                result matches Err(error) && error.says("Breez API key is required"@)
            } else if config.mnemonic@.len() == 0 {
                result matches Err(error) && error.says("Mnemonic seed is required"@)
            } else {
                result matches Ok((request, next)) && connects_as(config, request) && next.db_path
                    == config.db_path
            },
    {
        if config.api_key.as_str().is_empty() {
            return Err(StartError::Message("Breez API key is required".to_owned()));
        }
        if config.mnemonic.as_str().is_empty() {
            return Err(StartError::Message("Mnemonic seed is required".to_owned()));
        }
        let request = ConnectRequest {
            config: Config {
                api_key: Some(config.api_key),
                network: Network::Mainnet,
                sync_interval_secs: 600,
                max_deposit_claim_fee: Unset,
                lnurl_domain: None,
                prefer_spark_over_lightning: true,
                external_input_parsers: Unset,
                use_default_external_input_parsers: true,
                real_time_sync_server_url: None,
                private_enabled_default: false,
                optimization_config: OptimizationConfig { auto_enabled: true, multiplicity: 5 },
                stable_balance_config: Unset,
                max_concurrent_claims: 5,
                support_lnurl_verify: false,
            },
            seed: Seed::Mnemonic { mnemonic: config.mnemonic, passphrase: config.passphrase },
            storage_dir: config.storage_dir,
        };
        Ok((request, AwaitConnection { db_path: config.db_path }))
    }
}

impl AwaitConnection {
    /// Takes the SDK's reply, a failure as its debug text. Once connected, hands the connection on
    /// and asks for the state of the wallet.
    pub fn resume<S, D>(self, reply: Result<S, String>) -> (result: Result<
        (S, GetInfoRequest, AwaitInfo),
        StartError<D>,
    >)
        ensures
            match reply {
                Ok(sdk) => result == Ok::<(S, GetInfoRequest, AwaitInfo), StartError<D>>(
                    (
                        sdk,
                        GetInfoRequest { ensure_synced: None },
                        AwaitInfo { db_path: self.db_path },
                    ),
                ),
                Err(failure) => result matches Err(error) && error.says(
                    "Breez SDK connection failed: "@ + failure@,
                ),
            },
    {
        match reply {
            Ok(sdk) => Ok(
                (sdk, GetInfoRequest { ensure_synced: None }, AwaitInfo { db_path: self.db_path }),
            ),
            Err(failure) => Err(
                StartError::Message(
                    "Breez SDK connection failed: ".to_owned().concat(failure.as_str()),
                ),
            ),
        }
    }
}

impl AwaitInfo {
    /// Takes the SDK's reply. The backend starts whether the state of the wallet is known or not.
    pub fn resume<I, F>(self, _reply: Result<I, F>) -> (next: AwaitDatabase)
        ensures
            next.db_path == self.db_path,
    {
        AwaitDatabase { db_path: self.db_path }
    }
}

impl AwaitDatabase {
    /// Takes the outcome of opening the database. Once it is open, hands it on with the backend.
    pub fn resume<T, D>(self, opened: Result<T, D>) -> (result: Result<
        (T, BreezBackend),
        StartError<D>,
    >)
        ensures
            match opened {
                Ok(database) => result matches Ok((db, backend)) && db == database && backend@
                    == BackendView::idle(),
                Err(error) => result == Err::<(T, BreezBackend), StartError<D>>(
                    StartError::Database(error),
                ),
            },
    {
        match opened {
            Ok(database) => Ok((database, BreezBackend::idle())),
            Err(error) => Err(StartError::Database(error)),
        }
    }
}

} // verus!
