//! Decisions that the client takes on its command-line input: which network
//! endpoint and passphrase to use, and what deadline a `--deadline` value means.
use vstd::prelude::*;

use crate::deadline::{parse_iso8601_spec, parse_iso8601_to_timestamp, rfc3339_epoch_seconds};
use crate::decimal::{all_digits, numeral_value, parse_u64, parse_u64_spec};
use crate::error::{CliError, CliErrorModel};

verus! {

/// The Stellar networks that can be named on the command line.
#[derive(Clone, Copy, Debug, PartialEq, Eq, Structural)]
pub enum Network {
    Testnet,
    Mainnet,
    Futurenet,
}

/// The RPC endpoint of a named network.
pub open spec fn network_rpc_url(n: Network) -> Seq<char> {
    match n {
        Network::Testnet => "https://soroban-testnet.stellar.org"@,
        Network::Mainnet => "https://soroban-mainnet.stellar.org"@,
        Network::Futurenet => "https://rpc-futurenet.stellar.org"@,
    }
}

/// The passphrase of a named network.
pub open spec fn network_passphrase(n: Network) -> Seq<char> {
    match n {
        Network::Testnet => "Test SDF Network ; September 2015"@,
        Network::Mainnet => "Public Global Stellar Network ; September 2015"@,
        Network::Futurenet => "Test SDF Future Network ; October 2022"@,
    }
}

impl Network {
    /// The RPC endpoint of the network.
    pub fn rpc_url(&self) -> (url: &'static str)
        ensures
            url@ == network_rpc_url(*self),
    {
        match self {
            Network::Testnet => "https://soroban-testnet.stellar.org",
            Network::Mainnet => "https://soroban-mainnet.stellar.org",
            Network::Futurenet => "https://rpc-futurenet.stellar.org",
        }
    }

    /// The network passphrase that transactions for the network are signed with.
    pub fn passphrase(&self) -> (p: &'static str)
        ensures
            p@ == network_passphrase(*self),
    {
        match self {
            Network::Testnet => "Test SDF Network ; September 2015",
            Network::Mainnet => "Public Global Stellar Network ; September 2015",
            Network::Futurenet => "Test SDF Future Network ; October 2022",
        }
    }
}

/// The network options given on the command line.
pub struct NetworkArgs {
    /// `--network`: a named network, which excludes the two options below.
    pub network: Option<Network>,
    /// `--rpc-url`.
    pub rpc_url: Option<String>,
    /// `--network-passphrase`.
    pub network_passphrase: Option<String>,
}

/// The network settings read from the configuration file.
pub struct NetworkConfig {
    pub rpc_url: Option<String>,
    pub network_passphrase: Option<String>,
}

/// The first of two optional texts that is there, else `default`.
pub open spec fn first_given(first: Option<String>, second: Option<String>, default: Seq<char>) -> Seq<char> {
    match first {
        Some(s) => s@,
        None => match second {
            Some(s) => s@,
            None => default,
        },
    }
}

/// The endpoint used when neither the command line nor the configuration names one.
pub open spec fn default_rpc_url() -> Seq<char> {
    network_rpc_url(Network::Testnet)
}

/// The passphrase used when neither the command line nor the configuration names one.
pub open spec fn default_passphrase() -> Seq<char> {
    network_passphrase(Network::Testnet)
}

/// The endpoint that the settings select.
pub open spec fn resolved_rpc_url(cli: NetworkArgs, cfg: NetworkConfig) -> Seq<char> {
    match cli.network {
        Some(n) => network_rpc_url(n),
        None => first_given(cli.rpc_url, cfg.rpc_url, default_rpc_url()),
    }
}

/// The passphrase that the settings select.
pub open spec fn resolved_passphrase(cli: NetworkArgs, cfg: NetworkConfig) -> Seq<char> {
    match cli.network {
        Some(n) => network_passphrase(n),
        None => first_given(cli.network_passphrase, cfg.network_passphrase, default_passphrase()),
    }
}

/// The copy of the first optional text that is there, else of `default`.
fn first_given_text(first: &Option<String>, second: &Option<String>, default: &str) -> (s: String)
    ensures
        s@ == first_given(*first, *second, default@),
{
    match first {
        Some(s) => s.clone(),
        None => match second {
            Some(s) => s.clone(),
            None => String::from_str(default),
        },
    }
}

/// Selects the RPC endpoint and the network passphrase: a named network
/// decides both; otherwise each comes from its command-line option, else from
/// the configuration file, else is the testnet's.
pub fn resolve_network(cli: &NetworkArgs, cfg: &NetworkConfig) -> (res: (String, String))
    ensures
        res.0@ == resolved_rpc_url(*cli, *cfg),
        res.1@ == resolved_passphrase(*cli, *cfg),
{
    match &cli.network {
        Some(net) => (String::from_str(net.rpc_url()), String::from_str(net.passphrase())),
        None => {
            let testnet = Network::Testnet;
            (
                first_given_text(&cli.rpc_url, &cfg.rpc_url, testnet.rpc_url()),
                first_given_text(&cli.network_passphrase, &cfg.network_passphrase, testnet.passphrase()),
            )
        },
    }
}

/// The deadline that a `--deadline` value gives: none without the option; the
/// number itself where the value reads as a `u64`; else the RFC 3339 datetime
/// it reads as; and for any other text an `InvalidDeadline` error that carries
/// the text as given.
pub open spec fn parse_deadline_spec(deadline: Option<Seq<char>>) -> Result<Option<u64>, CliErrorModel> {
    match deadline {
        None => Ok(None),
        Some(raw) => match parse_u64_spec(raw) {
            Some(n) => Ok(Some(n)),
            None => match parse_iso8601_spec(raw) {
                Ok(t) => Ok(Some(t)),
                Err(_) => Err(CliErrorModel::InvalidDeadline(raw)),
            },
        },
    }
}

/// A `--deadline` value that reads as a `u64` is that timestamp; a value is
/// refused exactly when it is neither such a number nor an RFC 3339 datetime
/// on or after the epoch; and a refusal is an `InvalidDeadline` error that
/// carries the value as given.
pub proof fn lemma_deadline_acceptance(raw: Seq<char>)
    ensures
        parse_u64_spec(raw) matches Some(n) ==> parse_deadline_spec(Some(raw)) == Ok::<
            Option<u64>,
            CliErrorModel,
        >(Some(n)),
        parse_deadline_spec(Some(raw)) is Err <==> (parse_u64_spec(raw) is None && parse_iso8601_spec(
            raw,
        ) is Err),
        parse_deadline_spec(Some(raw)) is Err ==> parse_deadline_spec(Some(raw)) == Err::<
            Option<u64>,
            CliErrorModel,
        >(CliErrorModel::InvalidDeadline(raw)),
{
}

/// What a `--deadline` value means, in terms of the text itself and chrono's
/// reading of it: a run of digits that fits in a `u64` is that number of
/// seconds; a text that is no such number and that chrono reads as a second
/// on or after the epoch is that second, whatever its offset or fraction; any
/// other text is refused with an `InvalidDeadline` error carrying the text.
pub proof fn lemma_deadline_value(raw: Seq<char>)
    ensures
        raw.len() > 0 && all_digits(raw) && numeral_value(raw) <= u64::MAX ==> parse_deadline_spec(
            Some(raw),
        ) == Ok::<Option<u64>, CliErrorModel>(Some(numeral_value(raw) as u64)),
        parse_u64_spec(raw) is None && rfc3339_epoch_seconds(raw) is Some && rfc3339_epoch_seconds(
            raw,
        )->0 >= 0 ==> parse_deadline_spec(Some(raw)) == Ok::<Option<u64>, CliErrorModel>(
            Some(rfc3339_epoch_seconds(raw)->0 as u64),
        ),
        parse_u64_spec(raw) is None && (rfc3339_epoch_seconds(raw) is None || rfc3339_epoch_seconds(
            raw,
        )->0 < 0) ==> parse_deadline_spec(Some(raw)) == Err::<Option<u64>, CliErrorModel>(
            CliErrorModel::InvalidDeadline(raw),
        ),
        parse_deadline_spec(None) == Ok::<Option<u64>, CliErrorModel>(None),
{
    if raw.len() > 0 && all_digits(raw) {
        assert(!(raw[0] == '+')) by {
            assert(crate::decimal::is_digit(raw[0]));
        }
    }
}

/// The order in which the network settings are taken: a named network
/// decides both the endpoint and the passphrase; without one, each comes from
/// its command-line option when given, else from the configuration file when
/// given there, else is the testnet's.
pub proof fn lemma_network_precedence(cli: NetworkArgs, cfg: NetworkConfig)
    ensures
        cli.network == Some(Network::Testnet) ==> resolved_rpc_url(cli, cfg)
            == "https://soroban-testnet.stellar.org"@ && resolved_passphrase(cli, cfg)
            == "Test SDF Network ; September 2015"@,
        cli.network == Some(Network::Mainnet) ==> resolved_rpc_url(cli, cfg)
            == "https://soroban-mainnet.stellar.org"@ && resolved_passphrase(cli, cfg)
            == "Public Global Stellar Network ; September 2015"@,
        cli.network == Some(Network::Futurenet) ==> resolved_rpc_url(cli, cfg)
            == "https://rpc-futurenet.stellar.org"@ && resolved_passphrase(cli, cfg)
            == "Test SDF Future Network ; October 2022"@,
        cli.network is None && cli.rpc_url is Some ==> resolved_rpc_url(cli, cfg) == cli.rpc_url->0@,
        cli.network is None && cli.rpc_url is None && cfg.rpc_url is Some ==> resolved_rpc_url(cli, cfg)
            == cfg.rpc_url->0@,
        cli.network is None && cli.rpc_url is None && cfg.rpc_url is None ==> resolved_rpc_url(cli, cfg)
            == "https://soroban-testnet.stellar.org"@,
        cli.network is None && cli.network_passphrase is Some ==> resolved_passphrase(cli, cfg)
            == cli.network_passphrase->0@,
        cli.network is None && cli.network_passphrase is None && cfg.network_passphrase is Some
            ==> resolved_passphrase(cli, cfg) == cfg.network_passphrase->0@,
        cli.network is None && cli.network_passphrase is None && cfg.network_passphrase is None
            ==> resolved_passphrase(cli, cfg) == "Test SDF Network ; September 2015"@,
{
}

/// The mathematical value of an optional deadline result.
pub open spec fn optional_deadline_result(r: Result<Option<u64>, CliError>) -> Result<Option<u64>, CliErrorModel> {
    match r {
        Ok(d) => Ok(d),
        Err(e) => Err(e@),
    }
}

/// Reads a `--deadline` value: a Unix timestamp or an ISO 8601 datetime.
pub fn parse_deadline(deadline: Option<String>) -> (res: Result<Option<u64>, CliError>)
    ensures
        optional_deadline_result(res) == parse_deadline_spec(
            match deadline {
                Some(s) => Some(s@),
                None => None,
            },
        ),
{
    match deadline {
        None => Ok(None),
        Some(raw) => match parse_u64(raw.as_str()) {
            Some(n) => Ok(Some(n)),
            None => match parse_iso8601_to_timestamp(raw.as_str()) {
                Ok(t) => Ok(Some(t)),
                Err(_) => Err(CliError::invalid_deadline(raw.as_str())),
            },
        },
    }
}

} // verus!
