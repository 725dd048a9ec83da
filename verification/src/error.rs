//! Typed errors of the escrow command-line client.
//!
//! Every variant carries the caller's context as text; `CliError::to_string`
//! renders the user-facing message of each variant.
use vstd::prelude::*;

verus! {

/// The errors that the client reports to its user.
#[derive(Debug)]
pub enum CliError {
    /// Invalid Stellar secret key format or derivation failure.
    InvalidStellarSecretKey(String),
    /// Invalid deadline specification (neither a Unix timestamp nor an RFC 3339 datetime).
    InvalidDeadline(String),
    /// WASM file not found at the given path.
    WasmFileNotFound(String),
    /// Failed to read a file.
    FileReadError { path: String, details: String },
    /// Invalid Stellar contract ID format.
    InvalidContractId(String),
    /// Invalid input provided to a command.
    InvalidInput(String),
    /// RPC operation failed.
    RpcError(String),
    /// Configuration file error.
    ConfigError(String),
    /// JSON serialization or deserialization error.
    SerializationError(String),
    /// Missing or invalid command-line argument.
    InvalidArgument(String),
    /// Cryptographic operation failure.
    CryptoError(String),
    /// User confirmation denied.
    OperationCancelled(String),
    /// Contract execution failure during simulation or submission.
    ContractExecutionError(String),
    /// Invalid Stellar address format.
    InvalidStellarAddress(String),
    /// Command execution failed.
    CommandError(String),
}

/// The mathematical value of a `CliError`: its variant and the text it carries.
pub enum CliErrorModel {
    InvalidStellarSecretKey(Seq<char>),
    InvalidDeadline(Seq<char>),
    WasmFileNotFound(Seq<char>),
    FileReadError { path: Seq<char>, details: Seq<char> },
    InvalidContractId(Seq<char>),
    InvalidInput(Seq<char>),
    RpcError(Seq<char>),
    ConfigError(Seq<char>),
    SerializationError(Seq<char>),
    InvalidArgument(Seq<char>),
    CryptoError(Seq<char>),
    OperationCancelled(Seq<char>),
    ContractExecutionError(Seq<char>),
    InvalidStellarAddress(Seq<char>),
    CommandError(Seq<char>),
}

impl View for CliError {
    type V = CliErrorModel;

    open spec fn view(&self) -> CliErrorModel {
        match self {
            CliError::InvalidStellarSecretKey(s) => CliErrorModel::InvalidStellarSecretKey(s@),
            CliError::InvalidDeadline(s) => CliErrorModel::InvalidDeadline(s@),
            CliError::WasmFileNotFound(s) => CliErrorModel::WasmFileNotFound(s@),
            CliError::FileReadError { path, details } => CliErrorModel::FileReadError {
                path: path@,
                details: details@,
            },
            CliError::InvalidContractId(s) => CliErrorModel::InvalidContractId(s@),
            CliError::InvalidInput(s) => CliErrorModel::InvalidInput(s@),
            CliError::RpcError(s) => CliErrorModel::RpcError(s@),
            CliError::ConfigError(s) => CliErrorModel::ConfigError(s@),
            CliError::SerializationError(s) => CliErrorModel::SerializationError(s@),
            CliError::InvalidArgument(s) => CliErrorModel::InvalidArgument(s@),
            CliError::CryptoError(s) => CliErrorModel::CryptoError(s@),
            CliError::OperationCancelled(s) => CliErrorModel::OperationCancelled(s@),
            CliError::ContractExecutionError(s) => CliErrorModel::ContractExecutionError(s@),
            CliError::InvalidStellarAddress(s) => CliErrorModel::InvalidStellarAddress(s@),
            CliError::CommandError(s) => CliErrorModel::CommandError(s@),
        }
    }
}

/// `t` occurs in `s` as a contiguous run of characters.
pub open spec fn contains_text(s: Seq<char>, t: Seq<char>) -> bool {
    exists|i: int| 0 <= i && i + t.len() <= s.len() && #[trigger] s.subrange(i, i + t.len()) == t
}

impl CliErrorModel {
    /// The text that the message places before the carried context.
    pub open spec fn lead(self) -> Seq<char> {
        match self {
            CliErrorModel::InvalidStellarSecretKey(_) => "Invalid Stellar secret key: "@,
            CliErrorModel::InvalidDeadline(_) => "Invalid deadline format: "@,
            CliErrorModel::WasmFileNotFound(_) => "WASM file not found: "@,
            CliErrorModel::FileReadError { .. } => "Failed to read file "@,
            CliErrorModel::InvalidContractId(_) => "Invalid Stellar contract ID: "@,
            CliErrorModel::InvalidInput(_) => "Invalid input: "@,
            CliErrorModel::RpcError(_) => "RPC error: "@,
            CliErrorModel::ConfigError(_) => "Configuration error: "@,
            CliErrorModel::SerializationError(_) => "JSON processing error: "@,
            CliErrorModel::InvalidArgument(_) => "Missing or invalid argument: "@,
            CliErrorModel::CryptoError(_) => "Cryptographic operation failed: "@,
            CliErrorModel::OperationCancelled(_) => "Operation cancelled: "@,
            CliErrorModel::ContractExecutionError(_) => "Contract execution failed: "@,
            CliErrorModel::InvalidStellarAddress(_) => "Invalid Stellar address: "@,
            CliErrorModel::CommandError(_) => "Command failed: "@,
        }
    }

    /// The context that the caller handed over (for a file read error, the path).
    pub open spec fn context(self) -> Seq<char> {
        match self {
            CliErrorModel::InvalidStellarSecretKey(s) => s,
            CliErrorModel::InvalidDeadline(s) => s,
            CliErrorModel::WasmFileNotFound(s) => s,
            CliErrorModel::FileReadError { path, .. } => path,
            CliErrorModel::InvalidContractId(s) => s,
            CliErrorModel::InvalidInput(s) => s,
            CliErrorModel::RpcError(s) => s,
            CliErrorModel::ConfigError(s) => s,
            CliErrorModel::SerializationError(s) => s,
            CliErrorModel::InvalidArgument(s) => s,
            CliErrorModel::CryptoError(s) => s,
            CliErrorModel::OperationCancelled(s) => s,
            CliErrorModel::ContractExecutionError(s) => s,
            CliErrorModel::InvalidStellarAddress(s) => s,
            CliErrorModel::CommandError(s) => s,
        }
    }

    /// The text that the message places after the carried context.
    pub open spec fn tail(self) -> Seq<char> {
        match self {
            CliErrorModel::InvalidStellarSecretKey(_) => "\nExpected format: S..."@,
            CliErrorModel::InvalidDeadline(_) =>
                "\nProvide either a Unix timestamp or ISO 8601 datetime (e.g., 2026-12-31T23:59:59Z)"@,
            CliErrorModel::FileReadError { details, .. } => ": "@ + details,
            CliErrorModel::InvalidContractId(_) => "\nExpected format: C..."@,
            CliErrorModel::InvalidStellarAddress(_) => "\nExpected format: G..."@,
            _ => Seq::empty(),
        }
    }

    /// The user-facing message of the error.
    pub open spec fn message(self) -> Seq<char> {
        self.lead() + self.context() + self.tail()
    }
}

/// Every message starts with the text that names its kind of error, and
/// carries the caller's context verbatim (for a file read error, also the
/// details of the failure).
pub proof fn lemma_message_carries_context(e: CliErrorModel)
    ensures
        e.message().subrange(0, e.lead().len() as int) == e.lead(),
        contains_text(e.message(), e.lead()),
        contains_text(e.message(), e.context()),
        e matches CliErrorModel::FileReadError { details, .. } ==> contains_text(e.message(), details),
{
    let m = e.message();
    let a = e.lead().len() as int;
    let b = e.context().len() as int;
    assert(m.subrange(0, 0 + a) =~= e.lead());
    assert(m.subrange(a, a + b) =~= e.context());
    if let CliErrorModel::FileReadError { path, details } = e {
        reveal_strlit(": ");
        let c = a + b + 2;
        assert(m.subrange(c, c + details.len()) =~= details);
    }
}

impl CliError {
    /// Create an `InvalidStellarSecretKey` error with context.
    pub fn invalid_secret_key(source: &str) -> (e: Self)
        ensures
            e@ == CliErrorModel::InvalidStellarSecretKey(source@),
    {
        CliError::InvalidStellarSecretKey(String::from_str(source))
    }

    /// Create an `InvalidDeadline` error with context.
    pub fn invalid_deadline(input: &str) -> (e: Self)
        ensures
            e@ == CliErrorModel::InvalidDeadline(input@),
    {
        CliError::InvalidDeadline(String::from_str(input))
    }

    /// Create a `WasmFileNotFound` error for the given path.
    pub fn wasm_not_found(path: &str) -> (e: Self)
        ensures
            e@ == CliErrorModel::WasmFileNotFound(path@),
    {
        CliError::WasmFileNotFound(String::from_str(path))
    }

    /// Create a `FileReadError` with the path and the details of the failure.
    pub fn file_read_error(path: &str, details: &str) -> (e: Self)
        ensures
            e@ == (CliErrorModel::FileReadError { path: path@, details: details@ }),
    {
        CliError::FileReadError { path: String::from_str(path), details: String::from_str(details) }
    }

    /// Create an `InvalidContractId` error.
    pub fn invalid_contract_id(id: &str) -> (e: Self)
        ensures
            e@ == CliErrorModel::InvalidContractId(id@),
    {
        CliError::InvalidContractId(String::from_str(id))
    }

    /// Create an `InvalidInput` error.
    pub fn invalid_input(msg: &str) -> (e: Self)
        ensures
            e@ == CliErrorModel::InvalidInput(msg@),
    {
        CliError::InvalidInput(String::from_str(msg))
    }

    /// Create an `RpcError` with context.
    pub fn rpc_error(msg: &str) -> (e: Self)
        ensures
            e@ == CliErrorModel::RpcError(msg@),
    {
        CliError::RpcError(String::from_str(msg))
    }

    /// Create a `ConfigError` with context.
    pub fn config_error(msg: &str) -> (e: Self)
        ensures
            e@ == CliErrorModel::ConfigError(msg@),
    {
        CliError::ConfigError(String::from_str(msg))
    }

    /// Create a `SerializationError` with context.
    pub fn serialization_error(msg: &str) -> (e: Self)
        ensures
            e@ == CliErrorModel::SerializationError(msg@),
    {
        CliError::SerializationError(String::from_str(msg))
    }

    /// Create an `InvalidArgument` error.
    pub fn invalid_argument(msg: &str) -> (e: Self)
        ensures
            e@ == CliErrorModel::InvalidArgument(msg@),
    {
        CliError::InvalidArgument(String::from_str(msg))
    }

    /// Create a `CryptoError` with context.
    pub fn crypto_error(msg: &str) -> (e: Self)
        ensures
            e@ == CliErrorModel::CryptoError(msg@),
    {
        CliError::CryptoError(String::from_str(msg))
    }

    /// Create an `OperationCancelled` error.
    pub fn operation_cancelled(reason: &str) -> (e: Self)
        ensures
            e@ == CliErrorModel::OperationCancelled(reason@),
    {
        CliError::OperationCancelled(String::from_str(reason))
    }

    /// Create a `ContractExecutionError` with context.
    pub fn contract_execution_error(msg: &str) -> (e: Self)
        ensures
            e@ == CliErrorModel::ContractExecutionError(msg@),
    {
        CliError::ContractExecutionError(String::from_str(msg))
    }

    /// Create an `InvalidStellarAddress` error.
    pub fn invalid_stellar_address(addr: &str) -> (e: Self)
        ensures
            e@ == CliErrorModel::InvalidStellarAddress(addr@),
    {
        CliError::InvalidStellarAddress(String::from_str(addr))
    }

    /// Create a `CommandError` with context.
    pub fn command_error(msg: &str) -> (e: Self)
        ensures
            e@ == CliErrorModel::CommandError(msg@),
    {
        CliError::CommandError(String::from_str(msg))
    }

    /// The user-facing message of the error.
    pub fn to_string(&self) -> (m: String)
        ensures
            m@ == self@.message(),
    {
        let (lead, context, tail): (&str, &str, &str) = match self {
            CliError::InvalidStellarSecretKey(s) => (
                "Invalid Stellar secret key: ",
                s.as_str(),
                "\nExpected format: S...",
            ),
            CliError::InvalidDeadline(s) => (
                "Invalid deadline format: ",
                s.as_str(),
                "\nProvide either a Unix timestamp or ISO 8601 datetime (e.g., 2026-12-31T23:59:59Z)",
            ),
            CliError::WasmFileNotFound(s) => ("WASM file not found: ", s.as_str(), ""),
            CliError::FileReadError { path, details } => {
                let mut m = String::from_str("Failed to read file ");
                m.append(path.as_str());
                m.append(": ");
                m.append(details.as_str());
                proof {
                    assert(m@ =~= self@.message());
                }
                return m;
            },
            CliError::InvalidContractId(s) => (
                "Invalid Stellar contract ID: ",
                s.as_str(),
                "\nExpected format: C...",
            ),
            CliError::InvalidInput(s) => ("Invalid input: ", s.as_str(), ""),
            CliError::RpcError(s) => ("RPC error: ", s.as_str(), ""),
            CliError::ConfigError(s) => ("Configuration error: ", s.as_str(), ""),
            CliError::SerializationError(s) => ("JSON processing error: ", s.as_str(), ""),
            CliError::InvalidArgument(s) => ("Missing or invalid argument: ", s.as_str(), ""),
            CliError::CryptoError(s) => ("Cryptographic operation failed: ", s.as_str(), ""),
            CliError::OperationCancelled(s) => ("Operation cancelled: ", s.as_str(), ""),
            CliError::ContractExecutionError(s) => ("Contract execution failed: ", s.as_str(), ""),
            CliError::InvalidStellarAddress(s) => (
                "Invalid Stellar address: ",
                s.as_str(),
                "\nExpected format: G...",
            ),
            CliError::CommandError(s) => ("Command failed: ", s.as_str(), ""),
        };
        proof {
            reveal_strlit("");
        }
        let mut m = String::from_str(lead);
        m.append(context);
        m.append(tail);
        proof {
            assert(m@ =~= self@.message());
        }
        m
    }
}

} // verus!
