use star_escrow::error::CliError;

#[test]
fn test_invalid_stellar_secret_key_error_message() {
    let err = CliError::invalid_secret_key("not-a-key");
    let msg = err.to_string();
    assert!(msg.contains("Invalid Stellar secret key"));
    assert!(msg.contains("S..."));
}

#[test]
fn test_invalid_deadline_error_message() {
    let err = CliError::invalid_deadline("bad-date");
    let msg = err.to_string();
    assert!(msg.contains("Invalid deadline format"));
    assert!(msg.contains("2026-12-31T23:59:59Z"));
}

#[test]
fn test_wasm_file_not_found_error() {
    let err = CliError::wasm_not_found("/nonexistent/file.wasm");
    let msg = err.to_string();
    assert!(msg.contains("WASM file not found"));
    assert!(msg.contains("nonexistent"));
}

#[test]
fn test_file_read_error() {
    let io_err = std::io::Error::new(std::io::ErrorKind::PermissionDenied, "access denied");
    let err = CliError::file_read_error("/sensitive/file", &io_err.to_string());
    let msg = err.to_string();
    assert!(msg.contains("Failed to read file"));
    assert!(msg.contains("sensitive/file"));
    assert!(msg.contains("access denied"));
}

#[test]
fn test_invalid_contract_id_error() {
    let err = CliError::invalid_contract_id("invalid-id");
    let msg = err.to_string();
    assert!(msg.contains("Invalid Stellar contract ID"));
    assert!(msg.contains("C..."));
}

#[test]
fn test_invalid_input_error() {
    let err = CliError::invalid_input("freelancer address is malformed");
    let msg = err.to_string();
    assert!(msg.contains("Invalid input"));
    assert!(msg.contains("freelancer address is malformed"));
}

#[test]
fn test_rpc_error() {
    let err = CliError::rpc_error("connection timeout after 30s");
    let msg = err.to_string();
    assert!(msg.contains("RPC error"));
    assert!(msg.contains("connection timeout"));
}

#[test]
fn test_config_error() {
    let err = CliError::config_error("duplicate key 'rpc_url' in config file");
    let msg = err.to_string();
    assert!(msg.contains("Configuration error"));
    assert!(msg.contains("duplicate key"));
}

#[test]
fn test_serialization_error() {
    let err = CliError::serialization_error("trailing commas not allowed in JSON");
    let msg = err.to_string();
    assert!(msg.contains("JSON processing error"));
    assert!(msg.contains("trailing commas"));
}

#[test]
fn test_invalid_argument_error() {
    let err = CliError::invalid_argument("--amount must be positive");
    let msg = err.to_string();
    assert!(msg.contains("Missing or invalid argument"));
    assert!(msg.contains("positive"));
}

#[test]
fn test_crypto_error() {
    let err = CliError::crypto_error("signature verification failed");
    let msg = err.to_string();
    assert!(msg.contains("Cryptographic operation failed"));
    assert!(msg.contains("signature verification"));
}

#[test]
fn test_operation_cancelled_error() {
    let err = CliError::operation_cancelled("user declined confirmation prompt");
    let msg = err.to_string();
    assert!(msg.contains("Operation cancelled"));
    assert!(msg.contains("user declined"));
}

#[test]
fn test_contract_execution_error() {
    let err = CliError::contract_execution_error("insufficient balance for payment");
    let msg = err.to_string();
    assert!(msg.contains("Contract execution failed"));
    assert!(msg.contains("insufficient balance"));
}

#[test]
fn test_invalid_stellar_address_error() {
    let err = CliError::invalid_stellar_address("GBADADDRESS");
    let msg = err.to_string();
    assert!(msg.contains("Invalid Stellar address"));
    assert!(msg.contains("G..."));
}

#[test]
fn test_command_error() {
    let err = CliError::command_error("subcommand initialization failed");
    let msg = err.to_string();
    assert!(msg.contains("Command failed"));
    assert!(msg.contains("initialization"));
}

#[test]
fn test_error_is_send_sync() {
    fn assert_send_sync<T: Send + Sync>() {}
    assert_send_sync::<CliError>();
}

// Exact messages, one per variant.

#[test]
fn exact_messages_of_every_variant() {
    assert_eq!(
        CliError::invalid_secret_key("k").to_string(),
        "Invalid Stellar secret key: k\nExpected format: S..."
    );
    assert_eq!(
        CliError::invalid_deadline("d").to_string(),
        "Invalid deadline format: d\nProvide either a Unix timestamp or ISO 8601 datetime (e.g., 2026-12-31T23:59:59Z)"
    );
    assert_eq!(CliError::wasm_not_found("/a/b.wasm").to_string(), "WASM file not found: /a/b.wasm");
    assert_eq!(
        CliError::file_read_error("/p", "denied").to_string(),
        "Failed to read file /p: denied"
    );
    assert_eq!(
        CliError::invalid_contract_id("x").to_string(),
        "Invalid Stellar contract ID: x\nExpected format: C..."
    );
    assert_eq!(CliError::invalid_input("x").to_string(), "Invalid input: x");
    assert_eq!(CliError::rpc_error("x").to_string(), "RPC error: x");
    assert_eq!(CliError::config_error("x").to_string(), "Configuration error: x");
    assert_eq!(CliError::serialization_error("x").to_string(), "JSON processing error: x");
    assert_eq!(CliError::invalid_argument("x").to_string(), "Missing or invalid argument: x");
    assert_eq!(CliError::crypto_error("x").to_string(), "Cryptographic operation failed: x");
    assert_eq!(CliError::operation_cancelled("x").to_string(), "Operation cancelled: x");
    assert_eq!(CliError::contract_execution_error("x").to_string(), "Contract execution failed: x");
    assert_eq!(
        CliError::invalid_stellar_address("x").to_string(),
        "Invalid Stellar address: x\nExpected format: G..."
    );
    assert_eq!(CliError::command_error("x").to_string(), "Command failed: x");
}

#[test]
fn constructors_pick_their_variant() {
    assert!(matches!(CliError::invalid_deadline("z"), CliError::InvalidDeadline(s) if s == "z"));
    assert!(matches!(
        CliError::file_read_error("p", "d"),
        CliError::FileReadError { path, details } if path == "p" && details == "d"
    ));
    assert!(matches!(CliError::command_error(""), CliError::CommandError(s) if s.is_empty()));
}

#[test]
fn message_with_empty_context() {
    assert_eq!(CliError::rpc_error("").to_string(), "RPC error: ");
}
