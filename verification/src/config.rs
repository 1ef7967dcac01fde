use vstd::prelude::*;

verus! {

/// Credentials and device identifiers for the vendor API, loaded once at
/// process start and read-only afterwards.
pub struct Config {
    pub switch_bot_token: String,
    pub switch_bot_secret: String,
    pub interphone_bot_id: String,
    pub lock_bot_id: String,
}

/// Configuration loader handle; the actual environment read happens outside
/// the library, which only defines the configuration's shape.
pub struct Service {}

} // verus!
