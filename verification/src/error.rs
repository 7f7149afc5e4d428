use vstd::prelude::*;

verus! {

/// Error taxonomy of the OSD tool.
///
/// `ExternalToolError` covers a level-query whose output cannot be parsed;
/// `DeliveryError` an outbound notification with no listener present;
/// `ProtocolError` a malformed inbound display request; `ConfigError` an
/// unreadable config document; `BindError` a socket address that stays
/// unavailable even after stale-artifact cleanup. The last three of the
/// I/O-side errors are produced by the process glue around the library,
/// which shares this taxonomy.
#[derive(Clone, Copy, Debug, PartialEq, Eq, Structural)]
pub enum OsdError {
    ExternalToolError,
    DeliveryError,
    ProtocolError,
    ConfigError,
    BindError,
}

} // verus!
