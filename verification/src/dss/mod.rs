//! The logic of the client for the EU DSS validation service: the JSON values
//! it exchanges, the request bodies it sends, how it reads the simple report
//! that comes back, and how its command line is understood.

/// JSON values as the client reads and writes them.
pub mod json;
/// Reading the simple report of a validation.
pub mod report;
/// The requests sent to the DSS REST service.
pub mod request;
/// The command line of the client.
pub mod cli;
