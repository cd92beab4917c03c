//! Verified core of `crgl`, a thin command-line front-end over an external
//! package-management tool. The library assigns each long flag a unique
//! single-character shorthand, declares the subcommand schemas, parses the
//! matched values into typed command records, and translates each record into
//! the exact ordered argument list handed to the external tool.

pub mod args;
pub mod cli;
pub mod record;
pub mod translate;
