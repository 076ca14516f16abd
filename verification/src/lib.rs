//! An on-chain entry point that mints a single non-fungible master edition
//! token: it validates a fixed, positional list of account references,
//! decodes a compact binary argument record, and assembles two dependent
//! sub-program call descriptors (create the metadata and master-edition
//! records, then mint exactly one unit), which the host shell issues in that
//! order through its external-call mechanism.

pub mod account;
pub mod descriptor;
pub mod error;
pub mod metadata;
pub mod processor;
pub mod request;
