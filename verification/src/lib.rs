//! Platform identity of an Intel SGX/DCAP attestation quote.
//!
//! A quote embeds the certificate chain of the key that signed it. This
//! library locates that chain, decodes it, classifies the authority that
//! issued the leaf (PCK) certificate and reads the six-byte FMSPC from the
//! leaf's SGX extension. What a function returns is stated in its contract
//! and proved; the decoders of other crates are called through the few
//! functions marked `external_body`, whose contracts are believed.
//!
//! Beside it stand the decisions of a proving run on a remote proving
//! service: the library says what to do next, its caller does it.

pub mod bonsai;
pub mod bytes;
pub mod certificate;
pub mod chain;
pub mod decode;
pub mod error;
pub mod issuer;
pub mod laws;
pub mod parser;
pub mod quote;
pub mod sgx_extension;

pub use bonsai::BonsaiProver;
pub use certificate::{Certificate, Extension, NameAttribute};
pub use error::ExtractionError;
pub use issuer::CA;
pub use parser::get_pck_fmspc_and_issuer;
