//! Checks on certificates and signatures, carried out by OpenSSL.
//!
//! Certificates, keys and verifiers are OpenSSL's own values: the library
//! hands them on and never looks inside. What OpenSSL answers to each call has
//! a name; the library decides the order of the calls, what is handed to each,
//! and the result for each answer.

use vstd::prelude::*;

pub mod signature;
pub mod x509;

verus! {

/// `openssl::x509::X509`, a certificate. Nothing is known of what it holds.
#[verifier::external_type_specification]
#[verifier::external_body]
pub struct ExX509(openssl::x509::X509);

/// `openssl::pkey::PKey`, a key. Nothing is known of what it holds.
#[verifier::external_type_specification]
#[verifier::external_body]
#[verifier::reject_recursive_types(T)]
pub struct ExPKey<T>(openssl::pkey::PKey<T>);

/// `openssl::pkey::Public`, the mark of a key that has public parts only.
#[verifier::external_type_specification]
#[verifier::external_body]
pub struct ExPublic(openssl::pkey::Public);

/// `openssl::error::ErrorStack`, the errors that OpenSSL reports. Nothing is
/// known of what it holds.
#[verifier::external_type_specification]
#[verifier::external_body]
pub struct ExErrorStack(openssl::error::ErrorStack);

/// `openssl::sign::Verifier`, a verification under way. Nothing is known of
/// what it holds.
#[verifier::external_type_specification]
#[verifier::external_body]
pub struct ExVerifier<'a>(openssl::sign::Verifier<'a>);

} // verus!
