//! The decoders of other crates, each behind one function whose contract
//! is believed, not proved. Where a decoder's result takes pages to state,
//! the contract gives it a name: a function of the input bytes of which
//! nothing more is known.

use vstd::prelude::*;

use x509_parser::error::PEMError;
use x509_parser::oid_registry::asn1_rs::{FromDer, OctetString, Oid, Sequence};
use x509_parser::pem::Pem;

use crate::certificate::{Certificate, CertificateView, Extension, NameAttribute};

verus! {

/// The error of `x509_parser`'s PEM reader.
#[verifier::external_type_specification]
#[verifier::external_body]
pub struct ExPEMError(PEMError);

/// The views of the byte strings of `blocks`, in order.
pub open spec fn blocks_view(blocks: Seq<Vec<u8>>) -> Seq<Seq<u8>> {
    blocks.map_values(|block: Vec<u8>| block@)
}

/// The decoded bodies of the PEM blocks that `x509_parser` finds in `data`,
/// in order; `None` where it reports a block as broken.
pub uninterp spec fn spec_pem_decode(data: Seq<u8>) -> Option<Seq<Seq<u8>>>;

/// Calls `x509_parser::pem::Pem::iter_from_buffer` on `data` and collects
/// the blocks' decoded bodies up to the first error. The contract claims
/// only that the outcome is a function of the bytes of `data`.
#[verifier::external_body]
pub(crate) fn pem_decode(data: &[u8]) -> (res: Result<Vec<Vec<u8>>, PEMError>)
    ensures
        match res {
            Ok(blocks) => spec_pem_decode(data@) == Some(blocks_view(blocks@)),
            Err(_) => spec_pem_decode(data@) is None,
        },
{
    Pem::iter_from_buffer(data).map(|block| block.map(|pem| pem.contents)).collect()
}

/// What `x509_parser` reads from `der` as an X.509 certificate: the
/// issuer's attributes and the extensions. `None` where it rejects `der`.
pub uninterp spec fn spec_x509_decode(der: Seq<u8>) -> Option<CertificateView>;

/// Calls `x509_parser::parse_x509_certificate` on `der` and copies out the
/// issuer's attributes (type, and value where `as_str` gives one) and the
/// extensions (identifier and raw value). The contract claims only that the
/// outcome is a function of the bytes of `der`.
#[verifier::external_body]
pub(crate) fn x509_decode(der: &[u8]) -> (res: Option<Certificate>)
    ensures
        match res {
            Some(cert) => spec_x509_decode(der@) == Some(cert@),
            None => spec_x509_decode(der@) is None,
        },
{
    let (_, cert) = x509_parser::parse_x509_certificate(der).ok()?;
    let issuer = cert.issuer().iter_attributes().map(|a| NameAttribute {
        oid: a.attr_type().as_bytes().to_vec(),
        value: a.as_str().ok().map(String::from),
    }).collect();
    let extensions = cert.extensions().iter().map(|e| Extension {
        oid: e.oid.as_bytes().to_vec(),
        value: e.value.to_vec(),
    }).collect();
    Some(Certificate { issuer, extensions })
}

/// The DER SEQUENCE at the head of `input` as `asn1_rs` decodes it: its
/// content, and what of `input` follows it. `None` where decoding fails.
pub uninterp spec fn spec_der_sequence(input: Seq<u8>) -> Option<(Seq<u8>, Seq<u8>)>;

/// Calls `asn1_rs`'s `Sequence::from_der` on `input`. Beside naming the
/// outcome, the contract claims that what follows the sequence is shorter
/// than `input`: the decoder consumes at least the sequence's header.
#[verifier::external_body]
pub(crate) fn der_sequence(input: &[u8]) -> (res: Option<(Vec<u8>, Vec<u8>)>)
    ensures
        match res {
            Some((content, rest)) => {
                &&& spec_der_sequence(input@) == Some((content@, rest@))
                &&& rest@.len() < input@.len()
            },
            None => spec_der_sequence(input@) is None,
        },
{
    let (rest, sequence) = Sequence::from_der(input).ok()?;
    Some((sequence.content.into_owned(), rest.to_vec()))
}

/// The object identifier at the head of `input` as `asn1_rs` decodes it:
/// its content bytes, and what of `input` follows it. `None` where decoding
/// fails.
pub uninterp spec fn spec_der_oid(input: Seq<u8>) -> Option<(Seq<u8>, Seq<u8>)>;

/// Calls `asn1_rs`'s `Oid::from_der` on `input`. The contract claims only
/// that the outcome is a function of the bytes of `input`.
#[verifier::external_body]
pub(crate) fn der_oid(input: &[u8]) -> (res: Option<(Vec<u8>, Vec<u8>)>)
    ensures
        match res {
            Some((oid, rest)) => spec_der_oid(input@) == Some((oid@, rest@)),
            None => spec_der_oid(input@) is None,
        },
{
    let (rest, oid) = Oid::from_der(input).ok()?;
    Some((oid.as_bytes().to_vec(), rest.to_vec()))
}

/// The text by which `asn1_rs` renders the object identifier with the
/// content bytes `oid`: its arcs in decimal, with dots between them.
pub uninterp spec fn spec_oid_id_string(oid: Seq<u8>) -> Seq<char>;

/// Calls `asn1_rs`'s `Oid::to_id_string` on the identifier whose content
/// bytes are `oid`. The contract claims only that the text is a function of
/// those bytes.
#[verifier::external_body]
pub(crate) fn oid_id_string(oid: &[u8]) -> (res: String)
    ensures
        res@ == spec_oid_id_string(oid@),
{
    Oid::new(std::borrow::Cow::Borrowed(oid)).to_id_string()
}

/// The OCTET STRING at the head of `input` as `asn1_rs` decodes it: its
/// bytes, and what of `input` follows it. `None` where decoding fails.
pub uninterp spec fn spec_der_octet_string(input: Seq<u8>) -> Option<(Seq<u8>, Seq<u8>)>;

/// Calls `asn1_rs`'s `OctetString::from_der` on `input`. The contract
/// claims only that the outcome is a function of the bytes of `input`.
#[verifier::external_body]
pub(crate) fn der_octet_string(input: &[u8]) -> (res: Option<(Vec<u8>, Vec<u8>)>)
    ensures
        match res {
            Some((bytes, rest)) => spec_der_octet_string(input@) == Some((bytes@, rest@)),
            None => spec_der_octet_string(input@) is None,
        },
{
    let (rest, octets) = OctetString::from_der(input).ok()?;
    Some((octets.into_cow().into_owned(), rest.to_vec()))
}

/// The lower-case hexadecimal digit of `nibble`.
pub open spec fn spec_hex_digit(nibble: int) -> char
    recommends
        0 <= nibble < 16,
{
    seq!['0', '1', '2', '3', '4', '5', '6', '7', '8', '9', 'a', 'b', 'c', 'd', 'e', 'f'][nibble]
}

/// `data` in lower-case hexadecimal: two digits for each byte, the high
/// half first.
pub open spec fn spec_hex_lower(data: Seq<u8>) -> Seq<char> {
    Seq::new(
        2 * data.len(),
        |i: int| spec_hex_digit(if i % 2 == 0 { data[i / 2] as int / 16 } else { data[i / 2] as int % 16 }),
    )
}

/// Calls `hex::encode` on `data`. The contract states what the crate
/// documents: two lower-case digits for each byte, in order.
#[verifier::external_body]
pub(crate) fn hex_encode(data: &[u8]) -> (res: String)
    ensures
        res@ == spec_hex_lower(data@),
{
    hex::encode(data)
}

} // verus!
