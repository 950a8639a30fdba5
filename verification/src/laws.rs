//! What holds of the extraction as a whole, proved from the definitions
//! that the functions' contracts use.

use vstd::prelude::*;

use crate::certificate::{CertificateView, ExtensionView};
use crate::decode::spec_der_sequence;
use crate::error::{ExtractionError, ExtractionErrorView};
use crate::issuer::{spec_classify_issuer, spec_issuer_cn, spec_platform_cn, spec_processor_cn, CA};
use crate::parser::{identity_result_view, spec_pck_identity, spec_platform_identity};
use crate::quote::{spec_auth_data_size, spec_cert_data_offset, QE_AUTH_DATA_SIZE_OFFSET};
use crate::sgx_extension::{
    spec_extensions_with, spec_extract_fmspc, spec_sgx_extension_oid, spec_unique_extension,
    spec_walk_entries,
};

verus! {

/// A quote that holds its size field, and whose size field places the
/// certification data behind the quote's end, is malformed.
pub proof fn lemma_offset_beyond_quote_is_malformed(quote: Seq<u8>)
    requires
        quote.len() >= QE_AUTH_DATA_SIZE_OFFSET + 2,
        QE_AUTH_DATA_SIZE_OFFSET + 2 + spec_auth_data_size(quote) + 2 + 4 > quote.len(),
    ensures
        spec_cert_data_offset(quote) is None,
        spec_platform_identity(quote) == Err::<(Seq<char>, CA, Seq<char>), ExtractionErrorView>(
            ExtractionErrorView::MalformedQuote,
        ),
{
}

/// A quote too short to hold its size field is malformed.
pub proof fn lemma_short_quote_is_malformed(quote: Seq<u8>)
    requires
        quote.len() < QE_AUTH_DATA_SIZE_OFFSET + 2,
    ensures
        spec_platform_identity(quote) == Err::<(Seq<char>, CA, Seq<char>), ExtractionErrorView>(
            ExtractionErrorView::MalformedQuote,
        ),
{
}

/// Extraction is a function of the quote's bytes: two results that it may
/// give for the same bytes are the same.
pub proof fn lemma_extraction_is_deterministic(
    quote: Seq<u8>,
    first: Result<(String, CA, String), ExtractionError>,
    second: Result<(String, CA, String), ExtractionError>,
)
    requires
        identity_result_view(first) == spec_platform_identity(quote),
        identity_result_view(second) == spec_platform_identity(quote),
    ensures
        identity_result_view(first) == identity_result_view(second),
{
}

/// The two Common Names that are recognised differ.
pub proof fn lemma_known_issuers_differ()
    ensures
        spec_platform_cn() != spec_processor_cn(),
{
    reveal_strlit("Intel SGX PCK Platform CA");
    reveal_strlit("Intel SGX PCK Processor CA");
    assert(spec_platform_cn()[15] == 'l');
    assert(spec_processor_cn()[15] == 'r');
}

/// The authority in an identity goes by the issuer's Common Name alone:
/// Platform for the one name, Processor for the other, and for any other
/// name no identity but the error that carries the name.
pub proof fn lemma_authority_follows_issuer_name(cert: CertificateView)
    ensures
        spec_pck_identity(cert) matches Ok((_, ca, cn)) ==> {
            &&& spec_issuer_cn(cert) == Ok::<Seq<char>, ExtractionErrorView>(cn)
            &&& (ca == CA::Platform <==> cn == spec_platform_cn())
            &&& (ca == CA::Processor <==> cn == spec_processor_cn())
        },
        spec_issuer_cn(cert) matches Ok(cn) ==> (cn != spec_platform_cn() && cn != spec_processor_cn()
            ==> spec_pck_identity(cert) == Err::<(Seq<char>, CA, Seq<char>), ExtractionErrorView>(
            ExtractionErrorView::UnknownIssuer(cn),
        )),
{
    lemma_known_issuers_differ();
}

/// Among extensions of which none has the identifier `oid`, none is found.
pub proof fn lemma_no_extension_with(extensions: Seq<ExtensionView>, oid: Seq<u8>)
    requires
        forall|i: int| 0 <= i < extensions.len() ==> extensions[i].oid != oid,
    ensures
        spec_extensions_with(extensions, oid).len() == 0,
    decreases extensions.len(),
{
    reveal(Seq::filter);
    if extensions.len() > 0 {
        lemma_no_extension_with(extensions.drop_last(), oid);
    }
}

/// A certificate without an SGX extension has no FMSPC, and where its
/// issuer is a known one it has no identity for want of that extension.
pub proof fn lemma_absent_extension_is_reported(cert: CertificateView)
    requires
        forall|i: int| 0 <= i < cert.extensions.len() ==> cert.extensions[i].oid != spec_sgx_extension_oid(),
    ensures
        spec_extract_fmspc(cert) == Err::<Seq<u8>, ExtractionErrorView>(ExtractionErrorView::ExtensionNotFound),
        spec_classify_issuer(cert) is Ok ==> spec_pck_identity(cert) == Err::<
            (Seq<char>, CA, Seq<char>),
            ExtractionErrorView,
        >(ExtractionErrorView::ExtensionNotFound),
{
    lemma_no_extension_with(cert.extensions, spec_sgx_extension_oid());
}

/// An FMSPC that a walk finds has six bytes.
pub proof fn lemma_walk_gives_six_bytes(entries: Seq<u8>)
    ensures
        spec_walk_entries(entries) matches Ok(fmspc) ==> fmspc.len() == 6,
    decreases entries.len(),
{
    if entries.len() > 0 {
        match spec_der_sequence(entries) {
            Some((_, rest)) => {
                if rest.len() < entries.len() {
                    lemma_walk_gives_six_bytes(rest);
                }
            },
            None => {},
        }
    }
}

/// An identity holds an FMSPC of six bytes, written in twelve digits.
pub proof fn lemma_identity_has_twelve_digits(cert: CertificateView)
    ensures
        spec_extract_fmspc(cert) matches Ok(fmspc) ==> fmspc.len() == 6,
        spec_pck_identity(cert) matches Ok((digits, _, _)) ==> digits.len() == 12,
{
    match spec_unique_extension(cert.extensions, spec_sgx_extension_oid()) {
        Ok(value) => {
            match spec_der_sequence(value) {
                Some((entries, _)) => {
                    lemma_walk_gives_six_bytes(entries);
                },
                None => {},
            }
        },
        Err(_) => {},
    }
}

} // verus!
