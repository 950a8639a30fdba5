use vstd::prelude::*;
use vstd::slice::slice_subrange;

use crate::certificate::{Certificate, CertificateView};
use crate::chain::{decode_chain, spec_decode_chain};
use crate::decode::{hex_encode, spec_hex_lower};
use crate::error::{ExtractionError, ExtractionErrorView};
use crate::issuer::{classify_issuer, spec_classify_issuer, CA};
use crate::quote::{get_cert_data_offset, spec_cert_data_offset};
use crate::sgx_extension::{extract_fmspc_from_extension, spec_extract_fmspc};

verus! {

/// The platform identity that the PCK certificate `cert` gives: its FMSPC
/// in lower-case hexadecimal, the authority that issued it and the
/// issuer's Common Name. The issuer is settled before the FMSPC is read.
pub open spec fn spec_pck_identity(cert: CertificateView) -> Result<(Seq<char>, CA, Seq<char>), ExtractionErrorView> {
    match spec_classify_issuer(cert) {
        Err(e) => Err(e),
        Ok((ca, cn)) => match spec_extract_fmspc(cert) {
            Err(e) => Err(e),
            Ok(fmspc) => Ok((spec_hex_lower(fmspc), ca, cn)),
        },
    }
}

/// The platform identity that `quote` gives: that of the leaf of the
/// certificate chain which begins at the quote's certification data offset
/// and runs to the quote's end.
pub open spec fn spec_platform_identity(quote: Seq<u8>) -> Result<(Seq<char>, CA, Seq<char>), ExtractionErrorView> {
    match spec_cert_data_offset(quote) {
        None => Err(ExtractionErrorView::MalformedQuote),
        Some(offset) => match spec_decode_chain(quote.skip(offset)) {
            Err(e) => Err(e),
            Ok(chain) => spec_pck_identity(chain[0]),
        },
    }
}

/// A `Result` with a platform identity as contracts speak of it.
pub open spec fn identity_result_view(res: Result<(String, CA, String), ExtractionError>) -> Result<(Seq<char>, CA, Seq<char>), ExtractionErrorView> {
    match res {
        Ok((fmspc, ca, cn)) => Ok((fmspc@, ca, cn@)),
        Err(e) => Err(e@),
    }
}

/// The platform identity that the PCK certificate `cert` gives.
pub fn pck_identity(cert: &Certificate) -> (res: Result<(String, CA, String), ExtractionError>)
    ensures
        identity_result_view(res) == spec_pck_identity(cert@),
{
    let (ca, cn) = match classify_issuer(cert) {
        Ok(classified) => classified,
        Err(e) => {
            return Err(e);
        },
    };
    let fmspc = match extract_fmspc_from_extension(cert) {
        Ok(fmspc) => fmspc,
        Err(e) => {
            return Err(e);
        },
    };
    Ok((hex_encode(fmspc.as_slice()), ca, cn))
}

/// The FMSPC of the platform that `quote` attests, in lower-case
/// hexadecimal, with the authority that issued the quote's PCK certificate
/// and that issuer's Common Name.
///
/// A quote whose certification data would begin behind its end is
/// malformed, and no byte outside `quote` is read.
pub fn get_pck_fmspc_and_issuer(quote: &[u8]) -> (res: Result<(String, CA, String), ExtractionError>)
    ensures
        identity_result_view(res) == spec_platform_identity(quote@),
        spec_cert_data_offset(quote@) is None ==> res == Err::<(String, CA, String), ExtractionError>(
            ExtractionError::MalformedQuote,
        ),
        res is Ok ==> spec_cert_data_offset(quote@) is Some,
{
    let cert_data_offset = match get_cert_data_offset(quote) {
        Ok(offset) => offset,
        Err(e) => {
            return Err(e);
        },
    };
    let cert_data = slice_subrange(quote, cert_data_offset, quote.len());
    assert(cert_data@ =~= quote@.skip(cert_data_offset as int));
    let cert_chain = match decode_chain(cert_data) {
        Ok(chain) => chain,
        Err(e) => {
            return Err(e);
        },
    };
    pck_identity(&cert_chain[0])
}

} // verus!
