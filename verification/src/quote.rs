use vstd::prelude::*;

use crate::error::ExtractionError;

verus! {

/// Where the size of the QE authentication data stands in a quote.
pub const QE_AUTH_DATA_SIZE_OFFSET: usize = 1012;

/// The size of the QE authentication data that `quote` declares: the two
/// bytes at [`QE_AUTH_DATA_SIZE_OFFSET`], the low byte first.
pub open spec fn spec_auth_data_size(quote: Seq<u8>) -> int
    recommends
        quote.len() >= QE_AUTH_DATA_SIZE_OFFSET + 2,
{
    quote[QE_AUTH_DATA_SIZE_OFFSET as int] as int + 256 * (quote[QE_AUTH_DATA_SIZE_OFFSET + 1] as int)
}

/// Where the certificate chain of `quote` begins: behind the size field, the
/// authentication data, a field of two bytes and one of four. `None` where
/// the quote is too short for the size field or for that offset.
pub open spec fn spec_cert_data_offset(quote: Seq<u8>) -> Option<int> {
    if quote.len() < QE_AUTH_DATA_SIZE_OFFSET + 2 {
        None
    } else {
        let offset = QE_AUTH_DATA_SIZE_OFFSET + 2 + spec_auth_data_size(quote) + 2 + 4;
        if offset > quote.len() {
            None
        } else {
            Some(offset)
        }
    }
}

/// The offset in `quote` at which its certificate chain begins.
pub fn get_cert_data_offset(quote: &[u8]) -> (res: Result<usize, ExtractionError>)
    ensures
        match spec_cert_data_offset(quote@) {
            Some(offset) => res == Ok::<usize, ExtractionError>(offset as usize),
            None => res == Err::<usize, ExtractionError>(ExtractionError::MalformedQuote),
        },
        res matches Ok(offset) ==> offset <= quote@.len(),
{
    if quote.len() < QE_AUTH_DATA_SIZE_OFFSET + 2 {
        return Err(ExtractionError::MalformedQuote);
    }
    let low: usize = quote[QE_AUTH_DATA_SIZE_OFFSET] as usize;
    let high: usize = quote[QE_AUTH_DATA_SIZE_OFFSET + 1] as usize;
    let auth_data_size: usize = low + 256 * high;
    let offset: usize = QE_AUTH_DATA_SIZE_OFFSET + 2 + auth_data_size + 2 + 4;
    if offset > quote.len() {
        Err(ExtractionError::MalformedQuote)
    } else {
        Ok(offset)
    }
}

} // verus!
