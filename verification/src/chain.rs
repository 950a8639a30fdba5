use vstd::prelude::*;

use crate::certificate::{chain_view, Certificate, CertificateView};
use crate::decode::{blocks_view, pem_decode, spec_pem_decode, spec_x509_decode, x509_decode};
use crate::error::{ExtractionError, ExtractionErrorView};

verus! {

/// The bodies of the PEM blocks of `data`, in order; an error where a block
/// is broken.
pub open spec fn spec_parse_pem(data: Seq<u8>) -> Result<Seq<Seq<u8>>, ExtractionErrorView> {
    match spec_pem_decode(data) {
        Some(blocks) => Ok(blocks),
        None => Err(ExtractionErrorView::CertificateDecodeError),
    }
}

/// Whether each of `blocks` decodes as a certificate.
pub open spec fn spec_all_decode(blocks: Seq<Seq<u8>>) -> bool {
    forall|i: int| 0 <= i < blocks.len() ==> (#[trigger] spec_x509_decode(blocks[i])) is Some
}

/// The certificates that `blocks` encode, in the same order; an error
/// where one of them is no certificate.
pub open spec fn spec_parse_certchain(blocks: Seq<Seq<u8>>) -> Result<Seq<CertificateView>, ExtractionErrorView> {
    if spec_all_decode(blocks) {
        Ok(blocks.map_values(|der: Seq<u8>| spec_x509_decode(der).unwrap()))
    } else {
        Err(ExtractionErrorView::CertificateDecodeError)
    }
}

/// The certificate chain in the certification data `cert_data`, the leaf
/// first: every PEM block decoded. An error where a block or a certificate
/// is broken, another where there is no block at all.
pub open spec fn spec_decode_chain(cert_data: Seq<u8>) -> Result<Seq<CertificateView>, ExtractionErrorView> {
    match spec_parse_pem(cert_data) {
        Err(e) => Err(e),
        Ok(blocks) => match spec_parse_certchain(blocks) {
            Err(e) => Err(e),
            Ok(chain) => if chain.len() == 0 {
                Err(ExtractionErrorView::EmptyChain)
            } else {
                Ok(chain)
            },
        },
    }
}

/// A `Result` with PEM bodies as contracts speak of it.
pub open spec fn blocks_result_view(res: Result<Vec<Vec<u8>>, ExtractionError>) -> Result<Seq<Seq<u8>>, ExtractionErrorView> {
    match res {
        Ok(blocks) => Ok(blocks_view(blocks@)),
        Err(e) => Err(e@),
    }
}

/// A `Result` with a certificate chain as contracts speak of it.
pub open spec fn chain_result_view(res: Result<Vec<Certificate>, ExtractionError>) -> Result<Seq<CertificateView>, ExtractionErrorView> {
    match res {
        Ok(chain) => Ok(chain_view(chain@)),
        Err(e) => Err(e@),
    }
}

/// The decoded bodies of the PEM blocks of `raw_bytes`, in order.
pub fn parse_pem(raw_bytes: &[u8]) -> (res: Result<Vec<Vec<u8>>, ExtractionError>)
    ensures
        blocks_result_view(res) == spec_parse_pem(raw_bytes@),
{
    match pem_decode(raw_bytes) {
        Ok(blocks) => Ok(blocks),
        Err(_) => Err(ExtractionError::CertificateDecodeError),
    }
}

/// The certificates that the PEM bodies `pem_certs` encode, in the same
/// order.
pub fn parse_certchain(pem_certs: &[Vec<u8>]) -> (res: Result<Vec<Certificate>, ExtractionError>)
    ensures
        chain_result_view(res) == spec_parse_certchain(blocks_view(pem_certs@)),
{
    let ghost blocks = blocks_view(pem_certs@);
    let mut chain: Vec<Certificate> = Vec::new();
    let mut i: usize = 0;
    while i < pem_certs.len()
        invariant
            i <= pem_certs@.len(),
            blocks == blocks_view(pem_certs@),
            chain@.len() == i,
            forall|k: int| 0 <= k < i ==> (#[trigger] spec_x509_decode(blocks[k])) == Some(chain@[k]@),
        decreases pem_certs@.len() - i,
    {
        assert(blocks[i as int] == pem_certs@[i as int]@);
        match x509_decode(pem_certs[i].as_slice()) {
            Some(cert) => {
                chain.push(cert);
            },
            None => {
                assert(spec_x509_decode(blocks[i as int]) is None);
                return Err(ExtractionError::CertificateDecodeError);
            },
        }
        i += 1;
    }
    assert(spec_all_decode(blocks));
    assert(chain_view(chain@) =~= blocks.map_values(|der: Seq<u8>| spec_x509_decode(der).unwrap()));
    Ok(chain)
}

/// The certificate chain that the certification data `cert_data` holds, the
/// leaf first.
pub fn decode_chain(cert_data: &[u8]) -> (res: Result<Vec<Certificate>, ExtractionError>)
    ensures
        chain_result_view(res) == spec_decode_chain(cert_data@),
        res matches Ok(chain) ==> chain@.len() > 0,
{
    let blocks = match parse_pem(cert_data) {
        Ok(blocks) => blocks,
        Err(e) => {
            return Err(e);
        },
    };
    let chain = match parse_certchain(blocks.as_slice()) {
        Ok(chain) => chain,
        Err(e) => {
            return Err(e);
        },
    };
    if chain.len() == 0 {
        Err(ExtractionError::EmptyChain)
    } else {
        Ok(chain)
    }
}

} // verus!
