use vstd::prelude::*;

use crate::bytes::bytes_eq;
use crate::certificate::{Certificate, CertificateView, NameAttribute, NameAttributeView};
use crate::error::{ExtractionError, ExtractionErrorView};

verus! {

/// The authority that issued a PCK certificate.
#[derive(Clone, Copy, Debug, PartialEq, Eq, Structural)]
pub enum CA {
    Platform,
    Processor,
}

/// The content bytes of the object identifier 2.5.4.3, Common Name.
pub open spec fn spec_common_name_oid() -> Seq<u8> {
    seq![0x55u8, 0x04u8, 0x03u8]
}

/// The Common Name of the issuer that makes a certificate a Platform one.
pub open spec fn spec_platform_cn() -> Seq<char> {
    "Intel SGX PCK Platform CA"@
}

/// The Common Name of the issuer that makes a certificate a Processor one.
pub open spec fn spec_processor_cn() -> Seq<char> {
    "Intel SGX PCK Processor CA"@
}

/// The Common Name attributes of `issuer`, in order.
pub open spec fn spec_common_names(issuer: Seq<NameAttributeView>) -> Seq<NameAttributeView> {
    issuer.filter(|a: NameAttributeView| a.oid == spec_common_name_oid())
}

/// The text of the first Common Name of the issuer of `cert`; an error
/// where the issuer has none, or where the first one is not text.
pub open spec fn spec_issuer_cn(cert: CertificateView) -> Result<Seq<char>, ExtractionErrorView> {
    let names = spec_common_names(cert.issuer);
    if names.len() == 0 {
        Err(ExtractionErrorView::MissingIssuerCN)
    } else {
        match names[0].value {
            Some(text) => Ok(text),
            None => Err(ExtractionErrorView::MissingIssuerCN),
        }
    }
}

/// The authority with the Common Name `cn`; for any other name than the
/// two known ones an error that carries the name.
pub open spec fn spec_ca_of_cn(cn: Seq<char>) -> Result<CA, ExtractionErrorView> {
    if cn == spec_platform_cn() {
        Ok(CA::Platform)
    } else if cn == spec_processor_cn() {
        Ok(CA::Processor)
    } else {
        Err(ExtractionErrorView::UnknownIssuer(cn))
    }
}

/// The authority that issued `cert` and the issuer's Common Name.
pub open spec fn spec_classify_issuer(cert: CertificateView) -> Result<(CA, Seq<char>), ExtractionErrorView> {
    match spec_issuer_cn(cert) {
        Err(e) => Err(e),
        Ok(cn) => match spec_ca_of_cn(cn) {
            Err(e) => Err(e),
            Ok(ca) => Ok((ca, cn)),
        },
    }
}

/// A `Result` with text as contracts speak of it.
pub open spec fn text_result_view(res: Result<String, ExtractionError>) -> Result<Seq<char>, ExtractionErrorView> {
    match res {
        Ok(text) => Ok(text@),
        Err(e) => Err(e@),
    }
}

/// A `Result` with an authority as contracts speak of it.
pub open spec fn ca_result_view(res: Result<CA, ExtractionError>) -> Result<CA, ExtractionErrorView> {
    match res {
        Ok(ca) => Ok(ca),
        Err(e) => Err(e@),
    }
}

/// A `Result` with an authority and a name as contracts speak of it.
pub open spec fn classified_result_view(res: Result<(CA, String), ExtractionError>) -> Result<(CA, Seq<char>), ExtractionErrorView> {
    match res {
        Ok((ca, cn)) => Ok((ca, cn@)),
        Err(e) => Err(e@),
    }
}

/// The Common Name of the issuer of `cert`: the text of the first
/// attribute of the issuer's name whose type is Common Name.
pub fn get_x509_issuer_cn(cert: &Certificate) -> (res: Result<String, ExtractionError>)
    ensures
        text_result_view(res) == spec_issuer_cn(cert@),
{
    let oid: [u8; 3] = [0x55, 0x04, 0x03];
    let ghost is_cn = |a: NameAttributeView| a.oid == spec_common_name_oid();
    let ghost issuer = cert@.issuer;
    assert(oid@ =~= spec_common_name_oid());
    let mut i: usize = 0;
    while i < cert.issuer.len()
        invariant
            i <= cert.issuer@.len(),
            issuer == cert@.issuer,
            issuer.len() == cert.issuer@.len(),
            oid@ == spec_common_name_oid(),
            is_cn == |a: NameAttributeView| a.oid == spec_common_name_oid(),
            issuer.take(i as int).filter(is_cn).len() == 0,
        decreases cert.issuer@.len() - i,
    {
        let attribute: &NameAttribute = &cert.issuer[i];
        assert(issuer[i as int] == attribute@);
        proof {
            assert(issuer.take(i + 1).drop_last() =~= issuer.take(i as int));
            assert(issuer.take(i + 1).last() == issuer[i as int]);
            reveal(Seq::filter);
        }
        if bytes_eq(attribute.oid.as_slice(), oid.as_slice()) {
            proof {
                assert(issuer.take(i + 1).filter(is_cn) =~= seq![issuer[i as int]]);
                assert(issuer =~= issuer.take(i + 1) + issuer.skip(i + 1));
                Seq::filter_distributes_over_add(issuer.take(i + 1), issuer.skip(i + 1), is_cn);
                assert(issuer.filter(is_cn)[0] == issuer[i as int]);
            }
            return match &attribute.value {
                Some(text) => Ok(text.clone()),
                None => Err(ExtractionError::MissingIssuerCN),
            };
        }
        i += 1;
    }
    assert(issuer.take(i as int) =~= issuer);
    Err(ExtractionError::MissingIssuerCN)
}

/// The authority whose Common Name is `cn`.
pub fn ca_of_common_name(cn: &String) -> (res: Result<CA, ExtractionError>)
    ensures
        ca_result_view(res) == spec_ca_of_cn(cn@),
{
    let platform: String = "Intel SGX PCK Platform CA".to_owned();
    let processor: String = "Intel SGX PCK Processor CA".to_owned();
    if *cn == platform {
        Ok(CA::Platform)
    } else if *cn == processor {
        Ok(CA::Processor)
    } else {
        Err(ExtractionError::UnknownIssuer(cn.clone()))
    }
}

/// The authority that issued `cert`, with the issuer's Common Name.
pub fn classify_issuer(cert: &Certificate) -> (res: Result<(CA, String), ExtractionError>)
    ensures
        classified_result_view(res) == spec_classify_issuer(cert@),
{
    match get_x509_issuer_cn(cert) {
        Err(e) => Err(e),
        Ok(cn) => match ca_of_common_name(&cn) {
            Err(e) => Err(e),
            Ok(ca) => Ok((ca, cn)),
        },
    }
}

} // verus!
