use vstd::prelude::*;
use vstd::slice::slice_to_vec;

use crate::bytes::bytes_eq;
use crate::certificate::{Certificate, CertificateView, Extension, ExtensionView};
use crate::decode::{
    der_octet_string, der_oid, der_sequence, oid_id_string, spec_der_octet_string, spec_der_oid,
    spec_der_sequence, spec_oid_id_string,
};
use crate::error::{ExtractionError, ExtractionErrorView};

verus! {

/// The content bytes of the object identifier 1.2.840.113741.1.13.1, the
/// SGX extension of a PCK certificate.
pub open spec fn spec_sgx_extension_oid() -> Seq<u8> {
    seq![0x2Au8, 0x86u8, 0x48u8, 0x86u8, 0xF8u8, 0x4Du8, 0x01u8, 0x0Du8, 0x01u8]
}

/// The object identifier of the FMSPC entry, as text.
pub open spec fn spec_fmspc_id() -> Seq<char> {
    "1.2.840.113741.1.13.1.4"@
}

/// The extensions among `extensions` whose identifier is `oid`, in order.
pub open spec fn spec_extensions_with(extensions: Seq<ExtensionView>, oid: Seq<u8>) -> Seq<ExtensionView> {
    extensions.filter(|e: ExtensionView| e.oid == oid)
}

/// The value of the one extension among `extensions` whose identifier is
/// `oid`; an error where there is none, another where there are several.
pub open spec fn spec_unique_extension(extensions: Seq<ExtensionView>, oid: Seq<u8>) -> Result<Seq<u8>, ExtractionErrorView> {
    let found = spec_extensions_with(extensions, oid);
    if found.len() == 0 {
        Err(ExtractionErrorView::ExtensionNotFound)
    } else if found.len() > 1 {
        Err(ExtractionErrorView::DuplicateExtension)
    } else {
        Ok(found[0].value)
    }
}

/// The FMSPC that the value of an FMSPC entry gives, `decoded` being what
/// the octet-string decoder made of that value: the string's bytes where
/// they are six and nothing follows the string.
pub open spec fn spec_fmspc_of_octets(decoded: Option<(Seq<u8>, Seq<u8>)>) -> Result<Seq<u8>, ExtractionErrorView> {
    match decoded {
        Some((bytes, rest)) => if bytes.len() == 6 && rest.len() == 0 {
            Ok(bytes)
        } else {
            Err(ExtractionErrorView::InvalidFmspcLength)
        },
        None => Err(ExtractionErrorView::InvalidFmspcLength),
    }
}

/// The outcome of walking the entries encoded back to back in `entries`,
/// from the first on: each is a SEQUENCE that begins with an object
/// identifier. The walk stops at the first entry whose identifier is the
/// FMSPC one and reads that entry's value; it fails where an entry cannot be
/// decoded, and where the entries end. Each step leaves fewer bytes to walk,
/// as the decoder consumes what it decodes; the definition ends the walk
/// should it ever not.
pub open spec fn spec_walk_entries(entries: Seq<u8>) -> Result<Seq<u8>, ExtractionErrorView>
    decreases entries.len(),
{
    if entries.len() == 0 {
        Err(ExtractionErrorView::FmspcNotFound)
    } else {
        match spec_der_sequence(entries) {
            None => Err(ExtractionErrorView::FmspcNotFound),
            Some((entry, rest)) => match spec_der_oid(entry) {
                None => Err(ExtractionErrorView::FmspcNotFound),
                Some((oid, value)) => if spec_oid_id_string(oid) == spec_fmspc_id() {
                    spec_fmspc_of_octets(spec_der_octet_string(value))
                } else if rest.len() < entries.len() {
                    spec_walk_entries(rest)
                } else {
                    Err(ExtractionErrorView::FmspcNotFound)
                },
            },
        }
    }
}

/// The FMSPC that the SGX extension value `value` holds: the value is a
/// SEQUENCE, and its content is walked entry by entry.
pub open spec fn spec_fmspc_of_extension(value: Seq<u8>) -> Result<Seq<u8>, ExtractionErrorView> {
    match spec_der_sequence(value) {
        None => Err(ExtractionErrorView::FmspcNotFound),
        Some((entries, _)) => spec_walk_entries(entries),
    }
}

/// The FMSPC of `cert`: read from its one SGX extension.
pub open spec fn spec_extract_fmspc(cert: CertificateView) -> Result<Seq<u8>, ExtractionErrorView> {
    match spec_unique_extension(cert.extensions, spec_sgx_extension_oid()) {
        Err(e) => Err(e),
        Ok(value) => spec_fmspc_of_extension(value),
    }
}

/// A `Result` with borrowed bytes as contracts speak of it.
pub open spec fn slice_result_view(res: Result<&[u8], ExtractionError>) -> Result<Seq<u8>, ExtractionErrorView> {
    match res {
        Ok(bytes) => Ok(bytes@),
        Err(e) => Err(e@),
    }
}

/// A `Result` with an FMSPC as contracts speak of it.
pub open spec fn fmspc_result_view(res: Result<[u8; 6], ExtractionError>) -> Result<Seq<u8>, ExtractionErrorView> {
    match res {
        Ok(fmspc) => Ok(fmspc@),
        Err(e) => Err(e@),
    }
}

/// What a decoder made of its input, as contracts speak of it.
pub open spec fn decoded_view(decoded: Option<(Vec<u8>, Vec<u8>)>) -> Option<(Seq<u8>, Seq<u8>)> {
    match decoded {
        Some((head, rest)) => Some((head@, rest@)),
        None => None,
    }
}

/// The value of the extension of `cert` whose identifier is `oid`, where
/// `cert` has exactly one such extension.
pub fn get_extension_unique<'a>(cert: &'a Certificate, oid: &[u8]) -> (res: Result<&'a [u8], ExtractionError>)
    ensures
        slice_result_view(res) == spec_unique_extension(cert@.extensions, oid@),
{
    let ghost has_oid = |e: ExtensionView| e.oid == oid@;
    let ghost extensions = cert@.extensions;
    let mut found: Option<usize> = None;
    let mut i: usize = 0;
    while i < cert.extensions.len()
        invariant
            i <= cert.extensions@.len(),
            extensions == cert@.extensions,
            extensions.len() == cert.extensions@.len(),
            has_oid == |e: ExtensionView| e.oid == oid@,
            match found {
                None => extensions.take(i as int).filter(has_oid).len() == 0,
                Some(j) => j < i && extensions.take(i as int).filter(has_oid) == seq![extensions[j as int]],
            },
        decreases cert.extensions@.len() - i,
    {
        let extension: &Extension = &cert.extensions[i];
        assert(extensions[i as int] == extension@);
        proof {
            assert(extensions.take(i + 1).drop_last() =~= extensions.take(i as int));
            assert(extensions.take(i + 1).last() == extensions[i as int]);
            reveal(Seq::filter);
        }
        if bytes_eq(extension.oid.as_slice(), oid) {
            if found.is_some() {
                proof {
                    assert(extensions =~= extensions.take(i + 1) + extensions.skip(i + 1));
                    Seq::filter_distributes_over_add(extensions.take(i + 1), extensions.skip(i + 1), has_oid);
                    assert(extensions.take(i + 1).filter(has_oid).len() == 2);
                }
                return Err(ExtractionError::DuplicateExtension);
            }
            found = Some(i);
        }
        i += 1;
    }
    assert(extensions.take(i as int) =~= extensions);
    match found {
        None => Err(ExtractionError::ExtensionNotFound),
        Some(j) => {
            assert(extensions[j as int] == cert.extensions@[j as int]@);
            Ok(cert.extensions[j].value.as_slice())
        },
    }
}

/// Whether `id` is the object identifier of the FMSPC entry.
pub fn is_fmspc_id(id: &String) -> (yes: bool)
    ensures
        yes == (id@ == spec_fmspc_id()),
{
    let fmspc: String = "1.2.840.113741.1.13.1.4".to_owned();
    *id == fmspc
}

/// The FMSPC in the value of an FMSPC entry, from what the octet-string
/// decoder made of that value.
pub fn fmspc_from_octets(decoded: Option<(Vec<u8>, Vec<u8>)>) -> (res: Result<[u8; 6], ExtractionError>)
    ensures
        fmspc_result_view(res) == spec_fmspc_of_octets(decoded_view(decoded)),
{
    match decoded {
        Some((bytes, rest)) => {
            if bytes.len() == 6 && rest.len() == 0 {
                let fmspc: [u8; 6] = [bytes[0], bytes[1], bytes[2], bytes[3], bytes[4], bytes[5]];
                assert(fmspc@ =~= bytes@);
                Ok(fmspc)
            } else {
                Err(ExtractionError::InvalidFmspcLength)
            }
        },
        None => Err(ExtractionError::InvalidFmspcLength),
    }
}

/// The FMSPC among the entries encoded back to back in `entries`: one pass
/// from the first entry on, which ends at the FMSPC entry, at an entry that
/// cannot be decoded, or with the bytes.
pub fn walk_entries(entries: &[u8]) -> (res: Result<[u8; 6], ExtractionError>)
    ensures
        fmspc_result_view(res) == spec_walk_entries(entries@),
{
    let mut remaining: Vec<u8> = slice_to_vec(entries);
    while remaining.len() > 0
        invariant
            spec_walk_entries(remaining@) == spec_walk_entries(entries@),
        decreases remaining@.len(),
    {
        let (entry, rest) = match der_sequence(remaining.as_slice()) {
            Some(parts) => parts,
            None => {
                return Err(ExtractionError::FmspcNotFound);
            },
        };
        let (oid, value) = match der_oid(entry.as_slice()) {
            Some(parts) => parts,
            None => {
                return Err(ExtractionError::FmspcNotFound);
            },
        };
        let id = oid_id_string(oid.as_slice());
        if is_fmspc_id(&id) {
            return fmspc_from_octets(der_octet_string(value.as_slice()));
        }
        remaining = rest;
    }
    Err(ExtractionError::FmspcNotFound)
}

/// The FMSPC that the value `value` of an SGX extension holds.
pub fn fmspc_from_extension_value(value: &[u8]) -> (res: Result<[u8; 6], ExtractionError>)
    ensures
        fmspc_result_view(res) == spec_fmspc_of_extension(value@),
{
    match der_sequence(value) {
        Some((entries, _)) => walk_entries(entries.as_slice()),
        None => Err(ExtractionError::FmspcNotFound),
    }
}

/// The FMSPC of the certificate `cert`, from its SGX extension.
pub fn extract_fmspc_from_extension(cert: &Certificate) -> (res: Result<[u8; 6], ExtractionError>)
    ensures
        fmspc_result_view(res) == spec_extract_fmspc(cert@),
{
    let oid: [u8; 9] = [0x2A, 0x86, 0x48, 0x86, 0xF8, 0x4D, 0x01, 0x0D, 0x01];
    assert(oid@ =~= spec_sgx_extension_oid());
    match get_extension_unique(cert, oid.as_slice()) {
        Err(e) => Err(e),
        Ok(value) => fmspc_from_extension_value(value),
    }
}

} // verus!
