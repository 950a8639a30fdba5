use dcap_attest::chain::{decode_chain, parse_certchain, parse_pem};
use dcap_attest::{get_pck_fmspc_and_issuer, Certificate, Extension, ExtractionError, NameAttribute, CA};

const COMMON_NAME: [u8; 3] = [0x55, 0x04, 0x03];
const ORGANIZATION: [u8; 3] = [0x55, 0x04, 0x0A];
const KEY_USAGE: [u8; 3] = [0x55, 0x1D, 0x0F];
const SGX_EXTENSION: [u8; 9] = [0x2A, 0x86, 0x48, 0x86, 0xF8, 0x4D, 0x01, 0x0D, 0x01];
const ECDSA_WITH_SHA256: [u8; 8] = [0x2A, 0x86, 0x48, 0xCE, 0x3D, 0x04, 0x03, 0x02];
const EC_PUBLIC_KEY: [u8; 7] = [0x2A, 0x86, 0x48, 0xCE, 0x3D, 0x02, 0x01];
const PRIME256V1: [u8; 8] = [0x2A, 0x86, 0x48, 0xCE, 0x3D, 0x03, 0x01, 0x07];

fn tlv(tag: u8, content: &[u8]) -> Vec<u8> {
    let mut out = vec![tag];
    let n = content.len();
    if n < 128 {
        out.push(n as u8);
    } else if n < 256 {
        out.push(0x81);
        out.push(n as u8);
    } else {
        out.push(0x82);
        out.push((n >> 8) as u8);
        out.push((n & 0xFF) as u8);
    }
    out.extend_from_slice(content);
    out
}

fn sequence(parts: &[Vec<u8>]) -> Vec<u8> {
    tlv(0x30, &parts.concat())
}

fn oid(content: &[u8]) -> Vec<u8> {
    tlv(0x06, content)
}

fn octet_string(bytes: &[u8]) -> Vec<u8> {
    tlv(0x04, bytes)
}

fn printable(text: &str) -> Vec<u8> {
    tlv(0x13, text.as_bytes())
}

fn utf8(text: &str) -> Vec<u8> {
    tlv(0x0C, text.as_bytes())
}

/// A distinguished name with one attribute in each of its sets.
fn name(attributes: &[(&[u8], Vec<u8>)]) -> Vec<u8> {
    let sets: Vec<Vec<u8>> = attributes
        .iter()
        .map(|(kind, value)| tlv(0x31, &sequence(&[oid(kind), value.clone()])))
        .collect();
    sequence(&sets)
}

fn sgx_entry(last: u8, value: Vec<u8>) -> Vec<u8> {
    let mut content = SGX_EXTENSION.to_vec();
    content.push(last);
    sequence(&[oid(&content), value])
}

fn sgx_value(fmspc: &[u8]) -> Vec<u8> {
    sequence(&[
        sgx_entry(1, octet_string(&[0x11; 16])),
        sgx_entry(2, sequence(&[sgx_entry(1, tlv(0x02, &[5])), sgx_entry(2, tlv(0x02, &[7]))])),
        sgx_entry(3, octet_string(&[0, 0])),
        sgx_entry(4, octet_string(fmspc)),
        sgx_entry(5, tlv(0x0A, &[0])),
    ])
}

fn extension(id: &[u8], value: &[u8]) -> Vec<u8> {
    sequence(&[oid(id), octet_string(value)])
}

fn key_usage() -> Vec<u8> {
    sequence(&[oid(&KEY_USAGE), tlv(0x01, &[0xFF]), octet_string(&[0x03, 0x02, 0x06, 0xC0])])
}

/// A certificate with the given issuer and extensions. Nobody signed it:
/// the signature is filler.
fn certificate_der(issuer: Vec<u8>, extensions: &[Vec<u8>]) -> Vec<u8> {
    let algorithm = sequence(&[oid(&ECDSA_WITH_SHA256)]);
    let mut point = vec![0x00, 0x04];
    point.extend_from_slice(&[0x42; 64]);
    let mut signature = vec![0x00];
    signature.extend_from_slice(&sequence(&[tlv(0x02, &[0x01]), tlv(0x02, &[0x02])]));
    let mut fields = vec![
        tlv(0xA0, &tlv(0x02, &[2])),
        tlv(0x02, &[0x01, 0x23, 0x45]),
        algorithm.clone(),
        issuer,
        sequence(&[tlv(0x17, b"240101000000Z"), tlv(0x17, b"340101000000Z")]),
        name(&[(&COMMON_NAME, printable("Intel SGX PCK Certificate"))]),
        sequence(&[sequence(&[oid(&EC_PUBLIC_KEY), oid(&PRIME256V1)]), tlv(0x03, &point)]),
    ];
    if !extensions.is_empty() {
        fields.push(tlv(0xA3, &sequence(extensions)));
    }
    sequence(&[sequence(&fields), algorithm, tlv(0x03, &signature)])
}

fn pck_issuer(cn: &str) -> Vec<u8> {
    name(&[
        (&COMMON_NAME, printable(cn)),
        (&ORGANIZATION, printable("Intel Corporation")),
    ])
}

fn pck_der(cn: &str, fmspc: &[u8]) -> Vec<u8> {
    certificate_der(pck_issuer(cn), &[key_usage(), extension(&SGX_EXTENSION, &sgx_value(fmspc))])
}

fn base64(data: &[u8]) -> String {
    let table = b"ABCDEFGHIJKLMNOPQRSTUVWXYZabcdefghijklmnopqrstuvwxyz0123456789+/";
    let mut out = String::new();
    for chunk in data.chunks(3) {
        let b0 = chunk[0] as usize;
        let b1 = if chunk.len() > 1 { chunk[1] as usize } else { 0 };
        let b2 = if chunk.len() > 2 { chunk[2] as usize } else { 0 };
        out.push(table[b0 >> 2] as char);
        out.push(table[((b0 & 3) << 4) | (b1 >> 4)] as char);
        out.push(if chunk.len() > 1 { table[((b1 & 15) << 2) | (b2 >> 6)] as char } else { '=' });
        out.push(if chunk.len() > 2 { table[b2 & 63] as char } else { '=' });
    }
    out
}

fn pem(der: &[u8]) -> Vec<u8> {
    let body = base64(der);
    let mut out = String::from("-----BEGIN CERTIFICATE-----\n");
    let mut at = 0;
    while at < body.len() {
        let end = usize::min(at + 64, body.len());
        out.push_str(&body[at..end]);
        out.push('\n');
        at = end;
    }
    out.push_str("-----END CERTIFICATE-----\n");
    out.into_bytes()
}

/// A quote: header, size field, authentication data of that size, six
/// bytes of trailer, then the certification data.
fn quote(auth_data_size: u16, cert_data: &[u8]) -> Vec<u8> {
    let mut out = vec![0x5Au8; 1012];
    out.extend_from_slice(&auth_data_size.to_le_bytes());
    out.extend_from_slice(&vec![0xA5u8; auth_data_size as usize]);
    out.extend_from_slice(&[5, 0, 0, 0, 0, 0]);
    out.extend_from_slice(cert_data);
    out
}

fn root_der() -> Vec<u8> {
    certificate_der(name(&[(&COMMON_NAME, printable("Intel SGX Root CA"))]), &[key_usage()])
}

fn chain_pem(leaf: &[u8]) -> Vec<u8> {
    let intermediate = certificate_der(name(&[(&COMMON_NAME, printable("Intel SGX Root CA"))]), &[key_usage()]);
    let mut out = pem(leaf);
    out.extend_from_slice(&pem(&intermediate));
    out.extend_from_slice(&pem(&root_der()));
    out.push(0);
    out
}

#[test]
fn base64_of_the_fixtures_is_standard() {
    assert_eq!(base64(b""), "");
    assert_eq!(base64(b"f"), "Zg==");
    assert_eq!(base64(b"fo"), "Zm8=");
    assert_eq!(base64(b"foobar"), "Zm9vYmFy");
}

#[test]
fn pem_bodies_are_decoded_in_order() {
    let first = pck_der("Intel SGX PCK Platform CA", &[1, 2, 3, 4, 5, 6]);
    let second = root_der();
    let mut data = pem(&first);
    data.extend_from_slice(&pem(&second));
    assert_eq!(parse_pem(&data), Ok(vec![first, second]));
}

#[test]
fn text_around_pem_blocks_is_skipped() {
    let der = root_der();
    let mut data = b"subject=whatever\n".to_vec();
    data.extend_from_slice(&pem(&der));
    data.extend_from_slice(b"trailing words\n\0");
    assert_eq!(parse_pem(&data), Ok(vec![der]));
}

#[test]
fn data_without_pem_block_has_no_bodies() {
    assert_eq!(parse_pem(b""), Ok(vec![]));
    assert_eq!(parse_pem(b"no armor here\n"), Ok(vec![]));
    assert_eq!(parse_pem(&[0, 0, 0]), Ok(vec![]));
}

#[test]
fn pem_label_is_not_looked_at() {
    let data = b"-----BEGIN ANYTHING-----\nAQID\n-----END ANYTHING-----\n";
    assert_eq!(parse_pem(data), Ok(vec![vec![1, 2, 3]]));
}

#[test]
fn broken_base64_is_a_decode_error() {
    let data = b"-----BEGIN CERTIFICATE-----\n!!!not base64!!!\n-----END CERTIFICATE-----\n";
    assert_eq!(parse_pem(data), Err(ExtractionError::CertificateDecodeError));
}

#[test]
fn pem_block_without_end_is_a_decode_error() {
    let data = b"-----BEGIN CERTIFICATE-----\nAQID\n";
    assert_eq!(parse_pem(data), Err(ExtractionError::CertificateDecodeError));
}

#[test]
fn broken_block_behind_a_good_one_is_a_decode_error() {
    let mut data = pem(&root_der());
    data.extend_from_slice(b"-----BEGIN CERTIFICATE-----\nAQID\n");
    assert_eq!(parse_pem(&data), Err(ExtractionError::CertificateDecodeError));
}

#[test]
fn certificate_is_read_into_plain_values() {
    let der = certificate_der(
        name(&[
            (&ORGANIZATION, utf8("Intel Corporation")),
            (&COMMON_NAME, printable("Intel SGX PCK Platform CA")),
            (&COMMON_NAME, octet_string(&[1, 2])),
        ]),
        &[key_usage(), extension(&SGX_EXTENSION, &[0x30, 0x00])],
    );
    let expected = Certificate {
        issuer: vec![
            NameAttribute { oid: ORGANIZATION.to_vec(), value: Some("Intel Corporation".to_string()) },
            NameAttribute { oid: COMMON_NAME.to_vec(), value: Some("Intel SGX PCK Platform CA".to_string()) },
            NameAttribute { oid: COMMON_NAME.to_vec(), value: None },
        ],
        extensions: vec![
            Extension { oid: KEY_USAGE.to_vec(), value: vec![0x03, 0x02, 0x06, 0xC0] },
            Extension { oid: SGX_EXTENSION.to_vec(), value: vec![0x30, 0x00] },
        ],
    };
    assert_eq!(parse_certchain(&[der]), Ok(vec![expected]));
}

#[test]
fn certificate_without_extensions() {
    let der = certificate_der(pck_issuer("Intel SGX PCK Platform CA"), &[]);
    let chain = parse_certchain(&[der]).unwrap();
    assert_eq!(chain.len(), 1);
    assert!(chain[0].extensions.is_empty());
    assert_eq!(chain[0].issuer.len(), 2);
}

#[test]
fn no_bodies_make_no_certificates() {
    assert_eq!(parse_certchain(&[]), Ok(vec![]));
}

#[test]
fn body_that_is_no_certificate_is_a_decode_error() {
    assert_eq!(parse_certchain(&[vec![1, 2, 3]]), Err(ExtractionError::CertificateDecodeError));
    assert_eq!(parse_certchain(&[vec![]]), Err(ExtractionError::CertificateDecodeError));
    let good = root_der();
    let cut = good[..good.len() - 10].to_vec();
    assert_eq!(parse_certchain(&[good, cut]), Err(ExtractionError::CertificateDecodeError));
}

#[test]
fn chain_keeps_the_order_of_the_blocks() {
    let leaf = pck_der("Intel SGX PCK Processor CA", &[0, 0, 0, 0, 0, 1]);
    let chain = decode_chain(&chain_pem(&leaf)).unwrap();
    assert_eq!(chain.len(), 3);
    assert_eq!(chain[0].issuer[0].value, Some("Intel SGX PCK Processor CA".to_string()));
    assert_eq!(chain[0].extensions.len(), 2);
    assert_eq!(chain[1].issuer[0].value, Some("Intel SGX Root CA".to_string()));
    assert_eq!(chain[2].extensions.len(), 1);
}

#[test]
fn data_without_certificate_is_an_empty_chain() {
    assert_eq!(decode_chain(b""), Err(ExtractionError::EmptyChain));
    assert_eq!(decode_chain(b"\0"), Err(ExtractionError::EmptyChain));
    assert_eq!(decode_chain(b"just text\n"), Err(ExtractionError::EmptyChain));
}

#[test]
fn chain_with_a_broken_certificate() {
    let mut data = pem(&root_der());
    data.extend_from_slice(&pem(&[0x30, 0x03, 0x01, 0x01, 0x00]));
    assert_eq!(decode_chain(&data), Err(ExtractionError::CertificateDecodeError));
}

#[test]
fn quote_with_offset_behind_its_end_is_malformed() {
    let whole = quote(64, &chain_pem(&pck_der("Intel SGX PCK Platform CA", &[1, 2, 3, 4, 5, 6])));
    for len in [0, 1, 1012, 1013, 1014, 1020, 1012 + 2 + 64 + 5] {
        assert_eq!(get_pck_fmspc_and_issuer(&whole[..len]), Err(ExtractionError::MalformedQuote));
    }
    let mut declared_too_much = quote(0, b"");
    declared_too_much[1012] = 1;
    assert_eq!(get_pck_fmspc_and_issuer(&declared_too_much), Err(ExtractionError::MalformedQuote));
    let mut largest = vec![0xFFu8; 1014];
    largest.extend_from_slice(&[0; 1000]);
    assert_eq!(get_pck_fmspc_and_issuer(&largest), Err(ExtractionError::MalformedQuote));
}

#[test]
fn quote_that_ends_at_its_offset_has_an_empty_chain() {
    assert_eq!(get_pck_fmspc_and_issuer(&quote(16, b"")), Err(ExtractionError::EmptyChain));
}

#[test]
fn platform_issuer_gives_platform() {
    let q = quote(32, &chain_pem(&pck_der("Intel SGX PCK Platform CA", &[0xAA, 0xBB, 0xCC, 0xDD, 0xEE, 0xFF])));
    assert_eq!(
        get_pck_fmspc_and_issuer(&q),
        Ok(("aabbccddeeff".to_string(), CA::Platform, "Intel SGX PCK Platform CA".to_string()))
    );
}

#[test]
fn processor_issuer_gives_processor() {
    let q = quote(32, &chain_pem(&pck_der("Intel SGX PCK Processor CA", &[0xAA, 0xBB, 0xCC, 0xDD, 0xEE, 0xFF])));
    assert_eq!(
        get_pck_fmspc_and_issuer(&q),
        Ok(("aabbccddeeff".to_string(), CA::Processor, "Intel SGX PCK Processor CA".to_string()))
    );
}

#[test]
fn other_issuer_is_unknown() {
    let q = quote(32, &chain_pem(&pck_der("Intel SGX Root CA", &[0xAA, 0xBB, 0xCC, 0xDD, 0xEE, 0xFF])));
    assert_eq!(get_pck_fmspc_and_issuer(&q), Err(ExtractionError::UnknownIssuer("Intel SGX Root CA".to_string())));
}

#[test]
fn issuer_without_common_name_is_reported() {
    let leaf = certificate_der(
        name(&[(&ORGANIZATION, printable("Intel Corporation"))]),
        &[extension(&SGX_EXTENSION, &sgx_value(&[1, 2, 3, 4, 5, 6]))],
    );
    assert_eq!(get_pck_fmspc_and_issuer(&quote(8, &pem(&leaf))), Err(ExtractionError::MissingIssuerCN));
}

#[test]
fn only_the_leaf_is_looked_at() {
    // The leaf comes first: a chain that begins with the root has an
    // issuer that is no PCK authority.
    let mut data = pem(&root_der());
    data.extend_from_slice(&pem(&pck_der("Intel SGX PCK Platform CA", &[1, 2, 3, 4, 5, 6])));
    assert_eq!(
        get_pck_fmspc_and_issuer(&quote(8, &data)),
        Err(ExtractionError::UnknownIssuer("Intel SGX Root CA".to_string()))
    );
}

#[test]
fn fmspc_of_five_bytes_is_invalid() {
    let q = quote(32, &chain_pem(&pck_der("Intel SGX PCK Platform CA", &[0xAA, 0xBB, 0xCC, 0xDD, 0xEE])));
    assert_eq!(get_pck_fmspc_and_issuer(&q), Err(ExtractionError::InvalidFmspcLength));
}

#[test]
fn leaf_without_sgx_extension() {
    let leaf = certificate_der(pck_issuer("Intel SGX PCK Platform CA"), &[key_usage()]);
    assert_eq!(get_pck_fmspc_and_issuer(&quote(32, &chain_pem(&leaf))), Err(ExtractionError::ExtensionNotFound));
    let bare = certificate_der(pck_issuer("Intel SGX PCK Platform CA"), &[]);
    assert_eq!(get_pck_fmspc_and_issuer(&quote(32, &chain_pem(&bare))), Err(ExtractionError::ExtensionNotFound));
}

#[test]
fn sgx_extension_without_fmspc_entry() {
    let value = sequence(&[sgx_entry(1, octet_string(&[0x11; 16])), sgx_entry(3, octet_string(&[0, 0]))]);
    let leaf = certificate_der(pck_issuer("Intel SGX PCK Platform CA"), &[extension(&SGX_EXTENSION, &value)]);
    assert_eq!(get_pck_fmspc_and_issuer(&quote(32, &chain_pem(&leaf))), Err(ExtractionError::FmspcNotFound));
}

#[test]
fn broken_leaf_is_a_decode_error() {
    let mut leaf = pck_der("Intel SGX PCK Platform CA", &[1, 2, 3, 4, 5, 6]);
    leaf.truncate(leaf.len() / 2);
    assert_eq!(get_pck_fmspc_and_issuer(&quote(32, &chain_pem(&leaf))), Err(ExtractionError::CertificateDecodeError));
}

#[test]
fn extraction_is_the_same_each_time() {
    let q = quote(100, &chain_pem(&pck_der("Intel SGX PCK Platform CA", &[0x00, 0x90, 0x6E, 0x0A, 0x0F, 0x01])));
    let first = get_pck_fmspc_and_issuer(&q);
    let second = get_pck_fmspc_and_issuer(&q);
    assert_eq!(first, second);
    assert_eq!(first, Ok(("00906e0a0f01".to_string(), CA::Platform, "Intel SGX PCK Platform CA".to_string())));
    let broken = &q[..1500];
    assert_eq!(get_pck_fmspc_and_issuer(broken), get_pck_fmspc_and_issuer(broken));
}

#[test]
fn quote_with_one_processor_certificate() {
    for size in [0u16, 32, 576] {
        let q = quote(size, &pem(&pck_der("Intel SGX PCK Processor CA", &[0, 0, 0, 0, 0, 1])));
        assert_eq!(
            get_pck_fmspc_and_issuer(&q),
            Ok(("000000000001".to_string(), CA::Processor, "Intel SGX PCK Processor CA".to_string()))
        );
    }
}
