use vstd::prelude::*;

verus! {

/// One attribute of a distinguished name.
#[derive(Debug, PartialEq, Eq)]
pub struct NameAttribute {
    /// The attribute's type: the content bytes of its object identifier.
    pub oid: Vec<u8>,
    /// The attribute's value where it is text, `None` where it is of
    /// another kind.
    pub value: Option<String>,
}

/// One extension of a certificate.
#[derive(Debug, PartialEq, Eq)]
pub struct Extension {
    /// The extension's identifier: the content bytes of its object
    /// identifier.
    pub oid: Vec<u8>,
    /// The extension's value, still encoded.
    pub value: Vec<u8>,
}

/// What this library reads of a decoded X.509 certificate.
#[derive(Debug, PartialEq, Eq)]
pub struct Certificate {
    /// The attributes of the issuer's distinguished name, in the order in
    /// which the certificate holds them.
    pub issuer: Vec<NameAttribute>,
    /// The extensions, in the order in which the certificate holds them.
    pub extensions: Vec<Extension>,
}

/// A [`NameAttribute`] as contracts speak of it.
pub struct NameAttributeView {
    pub oid: Seq<u8>,
    pub value: Option<Seq<char>>,
}

/// An [`Extension`] as contracts speak of it.
pub struct ExtensionView {
    pub oid: Seq<u8>,
    pub value: Seq<u8>,
}

/// A [`Certificate`] as contracts speak of it.
pub struct CertificateView {
    pub issuer: Seq<NameAttributeView>,
    pub extensions: Seq<ExtensionView>,
}

impl View for NameAttribute {
    type V = NameAttributeView;

    open spec fn view(&self) -> NameAttributeView {
        NameAttributeView {
            oid: self.oid@,
            value: match self.value {
                Some(text) => Some(text@),
                None => None,
            },
        }
    }
}

impl View for Extension {
    type V = ExtensionView;

    open spec fn view(&self) -> ExtensionView {
        ExtensionView { oid: self.oid@, value: self.value@ }
    }
}

impl View for Certificate {
    type V = CertificateView;

    open spec fn view(&self) -> CertificateView {
        CertificateView {
            issuer: self.issuer@.map_values(|a: NameAttribute| a@),
            extensions: self.extensions@.map_values(|e: Extension| e@),
        }
    }
}

/// The views of the certificates of `chain`, in order.
pub open spec fn chain_view(chain: Seq<Certificate>) -> Seq<CertificateView> {
    chain.map_values(|c: Certificate| c@)
}

} // verus!
