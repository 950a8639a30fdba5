use vstd::prelude::*;

verus! {

/// Why no platform identity could be read from a quote.
#[derive(Debug, PartialEq, Eq)]
pub enum ExtractionError {
    /// The quote is too short for its own layout: the size field, or the
    /// certification data that the size field places, lies outside it.
    MalformedQuote,
    /// A PEM block of the certification data is broken, or its body is no
    /// X.509 certificate.
    CertificateDecodeError,
    /// The certification data holds no PEM block.
    EmptyChain,
    /// The leaf's issuer has a Common Name, given here, that is neither of
    /// the two PCK authorities.
    UnknownIssuer(String),
    /// The leaf's issuer has no Common Name, or its first Common Name is
    /// not text.
    MissingIssuerCN,
    /// The leaf has no SGX extension.
    ExtensionNotFound,
    /// The leaf has more than one SGX extension.
    DuplicateExtension,
    /// The walk over the SGX extension ended before an FMSPC entry: the
    /// extension holds none, or it cannot be decoded up to one.
    FmspcNotFound,
    /// The value of the FMSPC entry is not an octet string of six bytes
    /// that fills the entry.
    InvalidFmspcLength,
}

/// An [`ExtractionError`] as contracts speak of it: the text of an unknown
/// issuer is a sequence of characters.
pub enum ExtractionErrorView {
    MalformedQuote,
    CertificateDecodeError,
    EmptyChain,
    UnknownIssuer(Seq<char>),
    MissingIssuerCN,
    ExtensionNotFound,
    DuplicateExtension,
    FmspcNotFound,
    InvalidFmspcLength,
}

impl View for ExtractionError {
    type V = ExtractionErrorView;

    open spec fn view(&self) -> ExtractionErrorView {
        match self {
            ExtractionError::MalformedQuote => ExtractionErrorView::MalformedQuote,
            ExtractionError::CertificateDecodeError => ExtractionErrorView::CertificateDecodeError,
            ExtractionError::EmptyChain => ExtractionErrorView::EmptyChain,
            ExtractionError::UnknownIssuer(cn) => ExtractionErrorView::UnknownIssuer(cn@),
            ExtractionError::MissingIssuerCN => ExtractionErrorView::MissingIssuerCN,
            ExtractionError::ExtensionNotFound => ExtractionErrorView::ExtensionNotFound,
            ExtractionError::DuplicateExtension => ExtractionErrorView::DuplicateExtension,
            ExtractionError::FmspcNotFound => ExtractionErrorView::FmspcNotFound,
            ExtractionError::InvalidFmspcLength => ExtractionErrorView::InvalidFmspcLength,
        }
    }
}

} // verus!
