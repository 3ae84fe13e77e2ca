//! Error taxonomy of the viewer core.
//!
//! `FetchError` and the `LoadingError` variant of `PdfError` are
//! document-fatal: when one of them is raised no page of the document
//! renders. `RenderError` is page-fatal but document-recoverable, and
//! `TextExtractionError` only degrades the affected page to an empty text
//! layer.

use vstd::prelude::*;

verus! {

/// An error raised while loading, rendering or reading a document.
#[derive(Debug, Clone)]
pub enum PdfError {
    /// The engine could not open the document: wrong or missing password,
    /// corrupt bytes, or an unsupported format. Document-fatal.
    LoadingError(String),
    /// A specific page could not be rasterized. Page-fatal only.
    RenderError(String),
    /// A specific page's text stream could not be read. The page keeps its
    /// raster and gets an empty text layer.
    TextExtractionError(String),
}

/// An error raised while acquiring the raw document bytes.
#[derive(Debug, Clone)]
pub enum FetchError {
    /// The byte source could not deliver the document. Document-fatal.
    FailedToFetch(String),
}

impl PdfError {
    /// The human-readable detail carried by the error.
    pub fn message(&self) -> (r: &String)
        ensures
            r@ == self.message_view(),
    {
        match self {
            PdfError::LoadingError(m) => m,
            PdfError::RenderError(m) => m,
            PdfError::TextExtractionError(m) => m,
        }
    }

    /// The detail message, as a sequence of characters.
    pub open spec fn message_view(&self) -> Seq<char> {
        match self {
            PdfError::LoadingError(m) => m@,
            PdfError::RenderError(m) => m@,
            PdfError::TextExtractionError(m) => m@,
        }
    }
}

impl FetchError {
    /// The human-readable detail carried by the error.
    pub fn message(&self) -> (r: &String)
        ensures
            r@ == self.message_view(),
    {
        match self {
            FetchError::FailedToFetch(m) => m,
        }
    }

    /// The detail message, as a sequence of characters.
    pub open spec fn message_view(&self) -> Seq<char> {
        match self {
            FetchError::FailedToFetch(m) => m@,
        }
    }
}

} // verus!
