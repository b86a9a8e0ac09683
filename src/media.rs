//! The media type that the bot accepts.
use vstd::prelude::*;

verus! {

/// The media type of a PDF document.
pub open spec fn pdf_media_type() -> Seq<char> {
    seq!['a', 'p', 'p', 'l', 'i', 'c', 'a', 't', 'i', 'o', 'n', '/', 'p', 'd', 'f']
}

/// Relies on mime::APPLICATION_PDF, whose text is "application/pdf".
#[verifier::external_body]
fn pdf_type_text() -> (r: String)
    ensures
        r@ == pdf_media_type(),
{
    mime::APPLICATION_PDF.as_ref().to_string()
}

/// Whether a declared media type is exactly that of a PDF document.
pub fn is_pdf_type(declared: &String) -> (r: bool)
    ensures
        r == (declared@ == pdf_media_type()),
{
    let pdf = pdf_type_text();
    *declared == pdf
}

} // verus!
