//! Trusted bindings to `printpdf`: the external raster decoder and the
//! PDF value that carries the registered graphic objects to the serializer.
use vstd::prelude::*;

verus! {

#[verifier::external_type_specification]
#[verifier::external_body]
pub struct ExRawImage(printpdf::RawImage);

#[verifier::external_type_specification]
#[verifier::external_body]
pub struct ExPdfDocument(printpdf::PdfDocument);

#[verifier::external_type_specification]
#[verifier::external_body]
pub struct ExXObjectId(printpdf::XObjectId);

/// A canonical raster descriptor: the image's pixel dimensions and its
/// decoded payload, ready for embedding. Produced once per successfully
/// decoded image; immutable thereafter.
pub struct RasterDescriptor {
    pub width: usize,
    pub height: usize,
    pub content: printpdf::RawImage,
}

/// The pixel dimensions (width, height) that `printpdf`'s raster decoder
/// reads out of `bytes`, or `None` where it rejects them as corrupt or
/// unsupported.
pub uninterp spec fn raster_dims(bytes: Seq<u8>) -> Option<(nat, nat)>;

/// Relies on `RawImage::decode_from_bytes`: whether raster bytes decode, and
/// to which pixel dimensions, depends on the bytes alone. The decoder's
/// informational warnings are diagnostic only and are dropped here.
#[verifier::external_body]
pub(crate) fn decode_image(bytes: &[u8]) -> (r: Option<RasterDescriptor>)
    ensures
        match r {
            Some(d) => raster_dims(bytes@) == Some(((d.width as nat), (d.height as nat))),
            None => raster_dims(bytes@) == None::<(nat, nat)>,
        },
{
    let mut warnings: Vec<printpdf::PdfWarnMsg> = Vec::new();
    match printpdf::RawImage::decode_from_bytes(bytes, &mut warnings) {
        Ok(img) => {
            let width = img.width;
            let height = img.height;
            Some(RasterDescriptor { width, height, content: img })
        },
        Err(_) => None,
    }
}

/// Relies on `PdfDocument::new`: builds an empty PDF document value that
/// carries the given title. The value is opaque here, so nothing is stated
/// of it.
#[verifier::external_body]
pub(crate) fn new_pdf_document(title: &str) -> (r: printpdf::PdfDocument) {
    printpdf::PdfDocument::new(title)
}

/// Relies on `PdfDocument::add_image`: registers the raster as a reusable
/// graphic object in the document's resources and returns its identifier.
/// The identifier is drawn from a random-string generator, so nothing is
/// stated of it.
#[verifier::external_body]
pub(crate) fn add_image_to_resources(
    doc: &mut printpdf::PdfDocument,
    img: &printpdf::RawImage,
) -> (r: printpdf::XObjectId) {
    doc.add_image(img)
}

} // verus!
