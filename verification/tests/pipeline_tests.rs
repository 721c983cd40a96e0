use doc_maker::b64::encode_output;
use doc_maker::document::FinalizedDocument;
use doc_maker::payload::PayloadError;
use doc_maker::pipeline::{assemble, default_title, ImageError, Warning};

// A valid 10 x 20 px RGB PNG.
const PNG_10X20: &str = "iVBORw0KGgoAAAANSUhEUgAAAAoAAAAUCAIAAAA7jDsBAAAAFklEQVR4nGP4z8CAB+GTG5UelSZJGgAVosc58iGLGQAAAABJRU5ErkJggg==";
// A valid 3 x 5 px RGB PNG.
const PNG_3X5: &str = "iVBORw0KGgoAAAANSUhEUgAAAAMAAAAFCAIAAAAPE8H1AAAAD0lEQVR4nGNgYPgPQ8SxAGbZDvIwYYikAAAAAElFTkSuQmCC";

fn data_uri(payload: &str) -> String {
    format!("data:image/png;base64,{}", payload)
}

// What the serializer boundary does with a finalized document: builds the
// physical pages (floating-point millimetres) and saves the PDF bytes.
fn serialize(doc: FinalizedDocument) -> Vec<u8> {
    let mut pdf = doc.pdf;
    let pages: Vec<printpdf::PdfPage> = doc
        .pages
        .iter()
        .map(|p| {
            printpdf::PdfPage::new(
                printpdf::Mm(p.size.width_mm_scaled as f32 / 1500.0),
                printpdf::Mm(p.size.height_mm_scaled as f32 / 1500.0),
                vec![printpdf::Op::UseXobject {
                    id: doc.objects[p.content[0].object.index].clone(),
                    transform: printpdf::XObjectTransform::default(),
                }],
            )
        })
        .collect();
    let mut warnings = Vec::new();
    pdf.with_pages(pages).save(&printpdf::PdfSaveOptions::default(), &mut warnings)
}

#[test]
fn one_valid_png_becomes_one_page() {
    let images = vec![data_uri(PNG_10X20)];
    let (doc, warnings) = assemble(&images, default_title());
    assert_eq!(warnings, vec![]);
    assert_eq!(doc.pages.len(), 1);
    assert_eq!(doc.objects.len(), 1);
    // 10 x 20 px at 300 DPI: about 0.847 mm x 1.693 mm.
    assert_eq!(doc.pages[0].size.width_mm_scaled, 1270);
    assert_eq!(doc.pages[0].size.height_mm_scaled, 2540);
    assert_eq!(doc.pages[0].content.len(), 1);
    assert_eq!(doc.pages[0].content[0].object.index, 0);
}

#[test]
fn malformed_input_yields_no_page_but_a_valid_document() {
    let images = vec![String::from("not-a-data-uri")];
    let (doc, warnings) = assemble(&images, default_title());
    assert_eq!(doc.pages.len(), 0);
    assert_eq!(
        warnings,
        vec![Warning { index: 0, error: ImageError::PayloadFormat(PayloadError::MissingMarker) }]
    );
    // The call still succeeds end to end and returns a valid document.
    let text = encode_output(&serialize(doc));
    assert!(text.starts_with("JVBER"));
}

#[test]
fn empty_batch_yields_a_valid_zero_page_document() {
    let images: Vec<String> = vec![];
    let (doc, warnings) = assemble(&images, default_title());
    assert_eq!(doc.pages.len(), 0);
    assert_eq!(warnings, vec![]);
    let text = encode_output(&serialize(doc));
    assert!(text.starts_with("JVBER"));
}

#[test]
fn undecodable_raster_bytes_are_a_raster_warning() {
    // Valid base64, but the bytes are not an image.
    let images = vec![data_uri("TWFu")];
    let (doc, warnings) = assemble(&images, default_title());
    assert_eq!(doc.pages.len(), 0);
    assert_eq!(warnings, vec![Warning { index: 0, error: ImageError::RasterDecode }]);
}

#[test]
fn mixed_batch_keeps_page_order_and_reports_each_failure() {
    let images = vec![
        data_uri(PNG_10X20),
        String::from("garbage"),
        data_uri(PNG_3X5),
        data_uri("!!!!"),
    ];
    let (doc, warnings) = assemble(&images, default_title());
    assert_eq!(doc.pages.len(), 2);
    assert_eq!(doc.objects.len(), 2);
    assert_eq!(doc.pages[0].size.width_mm_scaled, 10 * 127);
    assert_eq!(doc.pages[0].size.height_mm_scaled, 20 * 127);
    assert_eq!(doc.pages[1].size.width_mm_scaled, 3 * 127);
    assert_eq!(doc.pages[1].size.height_mm_scaled, 5 * 127);
    assert_eq!(doc.pages[0].content[0].object.index, 0);
    assert_eq!(doc.pages[1].content[0].object.index, 1);
    assert_eq!(
        warnings,
        vec![
            Warning { index: 1, error: ImageError::PayloadFormat(PayloadError::MissingMarker) },
            Warning { index: 3, error: ImageError::PayloadFormat(PayloadError::InvalidBase64) },
        ]
    );
}

#[test]
fn malformed_entries_do_not_shift_sibling_pages() {
    let with_bad = vec![data_uri(PNG_10X20), String::from("garbage"), data_uri(PNG_3X5)];
    let without_bad = vec![data_uri(PNG_10X20), data_uri(PNG_3X5)];
    let (doc_a, _) = assemble(&with_bad, default_title());
    let (doc_b, _) = assemble(&without_bad, default_title());
    assert_eq!(doc_a.pages.len(), doc_b.pages.len());
    for (pa, pb) in doc_a.pages.iter().zip(doc_b.pages.iter()) {
        assert_eq!(pa.size, pb.size);
        assert_eq!(pa.content[0].object.index, pb.content[0].object.index);
    }
}

#[test]
fn full_pipeline_produces_base64_pdf_bytes() {
    let images = vec![data_uri(PNG_10X20), data_uri(PNG_3X5)];
    let (doc, warnings) = assemble(&images, default_title());
    assert_eq!(warnings, vec![]);
    assert_eq!(doc.pages.len(), 2);
    let text = encode_output(&serialize(doc));
    // "JVBER" is the base64 encoding of the "%PDF" magic.
    assert!(text.starts_with("JVBER"));
    assert!(!text.contains('\n'));
}
