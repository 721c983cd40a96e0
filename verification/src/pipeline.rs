//! Batch orchestrator: drives the payload decoder, the raster decoder, the
//! page sizer and the object embedder once per input image, isolates
//! per-image failures, and finalizes the ordered page list.
//!
//! Empty-batch policy: an empty or all-failed batch yields a valid document
//! with zero pages; no blank page is synthesized.
use vstd::prelude::*;

verus! {

use vstd::string::StringSliceAdditionalSpecFns;
use vstd::utf8::encode_utf8;
use crate::payload::{decode_payload, decode_payload_spec, PayloadError};
use crate::pdf::{decode_image, raster_dims};
use crate::sizer::{compute_page_size, mm_scaled_of_px, MAX_PX};
use crate::document::{page_wf, Document, FinalizedDocument, Page};

/// A per-image failure kind; never fatal to the batch.
#[derive(Clone, Copy, Debug, PartialEq, Eq, Structural)]
pub enum ImageError {
    /// The image string lacks the data-URI marker or fails base64 decoding.
    PayloadFormat(PayloadError),
    /// The raster bytes cannot be decoded into a usable descriptor.
    RasterDecode,
}

/// One diagnostic: which input failed, and how.
#[derive(Clone, Copy, Debug, PartialEq, Eq, Structural)]
pub struct Warning {
    pub index: usize,
    pub error: ImageError,
}

/// The pixel dimensions one input yields, or its failure kind. A descriptor
/// whose dimensions are zero or too large for the page sizer is rejected as
/// a raster decoding failure.
pub open spec fn image_outcome(t: Seq<u8>) -> Result<(nat, nat), ImageError> {
    match decode_payload_spec(t) {
        Err(e) => Err(ImageError::PayloadFormat(e)),
        Ok(data) => match raster_dims(data) {
            None => Err(ImageError::RasterDecode),
            Some(dims) => if 1 <= dims.0 && dims.0 <= MAX_PX as nat && 1 <= dims.1 && dims.1
                <= MAX_PX as nat {
                Ok(dims)
            } else {
                Err(ImageError::RasterDecode)
            },
        },
    }
}

/// The dimensions of the successfully decoded inputs, in input order.
pub open spec fn success_dims(inputs: Seq<Seq<u8>>) -> Seq<(nat, nat)>
    decreases inputs.len(),
{
    if inputs.len() == 0 {
        Seq::empty()
    } else {
        let rest = success_dims(inputs.drop_last());
        match image_outcome(inputs.last()) {
            Ok(d) => rest.push(d),
            Err(_) => rest,
        }
    }
}

/// The diagnostics of the failed inputs, in input order.
pub open spec fn failure_warnings(inputs: Seq<Seq<u8>>) -> Seq<Warning>
    decreases inputs.len(),
{
    if inputs.len() == 0 {
        Seq::empty()
    } else {
        let rest = failure_warnings(inputs.drop_last());
        match image_outcome(inputs.last()) {
            Ok(_) => rest,
            Err(e) => rest.push(Warning { index: (inputs.len() - 1) as usize, error: e }),
        }
    }
}

/// The pages carry exactly the expected dimensions, in order, each with one
/// placement instruction referring to the graphic object of the same rank.
pub open spec fn pages_match(pages: Seq<Page>, dims: Seq<(nat, nat)>) -> bool {
    &&& pages.len() == dims.len()
    &&& forall|i: int|
        0 <= i < pages.len() ==> {
            &&& (#[trigger] pages[i]).size.width_mm_scaled == mm_scaled_of_px(dims[i].0)
            &&& pages[i].size.height_mm_scaled == mm_scaled_of_px(dims[i].1)
            &&& pages[i].content@.len() == 1
            &&& pages[i].content@[0].object.index == i
        }
}

/// The view of a batch: each input string as its UTF-8 bytes.
pub open spec fn batch_view(images: Seq<String>) -> Seq<Seq<u8>> {
    images.map_values(|s: String| encode_utf8(s@))
}

/// A batch never yields more pages than it has inputs.
pub proof fn lemma_success_dims_len(inputs: Seq<Seq<u8>>)
    ensures
        success_dims(inputs).len() <= inputs.len(),
    decreases inputs.len(),
{
    if inputs.len() > 0 {
        lemma_success_dims_len(inputs.drop_last());
    }
}

/// Law: every input is accounted for, exactly once: it either becomes a
/// page or is reported in a diagnostic.
pub proof fn lemma_every_input_accounted(inputs: Seq<Seq<u8>>)
    ensures
        success_dims(inputs).len() + failure_warnings(inputs).len() == inputs.len(),
    decreases inputs.len(),
{
    if inputs.len() > 0 {
        lemma_every_input_accounted(inputs.drop_last());
    }
}

/// Law: malformed entries never shift sibling pages. A batch yields the
/// same page sequence as the batch with its malformed entries removed.
pub proof fn lemma_malformed_inputs_skipped(inputs: Seq<Seq<u8>>)
    ensures
        success_dims(inputs) == success_dims(
            inputs.filter(|t: Seq<u8>| image_outcome(t) is Ok),
        ),
    decreases inputs.len(),
{
    reveal(Seq::filter);
    let pred = |t: Seq<u8>| image_outcome(t) is Ok;
    if inputs.len() == 0 {
    } else {
        lemma_malformed_inputs_skipped(inputs.drop_last());
        let sub = inputs.drop_last().filter(pred);
        if pred(inputs.last()) {
            assert(inputs.filter(pred) == sub.push(inputs.last()));
            assert(sub.push(inputs.last()).drop_last() =~= sub);
            assert(sub.push(inputs.last()).last() == inputs.last());
        } else {
            assert(inputs.filter(pred) == sub);
        }
    }
}

/// Law: a batch of inputs with exactly K successfully decodable images
/// yields exactly K pages.
pub proof fn lemma_page_count(inputs: Seq<Seq<u8>>)
    ensures
        success_dims(inputs).len() == inputs.filter(
            |t: Seq<u8>| image_outcome(t) is Ok,
        ).len(),
    decreases inputs.len(),
{
    reveal(Seq::filter);
    if inputs.len() > 0 {
        lemma_page_count(inputs.drop_last());
    }
}

/// The document title fixed at build time.
pub fn default_title() -> (r: &'static str)
    ensures
        r@ == "Hello world"@,
{
    "Hello world"
}

/// Batch orchestrator: assembles an ordered batch of image payloads into a
/// finalized document and the batch's diagnostics.
///
/// Exactly the successfully decoded inputs become pages, in input order:
/// page `i` carries the physical size of the `i`-th success and one
/// placement instruction referring to the `i`-th registered graphic object.
/// Exactly the failed inputs are reported, in input order, each with its
/// input's position and failure kind; a failure never aborts the batch.
pub fn assemble(images: &Vec<String>, title: &str) -> (r: (FinalizedDocument, Vec<Warning>))
    ensures
        pages_match(r.0.pages@, success_dims(batch_view(images@))),
        r.0.objects@.len() == success_dims(batch_view(images@)).len(),
        r.1@ == failure_warnings(batch_view(images@)),
        r.0.title@ == title@,
{
    let ghost inputs = batch_view(images@);
    let mut doc = Document::new(title);
    let mut warnings: Vec<Warning> = Vec::new();
    let n = images.len();
    let mut idx: usize = 0;
    while idx < n
        invariant
            n == images@.len(),
            idx <= n,
            inputs == batch_view(images@),
            doc.wf(),
            doc.title@ == title@,
            doc.objects@.len() == doc.pages@.len(),
            pages_match(doc.pages@, success_dims(inputs.subrange(0, idx as int))),
            warnings@ == failure_warnings(inputs.subrange(0, idx as int)),
        decreases n - idx,
    {
        let ghost prefix = inputs.subrange(0, idx as int);
        let ghost prefix1 = inputs.subrange(0, idx as int + 1);
        proof {
            assert(prefix1.drop_last() =~= prefix);
            assert(prefix1.last() == inputs[idx as int]);
            lemma_success_dims_len(prefix);
        }
        let s = &images[idx];
        let t = s.as_str();
        assert(t.spec_bytes() == inputs[idx as int]);
        match decode_payload(t) {
            Err(e) => {
                warnings.push(Warning { index: idx, error: ImageError::PayloadFormat(e) });
                proof {
                    assert(image_outcome(inputs[idx as int]) == Err::<(nat, nat), ImageError>(
                        ImageError::PayloadFormat(e),
                    ));
                    assert(success_dims(prefix1) == success_dims(prefix));
                    assert(failure_warnings(prefix1) == failure_warnings(prefix).push(
                        Warning { index: idx, error: ImageError::PayloadFormat(e) },
                    ));
                }
            },
            Ok(data) => {
                match decode_image(data.as_slice()) {
                    None => {
                        warnings.push(Warning { index: idx, error: ImageError::RasterDecode });
                        proof {
                            assert(image_outcome(inputs[idx as int]) == Err::<
                                (nat, nat),
                                ImageError,
                            >(ImageError::RasterDecode));
                            assert(success_dims(prefix1) == success_dims(prefix));
                            assert(failure_warnings(prefix1) == failure_warnings(prefix).push(
                                Warning { index: idx, error: ImageError::RasterDecode },
                            ));
                        }
                    },
                    Some(descriptor) => {
                        let w = descriptor.width;
                        let h = descriptor.height;
                        if 1 <= w && w as u64 <= MAX_PX && 1 <= h && h as u64 <= MAX_PX {
                            proof {
                                assert(image_outcome(inputs[idx as int]) == Ok::<
                                    (nat, nat),
                                    ImageError,
                                >((w as nat, h as nat)));
                                assert(success_dims(prefix1) == success_dims(prefix).push(
                                    (w as nat, h as nat),
                                ));
                                assert(failure_warnings(prefix1) == failure_warnings(prefix));
                            }
                            let size = compute_page_size(w as u64, h as u64);
                            let oref = doc.register(&descriptor);
                            let page = Document::build_page(size, oref);
                            proof {
                                assert(page_wf(page, doc.objects@.len()));
                            }
                            let ghost old_pages = doc.pages@;
                            doc.append_page(page);
                            proof {
                                assert(doc.pages@ =~= old_pages.push(page));
                                assert(pages_match(doc.pages@, success_dims(prefix1)));
                            }
                        } else {
                            warnings.push(
                                Warning { index: idx, error: ImageError::RasterDecode },
                            );
                            proof {
                                assert(image_outcome(inputs[idx as int]) == Err::<
                                    (nat, nat),
                                    ImageError,
                                >(ImageError::RasterDecode));
                                assert(success_dims(prefix1) == success_dims(prefix));
                                assert(failure_warnings(prefix1) == failure_warnings(prefix).push(
                                    Warning { index: idx, error: ImageError::RasterDecode },
                                ));
                            }
                        }
                    },
                }
            },
        }
        idx = idx + 1;
    }
    proof {
        assert(inputs.subrange(0, n as int) =~= inputs);
    }
    let fin = doc.finalize();
    (fin, warnings)
}

} // verus!
