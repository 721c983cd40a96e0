//! Document assembler and object embedder: the growing collection of pages
//! and registered graphic objects, finalized once into an immutable value
//! for the serializer.
use vstd::prelude::*;

verus! {

use crate::sizer::PageSize;
use crate::pdf::add_image_to_resources;
use crate::pdf::new_pdf_document;

/// An opaque reference to a graphic object registered in a document: the
/// position of the object in the document's registration order.
#[derive(Clone, Copy, Debug, PartialEq, Eq, Structural)]
pub struct GraphicObjectRef {
    pub index: usize,
}

/// One placement instruction: paint the referenced graphic object filling
/// the page, identity transform.
#[derive(Clone, Copy, Debug, PartialEq, Eq, Structural)]
pub struct Placement {
    pub object: GraphicObjectRef,
}

/// A page: its physical size and its ordered placement instructions. A page
/// built by this pipeline holds exactly one placement instruction.
pub struct Page {
    pub size: PageSize,
    pub content: Vec<Placement>,
}

/// Every placement of the page refers to one of `n_objects` registered
/// graphic objects.
pub open spec fn page_wf(p: Page, n_objects: nat) -> bool {
    forall|i: int|
        0 <= i < p.content@.len() ==> ((#[trigger] p.content@[i]).object.index as nat) < n_objects
}

/// The growing document: the underlying PDF value, the identifiers of the
/// graphic objects registered so far (in registration order), and the
/// ordered pages.
pub struct Document {
    pub pdf: printpdf::PdfDocument,
    pub title: Ghost<Seq<char>>,
    pub objects: Vec<printpdf::XObjectId>,
    pub pages: Vec<Page>,
}

/// The finalized, immutable page graph, ready for serialization.
pub struct FinalizedDocument {
    pub pdf: printpdf::PdfDocument,
    pub title: Ghost<Seq<char>>,
    pub objects: Vec<printpdf::XObjectId>,
    pub pages: Vec<Page>,
}

impl Document {
    /// Every page refers only to registered graphic objects.
    pub open spec fn wf(self) -> bool {
        forall|i: int|
            0 <= i < self.pages@.len() ==> page_wf(
                #[trigger] self.pages@[i],
                self.objects@.len(),
            )
    }

    /// Document assembler: an empty document with the given title, zero
    /// pages and zero graphic objects.
    pub fn new(title: &str) -> (d: Document)
        ensures
            d.title@ == title@,
            d.objects@.len() == 0,
            d.pages@.len() == 0,
            d.wf(),
    {
        Document {
            pdf: new_pdf_document(title),
            title: Ghost(title@),
            objects: Vec::new(),
            pages: Vec::new(),
        }
    }

    /// Object embedder: registers a raster descriptor as a graphic object
    /// and returns its reference. The object set grows by exactly one entry;
    /// no existing entry is mutated or removed, and pages are untouched.
    pub fn register(&mut self, descriptor: &crate::pdf::RasterDescriptor) -> (r: GraphicObjectRef)
        requires
            old(self).objects@.len() < usize::MAX,
            old(self).wf(),
        ensures
            final(self).wf(),
            final(self).objects@.len() == old(self).objects@.len() + 1,
            forall|i: int|
                0 <= i < old(self).objects@.len() ==> final(self).objects@[i] == old(
                    self,
                ).objects@[i],
            final(self).pages@ == old(self).pages@,
            final(self).title == old(self).title,
            r.index == old(self).objects@.len(),
    {
        let id = add_image_to_resources(&mut self.pdf, &descriptor.content);
        let r = GraphicObjectRef { index: self.objects.len() };
        self.objects.push(id);
        r
    }

    /// Object embedder: a page of the given size whose single placement
    /// instruction paints the referenced object filling the page, identity
    /// transform.
    pub fn build_page(size: PageSize, object: GraphicObjectRef) -> (p: Page)
        ensures
            p.size == size,
            p.content@.len() == 1,
            p.content@[0] == (Placement { object }),
    {
        Page { size, content: vec![Placement { object }] }
    }

    /// Document assembler: appends one page to the end of the page
    /// sequence; no reordering, objects and title untouched.
    pub fn append_page(&mut self, page: Page)
        requires
            old(self).wf(),
            page_wf(page, old(self).objects@.len()),
        ensures
            final(self).wf(),
            final(self).pages@ == old(self).pages@.push(page),
            final(self).objects@ == old(self).objects@,
            final(self).title == old(self).title,
    {
        self.pages.push(page);
    }

    /// Document assembler: takes ownership of the accumulated pages and
    /// objects and freezes them for serialization. After this the document
    /// value is gone: immutability is enforced by the ownership transfer.
    pub fn finalize(self) -> (f: FinalizedDocument)
        ensures
            f.pages@ == self.pages@,
            f.objects@ == self.objects@,
            f.title == self.title,
    {
        FinalizedDocument {
            pdf: self.pdf,
            title: self.title,
            objects: self.objects,
            pages: self.pages,
        }
    }
}

} // verus!
