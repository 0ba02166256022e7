//! The render target: a document being assembled, and its serialization
//! into the draw-command stream.
//!
//! A target is created from a [`DocumentConfiguration`], filled with
//! content blocks in rendering order, and finished exactly once.  In-flow
//! blocks are paginated top to bottom; fixed-position blocks are anchored
//! to absolute page coordinates — footers re-rendered on every page, a
//! totals block only on the page holding the final flowed content.

use vstd::prelude::*;

use crate::color::spec_black;
use crate::draw::DrawCmd;
use crate::draw::DrawView;
use crate::draw::spec_content_cmds;
use crate::draw::views_of;
use crate::error::Error;
use crate::geometry::FixedPos;
use crate::geometry::PageGeometry;
use crate::geometry::PAGE_HEIGHT;
use crate::geometry::PAGE_WIDTH;
use crate::measure::spec_content_height;
use crate::paginate::flow_fold;
use crate::paginate::spec_page_of;
use crate::paginate::spec_y_of;
use crate::style::ResolvedStyle;
use crate::style::TextAlign;
use crate::table::BoxContent;
use crate::table::FixedScope;
use crate::table::Table;
use crate::table::is_padded_form;

verus! {

/// The default base font size.
pub const DEFAULT_FONT_SIZE: u32 = 11;

/// The default page margins.
pub const DEFAULT_MARGIN_TOP: u32 = 40;

pub const DEFAULT_MARGIN_RIGHT: u32 = 30;

pub const DEFAULT_MARGIN_BOTTOM: u32 = 40;

pub const DEFAULT_MARGIN_LEFT: u32 = 30;

/// Configuration for the entire document.
#[derive(Debug)]
pub struct DocumentConfiguration {
    /// Raw font-program bytes to embed.  If `None`, a default is used.
    pub font_family: Option<Vec<u8>>,
    /// The base font size.  If `None`, a default is used.
    pub font_size: Option<u32>,
}

/// The serialized result: the draw-command stream plus the embedded
/// resources it references.
#[derive(Debug)]
pub struct FinishedDocument {
    /// The ordered draw commands.
    pub commands: Vec<DrawCmd>,
    /// The embedded font program, if one was configured.
    pub font: Option<Vec<u8>>,
    /// The embedded image payloads, indexed by the image boxes.
    pub images: Vec<Vec<u8>>,
}

/// A target for rendering: the document under construction.
#[derive(Debug)]
pub struct RenderTarget {
    /// Page size and margins.
    pub geom: PageGeometry,
    /// The document-level default style.
    pub base_style: ResolvedStyle,
    /// The embedded font program, if configured.
    pub font: Option<Vec<u8>>,
    /// Raw image payloads registered with the document.
    pub images: Vec<Vec<u8>>,
    /// In-flow content blocks, in rendering order.
    pub flow: Vec<BoxContent>,
    /// Fixed-position blocks, their anchors and their page scope.
    pub fixed: Vec<(BoxContent, FixedPos, FixedScope)>,
    /// Whether the document was closed.
    pub closed: bool,
}

/// `b` starts with a known font-program header: TrueType, OpenType CFF,
/// legacy TrueType, or a TrueType collection.
pub open spec fn is_font_program(b: Seq<u8>) -> bool {
    &&& b.len() >= 4
    &&& {
        ||| (b[0] == 0u8 && b[1] == 1u8 && b[2] == 0u8 && b[3] == 0u8)
        ||| (b[0] == 79u8 && b[1] == 84u8 && b[2] == 84u8 && b[3] == 79u8)
        ||| (b[0] == 116u8 && b[1] == 114u8 && b[2] == 117u8 && b[3] == 101u8)
        ||| (b[0] == 116u8 && b[1] == 116u8 && b[2] == 99u8 && b[3] == 102u8)
    }
}

/// Check font-program bytes for a known header.
pub fn check_font_program(b: &Vec<u8>) -> (r: bool)
    ensures
        r == is_font_program(b@),
{
    if b.len() < 4 {
        return false;
    }
    (b[0] == 0 && b[1] == 1 && b[2] == 0 && b[3] == 0) || (b[0] == 79 && b[1] == 84 && b[2] == 84
        && b[3] == 79) || (b[0] == 116 && b[1] == 114 && b[2] == 117 && b[3] == 101) || (b[0]
        == 116 && b[1] == 116 && b[2] == 99 && b[3] == 102)
}

/// The heights of the in-flow blocks.
pub open spec fn doc_flow_heights(flow: Seq<BoxContent>, base: ResolvedStyle) -> Seq<int> {
    flow.map_values(|b: BoxContent| spec_content_height(b, base))
}

/// How many pages the in-flow blocks open.
pub open spec fn doc_page_count(flow: Seq<BoxContent>, geom: PageGeometry, base: ResolvedStyle) -> int {
    flow_fold(doc_flow_heights(flow, base), geom.spec_content_height()).0
}

/// The commands of in-flow block `i` at its flowed position.
pub open spec fn flow_block_cmds(
    flow: Seq<BoxContent>,
    geom: PageGeometry,
    base: ResolvedStyle,
    i: int,
) -> Seq<DrawView> {
    spec_content_cmds(
        flow[i],
        geom.margin_left as int,
        geom.margin_top + spec_y_of(doc_flow_heights(flow, base), geom.spec_content_height(), i),
        geom.spec_content_width(),
        base,
    )
}

/// The commands of the first `k` in-flow blocks that land on page `p`.
pub open spec fn flow_on_page_cmds(
    flow: Seq<BoxContent>,
    geom: PageGeometry,
    base: ResolvedStyle,
    k: int,
    p: int,
) -> Seq<DrawView>
    decreases k,
{
    if k <= 0 {
        Seq::empty()
    } else {
        flow_on_page_cmds(flow, geom, base, k - 1, p) + if spec_page_of(
            doc_flow_heights(flow, base),
            geom.spec_content_height(),
            k - 1,
        ) == p {
            flow_block_cmds(flow, geom, base, k - 1)
        } else {
            Seq::empty()
        }
    }
}

/// The top edge of a fixed-position block anchored `offset_bottom` units
/// above the page's bottom edge; a block taller than the space below the
/// anchor is pinned to the top edge.
pub open spec fn fixed_block_y(
    b: BoxContent,
    pos: FixedPos,
    geom: PageGeometry,
    base: ResolvedStyle,
) -> int {
    let h = spec_content_height(b, base);
    if pos.offset_bottom + h >= geom.page_height {
        0
    } else {
        geom.page_height - pos.offset_bottom - h
    }
}

/// The commands of the first `k` fixed-position blocks on one page:
/// every-page blocks always, final-page blocks only when `last` holds.
pub open spec fn fixed_cmds(
    fixed: Seq<(BoxContent, FixedPos, FixedScope)>,
    geom: PageGeometry,
    base: ResolvedStyle,
    k: int,
    last: bool,
) -> Seq<DrawView>
    decreases k,
{
    if k <= 0 {
        Seq::empty()
    } else {
        fixed_cmds(fixed, geom, base, k - 1, last) + if fixed[k - 1].2 == FixedScope::EveryPage
            || last {
            spec_content_cmds(
                fixed[k - 1].0,
                fixed[k - 1].1.offset_left as int,
                fixed_block_y(fixed[k - 1].0, fixed[k - 1].1, geom, base),
                fixed[k - 1].1.width as int,
                base,
            )
        } else {
            Seq::empty()
        }
    }
}

/// The commands of one page: the page start, the in-flow blocks assigned
/// to it, then the fixed-position blocks.
pub open spec fn page_cmds(
    flow: Seq<BoxContent>,
    fixed: Seq<(BoxContent, FixedPos, FixedScope)>,
    geom: PageGeometry,
    base: ResolvedStyle,
    p: int,
    last: bool,
) -> Seq<DrawView> {
    seq![DrawView::BeginPage { width: geom.page_width, height: geom.page_height }]
        + flow_on_page_cmds(flow, geom, base, flow.len() as int, p) + fixed_cmds(
        fixed,
        geom,
        base,
        fixed.len() as int,
        last,
    )
}

/// The commands of the first `p` pages.
pub open spec fn pages_cmds_upto(
    flow: Seq<BoxContent>,
    fixed: Seq<(BoxContent, FixedPos, FixedScope)>,
    geom: PageGeometry,
    base: ResolvedStyle,
    p: int,
    total: int,
) -> Seq<DrawView>
    decreases p,
{
    if p <= 0 {
        Seq::empty()
    } else {
        pages_cmds_upto(flow, fixed, geom, base, p - 1, total) + page_cmds(
            flow,
            fixed,
            geom,
            base,
            p - 1,
            p == total,
        )
    }
}

/// The complete command stream of a document: all its pages in order.
/// Serialization is deterministic: this is a pure function of the
/// document's state.
pub open spec fn spec_document_cmds(
    flow: Seq<BoxContent>,
    fixed: Seq<(BoxContent, FixedPos, FixedScope)>,
    geom: PageGeometry,
    base: ResolvedStyle,
) -> Seq<DrawView> {
    pages_cmds_upto(
        flow,
        fixed,
        geom,
        base,
        doc_page_count(flow, geom, base),
        doc_page_count(flow, geom, base),
    )
}

/// The flowed blocks of one page hold no page start of their own.
proof fn lemma_flow_on_page_no_pages(
    flow: Seq<BoxContent>,
    geom: PageGeometry,
    base: ResolvedStyle,
    k: int,
    p: int,
)
    ensures
        crate::draw::begin_page_count(flow_on_page_cmds(flow, geom, base, k, p)) == 0,
    decreases k,
{
    if k > 0 {
        lemma_flow_on_page_no_pages(flow, geom, base, k - 1, p);
        let tail = if spec_page_of(
            doc_flow_heights(flow, base),
            geom.spec_content_height(),
            k - 1,
        ) == p {
            flow_block_cmds(flow, geom, base, k - 1)
        } else {
            Seq::<DrawView>::empty()
        };
        crate::draw::lemma_content_cmds_no_pages(
            flow[k - 1],
            geom.margin_left as int,
            geom.margin_top + spec_y_of(
                doc_flow_heights(flow, base),
                geom.spec_content_height(),
                k - 1,
            ),
            geom.spec_content_width(),
            base,
        );
        crate::draw::lemma_begin_page_count_concat(
            flow_on_page_cmds(flow, geom, base, k - 1, p),
            tail,
        );
    }
}

/// The fixed-position blocks of one page hold no page start of their
/// own.
proof fn lemma_fixed_cmds_no_pages(
    fixed: Seq<(BoxContent, FixedPos, FixedScope)>,
    geom: PageGeometry,
    base: ResolvedStyle,
    k: int,
    last: bool,
)
    ensures
        crate::draw::begin_page_count(fixed_cmds(fixed, geom, base, k, last)) == 0,
    decreases k,
{
    if k > 0 {
        lemma_fixed_cmds_no_pages(fixed, geom, base, k - 1, last);
        let tail = if fixed[k - 1].2 == FixedScope::EveryPage || last {
            spec_content_cmds(
                fixed[k - 1].0,
                fixed[k - 1].1.offset_left as int,
                fixed_block_y(fixed[k - 1].0, fixed[k - 1].1, geom, base),
                fixed[k - 1].1.width as int,
                base,
            )
        } else {
            Seq::<DrawView>::empty()
        };
        crate::draw::lemma_content_cmds_no_pages(
            fixed[k - 1].0,
            fixed[k - 1].1.offset_left as int,
            fixed_block_y(fixed[k - 1].0, fixed[k - 1].1, geom, base),
            fixed[k - 1].1.width as int,
            base,
        );
        crate::draw::lemma_begin_page_count_concat(
            fixed_cmds(fixed, geom, base, k - 1, last),
            tail,
        );
    }
}

/// Each page's commands open exactly one page.
proof fn lemma_page_cmds_one_page(
    flow: Seq<BoxContent>,
    fixed: Seq<(BoxContent, FixedPos, FixedScope)>,
    geom: PageGeometry,
    base: ResolvedStyle,
    p: int,
    last: bool,
)
    ensures
        crate::draw::begin_page_count(page_cmds(flow, fixed, geom, base, p, last)) == 1,
{
    let begin = seq![DrawView::BeginPage { width: geom.page_width, height: geom.page_height }];
    let fl = flow_on_page_cmds(flow, geom, base, flow.len() as int, p);
    let fx = fixed_cmds(fixed, geom, base, fixed.len() as int, last);
    lemma_flow_on_page_no_pages(flow, geom, base, flow.len() as int, p);
    lemma_fixed_cmds_no_pages(fixed, geom, base, fixed.len() as int, last);
    crate::draw::lemma_begin_page_count_single(begin[0]);
    assert(begin =~= seq![begin[0]]);
    assert(crate::draw::begin_page_count(begin) == 1);
    crate::draw::lemma_begin_page_count_concat(begin, fl);
    crate::draw::lemma_begin_page_count_concat(begin + fl, fx);
}

/// The first `p` pages open exactly `p` pages.
proof fn lemma_pages_cmds_count(
    flow: Seq<BoxContent>,
    fixed: Seq<(BoxContent, FixedPos, FixedScope)>,
    geom: PageGeometry,
    base: ResolvedStyle,
    p: int,
    total: int,
)
    requires
        p >= 0,
    ensures
        crate::draw::begin_page_count(pages_cmds_upto(flow, fixed, geom, base, p, total)) == p,
    decreases p,
{
    if p > 0 {
        lemma_pages_cmds_count(flow, fixed, geom, base, p - 1, total);
        lemma_page_cmds_one_page(flow, fixed, geom, base, p - 1, p == total);
        crate::draw::lemma_begin_page_count_concat(
            pages_cmds_upto(flow, fixed, geom, base, p - 1, total),
            page_cmds(flow, fixed, geom, base, p - 1, p == total),
        );
    }
}

/// The flow fold always opens at least one page.
proof fn lemma_flow_fold_pos(heights: Seq<int>, cap: int)
    ensures
        flow_fold(heights, cap).0 >= 1,
    decreases heights.len(),
{
    if heights.len() > 0 {
        lemma_flow_fold_pos(heights.drop_last(), cap);
    }
}

/// The serialized stream opens exactly as many pages as the pagination
/// of the flowed blocks decides: the page count is observable in the
/// artifact.
pub proof fn lemma_stream_page_count(
    flow: Seq<BoxContent>,
    fixed: Seq<(BoxContent, FixedPos, FixedScope)>,
    geom: PageGeometry,
    base: ResolvedStyle,
)
    ensures
        crate::draw::begin_page_count(spec_document_cmds(flow, fixed, geom, base))
            == doc_page_count(flow, geom, base),
        doc_page_count(flow, geom, base) >= 1,
{
    lemma_flow_fold_pos(doc_flow_heights(flow, base), geom.spec_content_height());
    lemma_pages_cmds_count(
        flow,
        fixed,
        geom,
        base,
        doc_page_count(flow, geom, base),
        doc_page_count(flow, geom, base),
    );
}

/// Serialization is deterministic: a given finalized document state
/// always yields the identical draw-command stream on repeated runs.
pub proof fn lemma_serialization_deterministic(
    flow: Seq<BoxContent>,
    fixed: Seq<(BoxContent, FixedPos, FixedScope)>,
    geom: PageGeometry,
    base: ResolvedStyle,
    c1: Seq<DrawView>,
    c2: Seq<DrawView>,
)
    requires
        c1 == spec_document_cmds(flow, fixed, geom, base),
        c2 == spec_document_cmds(flow, fixed, geom, base),
    ensures
        c1 == c2,
{
}

/// A content box is serializable: any table in it is well-formed, sealed
/// and complete.
pub open spec fn content_wf(b: BoxContent) -> bool {
    b matches BoxContent::Table(t) ==> t.wf() && t.complete() && t.sealed
}

impl RenderTarget {
    /// Every block of the document is serializable and the geometry is
    /// usable.  Established by `new` and preserved by every method.
    pub open spec fn wf(self) -> bool {
        &&& self.geom.wf()
        &&& forall|i: int| 0 <= i < self.flow@.len() ==> content_wf(#[trigger] self.flow@[i])
        &&& forall|i: int| 0 <= i < self.fixed@.len() ==> content_wf(#[trigger] self.fixed@[i].0)
    }

    /// Create a new render target on a default page with default margins.
    ///
    /// Fails with `InvalidFontSize` if and only if the configured font
    /// size is zero, and with `InvalidFontProgram` if and only if font
    /// bytes are configured that carry no known font-program header.
    pub fn new(config: DocumentConfiguration) -> (r: Result<RenderTarget, Error>)
        ensures
            match r {
                Ok(t) => {
                    &&& t.wf()
                    &&& t.geom == (PageGeometry {
                        page_width: PAGE_WIDTH,
                        page_height: PAGE_HEIGHT,
                        margin_top: DEFAULT_MARGIN_TOP,
                        margin_right: DEFAULT_MARGIN_RIGHT,
                        margin_bottom: DEFAULT_MARGIN_BOTTOM,
                        margin_left: DEFAULT_MARGIN_LEFT,
                    })
                    &&& t.base_style == (ResolvedStyle {
                        font_size: match config.font_size {
                            Some(s) => s,
                            None => DEFAULT_FONT_SIZE,
                        },
                        font_color: spec_black(),
                        bold: false,
                        italic: false,
                        align: TextAlign::Left,
                    })
                    &&& config.font_size matches Some(s) ==> s != 0
                    &&& t.font == config.font_family
                    &&& config.font_family matches Some(b) ==> is_font_program(b@)
                    &&& t.images@.len() == 0
                    &&& t.flow@.len() == 0
                    &&& t.fixed@.len() == 0
                    &&& !t.closed
                },
                Err(e) => {
                    ||| (e == Error::InvalidFontSize && config.font_size == Some(0u32))
                    ||| (e == Error::InvalidFontProgram && config.font_size != Some(0u32) && (
                    config.font_family matches Some(b) && !is_font_program(b@)))
                },
            },
    {
        if let Some(s) = config.font_size {
            if s == 0 {
                return Err(Error::InvalidFontSize);
            }
        }
        if let Some(b) = &config.font_family {
            if !check_font_program(b) {
                return Err(Error::InvalidFontProgram);
            }
        }
        let size = match config.font_size {
            Some(s) => s,
            None => DEFAULT_FONT_SIZE,
        };
        Ok(
            RenderTarget {
                geom: PageGeometry {
                    page_width: PAGE_WIDTH,
                    page_height: PAGE_HEIGHT,
                    margin_top: DEFAULT_MARGIN_TOP,
                    margin_right: DEFAULT_MARGIN_RIGHT,
                    margin_bottom: DEFAULT_MARGIN_BOTTOM,
                    margin_left: DEFAULT_MARGIN_LEFT,
                },
                base_style: ResolvedStyle {
                    font_size: size,
                    font_color: crate::color::black(),
                    bold: false,
                    italic: false,
                    align: TextAlign::Left,
                },
                font: config.font_family,
                images: Vec::new(),
                flow: Vec::new(),
                fixed: Vec::new(),
                closed: false,
            },
        )
    }

    /// Register raw image bytes as an embedded resource; image boxes
    /// reference the returned index.  Fails with `DocumentClosedError` if
    /// and only if the document is closed.
    pub fn add_image_resource(&mut self, bytes: Vec<u8>) -> (r: Result<usize, Error>)
        ensures
            old(self).wf() ==> final(self).wf(),
            match r {
                Ok(idx) => {
                    &&& !old(self).closed
                    &&& idx == old(self).images@.len()
                    &&& final(self).images@ == old(self).images@.push(bytes)
                    &&& final(self).flow == old(self).flow
                    &&& final(self).fixed == old(self).fixed
                    &&& final(self).geom == old(self).geom
                    &&& final(self).base_style == old(self).base_style
                    &&& final(self).font == old(self).font
                    &&& final(self).closed == old(self).closed
                },
                Err(e) => e == Error::DocumentClosedError && old(self).closed && *final(self)
                    == *old(self),
            },
    {
        if self.closed {
            return Err(Error::DocumentClosedError);
        }
        let idx = self.images.len();
        self.images.push(bytes);
        Ok(idx)
    }

    /// Append a table to the document.
    ///
    /// The table's grid is completed and sealed; a table anchored by
    /// `set_fixed_position` leaves the normal flow.  Fails with
    /// `DocumentClosedError` if and only if the document is closed, and
    /// with `ImmutableBoxError` if and only if the table was already
    /// sealed; the document is then unchanged.
    pub fn add(&mut self, t: Table) -> (r: Result<(), Error>)
        requires
            t.wf(),
        ensures
            old(self).wf() ==> final(self).wf(),
            match r {
                Ok(()) => {
                    &&& !old(self).closed
                    &&& !t.sealed
                    &&& final(self).geom == old(self).geom
                    &&& final(self).base_style == old(self).base_style
                    &&& final(self).font == old(self).font
                    &&& final(self).images == old(self).images
                    &&& final(self).closed == old(self).closed
                    &&& match t.fixed {
                        Some((pos, scope)) => {
                            &&& final(self).flow == old(self).flow
                            &&& final(self).fixed@.len() == old(self).fixed@.len() + 1
                            &&& forall|i: int|
                                0 <= i < old(self).fixed@.len()
                                    ==> #[trigger] final(self).fixed@[i] == old(self).fixed@[i]
                            &&& final(self).fixed@.last().1 == pos
                            &&& final(self).fixed@.last().2 == scope
                            &&& final(self).fixed@.last().0 matches BoxContent::Table(ft)
                                && is_padded_form(ft, t)
                        },
                        None => {
                            &&& final(self).fixed == old(self).fixed
                            &&& final(self).flow@.len() == old(self).flow@.len() + 1
                            &&& forall|i: int|
                                0 <= i < old(self).flow@.len() ==> #[trigger] final(self).flow@[i]
                                    == old(self).flow@[i]
                            &&& final(self).flow@.last() matches BoxContent::Table(ft)
                                && is_padded_form(ft, t)
                        },
                    }
                },
                Err(e) => {
                    &&& *final(self) == *old(self)
                    &&& if old(self).closed {
                        e == Error::DocumentClosedError
                    } else {
                        e == Error::ImmutableBoxError && t.sealed
                    }
                },
            },
    {
        if self.closed {
            return Err(Error::DocumentClosedError);
        }
        let mut t = t;
        match t.finalize() {
            Ok(()) => (),
            Err(e) => {
                return Err(e);
            },
        }
        match t.fixed {
            Some((pos, scope)) => {
                self.fixed.push((BoxContent::Table(t), pos, scope));
            },
            None => {
                self.flow.push(BoxContent::Table(t));
            },
        }
        Ok(())
    }

    /// Append a free paragraph to the document flow.  Fails with
    /// `DocumentClosedError` if and only if the document is closed.
    pub fn add_paragraph(&mut self, p: crate::table::Paragraph) -> (r: Result<(), Error>)
        ensures
            old(self).wf() ==> final(self).wf(),
            match r {
                Ok(()) => {
                    &&& !old(self).closed
                    &&& final(self).flow@ == old(self).flow@.push(BoxContent::Paragraph(p))
                    &&& final(self).fixed == old(self).fixed
                    &&& final(self).geom == old(self).geom
                    &&& final(self).base_style == old(self).base_style
                    &&& final(self).font == old(self).font
                    &&& final(self).images == old(self).images
                    &&& final(self).closed == old(self).closed
                },
                Err(e) => e == Error::DocumentClosedError && old(self).closed && *final(self)
                    == *old(self),
            },
    {
        if self.closed {
            return Err(Error::DocumentClosedError);
        }
        self.flow.push(BoxContent::Paragraph(p));
        Ok(())
    }

    /// Close the document: no content may be appended afterwards.
    /// Closing a closed document fails with `DocumentClosedError`.
    pub fn close(&mut self) -> (r: Result<(), Error>)
        ensures
            old(self).wf() ==> final(self).wf(),
            match r {
                Ok(()) => !old(self).closed && *final(self) == (RenderTarget {
                    closed: true,
                    ..*old(self)
                }),
                Err(e) => e == Error::DocumentClosedError && old(self).closed && *final(self)
                    == *old(self),
            },
    {
        if self.closed {
            return Err(Error::DocumentClosedError);
        }
        self.closed = true;
        Ok(())
    }

    /// Serialize the document: paginate the flowed blocks, re-render
    /// every-page fixed blocks on each page and final-page fixed blocks
    /// on the last page, and emit the complete draw-command stream with
    /// the embedded resources.
    pub fn finish(self) -> (d: FinishedDocument)
        requires
            self.wf(),
        ensures
            views_of(d.commands@) =~= spec_document_cmds(
                self.flow@,
                self.fixed@,
                self.geom,
                self.base_style,
            ),
            d.font == self.font,
            d.images == self.images,
    {
        let ghost flow_v = self.flow@;
        let ghost fixed_v = self.fixed@;
        let ghost geom_v = self.geom;
        let ghost base_v = self.base_style;
        let ghost hs = doc_flow_heights(flow_v, base_v);
        let cap = self.geom.content_height();
        let mut heights: Vec<u64> = Vec::new();
        let mut k: usize = 0;
        while k < self.flow.len()
            invariant
                self.wf(),
                k <= self.flow@.len(),
                heights@.len() == k,
                flow_v == self.flow@,
                base_v == self.base_style,
                forall|j: int|
                    0 <= j < k ==> #[trigger] heights@[j] == spec_content_height(
                        self.flow@[j],
                        self.base_style,
                    ),
                forall|j: int|
                    0 <= j < k ==> #[trigger] heights@[j] <= crate::measure::HEIGHT_CEILING,
            decreases self.flow@.len() - k,
        {
            let h = crate::measure::measure_content(&self.flow[k], &self.base_style);
            heights.push(h);
            k = k + 1;
        }
        proof {
            assert(heights@.map_values(|h: u64| h as int) =~= hs);
        }
        let (assignment, offsets, page_count) = crate::paginate::paginate_all(&heights, cap);
        let mut out: Vec<DrawCmd> = Vec::new();
        let mut p: u128 = 0;
        while p < page_count
            invariant
                self.wf(),
                flow_v == self.flow@,
                fixed_v == self.fixed@,
                geom_v == self.geom,
                base_v == self.base_style,
                hs == doc_flow_heights(flow_v, base_v),
                cap == self.geom.spec_content_height(),
                p <= page_count,
                page_count as int == doc_page_count(flow_v, geom_v, base_v),
                assignment@.len() == self.flow@.len(),
                offsets@.len() == self.flow@.len(),
                forall|i: int|
                    0 <= i < self.flow@.len() ==> #[trigger] assignment@[i] == spec_page_of(
                        hs,
                        cap as int,
                        i,
                    ),
                forall|i: int|
                    0 <= i < self.flow@.len() ==> #[trigger] offsets@[i] == spec_y_of(
                        hs,
                        cap as int,
                        i,
                    ),
                views_of(out@) =~= pages_cmds_upto(
                    flow_v,
                    fixed_v,
                    geom_v,
                    base_v,
                    p as int,
                    page_count as int,
                ),
            decreases page_count - p,
        {
            let ghost out_pages = out@;
            out.push(
                DrawCmd::BeginPage { width: self.geom.page_width, height: self.geom.page_height },
            );
            proof {
                assert(views_of(out@) =~= views_of(out_pages) + seq![
                    DrawView::BeginPage {
                        width: geom_v.page_width,
                        height: geom_v.page_height,
                    },
                ]);
            }
            let mut i: usize = 0;
            while i < self.flow.len()
                invariant
                    self.wf(),
                    flow_v == self.flow@,
                    geom_v == self.geom,
                    base_v == self.base_style,
                    hs == doc_flow_heights(flow_v, base_v),
                    cap == self.geom.spec_content_height(),
                    i <= self.flow@.len(),
                    assignment@.len() == self.flow@.len(),
                    offsets@.len() == self.flow@.len(),
                    forall|ii: int|
                        0 <= ii < self.flow@.len() ==> #[trigger] assignment@[ii] == spec_page_of(
                            hs,
                            cap as int,
                            ii,
                        ),
                    forall|ii: int|
                        0 <= ii < self.flow@.len() ==> #[trigger] offsets@[ii] == spec_y_of(
                            hs,
                            cap as int,
                            ii,
                        ),
                    views_of(out@) =~= views_of(out_pages) + seq![
                        DrawView::BeginPage {
                            width: geom_v.page_width,
                            height: geom_v.page_height,
                        },
                    ] + flow_on_page_cmds(flow_v, geom_v, base_v, i as int, p as int),
                decreases self.flow@.len() - i,
            {
                let ghost out_prev = out@;
                if assignment[i] as u128 == p {
                    let y: u128 = self.geom.margin_top as u128 + offsets[i] as u128;
                    crate::draw::emit_content(
                        &mut out,
                        &self.flow[i],
                        self.geom.margin_left as u128,
                        y,
                        self.geom.content_width() as u64,
                        &self.base_style,
                    );
                    proof {
                        assert(spec_page_of(hs, cap as int, i as int) == p as int);
                        assert(views_of(out@) =~= views_of(out_prev) + flow_block_cmds(
                            flow_v,
                            geom_v,
                            base_v,
                            i as int,
                        ));
                    }
                } else {
                    proof {
                        assert(spec_page_of(hs, cap as int, i as int) != p as int);
                    }
                }
                i = i + 1;
                proof {
                    assert(views_of(out@) =~= views_of(out_pages) + seq![
                        DrawView::BeginPage {
                            width: geom_v.page_width,
                            height: geom_v.page_height,
                        },
                    ] + flow_on_page_cmds(flow_v, geom_v, base_v, i as int, p as int));
                }
            }
            let last: bool = p == page_count - 1;
            let mut f: usize = 0;
            while f < self.fixed.len()
                invariant
                    self.wf(),
                    flow_v == self.flow@,
                    fixed_v == self.fixed@,
                    geom_v == self.geom,
                    base_v == self.base_style,
                    f <= self.fixed@.len(),
                    views_of(out@) =~= views_of(out_pages) + seq![
                        DrawView::BeginPage {
                            width: geom_v.page_width,
                            height: geom_v.page_height,
                        },
                    ] + flow_on_page_cmds(
                        flow_v,
                        geom_v,
                        base_v,
                        flow_v.len() as int,
                        p as int,
                    ) + fixed_cmds(fixed_v, geom_v, base_v, f as int, last),
                decreases self.fixed@.len() - f,
            {
                let ghost out_prev = out@;
                let scope_matches: bool = match self.fixed[f].2 {
                    FixedScope::EveryPage => true,
                    FixedScope::FinalPage => last,
                };
                if scope_matches {
                    let h = crate::measure::measure_content(&self.fixed[f].0, &self.base_style);
                    let ob: u64 = self.fixed[f].1.offset_bottom as u64;
                    let fy: u64 = if ob + h >= self.geom.page_height as u64 {
                        0
                    } else {
                        self.geom.page_height as u64 - ob - h
                    };
                    crate::draw::emit_content(
                        &mut out,
                        &self.fixed[f].0,
                        self.fixed[f].1.offset_left as u128,
                        fy as u128,
                        self.fixed[f].1.width as u64,
                        &self.base_style,
                    );
                    proof {
                        assert(fy as int == fixed_block_y(
                            fixed_v[f as int].0,
                            fixed_v[f as int].1,
                            geom_v,
                            base_v,
                        ));
                    }
                }
                f = f + 1;
                proof {
                    assert(views_of(out@) =~= views_of(out_pages) + seq![
                        DrawView::BeginPage {
                            width: geom_v.page_width,
                            height: geom_v.page_height,
                        },
                    ] + flow_on_page_cmds(
                        flow_v,
                        geom_v,
                        base_v,
                        flow_v.len() as int,
                        p as int,
                    ) + fixed_cmds(fixed_v, geom_v, base_v, f as int, last));
                }
            }
            p = p + 1;
            proof {
                assert(p as int - 1 == (p as int) - 1);
                assert((p as int == page_count as int) == last);
                assert(views_of(out@) =~= pages_cmds_upto(
                    flow_v,
                    fixed_v,
                    geom_v,
                    base_v,
                    p as int,
                    page_count as int,
                ));
            }
        }
        FinishedDocument { commands: out, font: self.font, images: self.images }
    }
}

} // verus!
