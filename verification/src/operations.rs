//! The editable document: tools, operations, the operation stack, and the
//! deterministic replay that turns the stack into draw commands.
//!
//! The stack owns an ordered, append-only sequence of committed operations,
//! at most one in-progress operation, the active tool, two colour slots, and
//! an optional crop region. Interaction events map one-to-one onto its
//! mutators; every redraw replays the document with [`OperationStack::execute`].

use vstd::prelude::*;

use crate::data::Colour;
use crate::data::Ellipse;
use crate::data::MAX_COORD;
use crate::data::Point;
use crate::data::Rectangle;
use crate::data::Text;
use crate::data::TextView;

verus! {

/// The tool a pointer press starts an operation of.
#[derive(Clone, Copy, Debug, PartialEq, Eq, Structural)]
pub enum Tool {
    Line,
    Arrow,
    Rectangle,
    Ellipse,
    Highlight,
    Pixelate,
    Blur,
    AutoincrementBubble,
    Text,
    CropAndSave,
}

/// One annotation of the document. Every operation is anchored at the point
/// the pointer went down; all but `Text` also carry the point it was dragged
/// to, and the drawing tools carry the colour that was active when the
/// operation was created.
#[derive(Debug, PartialEq, Eq)]
pub enum Operation {
    Line { start: Point, end: Point, colour: Colour },
    Arrow { start: Point, end: Point, colour: Colour },
    Rectangle { start: Point, end: Point, colour: Colour },
    Ellipse { start: Point, end: Point, colour: Colour },
    Highlight { start: Point, end: Point, colour: Colour },
    Pixelate { start: Point, end: Point },
    Blur { start: Point, end: Point },
    AutoincrementBubble { start: Point, end: Point, colour: Colour },
    Text { start: Point, text: Text },
    CropAndSave { start: Point, end: Point },
}

/// Mathematical value of an [`Operation`].
pub ghost enum OperationView {
    Line { start: Point, end: Point, colour: Colour },
    Arrow { start: Point, end: Point, colour: Colour },
    Rectangle { start: Point, end: Point, colour: Colour },
    Ellipse { start: Point, end: Point, colour: Colour },
    Highlight { start: Point, end: Point, colour: Colour },
    Pixelate { start: Point, end: Point },
    Blur { start: Point, end: Point },
    AutoincrementBubble { start: Point, end: Point, colour: Colour },
    Text { start: Point, text: TextView },
    CropAndSave { start: Point, end: Point },
}

impl View for Operation {
    type V = OperationView;

    open spec fn view(&self) -> OperationView {
        match *self {
            Operation::Line { start, end, colour } => OperationView::Line { start, end, colour },
            Operation::Arrow { start, end, colour } => OperationView::Arrow { start, end, colour },
            Operation::Rectangle { start, end, colour } => OperationView::Rectangle {
                start,
                end,
                colour,
            },
            Operation::Ellipse { start, end, colour } => OperationView::Ellipse {
                start,
                end,
                colour,
            },
            Operation::Highlight { start, end, colour } => OperationView::Highlight {
                start,
                end,
                colour,
            },
            Operation::Pixelate { start, end } => OperationView::Pixelate { start, end },
            Operation::Blur { start, end } => OperationView::Blur { start, end },
            Operation::AutoincrementBubble { start, end, colour } => {
                OperationView::AutoincrementBubble { start, end, colour }
            },
            Operation::Text { start, ref text } => OperationView::Text { start, text: text@ },
            Operation::CropAndSave { start, end } => OperationView::CropAndSave { start, end },
        }
    }
}

impl OperationView {
    /// The point the operation is anchored at.
    pub open spec fn start(self) -> Point {
        match self {
            OperationView::Line { start, .. } => start,
            OperationView::Arrow { start, .. } => start,
            OperationView::Rectangle { start, .. } => start,
            OperationView::Ellipse { start, .. } => start,
            OperationView::Highlight { start, .. } => start,
            OperationView::Pixelate { start, .. } => start,
            OperationView::Blur { start, .. } => start,
            OperationView::AutoincrementBubble { start, .. } => start,
            OperationView::Text { start, .. } => start,
            OperationView::CropAndSave { start, .. } => start,
        }
    }

    /// The operation with its end point moved to `p`. A text operation has no
    /// end point and is unchanged.
    pub open spec fn with_end(self, p: Point) -> OperationView {
        match self {
            OperationView::Line { start, colour, .. } => OperationView::Line {
                start,
                end: p,
                colour,
            },
            OperationView::Arrow { start, colour, .. } => OperationView::Arrow {
                start,
                end: p,
                colour,
            },
            OperationView::Rectangle { start, colour, .. } => OperationView::Rectangle {
                start,
                end: p,
                colour,
            },
            OperationView::Ellipse { start, colour, .. } => OperationView::Ellipse {
                start,
                end: p,
                colour,
            },
            OperationView::Highlight { start, colour, .. } => OperationView::Highlight {
                start,
                end: p,
                colour,
            },
            OperationView::Pixelate { start, .. } => OperationView::Pixelate { start, end: p },
            OperationView::Blur { start, .. } => OperationView::Blur { start, end: p },
            OperationView::AutoincrementBubble { start, colour, .. } => {
                OperationView::AutoincrementBubble { start, end: p, colour }
            },
            OperationView::Text { start, text } => OperationView::Text { start, text },
            OperationView::CropAndSave { start, .. } => OperationView::CropAndSave {
                start,
                end: p,
            },
        }
    }

    /// Whether every coordinate of the operation lies within the editor's
    /// coordinate range.
    pub open spec fn bounded(self) -> bool {
        match self {
            OperationView::Line { start, end, .. } => start.bounded() && end.bounded(),
            OperationView::Arrow { start, end, .. } => start.bounded() && end.bounded(),
            OperationView::Rectangle { start, end, .. } => start.bounded() && end.bounded(),
            OperationView::Ellipse { start, end, .. } => start.bounded() && end.bounded(),
            OperationView::Highlight { start, end, .. } => start.bounded() && end.bounded(),
            OperationView::Pixelate { start, end } => start.bounded() && end.bounded(),
            OperationView::Blur { start, end } => start.bounded() && end.bounded(),
            OperationView::AutoincrementBubble { start, end, .. } => start.bounded()
                && end.bounded(),
            OperationView::Text { start, .. } => start.bounded(),
            OperationView::CropAndSave { start, end } => start.bounded() && end.bounded(),
        }
    }
}

impl Operation {
    /// The operation with its end point moved to `p`. A text operation has no
    /// end point and is returned unchanged.
    pub fn with_end(self, p: Point) -> (r: Operation)
        ensures
            r@ == self@.with_end(p),
    {
        match self {
            Operation::Line { start, colour, .. } => Operation::Line { start, end: p, colour },
            Operation::Arrow { start, colour, .. } => Operation::Arrow { start, end: p, colour },
            Operation::Rectangle { start, colour, .. } => Operation::Rectangle {
                start,
                end: p,
                colour,
            },
            Operation::Ellipse { start, colour, .. } => Operation::Ellipse {
                start,
                end: p,
                colour,
            },
            Operation::Highlight { start, colour, .. } => Operation::Highlight {
                start,
                end: p,
                colour,
            },
            Operation::Pixelate { start, .. } => Operation::Pixelate { start, end: p },
            Operation::Blur { start, .. } => Operation::Blur { start, end: p },
            Operation::AutoincrementBubble { start, colour, .. } => {
                Operation::AutoincrementBubble { start, end: p, colour }
            },
            Operation::Text { start, text } => Operation::Text { start, text },
            Operation::CropAndSave { start, .. } => Operation::CropAndSave { start, end: p },
        }
    }
}

/// The normalised box spanned between two drag corners: origin at the
/// component-wise minimum, extents the absolute differences.
pub open spec fn spec_normalised_rect(a: Point, b: Point) -> Rectangle {
    Rectangle {
        x: if b.x < a.x {
            b.x
        } else {
            a.x
        },
        y: if b.y < a.y {
            b.y
        } else {
            a.y
        },
        w: (if b.x < a.x {
            a.x - b.x
        } else {
            b.x - a.x
        }) as i64,
        h: (if b.y < a.y {
            a.y - b.y
        } else {
            b.y - a.y
        }) as i64,
    }
}

/// The operation a pointer press begins: an operation of the current tool's
/// kind with both corners seeded at the press point. A text operation starts
/// with an empty string and font description, both filled in later; for
/// `CropAndSave` the press seeds the candidate crop rectangle's corner.
pub open spec fn spec_operation_started(tool: Tool, p: Point, colour: Colour) -> OperationView {
    match tool {
        Tool::Line => OperationView::Line { start: p, end: p, colour },
        Tool::Arrow => OperationView::Arrow { start: p, end: p, colour },
        Tool::Rectangle => OperationView::Rectangle { start: p, end: p, colour },
        Tool::Ellipse => OperationView::Ellipse { start: p, end: p, colour },
        Tool::Highlight => OperationView::Highlight { start: p, end: p, colour },
        Tool::Pixelate => OperationView::Pixelate { start: p, end: p },
        Tool::Blur => OperationView::Blur { start: p, end: p },
        Tool::AutoincrementBubble => OperationView::AutoincrementBubble { start: p, end: p, colour },
        Tool::Text => OperationView::Text {
            start: p,
            text: TextView {
                string: Seq::empty(),
                font_description: Seq::empty(),
                colour,
            },
        },
        Tool::CropAndSave => OperationView::CropAndSave { start: p, end: p },
    }
}

/// Mathematical value of an [`OperationStack`].
pub ghost struct StackView {
    pub committed: Seq<OperationView>,
    pub in_progress: Option<OperationView>,
    pub current_tool: Tool,
    pub primary_colour: Colour,
    pub secondary_colour: Colour,
    pub crop_region: Option<Rectangle>,
}

impl StackView {
    /// Well-formedness of the document: every operation's coordinates lie
    /// within the editor's coordinate range, and the crop region, once set,
    /// is a normalised in-range rectangle.
    pub open spec fn wf(self) -> bool {
        &&& forall|i: int|
            0 <= i < self.committed.len() ==> (#[trigger] self.committed[i]).bounded()
        &&& match self.in_progress {
            Some(op) => op.bounded(),
            None => true,
        }
        &&& match self.crop_region {
            Some(r) => r.normalised() && r.bounded(),
            None => true,
        }
    }
}

/// The editable document of one capture session.
///
/// Committed operations are append-only; insertion order is render order.
/// All mutation happens on one control thread, driven by discrete input
/// events, so the mutators are plain `&mut self` methods: the borrow checker
/// rules out the re-entrant invocation that the surrounding event loop must
/// guard against.
#[derive(Debug)]
pub struct OperationStack {
    committed: Vec<Operation>,
    in_progress: Option<Operation>,
    current_tool: Tool,
    pub primary_colour: Colour,
    pub secondary_colour: Colour,
    crop_region: Option<Rectangle>,
}

impl View for OperationStack {
    type V = StackView;

    closed spec fn view(&self) -> StackView {
        StackView {
            committed: self.committed@.map_values(|op: Operation| op@),
            in_progress: match self.in_progress {
                Some(ref op) => Some(op@),
                None => None,
            },
            current_tool: self.current_tool,
            primary_colour: self.primary_colour,
            secondary_colour: self.secondary_colour,
            crop_region: self.crop_region,
        }
    }
}

impl OperationStack {
    /// A fresh document: nothing committed, nothing in progress, the crop
    /// tool active, and both colour slots at the default black.
    pub fn new() -> (s: OperationStack)
        ensures
            s@ == (StackView {
                committed: Seq::<OperationView>::empty(),
                in_progress: None,
                current_tool: Tool::CropAndSave,
                primary_colour: Colour::black(),
                secondary_colour: Colour::black(),
                crop_region: None,
            }),
            s@.wf(),
    {
        let s = OperationStack {
            committed: Vec::new(),
            in_progress: None,
            current_tool: Tool::CropAndSave,
            primary_colour: Colour::black(),
            secondary_colour: Colour::black(),
            crop_region: None,
        };
        proof {
            assert(s@.committed =~= Seq::<OperationView>::empty());
        }
        s
    }

    /// The active tool.
    pub fn current_tool(&self) -> (t: Tool)
        ensures
            t == self@.current_tool,
    {
        self.current_tool
    }

    /// Switch the active tool; existing operations are unaffected.
    pub fn set_current_tool(&mut self, tool: Tool)
        ensures
            final(self)@ == (StackView { current_tool: tool, ..old(self)@ }),
    {
        self.current_tool = tool;
    }

    /// Begin an in-progress operation of the current tool's kind, anchored at
    /// `point` and carrying the primary colour. A previous in-progress
    /// operation, if any, is replaced.
    pub fn start_operation_at(&mut self, point: Point)
        requires
            point.bounded(),
        ensures
            final(self)@ == (StackView {
                in_progress: Some(
                    spec_operation_started(
                        old(self)@.current_tool,
                        point,
                        old(self)@.primary_colour,
                    ),
                ),
                ..old(self)@
            }),
            old(self)@.wf() ==> final(self)@.wf(),
    {
        let colour = self.primary_colour;
        let op = match self.current_tool {
            Tool::Line => Operation::Line { start: point, end: point, colour },
            Tool::Arrow => Operation::Arrow { start: point, end: point, colour },
            Tool::Rectangle => Operation::Rectangle { start: point, end: point, colour },
            Tool::Ellipse => Operation::Ellipse { start: point, end: point, colour },
            Tool::Highlight => Operation::Highlight { start: point, end: point, colour },
            Tool::Pixelate => Operation::Pixelate { start: point, end: point },
            Tool::Blur => Operation::Blur { start: point, end: point },
            Tool::AutoincrementBubble => {
                Operation::AutoincrementBubble { start: point, end: point, colour }
            },
            Tool::Text => Operation::Text {
                start: point,
                text: Text {
                    string: String::new(),
                    font_description: String::new(),
                    colour,
                },
            },
            Tool::CropAndSave => Operation::CropAndSave { start: point, end: point },
        };
        self.in_progress = Some(op);
    }

    /// Move the in-progress operation's end point to `(x, y)`. A no-op when
    /// no operation is in progress, and for a text operation, which has no
    /// end point.
    pub fn update_current_operation_end_coordinate(&mut self, x: i64, y: i64)
        requires
            -MAX_COORD <= x <= MAX_COORD,
            -MAX_COORD <= y <= MAX_COORD,
        ensures
            final(self)@ == (StackView {
                in_progress: match old(self)@.in_progress {
                    Some(op) => Some(op.with_end(Point { x, y })),
                    None => None,
                },
                ..old(self)@
            }),
            old(self)@.wf() ==> final(self)@.wf(),
    {
        match self.in_progress.take() {
            Some(op) => {
                self.in_progress = Some(op.with_end(Point { x, y }));
            },
            None => {},
        }
    }

    /// Finish the in-progress operation. For any tool except `CropAndSave`
    /// the operation is appended to the committed sequence; finishing a
    /// `CropAndSave` operation instead sets the crop region to the normalised
    /// rectangle between its corners and appends nothing drawable. A no-op
    /// when no operation is in progress.
    pub fn finish_current_operation(&mut self)
        requires
            old(self)@.wf(),
        ensures
            final(self)@ == (match old(self)@.in_progress {
                Some(op) => {
                    if op is CropAndSave {
                        StackView {
                            in_progress: None,
                            crop_region: Some(
                                spec_normalised_rect(op->CropAndSave_start, op->CropAndSave_end),
                            ),
                            ..old(self)@
                        }
                    } else {
                        StackView {
                            committed: old(self)@.committed.push(op),
                            in_progress: None,
                            ..old(self)@
                        }
                    }
                },
                None => old(self)@,
            }),
            final(self)@.wf(),
    {
        match self.in_progress.take() {
            Some(op) => {
                match op {
                    Operation::CropAndSave { start, end } => {
                        self.crop_region = Some(normalised_rect_between(start, end));
                    },
                    other => {
                        self.committed.push(other);
                        proof {
                            assert(self@.committed =~= old(self)@.committed.push(other@));
                        }
                    },
                }
            },
            None => {},
        }
    }

    /// Fill in the pending text operation's string and commit it. A no-op
    /// when the in-progress operation is not a text operation.
    pub fn set_text(&mut self, string: String)
        ensures
            final(self)@ == (match old(self)@.in_progress {
                Some(OperationView::Text { start, text }) => StackView {
                    committed: old(self)@.committed.push(
                        OperationView::Text {
                            start,
                            text: TextView { string: string@, ..text },
                        },
                    ),
                    in_progress: None,
                    ..old(self)@
                },
                _ => old(self)@,
            }),
            old(self)@.wf() ==> final(self)@.wf(),
    {
        match self.in_progress.take() {
            Some(op) => {
                match op {
                    Operation::Text { start, mut text } => {
                        text.string = string;
                        let finished = Operation::Text { start, text };
                        self.committed.push(finished);
                        proof {
                            assert(self@.committed =~= old(self)@.committed.push(finished@));
                        }
                    },
                    other => {
                        self.in_progress = Some(other);
                    },
                }
            },
            None => {},
        }
    }

    /// The crop region, normalised, or `None` when no crop was ever set.
    pub fn crop_region(&self) -> (r: Option<Rectangle>)
        ensures
            r == self@.crop_region,
    {
        self.crop_region
    }
}

/// Build the normalised box spanned between two drag corners.
pub fn normalised_rect_between(a: Point, b: Point) -> (r: Rectangle)
    requires
        a.bounded(),
        b.bounded(),
    ensures
        r == spec_normalised_rect(a, b),
        r.normalised(),
        r.bounded(),
{
    let mut r = Rectangle { x: a.x, y: a.y, w: b.x - a.x, h: b.y - a.y };
    r.normalise();
    r
}

/// How a degraded region's pixels are computed.
#[derive(Clone, Copy, Debug, PartialEq, Eq, Structural)]
pub enum DegradeKind {
    /// Block-averaging.
    Pixelate,
    /// Blurring.
    Blur,
}

/// One step of a replay, to be painted onto the drawing surface in order.
///
/// `DegradeFromBase` reads the pixels within its area from the **original
/// base surface** — never from an intermediate annotated layer — degrades
/// them, and writes them back into the same area. `FillHighlight` is an
/// alpha-blended fill with the stored colour's own alpha, composited over
/// whatever is already painted.
#[derive(Debug, PartialEq, Eq)]
pub enum DrawCommand {
    /// Paint the unmodified base surface.
    PaintBase,
    /// Stroke a segment between the two points.
    StrokeLine { start: Point, end: Point, colour: Colour },
    /// Stroke a segment and a terminal arrowhead at `end`.
    StrokeArrow { start: Point, end: Point, colour: Colour },
    /// Outline the normalised bounding box.
    StrokeRectangle { area: Rectangle, colour: Colour },
    /// Outline the ellipse inscribed in the normalised bounding box.
    StrokeEllipse { area: Ellipse, colour: Colour },
    /// Alpha-blended fill of the normalised bounding box.
    FillHighlight { area: Rectangle, colour: Colour },
    /// Re-sample the area from the base surface, degrade it, write it back.
    DegradeFromBase { kind: DegradeKind, area: Rectangle },
    /// Draw a numbered marker at the centre point.
    DrawBubble { centre: Point, number: usize, colour: Colour },
    /// Render the string with its font, anchored at `anchor`.
    DrawText { anchor: Point, string: String, font_description: String, colour: Colour },
}

/// Mathematical value of a [`DrawCommand`].
pub ghost enum DrawCommandView {
    PaintBase,
    StrokeLine { start: Point, end: Point, colour: Colour },
    StrokeArrow { start: Point, end: Point, colour: Colour },
    StrokeRectangle { area: Rectangle, colour: Colour },
    StrokeEllipse { area: Ellipse, colour: Colour },
    FillHighlight { area: Rectangle, colour: Colour },
    DegradeFromBase { kind: DegradeKind, area: Rectangle },
    DrawBubble { centre: Point, number: usize, colour: Colour },
    DrawText { anchor: Point, string: Seq<char>, font_description: Seq<char>, colour: Colour },
}

impl View for DrawCommand {
    type V = DrawCommandView;

    open spec fn view(&self) -> DrawCommandView {
        match *self {
            DrawCommand::PaintBase => DrawCommandView::PaintBase,
            DrawCommand::StrokeLine { start, end, colour } => DrawCommandView::StrokeLine {
                start,
                end,
                colour,
            },
            DrawCommand::StrokeArrow { start, end, colour } => DrawCommandView::StrokeArrow {
                start,
                end,
                colour,
            },
            DrawCommand::StrokeRectangle { area, colour } => DrawCommandView::StrokeRectangle {
                area,
                colour,
            },
            DrawCommand::StrokeEllipse { area, colour } => DrawCommandView::StrokeEllipse {
                area,
                colour,
            },
            DrawCommand::FillHighlight { area, colour } => DrawCommandView::FillHighlight {
                area,
                colour,
            },
            DrawCommand::DegradeFromBase { kind, area } => DrawCommandView::DegradeFromBase {
                kind,
                area,
            },
            DrawCommand::DrawBubble { centre, number, colour } => DrawCommandView::DrawBubble {
                centre,
                number,
                colour,
            },
            DrawCommand::DrawText { anchor, ref string, ref font_description, colour } => {
                DrawCommandView::DrawText {
                    anchor,
                    string: string@,
                    font_description: font_description@,
                    colour,
                }
            },
        }
    }
}

/// Whether an operation is a numbered bubble marker.
pub open spec fn spec_is_bubble(op: OperationView) -> bool {
    op is AutoincrementBubble
}

/// How many of the operations are bubble markers.
pub open spec fn spec_bubble_count(ops: Seq<OperationView>) -> nat
    decreases ops.len(),
{
    if ops.len() == 0 {
        0
    } else {
        spec_bubble_count(ops.drop_last()) + (if spec_is_bubble(ops.last()) {
            1nat
        } else {
            0nat
        })
    }
}

/// The command an operation renders as, given how many bubble markers were
/// committed earlier in the sequence: a bubble marker's number is one plus
/// that count, evaluated at render time. A `CropAndSave` operation is not
/// rendered.
pub open spec fn spec_command_of(op: OperationView, bubbles_before: nat) -> Option<
    DrawCommandView,
> {
    match op {
        OperationView::Line { start, end, colour } => Some(
            DrawCommandView::StrokeLine { start, end, colour },
        ),
        OperationView::Arrow { start, end, colour } => Some(
            DrawCommandView::StrokeArrow { start, end, colour },
        ),
        OperationView::Rectangle { start, end, colour } => Some(
            DrawCommandView::StrokeRectangle { area: spec_normalised_rect(start, end), colour },
        ),
        OperationView::Ellipse { start, end, colour } => {
            let r = spec_normalised_rect(start, end);
            Some(
                DrawCommandView::StrokeEllipse {
                    area: Ellipse { x: r.x, y: r.y, w: r.w, h: r.h },
                    colour,
                },
            )
        },
        OperationView::Highlight { start, end, colour } => Some(
            DrawCommandView::FillHighlight { area: spec_normalised_rect(start, end), colour },
        ),
        OperationView::Pixelate { start, end } => Some(
            DrawCommandView::DegradeFromBase {
                kind: DegradeKind::Pixelate,
                area: spec_normalised_rect(start, end),
            },
        ),
        OperationView::Blur { start, end } => Some(
            DrawCommandView::DegradeFromBase {
                kind: DegradeKind::Blur,
                area: spec_normalised_rect(start, end),
            },
        ),
        OperationView::AutoincrementBubble { start, end, colour } => Some(
            DrawCommandView::DrawBubble {
                centre: start,
                number: (bubbles_before + 1) as usize,
                colour,
            },
        ),
        OperationView::Text { start, text } => Some(
            DrawCommandView::DrawText {
                anchor: start,
                string: text.string,
                font_description: text.font_description,
                colour: text.colour,
            },
        ),
        OperationView::CropAndSave { .. } => None,
    }
}

/// The commands a committed sequence renders as, in commit order.
pub open spec fn spec_commands(ops: Seq<OperationView>) -> Seq<DrawCommandView>
    decreases ops.len(),
{
    if ops.len() == 0 {
        Seq::empty()
    } else {
        spec_commands(ops.drop_last()) + (match spec_command_of(
            ops.last(),
            spec_bubble_count(ops.drop_last()),
        ) {
            Some(c) => seq![c],
            None => Seq::empty(),
        })
    }
}

/// The full replay of a document state: the unmodified base surface first,
/// then every committed operation in commit order, then — only in live
/// preview — the in-progress operation.
pub open spec fn spec_plan(s: StackView, include_in_progress: bool) -> Seq<DrawCommandView> {
    seq![DrawCommandView::PaintBase] + spec_commands(s.committed) + (if include_in_progress {
        match s.in_progress {
            Some(op) => match spec_command_of(op, spec_bubble_count(s.committed)) {
                Some(c) => seq![c],
                None => Seq::empty(),
            },
            None => Seq::empty(),
        }
    } else {
        Seq::empty()
    })
}

/// Counting bubbles one operation further extends the count by one exactly
/// when that operation is a bubble marker.
pub proof fn lemma_bubble_count_take_succ(ops: Seq<OperationView>, i: int)
    requires
        0 <= i < ops.len(),
    ensures
        spec_bubble_count(ops.take(i + 1)) == spec_bubble_count(ops.take(i)) + (if spec_is_bubble(
            ops[i],
        ) {
            1int
        } else {
            0int
        }),
{
    assert(ops.take(i + 1).drop_last() =~= ops.take(i));
    assert(ops.take(i + 1).last() == ops[i]);
}

/// Rendering one operation further appends that operation's command, if any.
pub proof fn lemma_commands_take_succ(ops: Seq<OperationView>, i: int)
    requires
        0 <= i < ops.len(),
    ensures
        spec_commands(ops.take(i + 1)) == spec_commands(ops.take(i)) + (match spec_command_of(
            ops[i],
            spec_bubble_count(ops.take(i)),
        ) {
            Some(c) => seq![c],
            None => Seq::empty(),
        }),
{
    assert(ops.take(i + 1).drop_last() =~= ops.take(i));
    assert(ops.take(i + 1).last() == ops[i]);
}

/// The view of an optional command.
pub open spec fn spec_opt_command_view(r: Option<DrawCommand>) -> Option<DrawCommandView> {
    match r {
        Some(c) => Some(c@),
        None => None,
    }
}

/// Render one operation, given how many bubble markers came earlier.
pub fn command_of(op: &Operation, bubbles_before: usize) -> (r: Option<DrawCommand>)
    requires
        op@.bounded(),
        bubbles_before < usize::MAX,
    ensures
        spec_opt_command_view(r) == spec_command_of(op@, bubbles_before as nat),
{
    match op {
        Operation::Line { start, end, colour } => Some(
            DrawCommand::StrokeLine { start: *start, end: *end, colour: *colour },
        ),
        Operation::Arrow { start, end, colour } => Some(
            DrawCommand::StrokeArrow { start: *start, end: *end, colour: *colour },
        ),
        Operation::Rectangle { start, end, colour } => Some(
            DrawCommand::StrokeRectangle {
                area: normalised_rect_between(*start, *end),
                colour: *colour,
            },
        ),
        Operation::Ellipse { start, end, colour } => {
            let r = normalised_rect_between(*start, *end);
            Some(
                DrawCommand::StrokeEllipse {
                    area: Ellipse { x: r.x, y: r.y, w: r.w, h: r.h },
                    colour: *colour,
                },
            )
        },
        Operation::Highlight { start, end, colour } => Some(
            DrawCommand::FillHighlight {
                area: normalised_rect_between(*start, *end),
                colour: *colour,
            },
        ),
        Operation::Pixelate { start, end } => Some(
            DrawCommand::DegradeFromBase {
                kind: DegradeKind::Pixelate,
                area: normalised_rect_between(*start, *end),
            },
        ),
        Operation::Blur { start, end } => Some(
            DrawCommand::DegradeFromBase {
                kind: DegradeKind::Blur,
                area: normalised_rect_between(*start, *end),
            },
        ),
        Operation::AutoincrementBubble { start, end: _, colour } => Some(
            DrawCommand::DrawBubble {
                centre: *start,
                number: bubbles_before + 1,
                colour: *colour,
            },
        ),
        Operation::Text { start, text } => Some(
            DrawCommand::DrawText {
                anchor: *start,
                string: text.string.clone(),
                font_description: text.font_description.clone(),
                colour: text.colour,
            },
        ),
        Operation::CropAndSave { .. } => None,
    }
}

impl OperationStack {
    /// Replay the document into its ordered list of draw commands: the base
    /// surface unmodified first, then every committed operation in commit
    /// order, then — only if `include_in_progress` is set, for interactive
    /// live preview — the in-progress operation.
    ///
    /// The result is a pure function of the document state and the flag, so
    /// repeated replays of an unmodified document paint identically.
    #[verifier::loop_isolation(false)]
    pub fn execute(&self, include_in_progress: bool) -> (cmds: Vec<DrawCommand>)
        requires
            self@.wf(),
            self@.committed.len() < usize::MAX,
        ensures
            cmds@.map_values(|c: DrawCommand| c@) == spec_plan(self@, include_in_progress),
            cmds@.len() >= 1,
            cmds@[0]@ is PaintBase,
    {
        let ghost ops = self@.committed;
        let ghost cv = |c: DrawCommand| c@;
        let mut cmds: Vec<DrawCommand> = Vec::new();
        cmds.push(DrawCommand::PaintBase);
        let mut bubbles: usize = 0;
        proof {
            assert(ops.take(0int) =~= Seq::<OperationView>::empty());
            assert(cmds@.map_values(cv) =~= seq![DrawCommandView::PaintBase] + spec_commands(
                ops.take(0int),
            ));
        }
        let n = self.committed.len();
        for i in 0..n
            invariant
                bubbles <= i,
                bubbles as nat == spec_bubble_count(ops.take(i as int)),
                cmds@.map_values(cv) == seq![DrawCommandView::PaintBase] + spec_commands(
                    ops.take(i as int),
                ),
        {
            let op = &self.committed[i];
            proof {
                assert(op@ == ops[i as int]);
                assert(op@.bounded());
                lemma_commands_take_succ(ops, i as int);
                lemma_bubble_count_take_succ(ops, i as int);
            }
            match command_of(op, bubbles) {
                Some(c) => {
                    proof {
                        assert(spec_command_of(
                            ops[i as int],
                            spec_bubble_count(ops.take(i as int)),
                        ) == Some(c@));
                    }
                    let ghost before = cmds@;
                    cmds.push(c);
                    proof {
                        assert(cmds@.map_values(cv) =~= before.map_values(cv).push(c@));
                        assert(cmds@.map_values(cv) =~= seq![DrawCommandView::PaintBase]
                            + spec_commands(ops.take(i as int + 1)));
                    }
                },
                None => {
                    proof {
                        assert(cmds@.map_values(cv) =~= seq![DrawCommandView::PaintBase]
                            + spec_commands(ops.take(i as int + 1)));
                    }
                },
            }
            match op {
                Operation::AutoincrementBubble { .. } => {
                    bubbles = bubbles + 1;
                },
                _ => {},
            }
        }
        proof {
            assert(ops.take(n as int) =~= ops);
        }
        if include_in_progress {
            match &self.in_progress {
                Some(op) => {
                    proof {
                        assert(self@.in_progress == Some(op@));
                    }
                    match command_of(op, bubbles) {
                        Some(c) => {
                            let ghost before = cmds@;
                            cmds.push(c);
                            proof {
                                assert(cmds@.map_values(cv) =~= before.map_values(cv).push(c@));
                            }
                        },
                        None => {},
                    }
                },
                None => {},
            }
        }
        proof {
            assert(cmds@.map_values(cv) =~= spec_plan(self@, include_in_progress));
            assert(cmds@.map_values(cv)[0] == cmds@[0]@);
            assert(spec_plan(self@, include_in_progress)[0] == DrawCommandView::PaintBase);
        }
        cmds
    }
}

/// Replay is deterministic: for one document state and one preview flag, the
/// replayed command list is always the same, so two successive replays over
/// an unmodified base surface paint identical output — each command is a
/// pure function of its own parameters and the surface it is applied to.
pub proof fn lemma_execute_deterministic(s1: StackView, s2: StackView, include_in_progress: bool)
    requires
        s1 == s2,
    ensures
        spec_plan(s1, include_in_progress) == spec_plan(s2, include_in_progress),
{
}

/// The numbers carried by the bubble commands of a replay, in order.
pub open spec fn spec_bubble_numbers(cmds: Seq<DrawCommandView>) -> Seq<usize> {
    cmds.filter_map(
        |c: DrawCommandView|
            match c {
                DrawCommandView::DrawBubble { number, .. } => Some(number),
                _ => None,
            },
    )
}

/// For N committed bubble markers interleaved with any other operations,
/// their rendered numbers are exactly 1..N, in commit order.
pub proof fn lemma_bubble_numbers_sequential(ops: Seq<OperationView>)
    ensures
        spec_bubble_numbers(spec_commands(ops)) == Seq::new(
            spec_bubble_count(ops),
            |k: int| (k + 1) as usize,
        ),
    decreases ops.len(),
{
    let f = |c: DrawCommandView|
        match c {
            DrawCommandView::DrawBubble { number, .. } => Some(number),
            _ => None,
        };
    if ops.len() == 0 {
        assert(spec_commands(ops).filter_map(f) =~= Seq::<usize>::empty());
        assert(spec_bubble_numbers(spec_commands(ops)) =~= Seq::new(
            spec_bubble_count(ops),
            |k: int| (k + 1) as usize,
        ));
    } else {
        let d = ops.drop_last();
        let last = ops.last();
        lemma_bubble_numbers_sequential(d);
        let prefix = spec_commands(d);
        match spec_command_of(last, spec_bubble_count(d)) {
            Some(c) => {
                assert(spec_commands(ops) =~= prefix.push(c));
                assert(spec_commands(ops).drop_last() =~= prefix);
                assert(spec_commands(ops).filter_map(f) == prefix.filter_map(f) + (match f(c) {
                    Some(x) => seq![x],
                    None => Seq::<usize>::empty(),
                }));
            },
            None => {
                assert(spec_commands(ops) =~= prefix);
            },
        }
        assert(spec_bubble_numbers(spec_commands(ops)) =~= Seq::new(
            spec_bubble_count(ops),
            |k: int| (k + 1) as usize,
        ));
    }
}

/// Moving only the selection's end point of an in-progress pixelate or blur
/// and replaying changes nothing but the final degrade command: every
/// command for a committed operation is unchanged, and the degrade command
/// still reads its pixels from the original base surface — the area it
/// re-samples is the new selection, never a previously degraded region.
pub proof fn lemma_degrade_resamples_base(s: StackView, op: OperationView, x: i64, y: i64)
    requires
        s.in_progress == Some(op),
        op is Pixelate || op is Blur,
    ensures
        ({
            let moved = StackView { in_progress: Some(op.with_end(Point { x, y })), ..s };
            let before = spec_plan(s, true);
            let after = spec_plan(moved, true);
            &&& after.len() == before.len()
            &&& forall|i: int| 0 <= i < after.len() - 1 ==> after[i] == before[i]
            &&& after.last() == (DrawCommandView::DegradeFromBase {
                kind: if op is Pixelate {
                    DegradeKind::Pixelate
                } else {
                    DegradeKind::Blur
                },
                area: spec_normalised_rect(op.start(), Point { x, y }),
            })
        }),
{
    let moved = StackView { in_progress: Some(op.with_end(Point { x, y })), ..s };
    let before = spec_plan(s, true);
    let after = spec_plan(moved, true);
    assert(after.len() == before.len());
    assert(forall|i: int| 0 <= i < after.len() - 1 ==> after[i] == before[i]);
}

} // verus!
