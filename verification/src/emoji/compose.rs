use vstd::prelude::*;
use crate::emoji::color::Color;
use crate::emoji::fit::{Bounds, Probe};
use crate::emoji::line::{draw_calls_of, DrawCall, DrawCallView, Line, LineView};
use crate::emoji::units::{pixels_from_units, LENGTH_MAX, UNIT};
use crate::emoji::utils::ImageFormat;

verus! {

/// Why a run was abandoned.
#[derive(Clone, Copy, PartialEq, Eq, Structural, Debug)]
pub enum Failure {
    /// The canvas could not be allocated.
    Surface,
    /// The drawn canvas could not be encoded.
    Encode,
}

/// The stages of composing a page, in the order they are gone through.
#[derive(Clone, Copy, PartialEq, Eq, Structural, Debug)]
pub enum Stage {
    PerLineMeasure,
    FlexibleWidthPass,
    FixedSizeSyncPass,
    Draw,
    Encode,
    Done,
    Failed(Failure),
}

/// What happened outside since the last action was handed out.
#[derive(Clone, Copy, PartialEq, Eq, Structural, Debug)]
pub enum Event {
    /// The probe was measured, with these bounds.
    Measured(Bounds),
    /// The canvas was allocated, cleared and drawn on.
    Drawn,
    /// The canvas could not be allocated.
    SurfaceFailed,
    /// The canvas was encoded.
    Encoded,
    /// The canvas could not be encoded.
    EncodeFailed,
}

/// What is to be done outside next.
#[derive(Clone, Copy, PartialEq, Eq, Structural, Debug)]
pub enum Action {
    /// Measure the text of line `line` at the probe's size and scale.
    Measure { line: usize, probe: Probe },
    /// Allocate the canvas and carry out the draw plan on it, step by step.
    Draw,
    /// Encode the canvas.
    Encode,
    /// Nothing more: the encoded image is the result.
    Finish,
    /// Nothing more: the run failed.
    Fail(Failure),
}

/// One step of drawing a page.
#[derive(Clone, PartialEq, Eq, Debug)]
pub enum DrawOp {
    /// Clear the whole canvas to this colour.
    Clear(Color),
    /// Draw one pass of a line's text.
    Text(DrawCall),
}

/// A `DrawOp` as a mathematical value.
pub enum DrawOpView {
    Clear(Color),
    Text(DrawCallView),
}

impl View for DrawOp {
    type V = DrawOpView;

    open spec fn view(&self) -> DrawOpView {
        match self {
            DrawOp::Clear(color) => DrawOpView::Clear(*color),
            DrawOp::Text(call) => DrawOpView::Text(call@),
        }
    }
}

/// The steps as mathematical values.
pub open spec fn draw_ops_of(ops: Seq<DrawOp>) -> Seq<DrawOpView> {
    Seq::new(ops.len(), |i: int| ops[i]@)
}

/// The drawing passes as steps of a plan, in their order.
pub open spec fn text_ops(calls: Seq<DrawCallView>) -> Seq<DrawOpView> {
    Seq::new(calls.len(), |i: int| DrawOpView::Text(calls[i]))
}

/// A page being composed: its lines, its canvas, and the stage it is at.
///
/// The composer does nothing outside itself. It says what is to be done
/// next (`pending`), is told what came of it (`step`), and so goes through
/// its stages to the end. Its state is always valid.
#[derive(Clone, Debug)]
pub struct Composer {
    lines: Vec<Line>,
    width: u64,
    height: u64,
    line_height: u64,
    flexible_width: bool,
    text_size_fixed: bool,
    background_color: Color,
    format: ImageFormat,
    quality: u32,
    stage: Stage,
    cursor: usize,
}

/// The mathematical content of a `Composer`.
pub struct Page {
    pub lines: Seq<LineView>,
    pub width: u64,
    pub height: u64,
    pub line_height: u64,
    pub flexible_width: bool,
    pub text_size_fixed: bool,
    pub background_color: Color,
    pub format: ImageFormat,
    pub quality: u32,
    pub stage: Stage,
    pub cursor: nat,
}

/// The lines as mathematical values.
pub open spec fn lines_of(lines: Seq<Line>) -> Seq<LineView> {
    Seq::new(lines.len(), |i: int| lines[i]@)
}

impl View for Composer {
    type V = Page;

    closed spec fn view(&self) -> Page {
        Page {
            lines: lines_of(self.lines@),
            width: self.width,
            height: self.height,
            line_height: self.line_height,
            flexible_width: self.flexible_width,
            text_size_fixed: self.text_size_fixed,
            background_color: self.background_color,
            format: self.format,
            quality: self.quality,
            stage: self.stage,
            cursor: self.cursor as nat,
        }
    }
}

/// The largest width that any of the lines measured at scale 1; 0 for no lines.
pub open spec fn max_raw_width(lines: Seq<LineView>) -> u32
    decreases lines.len(),
{
    if lines.len() == 0 {
        0
    } else {
        let rest = max_raw_width(lines.drop_last());
        let width = lines.last().fit.spec.raw_width;
        if width > rest {
            width
        } else {
            rest
        }
    }
}

/// The smallest font size among the lines; `u64::MAX` for no lines.
pub open spec fn min_text_size(lines: Seq<LineView>) -> u64
    decreases lines.len(),
{
    if lines.len() == 0 {
        u64::MAX
    } else {
        let rest = min_text_size(lines.drop_last());
        let size = lines.last().fit.spec.text_size;
        if size < rest {
            size
        } else {
            rest
        }
    }
}

/// The line in a box of another width, with its search started anew.
pub open spec fn restarted(line: LineView, width: u64, text_size: Option<u64>) -> LineView {
    let moved = LineView { width, ..line };
    LineView { fit: moved.spec_start(text_size), ..moved }
}

impl Stage {
    /// Whether the stage is one of the three that measure lines.
    pub open spec fn measuring(self) -> bool {
        self is PerLineMeasure || self is FlexibleWidthPass || self is FixedSizeSyncPass
    }

    /// Place of the stage in the order the stages are gone through; a failed
    /// run ranks with a finished one.
    pub open spec fn rank(self) -> nat {
        match self {
            Stage::PerLineMeasure => 0,
            Stage::FlexibleWidthPass => 1,
            Stage::FixedSizeSyncPass => 2,
            Stage::Draw => 3,
            Stage::Encode => 4,
            Stage::Done => 5,
            Stage::Failed(_) => 5,
        }
    }

    /// Number of measuring stages from this one on.
    pub open spec fn passes_left(self) -> nat {
        match self {
            Stage::PerLineMeasure => 3,
            Stage::FlexibleWidthPass => 2,
            Stage::FixedSizeSyncPass => 1,
            _ => 0,
        }
    }
}

impl Page {
    /// The page before anything was looked at: at the first stage, the
    /// cursor on the first line.
    pub open spec fn spec_first(
        lines: Seq<LineView>,
        width: u64,
        height: u64,
        line_height: u64,
        flexible_width: bool,
        text_size_fixed: bool,
        background_color: Color,
        format: ImageFormat,
        quality: u32,
    ) -> Page {
        Page {
            lines,
            width,
            height,
            line_height,
            flexible_width,
            text_size_fixed,
            background_color,
            format,
            quality,
            stage: Stage::PerLineMeasure,
            cursor: 0,
        }
    }

    /// Validity of the canvas and of each line: the lines share the page's
    /// width and an equal part of its height.
    pub open spec fn lines_wf(self) -> bool {
        &&& self.width <= LENGTH_MAX
        &&& self.height <= LENGTH_MAX
        &&& self.line_height <= self.height
        &&& self.line_height * self.lines.len() <= self.height
        &&& self.lines.len() <= usize::MAX
        &&& forall|i: int|
            0 <= i < self.lines.len() ==> {
                &&& (#[trigger] self.lines[i]).wf()
                &&& self.lines[i].width == self.width
                &&& self.lines[i].line_height == self.line_height
                &&& self.lines[i].fit.width == self.width
                &&& self.lines[i].fit.height == self.line_height
            }
    }

    /// Whether every line before `end` has its final fit.
    pub open spec fn done_before(self, end: int) -> bool {
        forall|i: int| 0 <= i < end && i < self.lines.len() ==> (#[trigger] self.lines[i]).fit.phase is Done
    }

    /// Validity: on top of `lines_wf`, while measuring the cursor stands on a
    /// line that waits for a measurement and the lines before it are fitted;
    /// after measuring all lines are fitted.
    pub open spec fn wf(self) -> bool {
        &&& self.lines_wf()
        &&& self.cursor <= self.lines.len()
        &&& if self.stage.measuring() {
            &&& self.cursor < self.lines.len()
            &&& self.lines[self.cursor as int].fit.phase !is Done
            &&& self.done_before(self.cursor as int)
        } else {
            self.done_before(self.lines.len() as int)
        }
    }

    /// Every line moved into a box of the page's width and its search started anew.
    pub open spec fn restart(self, text_size: Option<u64>) -> Page {
        Page {
            lines: Seq::new(
                self.lines.len(),
                |i: int| restarted(self.lines[i], self.width, text_size),
            ),
            ..self
        }
    }

    /// The page at the start of the stage after this one. Entering the
    /// flexible-width pass with flexible width on, the canvas takes the largest
    /// width a line measured at scale 1 and every line is fitted anew. Entering
    /// the size-sync pass with fixed size on and more than one line, every line
    /// is fitted anew at the smallest size among them.
    pub open spec fn next_pass(self) -> Page {
        match self.stage {
            Stage::PerLineMeasure => {
                let entered = Page { stage: Stage::FlexibleWidthPass, cursor: 0, ..self };
                if self.flexible_width && self.lines.len() > 0 {
                    (Page { width: max_raw_width(self.lines) as u64, ..entered }).restart(None)
                } else {
                    entered
                }
            },
            Stage::FlexibleWidthPass => {
                let entered = Page { stage: Stage::FixedSizeSyncPass, cursor: 0, ..self };
                if self.text_size_fixed && self.lines.len() > 1 {
                    entered.restart(Some(min_text_size(self.lines)))
                } else {
                    entered
                }
            },
            Stage::FixedSizeSyncPass => Page { stage: Stage::Draw, cursor: 0, ..self },
            _ => self,
        }
    }

    /// The page brought to where something is to be done outside: the cursor
    /// moves past lines that want no measurement, and past the end of the
    /// lines the next stage begins.
    pub open spec fn settle(self) -> Page
        decreases self.stage.passes_left(), self.lines.len() - self.cursor,
    {
        if !self.stage.measuring() {
            self
        } else if self.cursor < self.lines.len() {
            if self.lines[self.cursor as int].fit.phase is Done {
                (Page { cursor: self.cursor + 1, ..self }).settle()
            } else {
                self
            }
        } else {
            self.next_pass().settle()
        }
    }

    /// What is to be done outside next.
    pub open spec fn pending(self) -> Action {
        match self.stage {
            Stage::Draw => Action::Draw,
            Stage::Encode => Action::Encode,
            Stage::Done => Action::Finish,
            Stage::Failed(failure) => Action::Fail(failure),
            _ => Action::Measure {
                line: self.cursor as usize,
                probe: self.lines[self.cursor as int].fit.spec_pending()->0,
            },
        }
    }

    /// The page with the line under the cursor handed a measurement.
    pub open spec fn measured(self, bounds: Bounds) -> Page {
        let line = self.lines[self.cursor as int];
        Page {
            lines: self.lines.update(
                self.cursor as int,
                LineView { fit: line.fit.spec_advance(bounds), ..line },
            ),
            ..self
        }
    }

    /// The page after an event. An event answers the pending action or is
    /// ignored: a measurement while measuring goes to the line under the
    /// cursor; drawing leads to encoding, or fails for want of a canvas;
    /// encoding ends the run, well or not.
    pub open spec fn step(self, event: Event) -> Page {
        match event {
            Event::Measured(bounds) => if self.stage.measuring() {
                self.measured(bounds).settle()
            } else {
                self
            },
            Event::Drawn => if self.stage is Draw {
                Page { stage: Stage::Encode, ..self }
            } else {
                self
            },
            Event::SurfaceFailed => if self.stage is Draw {
                Page { stage: Stage::Failed(Failure::Surface), ..self }
            } else {
                self
            },
            Event::Encoded => if self.stage is Encode {
                Page { stage: Stage::Done, ..self }
            } else {
                self
            },
            Event::EncodeFailed => if self.stage is Encode {
                Page { stage: Stage::Failed(Failure::Encode), ..self }
            } else {
                self
            },
        }
    }
}

impl Page {
    /// The steps that draw line `index`: its passes, outline before fill, in
    /// a box that starts `index` line heights down the canvas.
    pub open spec fn spec_line_ops(self, index: int) -> Seq<DrawOpView> {
        text_ops(self.lines[index].spec_draw((self.line_height * index) as u64))
    }

    /// The plan as far as the first `count` lines: the canvas is cleared to
    /// the background, then the lines are drawn one after the other.
    pub open spec fn spec_plan_upto(self, count: nat) -> Seq<DrawOpView>
        decreases count,
    {
        if count == 0 {
            seq![DrawOpView::Clear(self.background_color)]
        } else {
            self.spec_plan_upto((count - 1) as nat) + self.spec_line_ops(count - 1)
        }
    }

    /// The steps that draw the page: the canvas is cleared to the background
    /// first, then every line is drawn, once, in the order of the lines.
    pub open spec fn spec_draw_plan(self) -> Seq<DrawOpView> {
        self.spec_plan_upto(self.lines.len())
    }

    /// The plan for more lines begins with the plan for fewer.
    pub proof fn lemma_plan_grows(self, fewer: nat, more: nat)
        requires
            fewer <= more,
        ensures
            self.spec_plan_upto(fewer).len() <= self.spec_plan_upto(more).len(),
            self.spec_plan_upto(more).subrange(0, self.spec_plan_upto(fewer).len() as int)
                == self.spec_plan_upto(fewer),
        decreases more - fewer,
    {
        if fewer < more {
            self.lemma_plan_grows(fewer, (more - 1) as nat);
            let shorter = self.spec_plan_upto((more - 1) as nat);
            let longer = self.spec_plan_upto(more);
            let least = self.spec_plan_upto(fewer);
            assert(longer == shorter + self.spec_line_ops(more - 1));
            assert(longer.subrange(0, least.len() as int) =~= shorter.subrange(
                0,
                least.len() as int,
            ));
        } else {
            let plan = self.spec_plan_upto(more);
            assert(plan.subrange(0, plan.len() as int) =~= plan);
        }
    }

    /// The first step of the plan clears the canvas to the background; after
    /// it each line has its drawing passes, one or two of them, together and
    /// in their order, behind those of all lines before it and before those
    /// of all lines after it; and the plan holds nothing else.
    pub proof fn lemma_draw_plan(self, index: int)
        requires
            0 <= index < self.lines.len(),
        ensures
            self.spec_draw_plan()[0] == DrawOpView::Clear(self.background_color),
            self.spec_plan_upto(0).len() == 1,
            self.spec_line_ops(index).len() == if self.lines[index].disable_outline {
                1nat
            } else {
                2nat
            },
            self.spec_plan_upto(index as nat).len() + self.spec_line_ops(index).len()
                == self.spec_plan_upto((index + 1) as nat).len(),
            self.spec_plan_upto((index + 1) as nat).len() <= self.spec_draw_plan().len(),
            forall|k: int|
                0 <= k < self.spec_line_ops(index).len() ==> self.spec_draw_plan()[self.spec_plan_upto(
                    index as nat,
                ).len() + k] == #[trigger] self.spec_line_ops(index)[k],
    {
        let plan = self.spec_draw_plan();
        let before = self.spec_plan_upto(index as nat);
        let with_line = self.spec_plan_upto((index + 1) as nat);
        let ops = self.spec_line_ops(index);
        self.lemma_plan_grows(0, self.lines.len());
        self.lemma_plan_grows((index + 1) as nat, self.lines.len());
        assert(with_line == before + ops);
        assert(plan.subrange(0, 1)[0] == plan[0]);
        assert forall|k: int| 0 <= k < ops.len() implies plan[before.len() + k] == #[trigger] ops[k] by {
            assert(plan.subrange(0, with_line.len() as int)[before.len() + k] == plan[before.len()
                + k]);
            assert(with_line[before.len() + k] == ops[k]);
        }
    }

    /// Whether the event answers the pending action.
    pub open spec fn answers(self, event: Event) -> bool {
        match event {
            Event::Measured(_) => self.stage.measuring(),
            Event::Drawn => self.stage is Draw,
            Event::SurfaceFailed => self.stage is Draw,
            Event::Encoded => self.stage is Encode,
            Event::EncodeFailed => self.stage is Encode,
        }
    }

    /// Whether `next` is nearer the end of the run than this page: at a later
    /// stage, or at the same stage on a later line, or on the same line with
    /// fewer measurements to go.
    pub open spec fn progress(self, next: Page) -> bool {
        ||| next.stage.rank() > self.stage.rank()
        ||| {
            &&& next.stage == self.stage
            &&& self.stage.measuring()
            &&& next.lines.len() == self.lines.len()
            &&& self.cursor < self.lines.len()
            &&& {
                ||| next.cursor > self.cursor
                ||| {
                    &&& next.cursor == self.cursor
                    &&& next.lines[next.cursor as int].fit.remaining()
                        < self.lines[self.cursor as int].fit.remaining()
                }
            }
        }
    }

    /// What `settle` needs of a page: valid lines, and fitted lines before the
    /// cursor, or everywhere once measuring is over.
    pub open spec fn settleable(self) -> bool {
        &&& self.lines_wf()
        &&& self.cursor <= self.lines.len()
        &&& self.done_before(
            if self.stage.measuring() {
                self.cursor as int
            } else {
                self.lines.len() as int
            },
        )
    }

    /// Entering the next stage keeps the lines valid and leaves one measuring stage fewer.
    pub proof fn lemma_next_pass(self)
        requires
            self.lines_wf(),
            self.stage.measuring(),
        ensures
            self.next_pass().lines_wf(),
            self.next_pass().cursor == 0,
            self.next_pass().lines.len() == self.lines.len(),
            self.next_pass().stage.passes_left() < self.stage.passes_left(),
            self.next_pass().stage.rank() == self.stage.rank() + 1,
            self.next_pass().stage is Draw ==> self.next_pass().lines == self.lines,
    {
    }

    /// Settling leads to a valid page, never back to an earlier stage, and
    /// within a stage only forward through unchanged lines.
    pub proof fn lemma_settle(self)
        requires
            self.settleable(),
        ensures
            self.settle().wf(),
            self.settle().lines.len() == self.lines.len(),
            self.settle().stage.passes_left() <= self.stage.passes_left(),
            self.settle().stage.rank() >= self.stage.rank(),
            self.settle().stage == self.stage && self.stage.measuring() ==> {
                &&& self.settle() == (Page { cursor: self.settle().cursor, ..self })
                &&& self.settle().cursor >= self.cursor
            },
            !self.stage.measuring() ==> self.settle() == self,
        decreases self.stage.passes_left(), self.lines.len() - self.cursor,
    {
        if !self.stage.measuring() {
        } else if self.cursor < self.lines.len() {
            if self.lines[self.cursor as int].fit.phase is Done {
                (Page { cursor: self.cursor + 1, ..self }).lemma_settle();
            }
        } else {
            self.lemma_next_pass();
            self.next_pass().lemma_settle();
        }
    }

    /// A measurement keeps the lines valid and brings the line under the cursor closer to its end.
    pub proof fn lemma_measured(self, bounds: Bounds)
        requires
            self.wf(),
            self.stage.measuring(),
        ensures
            self.measured(bounds).settleable(),
            self.measured(bounds).lines[self.cursor as int].fit.remaining()
                < self.lines[self.cursor as int].fit.remaining(),
    {
        let line = self.lines[self.cursor as int];
        line.fit.lemma_advance(bounds);
        let after = self.measured(bounds);
        assert forall|i: int| 0 <= i < after.lines.len() implies {
            &&& (#[trigger] after.lines[i]).wf()
            &&& after.lines[i].width == after.width
            &&& after.lines[i].line_height == after.line_height
            &&& after.lines[i].fit.width == after.width
            &&& after.lines[i].fit.height == after.line_height
        } by {
            if i != self.cursor {
                assert(after.lines[i] == self.lines[i]);
            }
        }
        assert forall|i: int| 0 <= i < after.cursor && i < after.lines.len() implies (
        #[trigger] after.lines[i]).fit.phase is Done by {
            assert(after.lines[i] == self.lines[i]);
        }
    }

    /// A step keeps a valid page valid and never goes back a stage; a step
    /// whose event answers the pending action brings the run nearer its end.
    pub proof fn lemma_step(self, event: Event)
        requires
            self.wf(),
        ensures
            self.step(event).wf(),
            self.step(event).stage.rank() >= self.stage.rank(),
            self.answers(event) ==> self.progress(self.step(event)),
            !self.answers(event) ==> self.step(event) == self,
    {
        match event {
            Event::Measured(bounds) => {
                if self.stage.measuring() {
                    self.lemma_measured(bounds);
                    self.measured(bounds).lemma_settle();
                }
            },
            _ => {},
        }
    }
}

impl Failure {
    pub open spec fn spec_message(self) -> Seq<char> {
        match self {
            Failure::Surface => "Failed to create surface."@,
            Failure::Encode => "Failed to encode image."@,
        }
    }

    /// The failure in words.
    pub fn message(&self) -> (message: String)
        ensures
            message@ == self.spec_message(),
    {
        match self {
            Failure::Surface => String::from_str("Failed to create surface."),
            Failure::Encode => String::from_str("Failed to encode image."),
        }
    }
}

/// Each line's box starts inside the page.
pub proof fn lemma_line_top(line_height: u64, count: nat, height: u64, index: nat)
    requires
        line_height * count <= height,
        index < count,
    ensures
        0 <= line_height * index <= height,
{
    assert(line_height * index <= line_height * count) by (nonlinear_arith)
        requires
            index < count,
            line_height >= 0,
    ;
    assert(0 <= line_height * index) by (nonlinear_arith)
        requires
            line_height >= 0,
            index >= 0,
    ;
}

impl Composer {
    fn widest(&self) -> (width: u32)
        ensures
            width == max_raw_width(self@.lines),
    {
        let mut width: u32 = 0;
        let mut i: usize = 0;
        let ghost lines = self@.lines;
        assert(lines.take(0) == Seq::<LineView>::empty());
        while i < self.lines.len()
            invariant
                i <= self.lines.len(),
                lines == self@.lines,
                width == max_raw_width(lines.take(i as int)),
            decreases self.lines.len() - i,
        {
            assert(lines.take(i + 1).drop_last() == lines.take(i as int));
            assert(lines.take(i + 1).last() == self.lines[i as int]@);
            let raw = self.lines[i].get_raw_bounds_width();
            if raw > width {
                width = raw;
            }
            i += 1;
        }
        assert(lines.take(self.lines.len() as int) == lines);
        width
    }

    fn smallest(&self) -> (size: u64)
        ensures
            size == min_text_size(self@.lines),
    {
        let mut size: u64 = u64::MAX;
        let mut i: usize = 0;
        let ghost lines = self@.lines;
        assert(lines.take(0) == Seq::<LineView>::empty());
        while i < self.lines.len()
            invariant
                i <= self.lines.len(),
                lines == self@.lines,
                size == min_text_size(lines.take(i as int)),
            decreases self.lines.len() - i,
        {
            assert(lines.take(i + 1).drop_last() == lines.take(i as int));
            assert(lines.take(i + 1).last() == self.lines[i as int]@);
            let text_size = self.lines[i].get_text_size();
            if text_size < size {
                size = text_size;
            }
            i += 1;
        }
        assert(lines.take(self.lines.len() as int) == lines);
        size
    }

    fn restart(&mut self, text_size: Option<u64>)
        requires
            old(self).width <= LENGTH_MAX,
            old(self).height <= LENGTH_MAX,
            old(self).line_height <= old(self).height,
            old(self).line_height * old(self).lines.len() <= old(self).height,
            forall|i: int|
                0 <= i < old(self)@.lines.len() ==> (#[trigger] old(self)@.lines[i]).line_height
                    == old(self).line_height && old(self)@.lines[i].fit.wf(),
        ensures
            final(self)@ == old(self)@.restart(text_size),
            final(self)@.lines_wf(),
    {
        let ghost before = self@;
        let width = self.width;
        let mut i: usize = 0;
        while i < self.lines.len()
            invariant
                i <= self.lines.len(),
                self.lines.len() == before.lines.len(),
                self@ == (Page { lines: self@.lines, ..before }),
                width == before.width,
                before.width <= LENGTH_MAX,
                before.height <= LENGTH_MAX,
                before.line_height <= before.height,
                before.line_height * before.lines.len() <= before.height,
                forall|j: int|
                    0 <= j < before.lines.len() ==> (#[trigger] before.lines[j]).line_height
                        == before.line_height && before.lines[j].fit.wf(),
                forall|j: int|
                    0 <= j < i ==> (#[trigger] self.lines[j])@ == restarted(
                        before.lines[j],
                        before.width,
                        text_size,
                    ),
                forall|j: int|
                    i <= j < self.lines.len() ==> (#[trigger] self.lines[j])@ == before.lines[j],
            decreases self.lines.len() - i,
        {
            assert(self.lines[i as int]@ == before.lines[i as int]);
            self.lines[i].set_width(width);
            self.lines[i].measure(text_size);
            i += 1;
        }
        assert(self@.lines =~= before.restart(text_size).lines);
    }

    fn next_pass(&mut self)
        requires
            old(self)@.lines_wf(),
            old(self).stage.measuring(),
        ensures
            final(self)@ == old(self)@.next_pass(),
            final(self)@.lines_wf(),
            final(self).cursor == 0,
            final(self).stage.passes_left() < old(self).stage.passes_left(),
    {
        match self.stage {
            Stage::PerLineMeasure => {
                self.stage = Stage::FlexibleWidthPass;
                self.cursor = 0;
                if self.flexible_width && self.lines.len() > 0 {
                    self.width = self.widest() as u64;
                    self.restart(None);
                }
            },
            Stage::FlexibleWidthPass => {
                self.stage = Stage::FixedSizeSyncPass;
                self.cursor = 0;
                if self.text_size_fixed && self.lines.len() > 1 {
                    let size = self.smallest();
                    self.restart(Some(size));
                }
            },
            _ => {
                self.stage = Stage::Draw;
                self.cursor = 0;
            },
        }
    }

    fn settle(&mut self)
        requires
            old(self)@.settleable(),
        ensures
            final(self)@ == old(self)@.settle(),
            final(self)@.wf(),
    {
        loop
            invariant
                self@.lines_wf(),
                self.cursor <= self.lines.len(),
                self@.done_before(
                    if self.stage.measuring() {
                        self.cursor as int
                    } else {
                        self.lines.len() as int
                    },
                ),
                self@.settle() == old(self)@.settle(),
            ensures
                self@ == old(self)@.settle(),
                self@.wf(),
            decreases self.stage.passes_left(), self.lines.len() - self.cursor,
        {
            let measuring = match self.stage {
                Stage::PerLineMeasure => true,
                Stage::FlexibleWidthPass => true,
                Stage::FixedSizeSyncPass => true,
                _ => false,
            };
            if !measuring {
                break ;
            }
            if self.cursor < self.lines.len() {
                if self.lines[self.cursor].pending().is_none() {
                    self.cursor += 1;
                } else {
                    break ;
                }
            } else {
                self.next_pass();
            }
        }
    }

    /// Begins composing a page of the given lines, whose searches have just
    /// begun, on a canvas of `width` by `height`.
    pub(crate) fn start(
        lines: Vec<Line>,
        width: u64,
        height: u64,
        line_height: u64,
        flexible_width: bool,
        text_size_fixed: bool,
        background_color: Color,
        format: ImageFormat,
        quality: u32,
    ) -> (composer: Composer)
        requires
            Page::spec_first(
                lines_of(lines@),
                width,
                height,
                line_height,
                flexible_width,
                text_size_fixed,
                background_color,
                format,
                quality,
            ).lines_wf(),
        ensures
            composer@ == Page::spec_first(
                lines_of(lines@),
                width,
                height,
                line_height,
                flexible_width,
                text_size_fixed,
                background_color,
                format,
                quality,
            ).settle(),
            composer@.wf(),
    {
        let mut composer = Composer {
            lines,
            width,
            height,
            line_height,
            flexible_width,
            text_size_fixed,
            background_color,
            format,
            quality,
            stage: Stage::PerLineMeasure,
            cursor: 0,
        };
        composer.settle();
        composer
    }

    /// The lines of the page.
    pub fn lines(&self) -> (lines: &Vec<Line>)
        ensures
            lines_of(lines@) == self@.lines,
            lines@.len() == self@.lines.len(),
            forall|i: int| 0 <= i < lines@.len() ==> (#[trigger] lines@[i])@ == self@.lines[i],
    {
        &self.lines
    }

    /// Width of the canvas.
    pub fn width(&self) -> (width: u64)
        ensures
            width == self@.width,
    {
        self.width
    }

    /// Height of the canvas.
    pub fn height(&self) -> (height: u64)
        ensures
            height == self@.height,
    {
        self.height
    }

    /// Height of each line's box.
    pub fn line_height(&self) -> (line_height: u64)
        ensures
            line_height == self@.line_height,
    {
        self.line_height
    }

    /// The colour the canvas is cleared to.
    pub fn background_color(&self) -> (color: Color)
        ensures
            color == self@.background_color,
    {
        self.background_color
    }

    /// The encoding asked for.
    pub fn format(&self) -> (format: ImageFormat)
        ensures
            format == self@.format,
    {
        self.format
    }

    /// The encoding quality asked for.
    pub fn quality(&self) -> (quality: u32)
        ensures
            quality == self@.quality,
    {
        self.quality
    }

    /// The stage the page is at.
    pub fn stage(&self) -> (stage: Stage)
        ensures
            stage == self@.stage,
    {
        self.stage
    }

    /// What is to be done outside next.
    pub fn pending(&self) -> (action: Action)
        requires
            self@.wf(),
        ensures
            action == self@.pending(),
    {
        match self.stage {
            Stage::Draw => Action::Draw,
            Stage::Encode => Action::Encode,
            Stage::Done => Action::Finish,
            Stage::Failed(failure) => Action::Fail(failure),
            _ => {
                match self.lines[self.cursor].pending() {
                    Some(probe) => Action::Measure { line: self.cursor, probe },
                    None => Action::Draw,
                }
            },
        }
    }

    /// Takes in what happened outside and returns what is to be done next.
    /// An event that does not answer the pending action changes nothing.
    pub fn step(&mut self, event: Event) -> (action: Action)
        requires
            old(self)@.wf(),
        ensures
            final(self)@ == old(self)@.step(event),
            final(self)@.wf(),
            action == final(self)@.pending(),
            final(self)@.stage.rank() >= old(self)@.stage.rank(),
            old(self)@.answers(event) ==> old(self)@.progress(final(self)@),
    {
        proof {
            self@.lemma_step(event);
        }
        match event {
            Event::Measured(bounds) => {
                let measuring = match self.stage {
                    Stage::PerLineMeasure => true,
                    Stage::FlexibleWidthPass => true,
                    Stage::FixedSizeSyncPass => true,
                    _ => false,
                };
                if measuring {
                    let cursor = self.cursor;
                    self.lines[cursor].advance(bounds);
                    assert(self@.lines =~= old(self)@.measured(bounds).lines);
                    self.settle();
                }
            },
            Event::Drawn => {
                if let Stage::Draw = self.stage {
                    self.stage = Stage::Encode;
                }
            },
            Event::SurfaceFailed => {
                if let Stage::Draw = self.stage {
                    self.stage = Stage::Failed(Failure::Surface);
                }
            },
            Event::Encoded => {
                if let Stage::Encode = self.stage {
                    self.stage = Stage::Done;
                }
            },
            Event::EncodeFailed => {
                if let Stage::Encode = self.stage {
                    self.stage = Stage::Failed(Failure::Encode);
                }
            },
        }
        self.pending()
    }

    /// The drawing passes of line `index`, whose box starts `index` line
    /// heights down the canvas.
    pub fn draw_calls(&self, index: usize) -> (calls: Vec<DrawCall>)
        requires
            self@.wf(),
            index < self@.lines.len(),
        ensures
            draw_calls_of(calls@) == self@.lines[index as int].spec_draw(
                (self@.line_height * index) as u64,
            ),
            calls@.len() == self@.lines[index as int].spec_draw(
                (self@.line_height * index) as u64,
            ).len(),
            forall|i: int|
                0 <= i < calls@.len() ==> (#[trigger] calls@[i])@ == self@.lines[index as int].spec_draw(
                    (self@.line_height * index) as u64,
                )[i],
            self@.line_height * index <= self@.height,
    {
        proof {
            lemma_line_top(self.line_height, self.lines@.len(), self.height, index as nat);
        }
        assert(self@.lines[index as int].wf());
        let top: u64 = self.line_height * (index as u64);
        self.lines[index].draw(top)
    }

    /// The steps that draw the page, to be carried out in their order: the
    /// canvas is cleared to the background first, then every line is drawn,
    /// once, in the order of the lines, line `index` in a box that starts
    /// `index` line heights down the canvas.
    pub fn draw_plan(&self) -> (ops: Vec<DrawOp>)
        requires
            self@.wf(),
        ensures
            draw_ops_of(ops@) == self@.spec_draw_plan(),
            ops@.len() == self@.spec_draw_plan().len(),
            forall|i: int| 0 <= i < ops@.len() ==> (#[trigger] ops@[i])@ == self@.spec_draw_plan()[i],
    {
        let mut ops: Vec<DrawOp> = Vec::new();
        ops.push(DrawOp::Clear(self.background_color));
        assert(draw_ops_of(ops@) =~= self@.spec_plan_upto(0));
        let mut index: usize = 0;
        while index < self.lines.len()
            invariant
                self@.wf(),
                index <= self.lines.len(),
                self.lines.len() == self@.lines.len(),
                draw_ops_of(ops@) == self@.spec_plan_upto(index as nat),
            decreases self.lines.len() - index,
        {
            let mut calls = self.draw_calls(index);
            let ghost before = draw_ops_of(ops@);
            let ghost wanted = self@.spec_line_ops(index as int);
            assert(text_ops(draw_calls_of(calls@)) =~= wanted);
            assert(before + text_ops(draw_calls_of(calls@)) == before + wanted);
            while calls.len() > 0
                invariant
                    draw_ops_of(ops@) + text_ops(draw_calls_of(calls@)) == before + wanted,
                decreases calls.len(),
            {
                let ghost ops_before = draw_ops_of(ops@);
                let ghost calls_before = draw_calls_of(calls@);
                let call = calls.remove(0);
                ops.push(DrawOp::Text(call));
                assert(draw_ops_of(ops@) =~= ops_before.push(DrawOpView::Text(calls_before[0])));
                assert(draw_calls_of(calls@) =~= calls_before.subrange(
                    1,
                    calls_before.len() as int,
                ));
                assert(draw_ops_of(ops@) + text_ops(draw_calls_of(calls@)) =~= ops_before
                    + text_ops(calls_before));
            }
            assert(text_ops(draw_calls_of(calls@)) =~= Seq::<DrawOpView>::empty());
            assert(draw_ops_of(ops@) =~= before + wanted);
            index += 1;
        }
        assert forall|i: int| 0 <= i < ops@.len() implies (#[trigger] ops@[i])@
            == self@.spec_draw_plan()[i] by {
            assert(draw_ops_of(ops@)[i] == ops@[i]@);
        }
        ops
    }

    /// Width of the canvas in whole pixels, rounded down.
    pub fn canvas_width(&self) -> (pixels: u64)
        ensures
            pixels == self@.width / UNIT,
    {
        pixels_from_units(self.width)
    }

    /// Height of the canvas in whole pixels.
    pub fn canvas_height(&self) -> (pixels: u64)
        ensures
            pixels == self@.height / UNIT,
    {
        pixels_from_units(self.height)
    }
}

} // verus!
