use vstd::prelude::*;
use crate::emoji::compose::{max_raw_width, min_text_size, restarted, Event, Page};
use crate::emoji::fit::{
    lemma_fixed_fit_in_width, lemma_fixed_fit_is_measured, lemma_fixed_fit_keeps_size,
    lemma_refit_in_own_width, lemma_run_ends, Bounds, Probe,
};
use crate::emoji::generator::PageInput;
use crate::emoji::line::LineView;
use crate::emoji::units::{SCALE_ONE, UNIT};

verus! {

/// The metrics of one line: what measuring the text of line `index` gives at each probe.
pub open spec fn line_metrics(metrics: spec_fn(int, Probe) -> Bounds, index: int) -> spec_fn(
    Probe,
) -> Bounds {
    |probe: Probe| metrics(index, probe)
}

/// The lines with the search of each one from `from` on carried to its end.
pub open spec fn completed(
    lines: Seq<LineView>,
    from: int,
    metrics: spec_fn(int, Probe) -> Bounds,
) -> Seq<LineView> {
    Seq::new(
        lines.len(),
        |i: int|
            if i < from {
                lines[i]
            } else {
                LineView { fit: lines[i].fit.run(line_metrics(metrics, i)), ..lines[i] }
            },
    )
}

/// The largest raw width is at least every line's and, if there is a line, is one line's.
pub proof fn lemma_max_raw_width(lines: Seq<LineView>)
    ensures
        forall|i: int| 0 <= i < lines.len() ==> (#[trigger] lines[i]).fit.spec.raw_width <= max_raw_width(lines),
        lines.len() > 0 ==> exists|k: int| 0 <= k < lines.len() && (#[trigger] lines[k]).fit.spec.raw_width == max_raw_width(lines),
    decreases lines.len(),
{
    if lines.len() > 0 {
        let rest = lines.drop_last();
        lemma_max_raw_width(rest);
        assert forall|i: int| 0 <= i < lines.len() implies (#[trigger] lines[i]).fit.spec.raw_width
            <= max_raw_width(lines) by {
            if i < rest.len() {
                assert(rest[i] == lines[i]);
            }
        }
        if lines.last().fit.spec.raw_width > max_raw_width(rest) || rest.len() == 0 {
            assert(lines[lines.len() - 1].fit.spec.raw_width == max_raw_width(lines));
        } else {
            let k = choose|k: int| 0 <= k < rest.len() && (#[trigger] rest[k]).fit.spec.raw_width == max_raw_width(rest);
            assert(rest[k] == lines[k]);
        }
    }
}

/// The smallest size is at most every line's and, if there is a line, is one line's.
pub proof fn lemma_min_text_size(lines: Seq<LineView>)
    ensures
        forall|i: int| 0 <= i < lines.len() ==> (#[trigger] lines[i]).fit.spec.text_size >= min_text_size(lines),
        lines.len() > 0 ==> exists|k: int| 0 <= k < lines.len() && (#[trigger] lines[k]).fit.spec.text_size == min_text_size(lines),
    decreases lines.len(),
{
    if lines.len() > 0 {
        let rest = lines.drop_last();
        lemma_min_text_size(rest);
        assert forall|i: int| 0 <= i < lines.len() implies (#[trigger] lines[i]).fit.spec.text_size
            >= min_text_size(lines) by {
            if i < rest.len() {
                assert(rest[i] == lines[i]);
            }
        }
        if lines.last().fit.spec.text_size < min_text_size(rest) || rest.len() == 0 {
            assert(lines[lines.len() - 1].fit.spec.text_size == min_text_size(lines));
        } else {
            let k = choose|k: int| 0 <= k < rest.len() && (#[trigger] rest[k]).fit.spec.text_size == min_text_size(rest);
            assert(rest[k] == lines[k]);
        }
    }
}

impl Page {
    /// The page after every measurement still wanted was answered by `metrics`:
    /// the page as it stands when drawing is next.
    pub open spec fn measure_all(self, metrics: spec_fn(int, Probe) -> Bounds) -> Page
        decreases
            self.stage.passes_left(),
            self.lines.len() - self.cursor,
            self.lines[self.cursor as int].fit.remaining(),
        when self.wf()
        via Self::measure_all_decreases
    {
        if self.stage.measuring() {
            let probe = self.lines[self.cursor as int].fit.spec_pending()->0;
            self.step(Event::Measured(metrics(self.cursor as int, probe))).measure_all(metrics)
        } else {
            self
        }
    }

    #[via_fn]
    proof fn measure_all_decreases(self, metrics: spec_fn(int, Probe) -> Bounds) {
        if self.stage.measuring() {
            let probe = self.lines[self.cursor as int].fit.spec_pending()->0;
            let bounds = metrics(self.cursor as int, probe);
            self.lemma_measured(bounds);
            self.measured(bounds).lemma_settle();
        }
    }
}

impl Page {
    /// One measurement answered is the first step of answering them all.
    pub proof fn lemma_measure_all_unfolds(self, metrics: spec_fn(int, Probe) -> Bounds)
        requires
            self.wf(),
        ensures
            self.stage.measuring() ==> self.measure_all(metrics) == self.step(
                Event::Measured(
                    metrics(
                        self.cursor as int,
                        self.lines[self.cursor as int].fit.spec_pending()->0,
                    ),
                ),
            ).measure_all(metrics),
            !self.stage.measuring() ==> self.measure_all(metrics) == self,
    {
        if self.stage.measuring() {
            let probe = self.lines[self.cursor as int].fit.spec_pending()->0;
            let bounds = metrics(self.cursor as int, probe);
            self.lemma_measured(bounds);
            self.measured(bounds).lemma_settle();
        }
    }

    /// The page at the end of its present measuring stage: every search
    /// carried to its end, the cursor past the last line.
    pub open spec fn fitted(self, metrics: spec_fn(int, Probe) -> Bounds) -> Page {
        Page { lines: completed(self.lines, 0, metrics), cursor: self.lines.len(), ..self }
    }

    /// The page as the flexible-width pass begins: each line was fitted on its
    /// own and, with flexible width, the canvas made as wide as the widest
    /// line at scale 1 and each line's search begun again.
    pub open spec fn flexed(self, metrics: spec_fn(int, Probe) -> Bounds) -> Page {
        self.fitted(metrics).next_pass()
    }

    /// The page as the size-sync pass begins: the flexible-width pass is done
    /// and, with fixed size and more than one line, each line's fit at the
    /// smallest size is begun.
    pub open spec fn synced(self, metrics: spec_fn(int, Probe) -> Bounds) -> Page {
        self.flexed(metrics).fitted(metrics).next_pass()
    }

    /// The page as it stands when drawing is next, stage by stage: each line
    /// fitted on its own; then, with flexible width, the canvas as wide as the
    /// widest line at scale 1 and each line fitted again; then, with fixed
    /// size and more than one line, each line fitted at the smallest size.
    pub open spec fn layout(self, metrics: spec_fn(int, Probe) -> Bounds) -> Page {
        self.synced(metrics).fitted(metrics).next_pass()
    }

    /// Stage by stage the lines stay valid and as many as they were, each
    /// pass leaves every line fitted, the canvas gets its width as the
    /// flexible-width pass begins and keeps it, and the last stage entered is
    /// drawing.
    pub proof fn lemma_stages(self, metrics: spec_fn(int, Probe) -> Bounds)
        requires
            self.lines_wf(),
            self.stage is PerLineMeasure,
        ensures
            ({
                let count = self.lines.len();
                let first = self.fitted(metrics);
                let flexed = self.flexed(metrics);
                let again = flexed.fitted(metrics);
                let synced = self.synced(metrics);
                let third = synced.fitted(metrics);
                let last = self.layout(metrics);
                &&& first.lines_wf() && first.lines.len() == count
                &&& first.done_before(count as int)
                &&& flexed.lines_wf() && flexed.lines.len() == count
                &&& flexed.stage is FlexibleWidthPass && flexed.cursor == 0
                &&& flexed.width == if self.flexible_width && count > 0 {
                    max_raw_width(first.lines) as u64
                } else {
                    self.width
                }
                &&& again.lines_wf() && again.lines.len() == count
                &&& again.done_before(count as int)
                &&& synced.lines_wf() && synced.lines.len() == count
                &&& synced.stage is FixedSizeSyncPass && synced.cursor == 0
                &&& synced.width == flexed.width
                &&& third.lines_wf() && third.lines.len() == count
                &&& third.done_before(count as int)
                &&& last.wf() && last.stage is Draw
                &&& last.lines == third.lines && last.width == flexed.width
            }),
    {
        let first = self.fitted(metrics);
        let flexed = self.flexed(metrics);
        let again = flexed.fitted(metrics);
        let synced = self.synced(metrics);
        let third = synced.fitted(metrics);
        self.lemma_fitted(metrics);
        first.lemma_next_pass();
        flexed.lemma_fitted(metrics);
        again.lemma_next_pass();
        synced.lemma_fitted(metrics);
        third.lemma_next_pass();
    }

    /// Whether the page is at its very start: the first stage, the cursor on
    /// the first line, every line's search for its size just begun.
    pub open spec fn fresh(self) -> bool {
        &&& self.stage is PerLineMeasure
        &&& self.cursor == 0
        &&& forall|i: int|
            0 <= i < self.lines.len() ==> (#[trigger] self.lines[i]).fit == self.lines[i].spec_start(
                None,
            )
    }

    /// Carrying the searches to their end keeps the lines valid and leaves them all fitted.
    pub proof fn lemma_fitted(self, metrics: spec_fn(int, Probe) -> Bounds)
        requires
            self.lines_wf(),
        ensures
            self.fitted(metrics).lines_wf(),
            self.fitted(metrics).done_before(self.lines.len() as int),
            self.fitted(metrics).lines.len() == self.lines.len(),
    {
        let after = self.fitted(metrics);
        assert forall|i: int| 0 <= i < after.lines.len() implies {
            &&& (#[trigger] after.lines[i]).wf()
            &&& after.lines[i].width == after.width
            &&& after.lines[i].line_height == after.line_height
            &&& after.lines[i].fit.width == after.width
            &&& after.lines[i].fit.height == after.line_height
            &&& after.lines[i].fit.phase is Done
        } by {
            assert(self.lines[i].wf());
            lemma_run_ends(self.lines[i].fit, line_metrics(metrics, i));
        }
    }

    /// Measuring line after line, probe after probe, comes to the same as
    /// carrying each line's search to its end and entering the next stage.
    pub proof fn lemma_finish_pass(self, metrics: spec_fn(int, Probe) -> Bounds)
        requires
            self.settleable(),
            self.stage.measuring(),
        ensures
            self.settle().measure_all(metrics) == (Page {
                lines: completed(self.lines, self.cursor as int, metrics),
                cursor: self.lines.len(),
                ..self
            }).next_pass().settle().measure_all(metrics),
        decreases
            self.lines.len() - self.cursor,
            if self.cursor < self.lines.len() {
                self.lines[self.cursor as int].fit.remaining()
            } else {
                0
            },
    {
        let end = Page {
            lines: completed(self.lines, self.cursor as int, metrics),
            cursor: self.lines.len(),
            ..self
        };
        if self.cursor == self.lines.len() {
            assert(end.lines =~= self.lines);
            assert(end == self);
        } else if self.lines[self.cursor as int].fit.phase is Done {
            let next = Page { cursor: self.cursor + 1, ..self };
            next.lemma_finish_pass(metrics);
            assert(completed(self.lines, self.cursor as int, metrics) =~= completed(
                next.lines,
                next.cursor as int,
                metrics,
            ));
        } else {
            let index = self.cursor as int;
            let probe = self.lines[index].fit.spec_pending()->0;
            let bounds = metrics(index, probe);
            assert(self.settle() == self);
            assert(self.wf());
            let next = self.measured(bounds);
            self.lemma_measured(bounds);
            self.lemma_measure_all_unfolds(metrics);
            next.lemma_finish_pass(metrics);
            assert(line_metrics(metrics, index)(probe) == bounds);
            assert(self.lines[index].fit.run(line_metrics(metrics, index)) == next.lines[index].fit.run(
                line_metrics(metrics, index),
            ));
            assert(completed(self.lines, index, metrics) =~= completed(next.lines, index, metrics));
        }
    }

    /// Driven by metrics that answer each probe of each line always alike, the
    /// composer arrives at drawing with the layout described stage by stage.
    pub proof fn lemma_measure_all_is_layout(self, metrics: spec_fn(int, Probe) -> Bounds)
        requires
            self.lines_wf(),
            self.stage is PerLineMeasure,
            self.cursor == 0,
        ensures
            self.settle().measure_all(metrics) == self.layout(metrics),
            self.layout(metrics).wf(),
            self.layout(metrics).stage is Draw,
    {
        let last = self.layout(metrics);
        self.lemma_stages(metrics);
        self.lemma_finish_pass(metrics);
        self.flexed(metrics).lemma_finish_pass(metrics);
        self.synced(metrics).lemma_finish_pass(metrics);
        assert(last.wf());
        assert(last.settle() == last);
        assert(last.measure_all(metrics) == last);
    }
}

/// With fixed size on and more than one line, every line is drawn at one and
/// the same size: the smallest of the sizes at which the lines were fitted on
/// their own, which is the size of at least one of them.
pub proof fn lemma_fixed_size_sync(page: Page, metrics: spec_fn(int, Probe) -> Bounds)
    requires
        page.lines_wf(),
        page.fresh(),
        page.text_size_fixed,
        page.lines.len() > 1,
    ensures
        ({
            let alone = page.flexed(metrics).fitted(metrics);
            let last = page.layout(metrics);
            &&& last.lines.len() == page.lines.len()
            &&& alone.lines.len() == page.lines.len()
            &&& forall|i: int|
                0 <= i < last.lines.len() ==> (#[trigger] last.lines[i]).fit.spec.text_size
                    == min_text_size(alone.lines)
            &&& forall|i: int|
                0 <= i < alone.lines.len() ==> (#[trigger] alone.lines[i]).fit.spec.text_size
                    >= min_text_size(alone.lines)
            &&& exists|k: int|
                0 <= k < alone.lines.len() && (#[trigger] alone.lines[k]).fit.spec.text_size
                    == min_text_size(alone.lines)
        }),
{
    let alone = page.flexed(metrics).fitted(metrics);
    let synced = page.synced(metrics);
    let last = page.layout(metrics);
    page.lemma_stages(metrics);
    lemma_min_text_size(alone.lines);
    let size = min_text_size(alone.lines);
    assert forall|i: int| 0 <= i < last.lines.len() implies (#[trigger] last.lines[i]).fit.spec.text_size
        == size by {
        let line = alone.lines[i];
        assert(line.wf());
        assert(synced.lines[i] == restarted(line, synced.width, Some(size)));
        lemma_fixed_fit_keeps_size(
            synced.width,
            line.line_height,
            line.disable_stretch,
            size,
            line_metrics(metrics, i),
        );
        assert(last.lines[i].fit == synced.lines[i].fit.run(line_metrics(metrics, i)));
    }
}

/// With fixed size on and more than one line, the fit a line is drawn with
/// holds what the metrics measure at the common size: its width at scale 1
/// is the width measured at that size and scale 1, and if that is no more
/// than the width of the canvas, the line is not compressed and its glyphs
/// have the bounds measured at that size and scale 1.
pub proof fn lemma_fixed_size_widths(
    page: Page,
    metrics: spec_fn(int, Probe) -> Bounds,
    index: int,
)
    requires
        page.lines_wf(),
        page.fresh(),
        page.text_size_fixed,
        page.lines.len() > 1,
        0 <= index < page.lines.len(),
    ensures
        ({
            let common = min_text_size(page.flexed(metrics).fitted(metrics).lines);
            let at_common = metrics(index, Probe { size: common, scale: SCALE_ONE });
            let drawn = page.layout(metrics).lines[index].fit;
            &&& drawn.spec.text_size == common
            &&& drawn.spec.raw_width == at_common.width
            &&& drawn.measured_by(line_metrics(metrics, index))
            &&& at_common.width <= page.layout(metrics).width ==> drawn.spec.text_scale_x
                == SCALE_ONE && drawn.spec.bounds == at_common
        }),
{
    let alone = page.flexed(metrics).fitted(metrics);
    let synced = page.synced(metrics);
    let last = page.layout(metrics);
    let own = line_metrics(metrics, index);
    let common = min_text_size(alone.lines);
    let line = alone.lines[index];
    page.lemma_stages(metrics);
    assert(line.wf());
    assert(synced.lines[index] == restarted(line, synced.width, Some(common)));
    assert(last.lines[index].fit == synced.lines[index].fit.run(own));
    assert(own(Probe { size: common, scale: SCALE_ONE }) == metrics(
        index,
        Probe { size: common, scale: SCALE_ONE },
    ));
    lemma_fixed_fit_keeps_size(synced.width, line.line_height, line.disable_stretch, common, own);
    lemma_fixed_fit_is_measured(synced.width, line.line_height, line.disable_stretch, common, own);
    if own(Probe { size: common, scale: SCALE_ONE }).width <= synced.width {
        lemma_fixed_fit_in_width(
            synced.width,
            line.line_height,
            line.disable_stretch,
            common,
            own,
        );
    }
}

/// With flexible width on, the canvas ends as wide as the widest line
/// measured at scale 1 when each line was fitted on its own, which is the
/// width of at least one line; and fitted again in that width no line is
/// compressed. Where no size sync follows, that second fit is the one drawn.
pub proof fn lemma_flexible_width(page: Page, metrics: spec_fn(int, Probe) -> Bounds)
    requires
        page.lines_wf(),
        page.fresh(),
        page.flexible_width,
        page.lines.len() > 0,
    ensures
        ({
            let first = page.fitted(metrics);
            let again = page.flexed(metrics).fitted(metrics);
            let last = page.layout(metrics);
            &&& last.width == max_raw_width(first.lines)
            &&& first.lines.len() == page.lines.len()
            &&& again.lines.len() == page.lines.len()
            &&& forall|i: int|
                0 <= i < first.lines.len() ==> (#[trigger] first.lines[i]).fit.spec.raw_width
                    <= last.width
            &&& exists|k: int|
                0 <= k < first.lines.len() && (#[trigger] first.lines[k]).fit.spec.raw_width
                    == last.width
            &&& forall|i: int|
                0 <= i < again.lines.len() ==> (#[trigger] again.lines[i]).fit.spec.text_scale_x
                    == SCALE_ONE
            &&& !(page.text_size_fixed && page.lines.len() > 1) ==> last.lines == again.lines
        }),
{
    let first = page.fitted(metrics);
    let flexed = page.flexed(metrics);
    let again = flexed.fitted(metrics);
    let synced = page.synced(metrics);
    let last = page.layout(metrics);
    page.lemma_stages(metrics);
    lemma_max_raw_width(first.lines);
    let width = max_raw_width(first.lines) as u64;
    assert forall|i: int| 0 <= i < again.lines.len() implies (#[trigger] again.lines[i]).fit.spec.text_scale_x
        == SCALE_ONE by {
        let start = page.lines[i];
        assert(start.wf());
        assert(start.fit == start.spec_start(None));
        assert(first.lines[i].fit == start.fit.run(line_metrics(metrics, i)));
        assert(first.lines[i].fit.spec.raw_width <= width);
        assert(flexed.lines[i] == restarted(first.lines[i], width, None));
        lemma_refit_in_own_width(
            start.width,
            width,
            start.line_height,
            start.disable_stretch,
            start.text.len() > 0,
            line_metrics(metrics, i),
        );
        assert(again.lines[i].fit == flexed.lines[i].fit.run(line_metrics(metrics, i)));
    }
    if !(page.text_size_fixed && page.lines.len() > 1) {
        assert(synced.lines == again.lines);
        assert forall|i: int| 0 <= i < synced.lines.len() implies (#[trigger] synced.lines[i]).fit.run(
            line_metrics(metrics, i),
        ) == synced.lines[i].fit by {
            assert(again.lines[i].fit.phase is Done);
        }
        assert(last.lines =~= synced.lines);
    }
}

/// With flexible width and fixed size both on, a line whose text, measured
/// at the common size and scale 1, is no wider than the canvas is not
/// compressed when drawn. For the widest line that is all it takes to be
/// drawn at scale 1.
pub proof fn lemma_flexible_width_synced(
    page: Page,
    metrics: spec_fn(int, Probe) -> Bounds,
    index: int,
)
    requires
        page.lines_wf(),
        page.fresh(),
        page.flexible_width,
        page.text_size_fixed,
        page.lines.len() > 1,
        0 <= index < page.lines.len(),
        metrics(
            index,
            Probe {
                size: min_text_size(page.flexed(metrics).fitted(metrics).lines),
                scale: SCALE_ONE,
            },
        ).width <= max_raw_width(page.fitted(metrics).lines),
    ensures
        page.layout(metrics).width == max_raw_width(page.fitted(metrics).lines),
        page.layout(metrics).lines[index].fit.spec.text_scale_x == SCALE_ONE,
{
    page.lemma_stages(metrics);
    lemma_fixed_size_widths(page, metrics, index);
}

/// The first page of any input is valid and at its very start.
pub proof fn lemma_first_page(input: PageInput)
    requires
        input.texts.len() <= usize::MAX,
    ensures
        input.spec_first_page().lines_wf(),
        input.spec_first_page().fresh(),
        input.spec_first_page().lines.len() == input.texts.len(),
        input.spec_first_page().text_size_fixed == input.text_size_fixed,
        input.spec_first_page().flexible_width == input.flexible_width,
{
    let page = input.spec_first_page();
    let height = input.height * UNIT;
    let count = input.texts.len() as int;
    assert(page.line_height * count <= height && page.line_height <= height) by (nonlinear_arith)
        requires
            height >= 0,
            count >= 0,
            page.line_height == if count == 0 {
                height
            } else {
                height / count
            },
    ;
}

/// Composing an input with metrics that answer each probe of each line
/// always alike arrives at drawing with the layout of the input's first page.
pub proof fn lemma_generate_is_layout(input: PageInput, metrics: spec_fn(int, Probe) -> Bounds)
    requires
        input.texts.len() <= usize::MAX,
    ensures
        input.spec_generate().measure_all(metrics) == input.spec_first_page().layout(metrics),
        input.spec_first_page().layout(metrics).wf(),
        input.spec_first_page().layout(metrics).stage is Draw,
{
    lemma_first_page(input);
    input.spec_first_page().lemma_measure_all_is_layout(metrics);
}

/// With fixed size on, the lines of an input of more than one line are all
/// drawn at the smallest of the sizes they were fitted at on their own.
pub proof fn lemma_generate_syncs_sizes(input: PageInput, metrics: spec_fn(int, Probe) -> Bounds)
    requires
        input.texts.len() <= usize::MAX,
        input.text_size_fixed,
        input.texts.len() > 1,
    ensures
        ({
            let alone = input.spec_first_page().flexed(metrics).fitted(metrics);
            let drawn = input.spec_generate().measure_all(metrics);
            &&& drawn.lines.len() == input.texts.len()
            &&& alone.lines.len() == input.texts.len()
            &&& forall|i: int|
                0 <= i < drawn.lines.len() ==> (#[trigger] drawn.lines[i]).fit.spec.text_size
                    == min_text_size(alone.lines)
            &&& forall|i: int|
                0 <= i < alone.lines.len() ==> (#[trigger] alone.lines[i]).fit.spec.text_size
                    >= min_text_size(alone.lines)
            &&& exists|k: int|
                0 <= k < alone.lines.len() && (#[trigger] alone.lines[k]).fit.spec.text_size
                    == min_text_size(alone.lines)
        }),
{
    lemma_first_page(input);
    lemma_generate_is_layout(input, metrics);
    lemma_fixed_size_sync(input.spec_first_page(), metrics);
}

/// With fixed size on, a line of an input of more than one line is drawn
/// with the bounds the metrics measure at the common size: uncompressed, at
/// scale 1, if its text at that size is no wider than the canvas.
pub proof fn lemma_generate_syncs_widths(
    input: PageInput,
    metrics: spec_fn(int, Probe) -> Bounds,
    index: int,
)
    requires
        input.texts.len() <= usize::MAX,
        input.text_size_fixed,
        input.texts.len() > 1,
        0 <= index < input.texts.len(),
    ensures
        ({
            let alone = input.spec_first_page().flexed(metrics).fitted(metrics);
            let common = min_text_size(alone.lines);
            let at_common = metrics(index, Probe { size: common, scale: SCALE_ONE });
            let page = input.spec_generate().measure_all(metrics);
            let drawn = page.lines[index].fit;
            &&& drawn.spec.text_size == common
            &&& drawn.spec.raw_width == at_common.width
            &&& drawn.measured_by(line_metrics(metrics, index))
            &&& at_common.width <= page.width ==> drawn.spec.text_scale_x == SCALE_ONE
                && drawn.spec.bounds == at_common
        }),
{
    lemma_first_page(input);
    lemma_generate_is_layout(input, metrics);
    lemma_fixed_size_widths(input.spec_first_page(), metrics, index);
}

/// With flexible width on, the canvas of an input of at least one line ends
/// as wide as the widest of its lines measured at scale 1 when fitted on
/// their own; fitted again in that width no line is compressed, and where no
/// size sync follows that fit is the one drawn.
pub proof fn lemma_generate_flexes_width(input: PageInput, metrics: spec_fn(int, Probe) -> Bounds)
    requires
        input.texts.len() <= usize::MAX,
        input.flexible_width,
        input.texts.len() > 0,
    ensures
        ({
            let first = input.spec_first_page().fitted(metrics);
            let again = input.spec_first_page().flexed(metrics).fitted(metrics);
            let drawn = input.spec_generate().measure_all(metrics);
            &&& drawn.width == max_raw_width(first.lines)
            &&& first.lines.len() == input.texts.len()
            &&& again.lines.len() == input.texts.len()
            &&& forall|i: int|
                0 <= i < first.lines.len() ==> (#[trigger] first.lines[i]).fit.spec.raw_width
                    <= drawn.width
            &&& exists|k: int|
                0 <= k < first.lines.len() && (#[trigger] first.lines[k]).fit.spec.raw_width
                    == drawn.width
            &&& forall|i: int|
                0 <= i < again.lines.len() ==> (#[trigger] again.lines[i]).fit.spec.text_scale_x
                    == SCALE_ONE
            &&& !(input.text_size_fixed && input.texts.len() > 1) ==> drawn.lines == again.lines
        }),
{
    lemma_first_page(input);
    lemma_generate_is_layout(input, metrics);
    lemma_flexible_width(input.spec_first_page(), metrics);
}

/// With flexible width and fixed size both on, a line of an input of more
/// than one line is drawn at scale 1 if its text, measured at the common
/// size and scale 1, is no wider than the canvas, which is as wide as the
/// widest line was at its own size.
pub proof fn lemma_generate_flexes_and_syncs(
    input: PageInput,
    metrics: spec_fn(int, Probe) -> Bounds,
    index: int,
)
    requires
        input.texts.len() <= usize::MAX,
        input.flexible_width,
        input.text_size_fixed,
        input.texts.len() > 1,
        0 <= index < input.texts.len(),
        metrics(
            index,
            Probe {
                size: min_text_size(input.spec_first_page().flexed(metrics).fitted(metrics).lines),
                scale: SCALE_ONE,
            },
        ).width <= max_raw_width(input.spec_first_page().fitted(metrics).lines),
    ensures
        ({
            let drawn = input.spec_generate().measure_all(metrics);
            &&& drawn.width == max_raw_width(input.spec_first_page().fitted(metrics).lines)
            &&& drawn.lines[index].fit.spec.text_scale_x == SCALE_ONE
        }),
{
    lemma_first_page(input);
    lemma_generate_is_layout(input, metrics);
    lemma_flexible_width_synced(input.spec_first_page(), metrics, index);
}

} // verus!
