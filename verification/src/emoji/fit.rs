use vstd::prelude::*;
use crate::emoji::line::MeasureSpec;
use crate::emoji::units::{LENGTH_MAX, SCALE_ONE, SIZE_STEP};

verus! {

/// Tight bounding box of a run of glyphs, in fixed-point units.
/// `left` and `top` may be negative.
#[derive(Clone, Copy, PartialEq, Eq, Structural, Debug)]
pub struct Bounds {
    pub left: i32,
    pub top: i32,
    pub width: u32,
    pub height: u32,
}

impl Bounds {
    pub open spec fn spec_empty() -> Bounds {
        Bounds { left: 0, top: 0, width: 0, height: 0 }
    }

    /// The box of no glyphs at all.
    pub fn new_empty() -> (bounds: Bounds)
        ensures
            bounds == Self::spec_empty(),
    {
        Bounds { left: 0, top: 0, width: 0, height: 0 }
    }
}

/// A request to measure the line's text at a font size and a horizontal scale.
#[derive(Clone, Copy, PartialEq, Eq, Structural, Debug)]
pub struct Probe {
    pub size: u64,
    pub scale: u32,
}

/// Where a size-and-scale search stands. Every phase but `Done` waits for one
/// measurement.
#[derive(Clone, Copy, PartialEq, Eq, Structural, Debug)]
pub enum Phase {
    /// Stretch is disabled: walking the size down until the text is no wider than the box.
    Shrink { size: u64 },
    /// Growing the size while the text still fits.
    Grow { size: u64 },
    /// Measuring at a size given from outside.
    Fixed { size: u64 },
    /// Lowering the horizontal scale until the text is no wider than the box.
    Compress { scale: u32 },
    /// No measurement is wanted any more.
    Done,
}

/// The state of a search that fits one line of text into a box of `width`
/// by `height`: the box, the mode, the phase, and the last fit accepted.
#[derive(Clone, Copy, PartialEq, Eq, Structural, Debug)]
pub struct Fit {
    pub width: u64,
    pub height: u64,
    pub disable_stretch: bool,
    /// Whether the size is searched for (`true`) or was given (`false`).
    pub adaptive: bool,
    pub phase: Phase,
    pub spec: MeasureSpec,
}

/// The search that fits one line of text into a box.
///
/// The search never measures text itself. It names the next measurement it
/// needs (`pending`), is handed the measured bounds (`advance`), and keeps
/// the last fit it accepted (`spec`). Its state is always valid.
#[derive(Clone, Copy, Debug)]
pub struct Fitter {
    state: Fit,
}

impl View for Fitter {
    type V = Fit;

    closed spec fn view(&self) -> Fit {
        self.state
    }
}

/// Size at which the search starts: nine tenths of the height.
pub open spec fn seed_size(height: u64) -> u64 {
    (height * 9 / 10) as u64
}

/// Largest size the search tries: ten times the height.
pub open spec fn limit_size(height: u64) -> u64 {
    (height * 10) as u64
}

/// Scale at which compression starts: the ratio of the box's width to the text's,
/// rounded down to a ten-thousandth.
pub open spec fn start_scale(width: u64, raw_width: u32) -> u32 {
    ((width * SCALE_ONE) / (raw_width as int)) as u32
}

/// Number of growth probes left from `size` on.
pub open spec fn growth_left(height: u64, size: u64) -> nat {
    if size <= limit_size(height) {
        ((limit_size(height) - size) / (SIZE_STEP as int) + 1) as nat
    } else {
        0
    }
}

/// Compression starts below scale 1 whenever the text is wider than the box.
pub proof fn lemma_start_scale(width: u64, raw_width: u32)
    requires
        raw_width > width,
    ensures
        start_scale(width, raw_width) < SCALE_ONE,
        start_scale(width, raw_width) == (width * SCALE_ONE) / (raw_width as int),
{
    assert(0 <= (width * SCALE_ONE) / (raw_width as int) < SCALE_ONE) by (nonlinear_arith)
        requires
            raw_width > width,
            width >= 0,
    ;
}

impl Fit {
    /// Validity: the box is no larger than `LENGTH_MAX` each way, the phase
    /// fits the mode, and the accepted fit obeys the limits of the mode.
    pub open spec fn wf(self) -> bool {
        &&& self.width <= LENGTH_MAX
        &&& self.height <= LENGTH_MAX
        &&& self.spec.text_scale_x <= SCALE_ONE
        &&& self.spec.text_scale_x == SCALE_ONE ==> self.spec.bounds.width == self.spec.raw_width
        &&& self.spec.text_scale_x < SCALE_ONE ==> self.phase is Done && self.spec.bounds.width
            <= self.width && self.spec.raw_width > self.width
        &&& self.adaptive && self.spec.text_scale_x == SCALE_ONE ==> self.spec.bounds.height
            <= self.height
        &&& self.adaptive && self.disable_stretch ==> self.spec.raw_width <= self.width
        &&& match self.phase {
            Phase::Shrink { size } => self.adaptive && self.disable_stretch && size <= seed_size(
                self.height,
            ),
            Phase::Grow { size } => self.adaptive && size <= limit_size(self.height),
            Phase::Fixed { size } => !self.adaptive,
            Phase::Compress { scale } => scale < SCALE_ONE && self.spec.raw_width > self.width,
            Phase::Done => true,
        }
    }

    /// The search for the largest size at which the text fits, before any measurement.
    /// Text that is empty needs none: its fit is size 0 with empty bounds.
    pub open spec fn spec_adjusted(
        width: u64,
        height: u64,
        disable_stretch: bool,
        has_text: bool,
    ) -> Fit {
        Fit {
            width,
            height,
            disable_stretch,
            adaptive: true,
            phase: if !has_text {
                Phase::Done
            } else if disable_stretch {
                Phase::Shrink { size: seed_size(height) }
            } else {
                Phase::Grow { size: seed_size(height) }
            },
            spec: MeasureSpec {
                text_size: 0,
                text_scale_x: SCALE_ONE,
                bounds: Bounds::spec_empty(),
                raw_width: 0,
            },
        }
    }

    /// A finished search in a box of 128 by 128 pixels that holds the fit a
    /// line has before it was ever measured.
    pub open spec fn spec_new() -> Fit {
        Fit {
            width: 1_280_000,
            height: 1_280_000,
            disable_stretch: false,
            adaptive: true,
            phase: Phase::Done,
            spec: MeasureSpec::spec_new(),
        }
    }

    /// The fit at the given size, before any measurement.
    pub open spec fn spec_fixed(
        width: u64,
        height: u64,
        disable_stretch: bool,
        text_size: u64,
    ) -> Fit {
        Fit {
            width,
            height,
            disable_stretch,
            adaptive: false,
            phase: Phase::Fixed { size: text_size },
            spec: MeasureSpec {
                text_size,
                text_scale_x: SCALE_ONE,
                bounds: Bounds::spec_empty(),
                raw_width: 0,
            },
        }
    }

    /// The measurement the search waits for, if any.
    pub open spec fn spec_pending(self) -> Option<Probe> {
        match self.phase {
            Phase::Shrink { size } => Some(Probe { size, scale: SCALE_ONE }),
            Phase::Grow { size } => Some(Probe { size, scale: SCALE_ONE }),
            Phase::Fixed { size } => Some(Probe { size, scale: SCALE_ONE }),
            Phase::Compress { scale } => Some(Probe { size: self.spec.text_size, scale }),
            Phase::Done => None,
        }
    }

    /// The search once the size is settled: compression begins if the accepted
    /// text is wider than the box, whether or not stretch is disabled.
    pub open spec fn spec_settle_size(self) -> Fit {
        if self.spec.raw_width > self.width {
            Fit {
                phase: Phase::Compress { scale: start_scale(self.width, self.spec.raw_width) },
                ..self
            }
        } else {
            Fit { phase: Phase::Done, ..self }
        }
    }

    /// The search with `measured` accepted as the fit at `size` and scale 1.
    pub open spec fn spec_accept(self, size: u64, measured: Bounds) -> Fit {
        Fit {
            spec: MeasureSpec {
                text_size: size,
                text_scale_x: SCALE_ONE,
                bounds: measured,
                raw_width: measured.width,
            },
            ..self
        }
    }

    /// The search after the pending measurement came back as `measured`.
    pub open spec fn spec_advance(self, measured: Bounds) -> Fit {
        match self.phase {
            Phase::Shrink { size } => {
                if measured.width <= self.width {
                    Fit { phase: Phase::Grow { size }, ..self }
                } else if size >= SIZE_STEP {
                    Fit { phase: Phase::Shrink { size: (size - SIZE_STEP) as u64 }, ..self }
                } else {
                    Fit { phase: Phase::Grow { size: seed_size(self.height) }, ..self }
                }
            },
            Phase::Grow { size } => {
                if measured.height > self.height || (self.disable_stretch && measured.width
                    > self.width) {
                    self.spec_settle_size()
                } else if size + SIZE_STEP > limit_size(self.height) {
                    self.spec_accept(size, measured).spec_settle_size()
                } else {
                    Fit {
                        phase: Phase::Grow { size: (size + SIZE_STEP) as u64 },
                        ..self.spec_accept(size, measured)
                    }
                }
            },
            Phase::Fixed { size } => self.spec_accept(size, measured).spec_settle_size(),
            Phase::Compress { scale } => {
                if measured.width <= self.width {
                    Fit {
                        phase: Phase::Done,
                        spec: MeasureSpec {
                            text_scale_x: scale,
                            bounds: measured,
                            ..self.spec
                        },
                        ..self
                    }
                } else if scale > 0 {
                    Fit { phase: Phase::Compress { scale: (scale - 1) as u32 }, ..self }
                } else {
                    Fit { phase: Phase::Done, ..self }
                }
            },
            Phase::Done => self,
        }
    }

    /// An upper bound on the measurements the search can still ask for.
    pub open spec fn remaining(self) -> nat {
        match self.phase {
            Phase::Shrink { size } => (size / SIZE_STEP) as nat + 1 + growth_left(self.height, 0)
                + 0x1_0000_0001,
            Phase::Grow { size } => growth_left(self.height, size) + 0x1_0000_0001,
            Phase::Fixed { size } => 0x1_0000_0001,
            Phase::Compress { scale } => scale as nat + 1,
            Phase::Done => 0,
        }
    }

    /// One step keeps a valid search valid, keeps its box and mode, never
    /// raises the horizontal scale, and brings the search closer to its end.
    pub proof fn lemma_advance(self, measured: Bounds)
        requires
            self.wf(),
        ensures
            self.spec_advance(measured).wf(),
            self.spec_advance(measured).spec.text_scale_x <= self.spec.text_scale_x,
            self.spec_advance(measured).width == self.width,
            self.spec_advance(measured).height == self.height,
            self.spec_advance(measured).disable_stretch == self.disable_stretch,
            self.spec_advance(measured).adaptive == self.adaptive,
            self.phase !is Done ==> self.spec_advance(measured).remaining() < self.remaining(),
    {
        if self.spec.raw_width > self.width {
            lemma_start_scale(self.width, self.spec.raw_width);
        }
        if measured.width > self.width {
            lemma_start_scale(self.width, measured.width);
        }
    }

    /// The search carried to its end with every measurement answered by `metrics`.
    pub open spec fn run(self, metrics: spec_fn(Probe) -> Bounds) -> Fit
        decreases self.remaining(),
    {
        match self.spec_pending() {
            None => self,
            Some(probe) => self.spec_advance(metrics(probe)).run(metrics),
        }
    }
}

impl Fitter {
    /// Starts the search for the largest size at which the text fits.
    pub fn adjusted(width: u64, height: u64, disable_stretch: bool, has_text: bool) -> (fitter:
        Fitter)
        requires
            width <= LENGTH_MAX,
            height <= LENGTH_MAX,
        ensures
            fitter@ == Fit::spec_adjusted(width, height, disable_stretch, has_text),
            fitter@.wf(),
    {
        let seed: u64 = height * 9 / 10;
        Fitter {
            state: Fit {
                width,
                height,
                disable_stretch,
                adaptive: true,
                phase: if !has_text {
                    Phase::Done
                } else if disable_stretch {
                    Phase::Shrink { size: seed }
                } else {
                    Phase::Grow { size: seed }
                },
                spec: MeasureSpec {
                    text_size: 0,
                    text_scale_x: SCALE_ONE,
                    bounds: Bounds::new_empty(),
                    raw_width: 0,
                },
            },
        }
    }

    /// Starts the fit at a size given from outside.
    pub fn fixed(width: u64, height: u64, disable_stretch: bool, text_size: u64) -> (fitter:
        Fitter)
        requires
            width <= LENGTH_MAX,
            height <= LENGTH_MAX,
        ensures
            fitter@ == Fit::spec_fixed(width, height, disable_stretch, text_size),
            fitter@.wf(),
    {
        Fitter {
            state: Fit {
                width,
                height,
                disable_stretch,
                adaptive: false,
                phase: Phase::Fixed { size: text_size },
                spec: MeasureSpec {
                    text_size,
                    text_scale_x: SCALE_ONE,
                    bounds: Bounds::new_empty(),
                    raw_width: 0,
                },
            },
        }
    }

    /// A finished search in a box of 128 by 128 pixels that holds the fit a
    /// line has before it was ever measured.
    pub fn new() -> (fitter: Fitter)
        ensures
            fitter@ == Fit::spec_new(),
            fitter@.wf(),
    {
        Fitter {
            state: Fit {
                width: 1_280_000,
                height: 1_280_000,
                disable_stretch: false,
                adaptive: true,
                phase: Phase::Done,
                spec: MeasureSpec::new(),
            },
        }
    }

    /// The state of the search.
    pub fn state(&self) -> (state: Fit)
        ensures
            state == self@,
    {
        self.state
    }

    /// The last fit accepted.
    pub fn spec(&self) -> (spec: MeasureSpec)
        ensures
            spec == self@.spec,
    {
        self.state.spec
    }

    /// The measurement the search waits for; `None` once the search is over.
    pub fn pending(&self) -> (probe: Option<Probe>)
        ensures
            probe == self@.spec_pending(),
    {
        match self.state.phase {
            Phase::Shrink { size } => Some(Probe { size, scale: SCALE_ONE }),
            Phase::Grow { size } => Some(Probe { size, scale: SCALE_ONE }),
            Phase::Fixed { size } => Some(Probe { size, scale: SCALE_ONE }),
            Phase::Compress { scale } => Some(Probe { size: self.state.spec.text_size, scale }),
            Phase::Done => None,
        }
    }

    fn settle_size(&mut self)
        requires
            old(self)@.width <= LENGTH_MAX,
        ensures
            final(self)@ == old(self)@.spec_settle_size(),
    {
        if self.state.spec.raw_width as u64 > self.state.width {
            proof {
                lemma_start_scale(self.state.width, self.state.spec.raw_width);
            }
            let scale: u64 = self.state.width * (SCALE_ONE as u64) / (
            self.state.spec.raw_width as u64);
            self.state.phase = Phase::Compress { scale: scale as u32 };
        } else {
            self.state.phase = Phase::Done;
        }
    }

    fn accept(&mut self, size: u64, measured: Bounds)
        ensures
            final(self)@ == old(self)@.spec_accept(size, measured),
    {
        self.state.spec = MeasureSpec {
            text_size: size,
            text_scale_x: SCALE_ONE,
            bounds: measured,
            raw_width: measured.width,
        };
    }

    /// Hands the search the bounds measured for its pending probe and returns the
    /// next probe. A search that is over stays as it is.
    pub fn advance(&mut self, measured: Bounds) -> (probe: Option<Probe>)
        requires
            old(self)@.wf(),
        ensures
            final(self)@ == old(self)@.spec_advance(measured),
            probe == final(self)@.spec_pending(),
            final(self)@.wf(),
            final(self)@.spec.text_scale_x <= old(self)@.spec.text_scale_x,
            old(self)@.phase !is Done ==> final(self)@.remaining() < old(self)@.remaining(),
    {
        proof {
            self@.lemma_advance(measured);
        }
        let width = self.state.width;
        let height = self.state.height;
        match self.state.phase {
            Phase::Shrink { size } => {
                if measured.width as u64 <= width {
                    self.state.phase = Phase::Grow { size };
                } else if size >= SIZE_STEP {
                    self.state.phase = Phase::Shrink { size: size - SIZE_STEP };
                } else {
                    self.state.phase = Phase::Grow { size: height * 9 / 10 };
                }
            },
            Phase::Grow { size } => {
                if measured.height as u64 > height || (self.state.disable_stretch
                    && measured.width as u64 > width) {
                    self.settle_size();
                } else if size + SIZE_STEP > height * 10 {
                    self.accept(size, measured);
                    self.settle_size();
                } else {
                    self.accept(size, measured);
                    self.state.phase = Phase::Grow { size: size + SIZE_STEP };
                }
            },
            Phase::Fixed { size } => {
                self.accept(size, measured);
                self.settle_size();
            },
            Phase::Compress { scale } => {
                if measured.width as u64 <= width {
                    self.state.spec.text_scale_x = scale;
                    self.state.spec.bounds = measured;
                    self.state.phase = Phase::Done;
                } else if scale > 0 {
                    self.state.phase = Phase::Compress { scale: scale - 1 };
                } else {
                    self.state.phase = Phase::Done;
                }
            },
            Phase::Done => {},
        }
        self.pending()
    }
}

/// A search left to run ends, stays valid, and keeps its box and mode.
pub proof fn lemma_run_ends(search: Fit, metrics: spec_fn(Probe) -> Bounds)
    requires
        search.wf(),
    ensures
        search.run(metrics).wf(),
        search.run(metrics).phase is Done,
        search.run(metrics).width == search.width,
        search.run(metrics).height == search.height,
        search.run(metrics).disable_stretch == search.disable_stretch,
        search.run(metrics).adaptive == search.adaptive,
    decreases search.remaining(),
{
    match search.spec_pending() {
        None => {},
        Some(probe) => {
            search.lemma_advance(metrics(probe));
            lemma_run_ends(search.spec_advance(metrics(probe)), metrics);
        },
    }
}

/// Once the size is settled, the rest of the search changes neither the size
/// nor the width measured at scale 1, and the scale can only go down.
pub proof fn lemma_run_keeps_size(search: Fit, metrics: spec_fn(Probe) -> Bounds)
    requires
        search.wf(),
        search.phase is Compress || search.phase is Done,
    ensures
        search.run(metrics).spec.text_size == search.spec.text_size,
        search.run(metrics).spec.raw_width == search.spec.raw_width,
        search.run(metrics).spec.text_scale_x <= search.spec.text_scale_x,
        search.spec.raw_width <= search.width ==> search.run(metrics).spec == search.spec,
    decreases search.remaining(),
{
    match search.spec_pending() {
        None => {},
        Some(probe) => {
            search.lemma_advance(metrics(probe));
            lemma_run_keeps_size(search.spec_advance(metrics(probe)), metrics);
        },
    }
}

/// With stretch disabled, the fit found for a line lies inside its box and is
/// not compressed: the glyphs are no wider than the box and no taller, at
/// scale 1, whatever the metrics are.
pub proof fn lemma_unstretched_fit_in_box(
    width: u64,
    height: u64,
    has_text: bool,
    metrics: spec_fn(Probe) -> Bounds,
)
    requires
        width <= LENGTH_MAX,
        height <= LENGTH_MAX,
    ensures
        ({
            let fit = Fit::spec_adjusted(width, height, true, has_text).run(metrics);
            &&& fit.phase is Done
            &&& fit.spec.bounds.width <= width
            &&& fit.spec.bounds.height <= height
            &&& fit.spec.text_scale_x == SCALE_ONE
        }),
{
    lemma_run_ends(Fit::spec_adjusted(width, height, true, has_text), metrics);
}

/// Whatever the mode, the scale of a finished fit is at most 1, and a fit
/// that was compressed is no wider than the box: one that is wider than its
/// box is at scale 1.
pub proof fn lemma_compressed_fit_in_width(search: Fit, metrics: spec_fn(Probe) -> Bounds)
    requires
        search.wf(),
    ensures
        ({
            let fit = search.run(metrics);
            &&& fit.spec.text_scale_x <= SCALE_ONE
            &&& fit.spec.text_scale_x < SCALE_ONE ==> fit.spec.bounds.width <= search.width
            &&& fit.spec.bounds.width > search.width ==> fit.spec.text_scale_x == SCALE_ONE
        }),
{
    lemma_run_ends(search, metrics);
}

/// A fit at a given size whose text, measured at that size and scale 1, is
/// no wider than the box is not compressed.
pub proof fn lemma_fixed_fit_in_width(
    width: u64,
    height: u64,
    disable_stretch: bool,
    text_size: u64,
    metrics: spec_fn(Probe) -> Bounds,
)
    requires
        width <= LENGTH_MAX,
        height <= LENGTH_MAX,
        metrics(Probe { size: text_size, scale: SCALE_ONE }).width <= width,
    ensures
        Fit::spec_fixed(width, height, disable_stretch, text_size).run(
            metrics,
        ).spec.text_scale_x == SCALE_ONE,
{
    let start = Fit::spec_fixed(width, height, disable_stretch, text_size);
    let probe = start.spec_pending()->0;
    start.lemma_advance(metrics(probe));
    lemma_run_keeps_size(start.spec_advance(metrics(probe)), metrics);
}

/// A fit at a given size ends at that size.
pub proof fn lemma_fixed_fit_keeps_size(
    width: u64,
    height: u64,
    disable_stretch: bool,
    text_size: u64,
    metrics: spec_fn(Probe) -> Bounds,
)
    requires
        width <= LENGTH_MAX,
        height <= LENGTH_MAX,
    ensures
        Fit::spec_fixed(width, height, disable_stretch, text_size).run(metrics).spec.text_size
            == text_size,
{
    let start = Fit::spec_fixed(width, height, disable_stretch, text_size);
    let probe = start.spec_pending()->0;
    start.lemma_advance(metrics(probe));
    lemma_run_keeps_size(start.spec_advance(metrics(probe)), metrics);
}

impl Fit {
    /// Whether nothing was accepted yet: the fit is still the empty one it
    /// began as.
    pub open spec fn untouched(self) -> bool {
        &&& self.spec.text_scale_x == SCALE_ONE
        &&& self.spec.bounds == Bounds::spec_empty()
        &&& self.spec.raw_width == 0
        &&& self.adaptive ==> self.spec.text_size == 0
        &&& self.phase !is Compress
    }

    /// Whether the accepted fit holds what `metrics` measures: the bounds at
    /// its size and scale, and the width at its size and scale 1.
    pub open spec fn measured_by(self, metrics: spec_fn(Probe) -> Bounds) -> bool {
        &&& self.spec.bounds == metrics(
            Probe { size: self.spec.text_size, scale: self.spec.text_scale_x },
        )
        &&& self.spec.raw_width == metrics(
            Probe { size: self.spec.text_size, scale: SCALE_ONE },
        ).width
    }
}

/// The bounds of an accepted fit are always those measured at its size and
/// scale: a search whose fit holds measured bounds ends with one that does.
pub proof fn lemma_run_stays_measured(search: Fit, metrics: spec_fn(Probe) -> Bounds)
    requires
        search.wf(),
        search.measured_by(metrics) || search.phase is Fixed,
    ensures
        search.run(metrics).measured_by(metrics),
    decreases search.remaining(),
{
    match search.spec_pending() {
        None => {},
        Some(probe) => {
            search.lemma_advance(metrics(probe));
            lemma_run_stays_measured(search.spec_advance(metrics(probe)), metrics);
        },
    }
}

/// A search that has accepted nothing yet ends with nothing accepted or with
/// a fit that holds measured bounds.
pub proof fn lemma_run_is_measured(search: Fit, metrics: spec_fn(Probe) -> Bounds)
    requires
        search.wf(),
        search.untouched(),
    ensures
        search.run(metrics).untouched() || search.run(metrics).measured_by(metrics),
    decreases search.remaining(),
{
    match search.spec_pending() {
        None => {},
        Some(probe) => {
            let next = search.spec_advance(metrics(probe));
            search.lemma_advance(metrics(probe));
            if next.untouched() {
                lemma_run_is_measured(next, metrics);
            } else {
                lemma_run_stays_measured(next, metrics);
            }
        },
    }
}

/// The fit found for a line holds the bounds measured at its size and scale
/// and the width measured at its size and scale 1, unless no size was
/// accepted: then it is the empty fit of size 0.
pub proof fn lemma_adjusted_fit_is_measured(
    width: u64,
    height: u64,
    disable_stretch: bool,
    has_text: bool,
    metrics: spec_fn(Probe) -> Bounds,
)
    requires
        width <= LENGTH_MAX,
        height <= LENGTH_MAX,
    ensures
        ({
            let fit = Fit::spec_adjusted(width, height, disable_stretch, has_text).run(metrics);
            ||| fit.measured_by(metrics)
            ||| {
                &&& fit.spec.text_size == 0
                &&& fit.spec.text_scale_x == SCALE_ONE
                &&& fit.spec.bounds == Bounds::spec_empty()
                &&& fit.spec.raw_width == 0
            }
        }),
{
    let start = Fit::spec_adjusted(width, height, disable_stretch, has_text);
    lemma_run_is_measured(start, metrics);
    lemma_run_ends(start, metrics);
}

/// The fit at a given size holds the bounds measured at that size and the
/// scale it ended with, and the width measured at that size and scale 1.
pub proof fn lemma_fixed_fit_is_measured(
    width: u64,
    height: u64,
    disable_stretch: bool,
    text_size: u64,
    metrics: spec_fn(Probe) -> Bounds,
)
    requires
        width <= LENGTH_MAX,
        height <= LENGTH_MAX,
    ensures
        Fit::spec_fixed(width, height, disable_stretch, text_size).run(metrics).measured_by(
            metrics,
        ),
{
    lemma_run_stays_measured(
        Fit::spec_fixed(width, height, disable_stretch, text_size),
        metrics,
    );
}

/// With stretch allowed, two searches that grow in step (same height, same
/// candidate size, same accepted fit) settle on the same size and the same
/// width at scale 1, however wide their boxes are.
pub proof fn lemma_growth_ignores_width(a: Fit, b: Fit, metrics: spec_fn(Probe) -> Bounds)
    requires
        a.wf(),
        b.wf(),
        a.adaptive && b.adaptive,
        !a.disable_stretch && !b.disable_stretch,
        a.height == b.height,
        a.phase is Grow,
        a.phase == b.phase,
        a.spec == b.spec,
    ensures
        a.run(metrics).spec.text_size == b.run(metrics).spec.text_size,
        a.run(metrics).spec.raw_width == b.run(metrics).spec.raw_width,
    decreases a.remaining(),
{
    let probe = a.spec_pending()->0;
    let measured = metrics(probe);
    let a1 = a.spec_advance(measured);
    let b1 = b.spec_advance(measured);
    a.lemma_advance(measured);
    b.lemma_advance(measured);
    if a1.phase is Grow {
        lemma_growth_ignores_width(a1, b1, metrics);
    } else {
        lemma_run_keeps_size(a1, metrics);
        lemma_run_keeps_size(b1, metrics);
    }
}

/// A line fitted in one box and fitted again in a box at least as wide as the
/// width it measured at scale 1 the first time is not compressed the second time.
pub proof fn lemma_refit_in_own_width(
    width: u64,
    wider: u64,
    height: u64,
    disable_stretch: bool,
    has_text: bool,
    metrics: spec_fn(Probe) -> Bounds,
)
    requires
        width <= LENGTH_MAX,
        wider <= LENGTH_MAX,
        height <= LENGTH_MAX,
        Fit::spec_adjusted(width, height, disable_stretch, has_text).run(
            metrics,
        ).spec.raw_width <= wider,
    ensures
        Fit::spec_adjusted(wider, height, disable_stretch, has_text).run(
            metrics,
        ).spec.text_scale_x == SCALE_ONE,
        Fit::spec_adjusted(wider, height, disable_stretch, has_text).run(
            metrics,
        ).spec.raw_width <= wider,
{
    let first = Fit::spec_adjusted(width, height, disable_stretch, has_text);
    let second = Fit::spec_adjusted(wider, height, disable_stretch, has_text);
    lemma_run_ends(first, metrics);
    lemma_run_ends(second, metrics);
    if has_text && !disable_stretch {
        lemma_growth_ignores_width(first, second, metrics);
    }
}

} // verus!
