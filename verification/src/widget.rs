//! The widgets and their streams. A widget owns opaque display attributes,
//! an optional user-supplied render function and a tick period; turning it
//! into a stream consumes it and yields one `Ok(Vec<Text>)` or one
//! `Err(WidgetError)` per completed tick, forever, until cancelled.
//!
//! `Memory` samples the machine's total RAM through `sysinfo`; `TextBox`
//! echoes a fixed string. Both share the `TickMachine` transition rules, so
//! the scheduling laws proved in `crate::stream` apply to either.

use vstd::prelude::*;
use crate::render::{dec_digits, render_default};
use crate::sample::{ConstructionError, RawSample, SampleError, WidgetError};
use crate::stream::{spec_step, StreamEvent, TickMachine};
use crate::text::{Attributes, Text};

verus! {

/// Fixed-delay tick period used when the host does not override it.
pub const DEFAULT_PERIOD_MS: u64 = 10000;

/// What the composed stream tells its driver after one event.
#[derive(Debug, PartialEq, Eq)]
pub enum StreamOutput {
    /// Begin sampling for the next tick.
    StartSample,
    /// One completed tick's result, to be yielded to the host.
    Item(Result<Vec<Text>, WidgetError>),
    /// The stream is over; release the timer.
    Stopped,
    /// Keep waiting.
    Idle,
}

/// A widget that shows the machine's total memory, in bytes.
pub struct Memory<F: Fn(u64) -> String> {
    pub attr: Attributes,
    pub render: Option<F>,
    pub period_ms: u64,
}

/// Relies on `sysinfo::System`: `new` + `refresh_memory` + `total_memory`
/// read the total RAM in bytes. The value depends on the machine the call
/// runs on, so nothing is promised of it; `sysinfo` reports 0 when the
/// statistics could not be gathered.
#[verifier::external_body]
fn read_total_memory() -> (raw: u64) {
    let mut sys = sysinfo::System::new();
    sys.refresh_memory();
    sys.total_memory()
}

/// Interprets one raw memory reading: 0 means the source was unavailable,
/// anything else is the reading in bytes.
pub fn classify_memory_reading(raw: u64) -> (r: Result<RawSample, SampleError>)
    ensures
        raw == 0 ==> r == Err::<RawSample, SampleError>(SampleError::SourceUnavailable),
        raw != 0 ==> r == Ok::<RawSample, SampleError>(RawSample::Num(raw)),
{
    if raw == 0 {
        Err(SampleError::SourceUnavailable)
    } else {
        Ok(RawSample::Num(raw))
    }
}

impl<F: Fn(u64) -> String> Memory<F> {
    /// The render function, if any, accepts every sample. This is the
    /// contract the host accepts when it supplies one: a pure, total mapping
    /// from sample to display string.
    pub open spec fn wf(&self) -> bool {
        match self.render {
            Some(f) => forall|x: u64| call_requires(f, (x,)),
            None => true,
        }
    }

    /// What counts as a correct rendering of the numeric sample `n`: any
    /// possible output of the custom render function, or exactly the decimal
    /// digits when none was supplied.
    pub open spec fn renders_to(&self, n: u64, txt: String) -> bool {
        match self.render {
            Some(f) => call_ensures(f, (n,), txt),
            None => txt@ == dec_digits(n as nat),
        }
    }

    /// As `renders_to`, over the sample currency: the custom function takes
    /// the numeric payload; a string sample is shown verbatim.
    pub open spec fn renders_sample_to(&self, s: RawSample, txt: String) -> bool {
        match s {
            RawSample::Num(n) => self.renders_to(n, txt),
            RawSample::Str(t) => txt@ == t@,
        }
    }

    /// The item a tick must yield for sample result `r` on tick `tick`:
    /// exactly one fragment carrying this widget's attributes and a correct
    /// rendering on success; on failure, that failure annotated with this
    /// widget's name and the tick number.
    pub open spec fn item_ok(
        &self,
        r: Result<RawSample, SampleError>,
        tick: u64,
        out: Result<Vec<Text>, WidgetError>,
    ) -> bool {
        match r {
            Ok(s) => out matches Ok(v) && v@.len() == 1 && v@[0].attr == self.attr
                && self.renders_sample_to(s, v@[0].content),
            Err(e) => out matches Err(w) && w.widget@ == "memory"@ && w.tick == tick && w.cause
                == e,
        }
    }

    /// A new memory widget with the default tick period. `attr` is the
    /// host's opaque display configuration; `render`, if supplied, entirely
    /// replaces the default decimal rendering.
    pub fn new(attr: Attributes, render: Option<F>) -> (w: Memory<F>)
        requires
            (match render {
                Some(f) => forall|x: u64| call_requires(f, (x,)),
                None => true,
            }),
        ensures
            w.attr == attr,
            w.render == render,
            w.period_ms == DEFAULT_PERIOD_MS,
            w.wf(),
    {
        Memory { attr, render, period_ms: DEFAULT_PERIOD_MS }
    }

    /// One sample: re-reads the source on every call, no caching. Succeeds
    /// with a non-zero byte count or fails with `SourceUnavailable`.
    pub fn sample(&self) -> (r: Result<RawSample, SampleError>)
        ensures
            (r matches Ok(s) ==> s matches RawSample::Num(n) && n != 0),
            (r matches Err(e) ==> e == SampleError::SourceUnavailable),
    {
        classify_memory_reading(read_total_memory())
    }

    /// Turns one tick's sample result into the item the stream yields:
    /// success is rendered into a single fragment, failure is wrapped and
    /// annotated. Rendering itself cannot fail, and a failure never escapes
    /// as anything but an `Err` item.
    pub fn process_sample(&self, r: Result<RawSample, SampleError>, tick_no: u64) -> (out: Result<
        Vec<Text>,
        WidgetError,
    >)
        requires
            self.wf(),
        ensures
            self.item_ok(r, tick_no, out),
    {
        match r {
            Ok(s) => {
                let txt: String = match (&self.render, &s) {
                    (Some(f), RawSample::Num(n)) => f(*n),
                    _ => render_default(&s),
                };
                let mut v: Vec<Text> = Vec::new();
                v.push(Text { attr: self.attr.duplicate(), content: txt });
                Ok(v)
            },
            Err(e) => Err(WidgetError { widget: "memory".to_owned(), tick: tick_no, cause: e }),
        }
    }

    /// One complete tick: sample, then render or wrap. The yielded item is
    /// exactly one correctly rendered fragment for whatever the source
    /// returned, or this widget's annotated failure.
    pub fn tick(&self, tick_no: u64) -> (out: Result<Vec<Text>, WidgetError>)
        requires
            self.wf(),
        ensures
            (out matches Ok(v) ==> v@.len() == 1 && v@[0].attr == self.attr && exists|n: u64|
                n != 0 && self.renders_to(n, v@[0].content)),
            (out matches Err(w) ==> w.widget@ == "memory"@ && w.tick == tick_no && w.cause
                == SampleError::SourceUnavailable),
    {
        let r = self.sample();
        let ghost sampled = r;
        let out = self.process_sample(r, tick_no);
        proof {
            match sampled {
                Ok(s) => {
                    match s {
                        RawSample::Num(n) => {
                            assert(n != 0 && self.renders_to(n, out->Ok_0@[0].content));
                        },
                        RawSample::Str(_) => {
                            assert(false);
                        },
                    }
                },
                Err(_) => {},
            }
        }
        out
    }

    /// Consumes the widget and starts its stream in the idle phase with the
    /// timer armed and no tick emitted yet. Fails, and no stream ever
    /// exists, exactly when the configured tick period is zero.
    pub fn into_stream(self) -> (r: Result<MemoryStream<F>, ConstructionError>)
        ensures
            self.period_ms == 0 ==> (r matches Err(e) && e == ConstructionError::ZeroTickPeriod),
            self.period_ms != 0 ==> (r matches Ok(s) && s.widget == self && s.machine.phase
                is AwaitingTimer && s.machine.ticks_emitted == 0),
    {
        if self.period_ms == 0 {
            Err(ConstructionError::ZeroTickPeriod)
        } else {
            Ok(MemoryStream { widget: self, machine: TickMachine::new() })
        }
    }
}

/// A memory widget's running stream: the widget plus its tick machine.
pub struct MemoryStream<F: Fn(u64) -> String> {
    pub widget: Memory<F>,
    pub machine: TickMachine,
}

impl<F: Fn(u64) -> String> MemoryStream<F> {
    /// Feeds one event through the tick machine and performs the widget's
    /// part of the resulting action: an emitted sample result is rendered
    /// (or wrapped) into the item for the tick that just completed. The
    /// phase follows the shared transition table exactly, so the scheduling
    /// laws of `crate::stream` hold of this stream.
    pub fn on_event(&mut self, ev: StreamEvent) -> (out: StreamOutput)
        requires
            old(self).widget.wf(),
        ensures
            final(self).widget == old(self).widget,
            final(self).machine.phase == spec_step(old(self).machine.phase, ev).0,
            (match spec_step(old(self).machine.phase, ev).1 {
                crate::stream::StreamAction::StartSample => out is StartSample
                    && final(self).machine.ticks_emitted == old(self).machine.ticks_emitted,
                crate::stream::StreamAction::Emit(r) => ({
                    &&& out matches StreamOutput::Item(it) && old(self).widget.item_ok(
                        r,
                        old(self).machine.ticks_emitted,
                        it,
                    )
                    &&& final(self).machine.ticks_emitted == (if old(self).machine.ticks_emitted
                        < u64::MAX {
                        old(self).machine.ticks_emitted + 1
                    } else {
                        old(self).machine.ticks_emitted as int
                    })
                }),
                crate::stream::StreamAction::Stop => out is Stopped
                    && final(self).machine.ticks_emitted == old(self).machine.ticks_emitted,
                crate::stream::StreamAction::Wait => out is Idle && final(self).machine.ticks_emitted
                    == old(self).machine.ticks_emitted,
            }),
    {
        let tick_no: u64 = self.machine.ticks_emitted;
        let act = self.machine.step(ev);
        match act {
            crate::stream::StreamAction::StartSample => StreamOutput::StartSample,
            crate::stream::StreamAction::Emit(r) => StreamOutput::Item(
                self.widget.process_sample(r, tick_no),
            ),
            crate::stream::StreamAction::Stop => StreamOutput::Stopped,
            crate::stream::StreamAction::Wait => StreamOutput::Idle,
        }
    }

    /// One whole synchronous tick, as the driver performs it when the
    /// interval timer fires: start sampling, read the source, and hand back
    /// the completed tick's item. Yields an item exactly when the stream was
    /// idle; a cancelled stream (or one already mid-sample) does nothing.
    pub fn tick_now(&mut self) -> (out: Option<Result<Vec<Text>, WidgetError>>)
        requires
            old(self).widget.wf(),
        ensures
            final(self).widget == old(self).widget,
            out is Some <==> old(self).machine.phase is AwaitingTimer,
            (out matches Some(item) ==> {
                &&& final(self).machine.phase is AwaitingTimer
                &&& (item matches Ok(v) ==> v@.len() == 1 && v@[0].attr == old(self).widget.attr
                    && exists|n: u64| n != 0 && old(self).widget.renders_to(n, v@[0].content))
                &&& (item matches Err(w) ==> w.widget@ == "memory"@ && w.tick == old(
                    self,
                ).machine.ticks_emitted && w.cause == SampleError::SourceUnavailable)
            }),
            out is None ==> final(self).machine.phase == old(self).machine.phase && final(self).machine.ticks_emitted == old(self).machine.ticks_emitted,
    {
        let started = self.on_event(StreamEvent::TimerFired);
        match started {
            StreamOutput::StartSample => {
                let r = self.widget.sample();
                let ghost sampled = r;
                let done = self.on_event(StreamEvent::SampleDone(r));
                match done {
                    StreamOutput::Item(item) => {
                        proof {
                            match sampled {
                                Ok(s) => {
                                    match s {
                                        RawSample::Num(n) => {
                                            assert(n != 0 && self.widget.renders_to(
                                                n,
                                                item->Ok_0@[0].content,
                                            ));
                                        },
                                        RawSample::Str(_) => {
                                            assert(false);
                                        },
                                    }
                                },
                                Err(_) => {},
                            }
                        }
                        Some(item)
                    },
                    _ => {
                        proof {
                            assert(false);
                        }
                        None
                    },
                }
            },
            _ => None,
        }
    }
}

/// Render is applied deterministically per sample and order-preserving.
/// If the driver pairs each emitted sample result with the item the widget
/// produced for it (as `MemoryStream::on_event` does; `item_ok` is its
/// postcondition), then success and failure positions coincide pointwise, so
/// the Nth `Ok` item is exactly the rendering of the Nth successful sample,
/// and the Nth `Err` item wraps the Nth failure, annotated with its tick.
/// Together with `crate::stream::lemma_emits_follow_samples`, which puts the
/// emitted results in completion order, this pins the whole yielded stream:
/// nothing is dropped, duplicated or reordered.
pub proof fn lemma_items_follow_results<F: Fn(u64) -> String>(
    w: Memory<F>,
    results: Seq<Result<RawSample, SampleError>>,
    ticks: Seq<u64>,
    items: Seq<Result<Vec<Text>, WidgetError>>,
)
    requires
        items.len() == results.len(),
        ticks.len() == results.len(),
        forall|i: int|
            0 <= i < results.len() ==> w.item_ok(results[i], ticks[i], #[trigger] items[i]),
    ensures
        forall|i: int| 0 <= i < results.len() ==> (results[i] is Ok <==> #[trigger] items[i] is Ok),
        forall|i: int|
            0 <= i < results.len() ==> (results[i] matches Ok(s) ==> #[trigger] items[i] matches Ok(
                v,
            ) && v@.len() == 1 && v@[0].attr == w.attr && w.renders_sample_to(s, v@[0].content)),
        forall|i: int|
            0 <= i < results.len() ==> (results[i] matches Err(e) ==> #[trigger] items[i] matches Err(
                we,
            ) && we.cause == e && we.tick == ticks[i] && we.widget@ == "memory"@),
{
}

/// The successful samples of a result sequence, in order.
pub open spec fn ok_samples(results: Seq<Result<RawSample, SampleError>>) -> Seq<RawSample>
    decreases results.len(),
{
    if results.len() == 0 {
        Seq::empty()
    } else {
        (match results[0] {
            Ok(s) => seq![s],
            Err(_) => Seq::empty(),
        }) + ok_samples(results.drop_first())
    }
}

/// The texts of the successful items of an item sequence, in order.
pub open spec fn ok_texts(items: Seq<Result<Vec<Text>, WidgetError>>) -> Seq<Seq<char>>
    decreases items.len(),
{
    if items.len() == 0 {
        Seq::empty()
    } else {
        (match items[0] {
            Ok(v) => seq![v@[0].content@],
            Err(_) => Seq::empty(),
        }) + ok_texts(items.drop_first())
    }
}

/// Default rendering is deterministic per sample and preserves the order of
/// successes: whenever each item matches its sample result — a success shown
/// as one fragment holding the default rendering, a failure staying a
/// failure — the Nth successful item's text is exactly the default rendering
/// of the Nth successful sample.
pub proof fn lemma_nth_ok_text_default(
    results: Seq<Result<RawSample, SampleError>>,
    items: Seq<Result<Vec<Text>, WidgetError>>,
)
    requires
        items.len() == results.len(),
        forall|i: int|
            0 <= i < results.len() ==> ((results[i] matches Ok(s) ==> #[trigger] items[i] matches Ok(
                v,
            ) && v@.len() == 1 && v@[0].content@ == crate::render::default_render(s)) && (results[i]
                is Err ==> items[i] is Err)),
    ensures
        ok_texts(items).len() == ok_samples(results).len(),
        forall|k: int|
            0 <= k < ok_samples(results).len() ==> #[trigger] ok_texts(items)[k]
                == crate::render::default_render(ok_samples(results)[k]),
    decreases results.len(),
{
    if results.len() > 0 {
        let rt = results.drop_first();
        let it = items.drop_first();
        assert forall|i: int|
            0 <= i < rt.len() implies ((rt[i] matches Ok(s) ==> #[trigger] it[i] matches Ok(v)
                && v@.len() == 1 && v@[0].content@ == crate::render::default_render(s)) && (rt[i]
                is Err ==> it[i] is Err)) by {
            assert(rt[i] == results[i + 1]);
            assert(it[i] == items[i + 1]);
            assert((results[i + 1] matches Ok(s) ==> items[i + 1] matches Ok(v) && v@.len() == 1
                && v@[0].content@ == crate::render::default_render(s)) && (results[i + 1] is Err
                ==> items[i + 1] is Err));
        }
        lemma_nth_ok_text_default(rt, it);
        assert forall|k: int|
            0 <= k < ok_samples(results).len() implies #[trigger] ok_texts(items)[k]
            == crate::render::default_render(ok_samples(results)[k]) by {
            assert((results[0] matches Ok(s) ==> items[0] matches Ok(v) && v@.len() == 1
                && v@[0].content@ == crate::render::default_render(s)) && (results[0] is Err
                ==> items[0] is Err));
            match results[0] {
                Ok(s) => {
                    if k > 0 {
                        assert(ok_texts(items)[k] == ok_texts(it)[k - 1]);
                        assert(ok_samples(results)[k] == ok_samples(rt)[k - 1]);
                    }
                },
                Err(_) => {
                    assert(ok_texts(items)[k] == ok_texts(it)[k]);
                    assert(ok_samples(results)[k] == ok_samples(rt)[k]);
                },
            }
        }
    }
}

/// The order-preservation law for a memory widget without a custom render
/// function: its items satisfy the hypothesis of `lemma_nth_ok_text_default`,
/// so the Nth successful item shows exactly the decimal rendering of the
/// sampler's Nth successful value.
pub proof fn lemma_nth_ok_item_rendered<F: Fn(u64) -> String>(
    w: Memory<F>,
    results: Seq<Result<RawSample, SampleError>>,
    ticks: Seq<u64>,
    items: Seq<Result<Vec<Text>, WidgetError>>,
)
    requires
        w.render is None,
        items.len() == results.len(),
        ticks.len() == results.len(),
        forall|i: int|
            0 <= i < results.len() ==> w.item_ok(results[i], ticks[i], #[trigger] items[i]),
    ensures
        ok_texts(items).len() == ok_samples(results).len(),
        forall|k: int|
            0 <= k < ok_samples(results).len() ==> #[trigger] ok_texts(items)[k]
                == crate::render::default_render(ok_samples(results)[k]),
{
    assert forall|i: int|
        0 <= i < results.len() implies ((results[i] matches Ok(s) ==> #[trigger] items[i] matches Ok(
        v,
    ) && v@.len() == 1 && v@[0].content@ == crate::render::default_render(s)) && (results[i] is Err
        ==> items[i] is Err)) by {
        assert(w.item_ok(results[i], ticks[i], items[i]));
    }
    lemma_nth_ok_text_default(results, items);
}

/// A custom render function whose every possible output is one fixed text
/// replaces the default entirely: every successful numeric tick yields
/// exactly that text, whatever the underlying sample value was.
pub proof fn lemma_custom_render_constant<F: Fn(u64) -> String>(
    w: Memory<F>,
    f: F,
    fixed: Seq<char>,
    r: Result<RawSample, SampleError>,
    tick: u64,
    out: Result<Vec<Text>, WidgetError>,
)
    requires
        w.render == Some(f),
        forall|x: u64, s: String| call_ensures(f, (x,), s) ==> s@ == fixed,
        w.item_ok(r, tick, out),
        r matches Ok(RawSample::Num(n)),
    ensures
        out matches Ok(v) && v@.len() == 1 && v@[0].content@ == fixed,
{
}

/// A widget that displays a fixed string.
pub struct TextBox {
    pub attr: Attributes,
    pub text: String,
    pub period_ms: u64,
}

impl TextBox {
    /// The item a text box tick must yield: one fragment with the box's
    /// attributes and, on success, the sampled string verbatim (a numeric
    /// sample would fall back to its decimal digits).
    pub open spec fn item_ok(
        &self,
        r: Result<RawSample, SampleError>,
        tick: u64,
        out: Result<Vec<Text>, WidgetError>,
    ) -> bool {
        match r {
            Ok(s) => out matches Ok(v) && v@.len() == 1 && v@[0].attr == self.attr
                && v@[0].content@ == crate::render::default_render(s),
            Err(e) => out matches Err(w) && w.widget@ == "text"@ && w.tick == tick && w.cause == e,
        }
    }

    /// A new text box with the default tick period, echoing `text`.
    pub fn new(attr: Attributes, text: String) -> (w: TextBox)
        ensures
            w.attr == attr,
            w.text == text,
            w.period_ms == DEFAULT_PERIOD_MS,
    {
        TextBox { attr, text, period_ms: DEFAULT_PERIOD_MS }
    }

    /// One sample: the configured string, re-read each tick. Never fails.
    pub fn sample(&self) -> (r: Result<RawSample, SampleError>)
        ensures
            r == Ok::<RawSample, SampleError>(RawSample::Str(self.text)),
    {
        Ok(RawSample::Str(self.text.clone()))
    }

    /// Turns one tick's sample result into the yielded item, as
    /// `process_sample` does for `Memory` but with the default rendering
    /// only.
    pub fn process_sample(&self, r: Result<RawSample, SampleError>, tick_no: u64) -> (out: Result<
        Vec<Text>,
        WidgetError,
    >)
        ensures
            self.item_ok(r, tick_no, out),
    {
        match r {
            Ok(s) => {
                let txt = render_default(&s);
                let mut v: Vec<Text> = Vec::new();
                v.push(Text { attr: self.attr.duplicate(), content: txt });
                Ok(v)
            },
            Err(e) => Err(WidgetError { widget: "text".to_owned(), tick: tick_no, cause: e }),
        }
    }

    /// One complete tick: always succeeds with exactly one fragment holding
    /// the configured string verbatim.
    pub fn tick(&self, tick_no: u64) -> (out: Result<Vec<Text>, WidgetError>)
        ensures
            out matches Ok(v) && v@.len() == 1 && v@[0].attr == self.attr && v@[0].content@
                == self.text@,
    {
        let r = self.sample();
        self.process_sample(r, tick_no)
    }

    /// Consumes the widget and starts its stream; fails exactly when the
    /// configured tick period is zero, and then no stream ever exists.
    pub fn into_stream(self) -> (r: Result<TextStream, ConstructionError>)
        ensures
            self.period_ms == 0 ==> (r matches Err(e) && e == ConstructionError::ZeroTickPeriod),
            self.period_ms != 0 ==> (r matches Ok(s) && s.widget == self && s.machine.phase
                is AwaitingTimer && s.machine.ticks_emitted == 0),
    {
        if self.period_ms == 0 {
            Err(ConstructionError::ZeroTickPeriod)
        } else {
            Ok(TextStream { widget: self, machine: TickMachine::new() })
        }
    }
}

/// A text box's running stream.
pub struct TextStream {
    pub widget: TextBox,
    pub machine: TickMachine,
}

impl TextStream {
    /// As `MemoryStream::on_event`, for the text box.
    pub fn on_event(&mut self, ev: StreamEvent) -> (out: StreamOutput)
        ensures
            final(self).widget == old(self).widget,
            final(self).machine.phase == spec_step(old(self).machine.phase, ev).0,
            (match spec_step(old(self).machine.phase, ev).1 {
                crate::stream::StreamAction::StartSample => out is StartSample
                    && final(self).machine.ticks_emitted == old(self).machine.ticks_emitted,
                crate::stream::StreamAction::Emit(r) => ({
                    &&& out matches StreamOutput::Item(it) && old(self).widget.item_ok(
                        r,
                        old(self).machine.ticks_emitted,
                        it,
                    )
                    &&& final(self).machine.ticks_emitted == (if old(self).machine.ticks_emitted
                        < u64::MAX {
                        old(self).machine.ticks_emitted + 1
                    } else {
                        old(self).machine.ticks_emitted as int
                    })
                }),
                crate::stream::StreamAction::Stop => out is Stopped
                    && final(self).machine.ticks_emitted == old(self).machine.ticks_emitted,
                crate::stream::StreamAction::Wait => out is Idle && final(self).machine.ticks_emitted
                    == old(self).machine.ticks_emitted,
            }),
    {
        let tick_no: u64 = self.machine.ticks_emitted;
        let act = self.machine.step(ev);
        match act {
            crate::stream::StreamAction::StartSample => StreamOutput::StartSample,
            crate::stream::StreamAction::Emit(r) => StreamOutput::Item(
                self.widget.process_sample(r, tick_no),
            ),
            crate::stream::StreamAction::Stop => StreamOutput::Stopped,
            crate::stream::StreamAction::Wait => StreamOutput::Idle,
        }
    }
}

/// The order-preservation law for a text box: its items satisfy the
/// hypothesis of `lemma_nth_ok_text_default`, so the Nth successful item
/// shows exactly the default rendering of the Nth successful sample (the
/// sampled string verbatim).
pub proof fn lemma_nth_ok_text_item_rendered(
    w: TextBox,
    results: Seq<Result<RawSample, SampleError>>,
    ticks: Seq<u64>,
    items: Seq<Result<Vec<Text>, WidgetError>>,
)
    requires
        items.len() == results.len(),
        ticks.len() == results.len(),
        forall|i: int|
            0 <= i < results.len() ==> w.item_ok(results[i], ticks[i], #[trigger] items[i]),
    ensures
        ok_texts(items).len() == ok_samples(results).len(),
        forall|k: int|
            0 <= k < ok_samples(results).len() ==> #[trigger] ok_texts(items)[k]
                == crate::render::default_render(ok_samples(results)[k]),
{
    assert forall|i: int|
        0 <= i < results.len() implies ((results[i] matches Ok(s) ==> #[trigger] items[i] matches Ok(
        v,
    ) && v@.len() == 1 && v@[0].content@ == crate::render::default_render(s)) && (results[i] is Err
        ==> items[i] is Err)) by {
        assert(w.item_ok(results[i], ticks[i], items[i]));
    }
    lemma_nth_ok_text_default(results, items);
}

} // verus!
