use widget_stream::sample::{ConstructionError, RawSample, SampleError};
use widget_stream::stream::{StreamEvent, StreamPhase};
use widget_stream::text::{Attributes, Padding};
use widget_stream::widget::{Memory, StreamOutput, TextBox, DEFAULT_PERIOD_MS};

fn attrs() -> Attributes {
    Attributes {
        font: String::from("SourceCodePro 21"),
        fg_color: 0xffffffff,
        bg_color: None,
        padding: Padding {
            left: 8,
            right: 8,
            top: 0,
            bottom: 0,
        },
    }
}

type NoRender = fn(u64) -> String;

#[test]
fn attributes_duplicate_is_equal() {
    let a = attrs();
    assert_eq!(a.duplicate(), a);
}

#[test]
fn memory_new_uses_default_period() {
    let m: Memory<NoRender> = Memory::new(attrs(), None);
    assert_eq!(m.period_ms, DEFAULT_PERIOD_MS);
    assert_eq!(m.period_ms, 10_000);
}

#[test]
fn default_renderer_known_value() {
    // RawSample 8589934592 (bytes) renders as the canonical decimal string.
    let m: Memory<NoRender> = Memory::new(attrs(), None);
    let out = m.process_sample(Ok(RawSample::Num(8589934592)), 0);
    let v = out.expect("successful sample must yield a fragment list");
    assert_eq!(v.len(), 1);
    assert_eq!(v[0].content, "8589934592");
    assert_eq!(v[0].attr, attrs());
}

#[test]
fn custom_renderer_replaces_default() {
    // A render function that always returns "OK" makes every successful
    // tick yield exactly that text, whatever the sample value.
    let m = Memory::new(attrs(), Some(|_v: u64| String::from("OK")));
    for sample in [0u64, 1, 8589934592, u64::MAX] {
        let out = m.process_sample(Ok(RawSample::Num(sample)), 0);
        let v = out.expect("successful sample must yield a fragment list");
        assert_eq!(v.len(), 1);
        assert_eq!(v[0].content, "OK");
    }
}

#[test]
fn failed_sample_is_annotated_not_fatal() {
    let m: Memory<NoRender> = Memory::new(attrs(), None);
    let out = m.process_sample(Err(SampleError::SourceUnavailable), 3);
    let w = out.expect_err("failed sample must yield an error item");
    assert_eq!(w.widget, "memory");
    assert_eq!(w.tick, 3);
    assert_eq!(w.cause, SampleError::SourceUnavailable);
}

#[test]
fn each_error_cause_is_preserved() {
    let m: Memory<NoRender> = Memory::new(attrs(), None);
    for cause in [
        SampleError::SourceUnavailable,
        SampleError::PermissionDenied,
        SampleError::MalformedData,
    ] {
        let w = m.process_sample(Err(cause), 7).expect_err("must be an error item");
        assert_eq!(w.cause, cause);
        assert_eq!(w.tick, 7);
    }
}

#[test]
fn memory_tick_reads_real_source() {
    // Against the live OS source: either a single all-digits fragment or an
    // annotated unavailable-source error.
    let m: Memory<NoRender> = Memory::new(attrs(), None);
    match m.tick(0) {
        Ok(v) => {
            assert_eq!(v.len(), 1);
            assert!(!v[0].content.is_empty());
            assert!(v[0].content.chars().all(|c| c.is_ascii_digit()));
            assert_ne!(v[0].content, "0");
        }
        Err(w) => {
            assert_eq!(w.widget, "memory");
            assert_eq!(w.cause, SampleError::SourceUnavailable);
        }
    }
}

#[test]
fn zero_period_fails_at_construction() {
    // A zero tick period is a construction-time error: no stream exists.
    let mut m: Memory<NoRender> = Memory::new(attrs(), None);
    m.period_ms = 0;
    assert!(matches!(
        m.into_stream(),
        Err(ConstructionError::ZeroTickPeriod)
    ));

    let mut t = TextBox::new(attrs(), String::from("hi"));
    t.period_ms = 0;
    assert!(matches!(
        t.into_stream(),
        Err(ConstructionError::ZeroTickPeriod)
    ));
}

#[test]
fn immediate_cancel_yields_zero_items() {
    // Constructed and cancelled right away: no item is ever produced.
    let m: Memory<NoRender> = Memory::new(attrs(), None);
    let mut s = m.into_stream().expect("positive period must construct");
    assert_eq!(s.machine.phase, StreamPhase::AwaitingTimer);
    assert_eq!(s.on_event(StreamEvent::Cancel), StreamOutput::Stopped);
    // Whatever arrives afterwards, nothing more is yielded.
    assert_eq!(s.on_event(StreamEvent::TimerFired), StreamOutput::Stopped);
    assert_eq!(
        s.on_event(StreamEvent::SampleDone(Ok(RawSample::Num(1)))),
        StreamOutput::Stopped
    );
    assert_eq!(s.machine.ticks_emitted, 0);
}

#[test]
fn err_then_ok_in_order() {
    // Sampler fails on tick 0 and succeeds on tick 1: the stream yields Err
    // then Ok, in that order, each exactly once.
    let m: Memory<NoRender> = Memory::new(attrs(), None);
    let mut s = m.into_stream().expect("positive period must construct");

    assert_eq!(s.on_event(StreamEvent::TimerFired), StreamOutput::StartSample);
    match s.on_event(StreamEvent::SampleDone(Err(SampleError::PermissionDenied))) {
        StreamOutput::Item(Err(w)) => {
            assert_eq!(w.tick, 0);
            assert_eq!(w.cause, SampleError::PermissionDenied);
            assert_eq!(w.widget, "memory");
        }
        other => panic!("expected an error item, got {:?}", other),
    }

    assert_eq!(s.on_event(StreamEvent::TimerFired), StreamOutput::StartSample);
    match s.on_event(StreamEvent::SampleDone(Ok(RawSample::Num(5)))) {
        StreamOutput::Item(Ok(v)) => {
            assert_eq!(v.len(), 1);
            assert_eq!(v[0].content, "5");
        }
        other => panic!("expected a success item, got {:?}", other),
    }
    assert_eq!(s.machine.ticks_emitted, 2);
}

#[test]
fn successive_samples_render_in_order() {
    // Each successful sample is rendered deterministically and the Nth Ok
    // item matches the Nth successful sample, with failures interleaved.
    let m: Memory<NoRender> = Memory::new(attrs(), None);
    let mut s = m.into_stream().expect("positive period must construct");
    let samples = [
        Ok(RawSample::Num(1)),
        Ok(RawSample::Num(22)),
        Err(SampleError::MalformedData),
        Ok(RawSample::Num(333)),
    ];
    let mut ok_texts: Vec<String> = Vec::new();
    for sample in samples {
        assert_eq!(s.on_event(StreamEvent::TimerFired), StreamOutput::StartSample);
        match s.on_event(StreamEvent::SampleDone(sample)) {
            StreamOutput::Item(Ok(v)) => ok_texts.push(v[0].content.clone()),
            StreamOutput::Item(Err(_)) => {}
            other => panic!("expected an item, got {:?}", other),
        }
    }
    assert_eq!(ok_texts, vec!["1", "22", "333"]);
    assert_eq!(s.machine.ticks_emitted, 4);
}

#[test]
fn ticks_do_not_overlap() {
    // The timer firing again before the sample completes defers the tick:
    // no second sampling begins.
    let m: Memory<NoRender> = Memory::new(attrs(), None);
    let mut s = m.into_stream().expect("positive period must construct");
    assert_eq!(s.on_event(StreamEvent::TimerFired), StreamOutput::StartSample);
    assert_eq!(s.on_event(StreamEvent::TimerFired), StreamOutput::Idle);
    assert_eq!(s.machine.phase, StreamPhase::Sampling);
    // Only after the result is yielded may the next sampling start.
    match s.on_event(StreamEvent::SampleDone(Ok(RawSample::Num(2)))) {
        StreamOutput::Item(Ok(_)) => {}
        other => panic!("expected a success item, got {:?}", other),
    }
    assert_eq!(s.on_event(StreamEvent::TimerFired), StreamOutput::StartSample);
}

#[test]
fn drop_mid_sample_stops_everything() {
    // Cancelling while a (slow) sample is in flight: the timer is released
    // and no further item is yielded, not even the abandoned tick's.
    let m: Memory<NoRender> = Memory::new(attrs(), None);
    let mut s = m.into_stream().expect("positive period must construct");
    assert_eq!(s.on_event(StreamEvent::TimerFired), StreamOutput::StartSample);
    assert_eq!(s.on_event(StreamEvent::Cancel), StreamOutput::Stopped);
    assert_eq!(
        s.on_event(StreamEvent::SampleDone(Ok(RawSample::Num(42)))),
        StreamOutput::Stopped
    );
    assert_eq!(s.machine.phase, StreamPhase::Cancelled);
    assert_eq!(s.machine.ticks_emitted, 0);
}

#[test]
fn tick_now_drives_one_full_tick() {
    let m: Memory<NoRender> = Memory::new(attrs(), None);
    let mut s = m.into_stream().expect("positive period must construct");
    let item = s.tick_now().expect("an idle stream must complete a tick");
    match item {
        Ok(v) => {
            assert_eq!(v.len(), 1);
            assert!(v[0].content.chars().all(|c| c.is_ascii_digit()));
        }
        Err(w) => {
            assert_eq!(w.widget, "memory");
            assert_eq!(w.tick, 0);
            assert_eq!(w.cause, SampleError::SourceUnavailable);
        }
    }
    assert_eq!(s.machine.phase, StreamPhase::AwaitingTimer);
    assert_eq!(s.machine.ticks_emitted, 1);
}

#[test]
fn tick_now_after_cancel_does_nothing() {
    let m: Memory<NoRender> = Memory::new(attrs(), None);
    let mut s = m.into_stream().expect("positive period must construct");
    assert_eq!(s.on_event(StreamEvent::Cancel), StreamOutput::Stopped);
    assert!(s.tick_now().is_none());
    assert_eq!(s.machine.phase, StreamPhase::Cancelled);
    assert_eq!(s.machine.ticks_emitted, 0);
}

#[test]
fn text_box_echoes_its_string() {
    let t = TextBox::new(attrs(), String::from("Hello World"));
    let v = t.tick(0).expect("text box tick cannot fail");
    assert_eq!(v.len(), 1);
    assert_eq!(v[0].content, "Hello World");
    assert_eq!(v[0].attr, attrs());
}

#[test]
fn text_box_empty_string_is_legal() {
    let t = TextBox::new(attrs(), String::new());
    let v = t.tick(0).expect("text box tick cannot fail");
    assert_eq!(v.len(), 1);
    assert_eq!(v[0].content, "");
}

#[test]
fn text_box_stream_yields_verbatim_items() {
    let t = TextBox::new(attrs(), String::from("static"));
    let mut s = t.into_stream().expect("positive period must construct");
    assert_eq!(s.on_event(StreamEvent::TimerFired), StreamOutput::StartSample);
    match s.on_event(StreamEvent::SampleDone(Ok(RawSample::Str(String::from(
        "static",
    ))))) {
        StreamOutput::Item(Ok(v)) => {
            assert_eq!(v.len(), 1);
            assert_eq!(v[0].content, "static");
        }
        other => panic!("expected a success item, got {:?}", other),
    }
}
