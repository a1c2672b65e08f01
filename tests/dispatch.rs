use astra_controller::category::{CategoryState, TickAction, TickInput, TickOutcome};
use astra_controller::controller::{AstraController, Category, ControllerError, DeviceHandle};
use astra_controller::stream::{StreamHandle, StreamSlot};

fn device() -> DeviceHandle {
    DeviceHandle { sensor: 7, reader: 8 }
}

fn ready_controller() -> AstraController {
    let mut c = AstraController::initialize(Some(device())).unwrap();
    for cat in c.on_ready() {
        c.record_stream_start(cat, Some(StreamHandle { id: 100 })).unwrap();
    }
    c
}

fn frame(index: i32, converted: bool) -> TickInput {
    TickInput { granted: Some(StreamHandle { id: 5 }), frame: Some(index), converted }
}

#[test]
fn initialize_sets_defaults() {
    let c = AstraController::initialize(Some(device())).unwrap();
    assert_eq!(c.device, device());
    for cat in [Category::Body, Category::Color, Category::MaskedColor] {
        assert_eq!(c.rate(cat), 30);
        assert_eq!(c.state(cat).stream, StreamSlot::Inactive);
        assert_eq!(c.state(cat).last_frame_index, -1);
    }
    assert!(c.body.needs_stream);
    assert!(!c.color.needs_stream);
    assert!(!c.masked_color.needs_stream);
}

#[test]
fn scenario_device_unavailable() {
    let r = AstraController::initialize(None);
    assert_eq!(r, Err(ControllerError::DeviceUnavailable));
}

#[test]
fn on_ready_starts_only_body() {
    let c = AstraController::initialize(Some(device())).unwrap();
    assert_eq!(c.on_ready(), vec![Category::Body]);
    let c = ready_controller();
    assert_eq!(c.body.stream, StreamSlot::Active(StreamHandle { id: 100 }));
    assert!(c.on_ready().is_empty());
}

#[test]
fn on_ready_honours_configured_color_stream() {
    let mut c = AstraController::initialize(Some(device())).unwrap();
    c.set_needs_stream(Category::MaskedColor, true);
    assert_eq!(c.on_ready(), vec![Category::Body, Category::MaskedColor]);
}

#[test]
fn zero_rate_never_fetches() {
    let mut c = ready_controller();
    assert!(c.set_rate(Category::Color, 0));
    let before = c;
    for i in 0..10 {
        assert_eq!(c.begin_update(Category::Color), TickAction::Finish(TickOutcome::Idle));
        assert_eq!(c.update(Category::Color, frame(i, true)), TickOutcome::Idle);
    }
    assert_eq!(c, before);
}

#[test]
fn zero_rate_body_does_not_start_stream() {
    let mut c = AstraController::initialize(Some(device())).unwrap();
    assert!(c.set_rate(Category::Body, 0));
    assert_eq!(c.update(Category::Body, frame(1, true)), TickOutcome::Idle);
    assert_eq!(c.body.stream, StreamSlot::Inactive);
}

#[test]
fn scenario_no_frame_always_skipped() {
    let mut c = ready_controller();
    assert_eq!(c.rate(Category::Body), 30);
    let none = TickInput { granted: None, frame: None, converted: true };
    for _ in 0..5 {
        assert_eq!(c.update(Category::Body, none), TickOutcome::Skipped);
    }
    assert_eq!(c.body.last_frame_index, -1);
}

#[test]
fn scenario_repeated_indices() {
    let mut c = ready_controller();
    let mut dispatched = Vec::new();
    for index in [1, 1, 2, 3, 3] {
        if c.update(Category::Body, frame(index, true)) == TickOutcome::Dispatched {
            dispatched.push(index);
        }
    }
    assert_eq!(dispatched, vec![1, 2, 3]);
    assert_eq!(c.body.last_frame_index, 3);
}

#[test]
fn same_index_twice_emits_once() {
    let mut c = ready_controller();
    assert_eq!(c.update(Category::Body, frame(9, true)), TickOutcome::Dispatched);
    assert_eq!(c.update(Category::Body, frame(9, true)), TickOutcome::Skipped);
}

#[test]
fn color_does_not_deduplicate() {
    let mut c = ready_controller();
    assert_eq!(c.update(Category::Color, frame(4, true)), TickOutcome::Dispatched);
    assert_eq!(c.update(Category::Color, frame(4, true)), TickOutcome::Dispatched);
    assert_eq!(c.color.last_frame_index, -1);
}

#[test]
fn scenario_conversion_failure_then_success() {
    let mut c = ready_controller();
    let stream = c.body.stream;
    assert_eq!(c.update(Category::Body, frame(1, false)), TickOutcome::ConversionFailed);
    assert_eq!(c.body.stream, stream);
    assert_eq!(c.update(Category::Body, frame(2, true)), TickOutcome::Dispatched);
    assert_eq!(c.body.stream, stream);
    assert!(c.body.stream.is_active());
}

#[test]
fn stream_start_failure_is_retried() {
    let mut c = AstraController::initialize(Some(device())).unwrap();
    let refused = TickInput { granted: None, frame: Some(1), converted: true };
    assert_eq!(c.update(Category::Body, refused), TickOutcome::StreamStartFailed);
    assert_eq!(c.body.stream, StreamSlot::Inactive);
    assert_eq!(c.body.last_frame_index, -1);
    assert_eq!(c.update(Category::Body, frame(1, true)), TickOutcome::Dispatched);
    assert_eq!(c.body.stream, StreamSlot::Active(StreamHandle { id: 5 }));
}

#[test]
fn record_stream_start_refusal() {
    let mut c = AstraController::initialize(Some(device())).unwrap();
    assert_eq!(c.record_stream_start(Category::Body, None), Err(ControllerError::StreamStartFailed));
    assert_eq!(c.body.stream, StreamSlot::Inactive);
}

#[test]
fn start_on_active_is_noop() {
    let mut slot = StreamSlot::Active(StreamHandle { id: 1 });
    assert!(slot.record_start(Some(StreamHandle { id: 2 })));
    assert_eq!(slot, StreamSlot::Active(StreamHandle { id: 1 }));
    assert!(slot.record_start(None));
    assert_eq!(slot, StreamSlot::Active(StreamHandle { id: 1 }));
}

#[test]
fn stop_on_inactive_is_noop() {
    let mut slot = StreamSlot::Inactive;
    assert_eq!(slot.stop(), None);
    assert_eq!(slot, StreamSlot::Inactive);
    let mut slot = StreamSlot::Active(StreamHandle { id: 3 });
    assert_eq!(slot.stop(), Some(StreamHandle { id: 3 }));
    assert_eq!(slot.stop(), None);
}

#[test]
fn teardown_without_ready_and_twice() {
    let mut c = AstraController::initialize(Some(device())).unwrap();
    let before = c;
    assert!(c.on_teardown().is_empty());
    assert_eq!(c, before);
    let mut c = ready_controller();
    assert_eq!(c.on_teardown(), vec![StreamHandle { id: 100 }]);
    assert_eq!(c.body.stream, StreamSlot::Inactive);
    assert!(c.on_teardown().is_empty());
}

#[test]
fn set_rate_bounds() {
    let mut c = ready_controller();
    assert!(c.set_rate(Category::MaskedColor, 60));
    assert_eq!(c.rate(Category::MaskedColor), 60);
    assert!(!c.set_rate(Category::MaskedColor, 61));
    assert_eq!(c.rate(Category::MaskedColor), 60);
    assert_eq!(c.rate(Category::Color), 30);
}

#[test]
fn step_by_step_tick() {
    let mut c = AstraController::initialize(Some(device())).unwrap();
    assert_eq!(c.begin_update(Category::Body), TickAction::StartStream);
    assert_eq!(c.after_stream_start(Category::Body, Some(StreamHandle { id: 11 })), TickAction::Poll);
    assert_eq!(c.begin_update(Category::Body), TickAction::Poll);
    assert_eq!(c.after_poll(Category::Body, None), TickAction::Finish(TickOutcome::Skipped));
    assert_eq!(c.after_poll(Category::Body, Some(6)), TickAction::Convert);
    assert_eq!(c.body.last_frame_index, 6);
    assert_eq!(c.after_poll(Category::Body, Some(6)), TickAction::Finish(TickOutcome::Skipped));
    assert_eq!(CategoryState::after_convert(true), TickAction::Finish(TickOutcome::Dispatched));
    assert_eq!(CategoryState::after_convert(false), TickAction::Finish(TickOutcome::ConversionFailed));
    assert_eq!(c.begin_update(Category::Color), TickAction::Poll);
}

#[test]
fn failed_frame_is_not_retried() {
    let mut c = ready_controller();
    assert_eq!(c.update(Category::Body, frame(2, false)), TickOutcome::ConversionFailed);
    assert_eq!(c.body.last_frame_index, 2);
    assert_eq!(c.update(Category::Body, frame(2, true)), TickOutcome::Skipped);
}
