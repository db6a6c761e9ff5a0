use glium_loop::button::{Button, ButtonEvent, ButtonState, ElementState};
use glium_loop::glium_loop::{GliumLoop, PollDecision, RawEvent, TickOutcome};

fn fresh(tick_length: u64) -> GliumLoop {
    GliumLoop::new(tick_length).expect("positive tick length")
}

#[test]
fn new_rejects_zero_tick_length() {
    assert!(GliumLoop::new(0).is_none());
    assert!(GliumLoop::new(1).is_some());
}

#[test]
fn fresh_loop_cells_read_their_seed_values() {
    let gl = fresh(1);
    assert_eq!(gl.cursor().sample(&gl.mouse_motion_sink), (0, 0));
    assert_eq!(gl.wheel().sample(&gl.mouse_wheel_sink), 0);
    assert_eq!(gl.focus().sample(&gl.focus_sink), true);
    assert_eq!(gl.position().sample(&gl.winpos_sink), (0, 0));
    assert_eq!(gl.size().sample(&gl.winsize_sink), (0, 0));
}

#[test]
fn keyboard_input_with_key_writes_one_button_event() {
    let mut gl = fresh(1);
    gl.dispatch(RawEvent::KeyboardInput(ElementState::Pressed, Some(65)));
    assert_eq!(gl.button_sink.history.len(), 1);
    assert_eq!(
        gl.button_sink.history[0],
        ButtonEvent { button: Button::Keyboard(65), state: ButtonState::Pressed },
    );
    assert_eq!(gl.mouse_wheel_sink.len(), 0);
    assert_eq!(gl.mouse_motion_sink.len(), 0);
    assert_eq!(gl.focus_sink.len(), 0);
    assert_eq!(gl.winsize_sink.len(), 0);
    assert_eq!(gl.winpos_sink.len(), 0);
    assert_eq!(gl.char_sink.len(), 0);
    assert_eq!(gl.tick_sink.len(), 0);
}

#[test]
fn keyboard_input_without_key_is_dropped() {
    let mut gl = fresh(1);
    gl.dispatch(RawEvent::KeyboardInput(ElementState::Pressed, None));
    assert_eq!(gl.button_sink.len(), 0);
}

#[test]
fn mouse_input_writes_one_button_event() {
    let mut gl = fresh(1);
    gl.dispatch(RawEvent::MouseInput(ElementState::Released, 2));
    assert_eq!(
        gl.button_sink.history,
        vec![ButtonEvent { button: Button::Mouse(2), state: ButtonState::Released }],
    );
}

#[test]
fn wheel_motion_focus_size_position_char_each_hit_their_sink() {
    let mut gl = fresh(1);
    gl.dispatch(RawEvent::MouseWheel(-3));
    gl.dispatch(RawEvent::MouseMoved(11, 22));
    gl.dispatch(RawEvent::Focused(false));
    gl.dispatch(RawEvent::Resized(800, 600));
    gl.dispatch(RawEvent::Moved(-5, 40));
    gl.dispatch(RawEvent::ReceivedCharacter('x'));
    assert_eq!(gl.mouse_wheel_sink.history, vec![-3]);
    assert_eq!(gl.mouse_motion_sink.history, vec![(11, 22)]);
    assert_eq!(gl.focus_sink.history, vec![false]);
    assert_eq!(gl.winsize_sink.history, vec![(800, 600)]);
    assert_eq!(gl.winpos_sink.history, vec![(-5, 40)]);
    assert_eq!(gl.char_sink.history, vec!['x']);
    assert_eq!(gl.button_sink.len(), 0);
    assert_eq!(gl.tick_sink.len(), 0);
}

#[test]
fn unrecognized_events_write_nothing() {
    let mut gl = fresh(1);
    gl.dispatch(RawEvent::Other);
    gl.dispatch(RawEvent::Closed);
    assert_eq!(gl.button_sink.len(), 0);
    assert_eq!(gl.mouse_wheel_sink.len(), 0);
    assert_eq!(gl.mouse_motion_sink.len(), 0);
    assert_eq!(gl.focus_sink.len(), 0);
    assert_eq!(gl.winsize_sink.len(), 0);
    assert_eq!(gl.winpos_sink.len(), 0);
    assert_eq!(gl.char_sink.len(), 0);
    assert_eq!(gl.tick_sink.len(), 0);
}

#[test]
fn button_stream_sees_press_then_release_in_order() {
    let mut gl = fresh(1);
    let buttons = gl.buttons();
    let batch = vec![
        RawEvent::KeyboardInput(ElementState::Pressed, Some(65)),
        RawEvent::KeyboardInput(ElementState::Released, Some(65)),
    ];
    let closed = gl.process_batch(&batch);
    assert!(!closed);
    assert_eq!(
        buttons.events(&gl.button_sink),
        vec![
            ButtonEvent { button: Button::Keyboard(65), state: ButtonState::Pressed },
            ButtonEvent { button: Button::Keyboard(65), state: ButtonState::Released },
        ],
    );
    assert_eq!(gl.mouse_wheel_sink.len(), 0);
    assert_eq!(gl.mouse_motion_sink.len(), 0);
    assert_eq!(gl.focus_sink.len(), 0);
    assert_eq!(gl.winsize_sink.len(), 0);
    assert_eq!(gl.winpos_sink.len(), 0);
    assert_eq!(gl.char_sink.len(), 0);
    assert_eq!(gl.tick_sink.len(), 0);
}

#[test]
fn overshoot_collapses_into_one_tick_and_remainder_carries_over() {
    let mut gl = fresh(1_000_000);
    let ticks = gl.ticks();
    gl.begin(0);
    let out = gl.run_tick(3_500_000, &Vec::new());
    assert_eq!(out, TickOutcome::Ticked(3_000_000));
    assert_eq!(gl.next_tick, 3_000_000);
    assert_eq!(ticks.events(&gl.tick_sink), vec![3_000_000]);
    // the half-millisecond carries over: the next tick catches it up
    let out = gl.run_tick(4_000_000, &Vec::new());
    assert_eq!(out, TickOutcome::Ticked(1_000_000));
    assert_eq!(gl.next_tick, 4_000_000);
}

#[test]
fn every_emitted_delta_is_a_multiple_of_the_tick_length() {
    let mut gl = fresh(700);
    gl.begin(13);
    let mut now: u64 = 13;
    for step in [701u64, 1_499, 2_083, 95, 700, 4_242].iter() {
        now += step;
        if let TickOutcome::Ticked(delta) = gl.run_tick(now, &Vec::new()) {
            assert_eq!(delta % 700, 0);
        } else {
            panic!("no close event was fed");
        }
    }
}

#[test]
fn close_event_terminates_without_a_tick_and_skips_the_rest_of_the_batch() {
    let mut gl = fresh(1_000);
    gl.begin(0);
    let batch = vec![
        RawEvent::Resized(10, 20),
        RawEvent::Closed,
        RawEvent::MouseWheel(5),
    ];
    let out = gl.run_tick(5_000, &batch);
    assert_eq!(out, TickOutcome::Terminated);
    assert!(gl.terminated);
    // no tick was emitted for the batch
    assert_eq!(gl.tick_sink.len(), 0);
    // events before the close request were dispatched
    assert_eq!(gl.winsize_sink.history, vec![(10, 20)]);
    // events after it were not
    assert_eq!(gl.mouse_wheel_sink.len(), 0);
}

#[test]
fn close_first_in_batch_dispatches_nothing() {
    let mut gl = fresh(1_000);
    gl.begin(0);
    let batch = vec![RawEvent::Closed, RawEvent::Resized(1, 2)];
    let out = gl.run_tick(0, &batch);
    assert_eq!(out, TickOutcome::Terminated);
    assert_eq!(gl.winsize_sink.len(), 0);
    assert_eq!(gl.tick_sink.len(), 0);
}

#[test]
fn size_cell_reads_resize_until_the_next_resize() {
    let mut gl = fresh(1);
    let size = gl.size();
    gl.dispatch(RawEvent::Resized(800, 600));
    assert_eq!(size.sample(&gl.winsize_sink), (800, 600));
    gl.dispatch(RawEvent::MouseMoved(1, 2));
    gl.dispatch(RawEvent::Focused(false));
    assert_eq!(size.sample(&gl.winsize_sink), (800, 600));
    gl.dispatch(RawEvent::Resized(320, 200));
    assert_eq!(size.sample(&gl.winsize_sink), (320, 200));
}

#[test]
fn endpoint_accessors_are_idempotent() {
    let mut gl = fresh(1);
    let b1 = gl.buttons();
    let b2 = gl.buttons();
    assert_eq!(b1.attach, b2.attach);
    gl.dispatch(RawEvent::MouseInput(ElementState::Pressed, 0));
    assert_eq!(b1.events(&gl.button_sink), b2.events(&gl.button_sink));
    let c1 = gl.cursor();
    let c2 = gl.cursor();
    assert_eq!(c1.sample(&gl.mouse_motion_sink), c2.sample(&gl.mouse_motion_sink));
}

#[test]
fn decide_poll_sleeps_exactly_the_remaining_time_until_the_boundary() {
    assert_eq!(GliumLoop::decide_poll(400, 1_000), PollDecision::Sleep(600));
    assert_eq!(GliumLoop::decide_poll(999, 1_000), PollDecision::Sleep(1));
    assert_eq!(GliumLoop::decide_poll(1_000, 1_000), PollDecision::Due(1_000));
    assert_eq!(GliumLoop::decide_poll(1_500, 1_000), PollDecision::Due(1_500));
}

#[test]
fn poll_clock_sleeps_before_a_far_deadline_and_is_due_after_a_past_one() {
    let mut gl = fresh(1_000);
    gl.begin(u64::MAX);
    match gl.poll_clock() {
        PollDecision::Sleep(ns) => assert!(ns > 0),
        PollDecision::Due(_) => panic!("a tick scheduled at the far future cannot be due"),
    }
    gl.begin(0);
    match gl.poll_clock() {
        PollDecision::Due(now) => assert!(now >= gl.next_tick),
        PollDecision::Sleep(_) => panic!("a tick scheduled in the past is due"),
    }
}

#[test]
fn character_stream_sees_received_characters_in_order() {
    let mut gl = fresh(1);
    let chars = gl.characters();
    gl.dispatch(RawEvent::ReceivedCharacter('h'));
    gl.dispatch(RawEvent::ReceivedCharacter('i'));
    assert_eq!(chars.events(&gl.char_sink), vec!['h', 'i']);
}

#[test]
fn wheel_and_focus_cells_follow_their_events() {
    let mut gl = fresh(1);
    let wheel = gl.wheel();
    let focus = gl.focus();
    gl.dispatch(RawEvent::MouseWheel(-2));
    gl.dispatch(RawEvent::Focused(false));
    assert_eq!(wheel.sample(&gl.mouse_wheel_sink), -2);
    assert_eq!(focus.sample(&gl.focus_sink), false);
}

#[test]
fn exactly_on_time_tick_emits_zero_delta() {
    // waking exactly on the boundary yields a zero-length delta: the
    // boundary does not move and the overshoot stays below one tick
    let mut gl = fresh(1_000_000);
    gl.begin(500);
    let out = gl.run_tick(500, &Vec::new());
    assert_eq!(out, TickOutcome::Ticked(0));
    assert_eq!(gl.next_tick, 500);
}
