use triangle_core::frame::{
    frame_steps, tint_uniform_name, Effect, Event, FrameLoop, FrameStep, Key, KeyAction,
    LoopState, SCREEN_HEIGHT, SCREEN_WIDTH,
};

#[test]
fn initial_window_size() {
    assert_eq!(SCREEN_WIDTH, 800);
    assert_eq!(SCREEN_HEIGHT, 600);
}

#[test]
fn new_loop_is_running() {
    let fl = FrameLoop::new();
    assert_eq!(fl.state, LoopState::Running);
    assert!(fl.is_running());
}

#[test]
fn resize_sets_viewport_to_exact_size() {
    let mut fl = FrameLoop::new();
    let effect = fl.handle_event(Event::FramebufferResize {
        width: 1024,
        height: 768,
    });
    assert_eq!(
        effect,
        Some(Effect::SetViewport {
            x: 0,
            y: 0,
            width: 1024,
            height: 768,
        })
    );
    assert_eq!(fl.state, LoopState::Running);
}

#[test]
fn degenerate_one_by_one_resize_is_passed_through() {
    let mut fl = FrameLoop::new();
    let effect = fl.handle_event(Event::FramebufferResize {
        width: 1,
        height: 1,
    });
    assert_eq!(
        effect,
        Some(Effect::SetViewport {
            x: 0,
            y: 0,
            width: 1,
            height: 1,
        })
    );
}

#[test]
fn escape_press_closes_the_loop() {
    let mut fl = FrameLoop::new();
    let effect = fl.handle_event(Event::Key {
        key: Key::Escape,
        action: KeyAction::Press,
    });
    assert_eq!(effect, None);
    assert_eq!(fl.state, LoopState::Closing);
    assert!(!fl.is_running());
}

#[test]
fn escape_release_and_other_keys_are_ignored() {
    let mut fl = FrameLoop::new();
    fl.handle_event(Event::Key {
        key: Key::Escape,
        action: KeyAction::Release,
    });
    assert_eq!(fl.state, LoopState::Running);
    fl.handle_event(Event::Key {
        key: Key::Escape,
        action: KeyAction::Repeat,
    });
    assert_eq!(fl.state, LoopState::Running);
    fl.handle_event(Event::Key {
        key: Key::Other,
        action: KeyAction::Press,
    });
    assert_eq!(fl.state, LoopState::Running);
    fl.handle_event(Event::Other);
    assert_eq!(fl.state, LoopState::Running);
}

#[test]
fn no_event_reopens_a_closing_loop() {
    let mut fl = FrameLoop::new();
    fl.handle_event(Event::Key {
        key: Key::Escape,
        action: KeyAction::Press,
    });
    assert_eq!(fl.state, LoopState::Closing);

    // Every kind of later event leaves the loop closing; a resize still
    // reports its viewport update.
    let effect = fl.handle_event(Event::FramebufferResize {
        width: 640,
        height: 480,
    });
    assert_eq!(
        effect,
        Some(Effect::SetViewport {
            x: 0,
            y: 0,
            width: 640,
            height: 480,
        })
    );
    assert_eq!(fl.state, LoopState::Closing);
    fl.handle_event(Event::Key {
        key: Key::Escape,
        action: KeyAction::Press,
    });
    assert_eq!(fl.state, LoopState::Closing);
    fl.handle_event(Event::Other);
    assert_eq!(fl.state, LoopState::Closing);
}

#[test]
fn external_close_request_closes_the_loop() {
    let mut fl = FrameLoop::new();
    fl.request_close();
    assert_eq!(fl.state, LoopState::Closing);
    assert!(!fl.is_running());
}

#[test]
fn event_batch_yields_effects_in_order_and_final_state() {
    let mut fl = FrameLoop::new();
    let events = vec![
        Event::Other,
        Event::FramebufferResize {
            width: 320,
            height: 200,
        },
        Event::Key {
            key: Key::Other,
            action: KeyAction::Press,
        },
        Event::FramebufferResize {
            width: 640,
            height: 400,
        },
        Event::Key {
            key: Key::Escape,
            action: KeyAction::Press,
        },
        Event::FramebufferResize {
            width: 800,
            height: 600,
        },
    ];
    let effects = fl.process_events(&events);
    assert_eq!(
        effects,
        vec![
            Effect::SetViewport {
                x: 0,
                y: 0,
                width: 320,
                height: 200,
            },
            Effect::SetViewport {
                x: 0,
                y: 0,
                width: 640,
                height: 400,
            },
            Effect::SetViewport {
                x: 0,
                y: 0,
                width: 800,
                height: 600,
            },
        ]
    );
    assert_eq!(fl.state, LoopState::Closing);
}

#[test]
fn empty_event_batch_changes_nothing() {
    let mut fl = FrameLoop::new();
    let effects = fl.process_events(&vec![]);
    assert!(effects.is_empty());
    assert_eq!(fl.state, LoopState::Running);
}

#[test]
fn tint_uniform_is_looked_up_as_our_color() {
    assert_eq!(tint_uniform_name(), "ourColor");
}

#[test]
fn frame_steps_come_in_render_order() {
    let steps = frame_steps(3);
    assert_eq!(
        steps,
        vec![
            FrameStep::ClearBackground,
            FrameStep::UseProgram,
            FrameStep::BindVertexArray,
            FrameStep::UploadTimeUniform,
            FrameStep::DrawTriangles { first: 0, count: 3 },
        ]
    );
}

#[test]
fn green_channel_oscillates_in_unit_interval_and_is_periodic() {
    // The application computes the tint's green channel as sin(t)/2 + 0.5
    // when it performs the upload step; by construction it stays in [0, 1]
    // and repeats every 2*pi seconds.
    let at_zero = 0.0f32.sin() / 2.0 + 0.5;
    assert_eq!(at_zero, 0.5);
    let mut t = 0.0f32;
    while t < 20.0 {
        let green = t.sin() / 2.0 + 0.5;
        assert!((0.0..=1.0).contains(&green));
        let shifted = (t + 2.0 * std::f32::consts::PI).sin() / 2.0 + 0.5;
        assert!((green - shifted).abs() < 1e-5);
        t += 0.37;
    }
}
