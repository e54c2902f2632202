use nightshade_worker_leptos::worker::{WorkerSession, physical_extent};

#[test]
fn stats_before_init_are_zero() {
    let mut session = WorkerSession::new();
    session.tick();
    session.tick();
    assert_eq!(session.answer_stats_request(5), (5, 0));
}

#[test]
fn stats_count_frames_since_init() {
    let mut session = WorkerSession::new();
    session.start();
    for _ in 0..180 {
        session.tick();
    }
    assert_eq!(session.answer_stats_request(0), (0, 180));
    let before = session.answer_stats_request(1).1;
    session.tick();
    let after = session.answer_stats_request(2).1;
    assert_eq!(after - before, 1);
}

#[test]
fn init_again_restarts_the_count() {
    let mut session = WorkerSession::new();
    session.start();
    session.tick();
    session.start();
    assert_eq!(session.answer_stats_request(9), (9, 0));
}

#[test]
fn count_stops_at_the_top() {
    let mut session = WorkerSession { started: true, frames: u64::MAX };
    session.tick();
    assert_eq!(session.frames, u64::MAX);
}

#[test]
fn extents_are_at_least_one_pixel() {
    assert_eq!(physical_extent(0), 1);
    assert_eq!(physical_extent(1), 1);
    assert_eq!(physical_extent(1920), 1920);
}

use nightshade_worker_leptos::worker::{ClientMessage, WorkerStep, handle_message};

#[test]
fn commands_before_init_are_dropped() {
    let session = WorkerSession::new();
    let step = handle_message(&session, false, ClientMessage::Zoom { amount: 3.0f32 });
    assert!(matches!(step, WorkerStep::Ignore));
    let step = handle_message(&session, false, ClientMessage::<f32>::SetHelmet { enabled: true });
    assert!(matches!(step, WorkerStep::Ignore));
}

#[test]
fn init_needs_the_canvas() {
    let session = WorkerSession::new();
    let step = handle_message(&session, false, ClientMessage::Init { width: 800.0f32, height: 600.0 });
    assert!(matches!(step, WorkerStep::Ignore));
    let step = handle_message(&session, true, ClientMessage::Init { width: 800.0f32, height: 600.0 });
    assert!(matches!(step, WorkerStep::CreateEngine { width, height } if width == 800.0 && height == 600.0));
}

#[test]
fn stats_request_is_always_answered_with_its_id() {
    let mut session = WorkerSession::new();
    let step = handle_message(&session, false, ClientMessage::<f32>::StatsRequest { id: 42 });
    assert!(matches!(step, WorkerStep::ReplyStats { id: 42, frames: 0 }));
    session.start();
    session.tick();
    session.tick();
    let step = handle_message(&session, false, ClientMessage::<f32>::StatsRequest { id: 7 });
    assert!(matches!(step, WorkerStep::ReplyStats { id: 7, frames: 2 }));
}

#[test]
fn commands_after_init_pass_through() {
    let mut session = WorkerSession::new();
    session.start();
    let step = handle_message(&session, false, ClientMessage::Orbit { yaw: 1.5f32, pitch: -2.0 });
    assert!(matches!(step, WorkerStep::Orbit { yaw, pitch } if yaw == 1.5 && pitch == -2.0));
    let step = handle_message(&session, false, ClientMessage::<f32>::SetHelmet { enabled: true });
    assert!(matches!(step, WorkerStep::SetHelmet { enabled: true }));
    let step = handle_message(&session, false, ClientMessage::Resize { width: 0.0f32, height: 1.0 });
    assert!(matches!(step, WorkerStep::Resize { .. }));
}
