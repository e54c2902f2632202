//! The worker's frame count and surface size, as the page sees them through
//! stats replies and resize messages.
use vstd::prelude::*;

verus! {

/// Worker-side session: whether the engine has been started by `Init`, and
/// how many frames it has rendered since.
pub struct WorkerSession {
    pub started: bool,
    pub frames: u64,
}

/// The frame count a stats reply carries: the session's count once started,
/// zero before.
pub open spec fn reported_frames(session: WorkerSession) -> u64 {
    if session.started {
        session.frames
    } else {
        0
    }
}

/// The session after `Init`: started, no frames yet.
pub open spec fn after_start(session: WorkerSession) -> WorkerSession {
    WorkerSession { started: true, frames: 0 }
}

/// The session after one animation frame: a started engine counts the frame
/// (the count stops at `u64::MAX`); before `Init` nothing happens.
pub open spec fn after_tick(session: WorkerSession) -> WorkerSession {
    if session.started && session.frames < u64::MAX {
        WorkerSession { started: true, frames: (session.frames + 1) as u64 }
    } else {
        session
    }
}

/// The session after `count` animation frames.
pub open spec fn after_ticks(session: WorkerSession, count: nat) -> WorkerSession
    decreases count,
{
    if count == 0 {
        session
    } else {
        after_tick(after_ticks(session, (count - 1) as nat))
    }
}

impl WorkerSession {
    /// A worker that has not received `Init`.
    pub fn new() -> (session: Self)
        ensures
            !session.started,
            session.frames == 0,
    {
        WorkerSession { started: false, frames: 0 }
    }

    /// `Init` builds a fresh engine: the session is started with no frames.
    pub fn start(&mut self)
        ensures
            *final(self) == after_start(*old(self)),
    {
        self.started = true;
        self.frames = 0;
    }

    /// One animation frame.
    pub fn tick(&mut self)
        ensures
            *final(self) == after_tick(*old(self)),
    {
        if self.started && self.frames < u64::MAX {
            self.frames = self.frames + 1;
        }
    }

    /// Answers a stats request: the reply carries the request's `id` and the
    /// frame count (zero before `Init`).
    pub fn answer_stats_request(&self, id: u32) -> (reply: (u32, u64))
        ensures
            reply == (id, reported_frames(*self)),
    {
        if self.started {
            (id, self.frames)
        } else {
            (id, 0)
        }
    }
}

/// Frames never run backwards: the count a stats reply carries after a frame
/// is at least the count before it.
pub proof fn lemma_frames_never_decrease(session: WorkerSession)
    ensures
        reported_frames(after_tick(session)) >= reported_frames(session),
{
}

/// Stats replies measure frames exactly: `count` frames after `Init` the
/// reply carries `count`, and before `Init` it carries zero however many
/// frames pass.
pub proof fn lemma_frames_count_ticks(session: WorkerSession, count: nat)
    ensures
        count <= u64::MAX ==> reported_frames(after_ticks(after_start(session), count)) == count,
        !session.started ==> reported_frames(after_ticks(session, count)) == 0,
    decreases count,
{
    if count > 0 {
        lemma_frames_count_ticks(session, (count - 1) as nat);
    }
}

/// A message from the page to the worker. Pixel quantities are physical
/// surface pixels; `F` is the number type the page sends them in.
pub enum ClientMessage<F> {
    /// Sent once with the canvas: the initial surface size.
    Init { width: F, height: F },
    /// New surface size.
    Resize { width: F, height: F },
    /// Rotation speed multiplier.
    SetSpeed { speed: F },
    /// Cube colour in linear 0..1 RGB.
    SetColor { red: F, green: F, blue: F },
    /// Accumulated orbit deltas in raw pointer pixels.
    Orbit { yaw: F, pitch: F },
    /// Accumulated wheel delta.
    Zoom { amount: F },
    /// Click position.
    Pick { x: F, y: F },
    /// Swap the helmet model in for the cube.
    SetHelmet { enabled: bool },
    /// Request a stats reply correlated by `id`.
    StatsRequest { id: u32 },
}

/// What the worker does with one message from the page.
pub enum WorkerStep<F> {
    /// Nothing: the engine is not up yet, or `Init` came without a canvas.
    Ignore,
    /// Build the engine on the transferred canvas at this size.
    CreateEngine { width: F, height: F },
    Resize { width: F, height: F },
    SetSpeed { speed: F },
    SetColor { red: F, green: F, blue: F },
    Orbit { yaw: F, pitch: F },
    Zoom { amount: F },
    Pick { x: F, y: F },
    SetHelmet { enabled: bool },
    /// Post a stats reply with this id and frame count.
    ReplyStats { id: u32, frames: u64 },
}

/// The engine command a message asks for once the engine is up (`Ignore` for
/// the two messages that are not engine commands).
pub open spec fn engine_command<F>(message: ClientMessage<F>) -> WorkerStep<F> {
    match message {
        ClientMessage::Resize { width, height } => WorkerStep::Resize { width, height },
        ClientMessage::SetSpeed { speed } => WorkerStep::SetSpeed { speed },
        ClientMessage::SetColor { red, green, blue } => WorkerStep::SetColor { red, green, blue },
        ClientMessage::Orbit { yaw, pitch } => WorkerStep::Orbit { yaw, pitch },
        ClientMessage::Zoom { amount } => WorkerStep::Zoom { amount },
        ClientMessage::Pick { x, y } => WorkerStep::Pick { x, y },
        ClientMessage::SetHelmet { enabled } => WorkerStep::SetHelmet { enabled },
        _ => WorkerStep::Ignore,
    }
}

/// Decides what the worker does with `message`: `Init` builds the engine when
/// the canvas came with it; a stats request is always answered, with its own
/// id and the frame count (zero before the engine is up); every other message
/// is applied to the engine once it is up and dropped before.
pub fn handle_message<F>(session: &WorkerSession, has_canvas: bool, message: ClientMessage<F>) -> (step: WorkerStep<F>)
    ensures
        match message {
            ClientMessage::Init { width, height } => step == (if has_canvas {
                WorkerStep::CreateEngine { width, height }
            } else {
                WorkerStep::Ignore
            }),
            ClientMessage::StatsRequest { id } => step == WorkerStep::<F>::ReplyStats {
                id,
                frames: reported_frames(*session),
            },
            _ => step == (if session.started {
                engine_command(message)
            } else {
                WorkerStep::Ignore
            }),
        },
        session.started ==> (message matches ClientMessage::Resize { width, height } ==> step
            == WorkerStep::<F>::Resize { width, height }),
        session.started ==> (message matches ClientMessage::SetSpeed { speed } ==> step
            == WorkerStep::<F>::SetSpeed { speed }),
        session.started ==> (message matches ClientMessage::SetColor { red, green, blue } ==> step
            == WorkerStep::<F>::SetColor { red, green, blue }),
        session.started ==> (message matches ClientMessage::Orbit { yaw, pitch } ==> step
            == WorkerStep::<F>::Orbit { yaw, pitch }),
        session.started ==> (message matches ClientMessage::Zoom { amount } ==> step
            == WorkerStep::<F>::Zoom { amount }),
        session.started ==> (message matches ClientMessage::Pick { x, y } ==> step
            == WorkerStep::<F>::Pick { x, y }),
        session.started ==> (message matches ClientMessage::SetHelmet { enabled } ==> step
            == WorkerStep::<F>::SetHelmet { enabled }),
{
    match message {
        ClientMessage::Init { width, height } => {
            if has_canvas {
                WorkerStep::CreateEngine { width, height }
            } else {
                WorkerStep::Ignore
            }
        },
        ClientMessage::StatsRequest { id } => {
            let (id, frames) = session.answer_stats_request(id);
            WorkerStep::ReplyStats { id, frames }
        },
        other => {
            if !session.started {
                return WorkerStep::Ignore;
            }
            match other {
                ClientMessage::Resize { width, height } => WorkerStep::Resize { width, height },
                ClientMessage::SetSpeed { speed } => WorkerStep::SetSpeed { speed },
                ClientMessage::SetColor { red, green, blue } => WorkerStep::SetColor { red, green, blue },
                ClientMessage::Orbit { yaw, pitch } => WorkerStep::Orbit { yaw, pitch },
                ClientMessage::Zoom { amount } => WorkerStep::Zoom { amount },
                ClientMessage::Pick { x, y } => WorkerStep::Pick { x, y },
                ClientMessage::SetHelmet { enabled } => WorkerStep::SetHelmet { enabled },
                _ => WorkerStep::Ignore,
            }
        },
    }
}

/// Once the engine is up, every engine command reaches it with its payload
/// unchanged: each step carries the message's own values in the same fields
/// (width stays width, red stays red, x stays x, the helmet flag stays as
/// sent), and no command is dropped.
pub proof fn lemma_commands_pass_through<F>(a: F, b: F, c: F, enabled: bool)
    ensures
        engine_command(ClientMessage::Resize { width: a, height: b }) == (WorkerStep::Resize {
            width: a,
            height: b,
        }),
        engine_command(ClientMessage::SetSpeed { speed: a }) == (WorkerStep::SetSpeed { speed: a }),
        engine_command(ClientMessage::SetColor { red: a, green: b, blue: c }) == (
        WorkerStep::SetColor { red: a, green: b, blue: c }),
        engine_command(ClientMessage::Orbit { yaw: a, pitch: b }) == (WorkerStep::Orbit {
            yaw: a,
            pitch: b,
        }),
        engine_command(ClientMessage::Zoom { amount: a }) == (WorkerStep::Zoom { amount: a }),
        engine_command(ClientMessage::Pick { x: a, y: b }) == (WorkerStep::Pick { x: a, y: b }),
        engine_command(ClientMessage::<F>::SetHelmet { enabled }) == (
        WorkerStep::<F>::SetHelmet { enabled }),
{
}

/// A surface extent in physical pixels, at least one pixel.
pub fn physical_extent(pixels: u32) -> (extent: u32)
    ensures
        extent == (if pixels < 1 { 1 } else { pixels }),
        extent >= 1,
{
    if pixels < 1 {
        1
    } else {
        pixels
    }
}

} // verus!
