use vstd::prelude::*;

verus! {

/// Keycode of the key that ends the loop (Escape).
pub const EXIT_KEY: i32 = 27;

/// The two states of the render loop; `Stopped` is terminal.
#[derive(Clone, Copy, Debug, PartialEq, Eq, Structural)]
pub enum LoopState {
    Running,
    Stopped,
}

/// What one non-blocking poll of the event queue gave.
#[derive(Clone, Copy, Debug, PartialEq, Eq, Structural)]
pub enum Event {
    /// The queue was empty.
    NoEvent,
    Quit,
    KeyDown(i32),
    KeyUp(i32),
    Other,
}

/// The handles that the session owns and releases at teardown.
#[derive(Clone, Copy, Debug, PartialEq, Eq, Structural)]
pub struct Resources {
    pub program: u32,
    pub vertex_shader: u32,
    pub fragment_shader: u32,
    pub buffer: u32,
    pub vertex_array: u32,
}

/// A call that the caller makes on the driver or the windowing layer.
#[derive(Clone, Copy, Debug, PartialEq, Eq, Structural)]
pub enum Command {
    /// Clear the color buffer to the background color.
    Clear,
    /// Draw one triangle: three vertices from index 0.
    DrawTriangle,
    /// Swap buffers.
    Present,
    DeleteProgram(u32),
    DeleteShader(u32),
    DeleteBuffer(u32),
    DeleteVertexArray(u32),
    /// Shut the video subsystem down.
    QuitVideo,
}

/// Whether the event ends the loop: a quit, or the exit key pressed.
pub open spec fn ends_loop(e: Event) -> bool {
    match e {
        Event::Quit => true,
        Event::KeyDown(k) => k == EXIT_KEY,
        _ => false,
    }
}

pub open spec fn next_state_spec(state: LoopState, e: Event) -> LoopState {
    if state == LoopState::Stopped || ends_loop(e) {
        LoopState::Stopped
    } else {
        LoopState::Running
    }
}

/// The calls of one drawn frame.
pub open spec fn frame_spec() -> Seq<Command> {
    seq![Command::Clear, Command::DrawTriangle, Command::Present]
}

/// The release calls, in their fixed order.
pub open spec fn teardown_spec(res: Resources) -> Seq<Command> {
    seq![
        Command::DeleteProgram(res.program),
        Command::DeleteShader(res.fragment_shader),
        Command::DeleteShader(res.vertex_shader),
        Command::DeleteBuffer(res.buffer),
        Command::DeleteVertexArray(res.vertex_array),
        Command::QuitVideo,
    ]
}

/// The state after handling one polled event.
pub fn next_state(state: LoopState, event: Event) -> (r: LoopState)
    ensures
        r == next_state_spec(state, event),
{
    match state {
        LoopState::Stopped => LoopState::Stopped,
        LoopState::Running => match event {
            Event::Quit => LoopState::Stopped,
            Event::KeyDown(k) => if k == EXIT_KEY {
                LoopState::Stopped
            } else {
                LoopState::Running
            },
            _ => LoopState::Running,
        },
    }
}

/// The calls of one drawn frame: clear, draw, present.
pub fn frame_commands() -> (r: Vec<Command>)
    ensures
        r@ == frame_spec(),
{
    let r = vec![Command::Clear, Command::DrawTriangle, Command::Present];
    assert(r@ =~= frame_spec());
    r
}

/// One iteration of the loop: the next state, and the calls to make in it.
/// A frame is drawn exactly when the loop is still running.
pub fn step(state: LoopState, event: Event) -> (r: (LoopState, Vec<Command>))
    ensures
        r.0 == next_state_spec(state, event),
        r.0 == LoopState::Running ==> r.1@ == frame_spec(),
        r.0 == LoopState::Stopped ==> r.1@ == Seq::<Command>::empty(),
{
    let next = next_state(state, event);
    match next {
        LoopState::Running => (next, frame_commands()),
        LoopState::Stopped => {
            let r: Vec<Command> = Vec::new();
            assert(r@ =~= Seq::<Command>::empty());
            (next, r)
        },
    }
}

/// The release calls: program, fragment shader, vertex shader, buffer,
/// vertex array, then the video subsystem.
pub fn teardown_commands(res: Resources) -> (r: Vec<Command>)
    ensures
        r@ == teardown_spec(res),
{
    let r = vec![
        Command::DeleteProgram(res.program),
        Command::DeleteShader(res.fragment_shader),
        Command::DeleteShader(res.vertex_shader),
        Command::DeleteBuffer(res.buffer),
        Command::DeleteVertexArray(res.vertex_array),
        Command::QuitVideo,
    ];
    assert(r@ =~= teardown_spec(res));
    r
}

/// What a session that starts running issues when its polls give `events`
/// in turn: a frame for each event that does not end the loop, then, at the
/// first one that does, the release calls. Running out of events leaves the
/// loop running and nothing released yet.
pub open spec fn session_spec(events: Seq<Event>, res: Resources) -> Seq<Command>
    decreases events.len(),
{
    if events.len() == 0 {
        Seq::empty()
    } else if ends_loop(events[0]) {
        teardown_spec(res)
    } else {
        frame_spec() + session_spec(events.drop_first(), res)
    }
}

/// The number of events before the first one that ends the loop.
pub open spec fn frames_before_stop(events: Seq<Event>) -> nat
    decreases events.len(),
{
    if events.len() == 0 || ends_loop(events[0]) {
        0
    } else {
        1 + frames_before_stop(events.drop_first())
    }
}

/// `k` frames one after the other.
pub open spec fn frames(k: nat) -> Seq<Command>
    decreases k,
{
    if k == 0 {
        Seq::empty()
    } else {
        frame_spec() + frames((k - 1) as nat)
    }
}

pub open spec fn is_frame_command(c: Command) -> bool {
    c == Command::Clear || c == Command::DrawTriangle || c == Command::Present
}

/// Runs the loop on a scripted event source: `events` are what the polls
/// give, in turn. Returns every call made, frames and release calls.
pub fn run_session(events: &Vec<Event>, res: Resources) -> (r: Vec<Command>)
    ensures
        r@ == session_spec(events@, res),
{
    let mut out: Vec<Command> = Vec::new();
    let mut state = LoopState::Running;
    let mut i: usize = 0;
    assert(events@.subrange(0, events@.len() as int) =~= events@);
    assert(out@ + session_spec(events@, res) =~= session_spec(events@, res));
    while i < events.len()
        invariant
            i <= events@.len(),
            state == LoopState::Running,
            out@ + session_spec(events@.subrange(i as int, events@.len() as int), res)
                == session_spec(events@, res),
        decreases events@.len() - i,
    {
        let ghost rest = events@.subrange(i as int, events@.len() as int);
        assert(rest.drop_first() =~= events@.subrange(i + 1, events@.len() as int));
        let (next, mut cmds) = step(state, events[i]);
        if next == LoopState::Stopped {
            let mut tail = teardown_commands(res);
            out.append(&mut tail);
            assert(out@ =~= session_spec(events@, res));
            return out;
        }
        out.append(&mut cmds);
        assert(out@ + session_spec(events@.subrange(i + 1, events@.len() as int), res)
            =~= session_spec(events@, res));
        i = i + 1;
    }
    assert(events@.subrange(i as int, events@.len() as int) =~= Seq::<Event>::empty());
    assert(out@ =~= session_spec(events@, res));
    out
}

/// A quit event stops a running loop; so does a key press of the exit key;
/// a key press of any other key leaves the state as it was.
pub proof fn lemma_event_mapping(key: i32)
    ensures
        next_state_spec(LoopState::Running, Event::Quit) == LoopState::Stopped,
        next_state_spec(LoopState::Running, Event::KeyDown(EXIT_KEY)) == LoopState::Stopped,
        key != EXIT_KEY ==> next_state_spec(LoopState::Running, Event::KeyDown(key))
            == LoopState::Running,
        key != EXIT_KEY ==> next_state_spec(LoopState::Stopped, Event::KeyDown(key))
            == LoopState::Stopped,
{
}

/// Every frame of a session is exactly one clear, one draw and one present,
/// in that order, and nothing else is issued while the loop runs: the calls
/// are a run of whole frames, followed by the release calls once an event
/// ends the loop.
pub proof fn lemma_session_frames(events: Seq<Event>, res: Resources)
    ensures
        session_spec(events, res) == frames(frames_before_stop(events)) + if exists|i: int|
            0 <= i < events.len() && ends_loop(#[trigger] events[i]) {
            teardown_spec(res)
        } else {
            Seq::empty()
        },
        frames(frames_before_stop(events)).len() == 3 * frames_before_stop(events),
        forall|j: int|
            0 <= j < 3 * frames_before_stop(events) ==> #[trigger] frames(
                frames_before_stop(events),
            )[j] == frame_spec()[j % 3],
        forall|j: int|
            0 <= j < teardown_spec(res).len() ==> !is_frame_command(
                #[trigger] teardown_spec(res)[j],
            ),
    decreases events.len(),
{
    let k = frames_before_stop(events);
    lemma_frames_pattern(k);
    if events.len() == 0 {
        assert(session_spec(events, res) =~= frames(k) + Seq::<Command>::empty());
    } else if ends_loop(events[0]) {
        assert(session_spec(events, res) =~= frames(k) + teardown_spec(res));
    } else {
        let rest = events.drop_first();
        lemma_session_frames(rest, res);
        assert((exists|i: int| 0 <= i < events.len() && ends_loop(#[trigger] events[i])) == (
        exists|i: int| 0 <= i < rest.len() && ends_loop(#[trigger] rest[i]))) by {
            if exists|i: int| 0 <= i < events.len() && ends_loop(#[trigger] events[i]) {
                let i = choose|i: int| 0 <= i < events.len() && ends_loop(#[trigger] events[i]);
                assert(rest[i - 1] == events[i]);
            }
            if exists|i: int| 0 <= i < rest.len() && ends_loop(#[trigger] rest[i]) {
                let i = choose|i: int| 0 <= i < rest.len() && ends_loop(#[trigger] rest[i]);
                assert(events[i + 1] == rest[i]);
            }
        }
        assert(session_spec(events, res) =~= frames(k) + if exists|i: int|
            0 <= i < events.len() && ends_loop(#[trigger] events[i]) {
            teardown_spec(res)
        } else {
            Seq::empty()
        });
    }
    assert forall|j: int| 0 <= j < teardown_spec(res).len() implies !is_frame_command(
        #[trigger] teardown_spec(res)[j],
    ) by {}
}

proof fn lemma_frames_pattern(k: nat)
    ensures
        frames(k).len() == 3 * k,
        forall|j: int| 0 <= j < 3 * k ==> #[trigger] frames(k)[j] == frame_spec()[j % 3],
    decreases k,
{
    if k > 0 {
        let k1 = (k - 1) as nat;
        lemma_frames_pattern(k1);
        assert forall|j: int| 0 <= j < 3 * k implies #[trigger] frames(k)[j] == frame_spec()[j
            % 3] by {
            if j >= 3 {
                assert((j - 3) % 3 == j % 3) by (nonlinear_arith)
                    requires
                        j >= 3,
                ;
                assert(frames(k)[j] == frames(k1)[j - 3]);
            }
        }
    }
}

} // verus!
