use vstd::prelude::*;

verus! {

/// What a status query reports for success (`GL_TRUE`).
pub const GL_TRUE: i32 = 1;

/// The pipeline stage that a shader object is compiled for.
#[derive(Clone, Copy, Debug, PartialEq, Eq, Structural)]
pub enum Stage {
    Vertex,
    Fragment,
}

/// A driver call that a build step asks the caller to make.
#[derive(Clone, Copy, Debug, PartialEq, Eq, Structural)]
pub enum GlRequest {
    /// Create a shader object for the stage; answered with its name.
    CreateShader(Stage),
    /// Submit the stage's source text to the shader; answered with `Done`.
    ShaderSource(u32),
    /// Compile the shader; answered with `Done`.
    CompileShader(u32),
    /// Query the shader's compile status; answered with its value.
    ShaderStatus(u32),
    /// Query the length of the shader's info log, terminator included.
    ShaderLogLength(u32),
    /// Fetch the shader's info log into a buffer of the given size.
    ShaderLog(u32, i32),
    /// Create a program object; answered with its name.
    CreateProgram,
    /// Attach a shader (second) to a program (first); answered with `Done`.
    AttachShader(u32, u32),
    /// Link the program; answered with `Done`.
    LinkProgram(u32),
    /// Query the program's link status; answered with its value.
    ProgramStatus(u32),
    /// Query the length of the program's info log, terminator included.
    ProgramLogLength(u32),
    /// Fetch the program's info log into a buffer of the given size.
    ProgramLog(u32, i32),
    /// Delete a shader object; answered with `Done`.
    DeleteShader(u32),
    /// Delete a program object; answered with `Done`.
    DeleteProgram(u32),
}

/// The driver's answer to a request.
pub enum Reply {
    Name(u32),
    Done,
    Value(i32),
    Log(Vec<u8>),
}

/// Which step of the build failed.
#[derive(Clone, Copy, Debug, PartialEq, Eq, Structural)]
pub enum Failure {
    Compile(Stage),
    Link,
}

/// A failed compile or link, with the driver's info log.
#[derive(Debug)]
pub struct BuildError {
    pub kind: Failure,
    pub log: Vec<u8>,
}

/// The end of a build step as a value: the object's name, or the failure
/// and its log.
pub type Outcome = Result<u32, (Failure, Seq<u8>)>;

pub open spec fn same_outcome(r: Option<Result<u32, BuildError>>, o: Option<Outcome>) -> bool {
    match (r, o) {
        (None, None) => true,
        (Some(Ok(a)), Some(Ok(b))) => a == b,
        (Some(Err(e)), Some(Err(f))) => e.kind == f.0 && e.log@ == f.1,
        _ => false,
    }
}

/// The number of text bytes in a log whose reported length, terminator
/// included, is `len`.
pub open spec fn log_text_len(len: i32) -> int {
    if len >= 1 {
        len - 1
    } else {
        0
    }
}

/// The log text of a fetched buffer: the bytes before the terminator, as
/// far as the buffer holds them.
pub open spec fn info_log_spec(buf: Seq<u8>, len: i32) -> Seq<u8> {
    if log_text_len(len) <= buf.len() {
        buf.take(log_text_len(len))
    } else {
        buf
    }
}

/// The log text of a buffer fetched for a reported length of `len`.
pub fn info_log(buf: &Vec<u8>, len: i32) -> (r: Vec<u8>)
    ensures
        r@ == info_log_spec(buf@, len),
{
    let text: usize = if len >= 1 {
        (len - 1) as usize
    } else {
        0
    };
    let n: usize = if text <= buf.len() {
        text
    } else {
        buf.len()
    };
    let mut r: Vec<u8> = Vec::new();
    let mut i: usize = 0;
    while i < n
        invariant
            n <= buf@.len(),
            i <= n,
            r@ == buf@.take(i as int),
        decreases n - i,
    {
        r.push(buf[i]);
        assert(r@ =~= buf@.take(i + 1));
        i = i + 1;
    }
    assert(r@ =~= info_log_spec(buf@, len));
    r
}

/// Where a shader compile stands.
#[derive(Clone, Copy, Debug, PartialEq, Eq, Structural)]
pub enum CompilePhase {
    Create,
    Source(u32),
    Compile(u32),
    Status(u32),
    LogLength(u32),
    FetchLog(u32, i32),
    /// The compile failed and its log is in: release this shader.
    Release(u32),
    /// Then release the shader of the same build compiled before it.
    ReleaseEarlier(u32),
    Finished,
}

/// Compiles one shader: create, submit the source, compile, check the
/// status. On failure, fetch the info log, fail with it, and release this
/// shader and then `earlier`, the shader of the same build compiled before.
pub struct ShaderCompile {
    pub stage: Stage,
    pub earlier: Option<u32>,
    pub phase: CompilePhase,
}

pub open spec fn compile_request_spec(stage: Stage, phase: CompilePhase) -> Option<GlRequest> {
    match phase {
        CompilePhase::Create => Some(GlRequest::CreateShader(stage)),
        CompilePhase::Source(h) => Some(GlRequest::ShaderSource(h)),
        CompilePhase::Compile(h) => Some(GlRequest::CompileShader(h)),
        CompilePhase::Status(h) => Some(GlRequest::ShaderStatus(h)),
        CompilePhase::LogLength(h) => Some(GlRequest::ShaderLogLength(h)),
        CompilePhase::FetchLog(h, n) => Some(GlRequest::ShaderLog(h, n)),
        CompilePhase::Release(h) => Some(GlRequest::DeleteShader(h)),
        CompilePhase::ReleaseEarlier(e) => Some(GlRequest::DeleteShader(e)),
        CompilePhase::Finished => None,
    }
}

/// Whether the reply is of the kind that the pending request is answered with.
pub open spec fn compile_accepts_spec(phase: CompilePhase, reply: Reply) -> bool {
    match phase {
        CompilePhase::Create => reply is Name,
        CompilePhase::Source(_) | CompilePhase::Compile(_) | CompilePhase::Release(_)
        | CompilePhase::ReleaseEarlier(_) => reply is Done,
        CompilePhase::Status(_) | CompilePhase::LogLength(_) => reply is Value,
        CompilePhase::FetchLog(_, _) => reply is Log,
        CompilePhase::Finished => false,
    }
}

pub open spec fn compile_next_spec(
    earlier: Option<u32>,
    phase: CompilePhase,
    reply: Reply,
) -> CompilePhase {
    match (phase, reply) {
        (CompilePhase::Create, Reply::Name(h)) => CompilePhase::Source(h),
        (CompilePhase::Source(h), Reply::Done) => CompilePhase::Compile(h),
        (CompilePhase::Compile(h), Reply::Done) => CompilePhase::Status(h),
        (CompilePhase::Status(h), Reply::Value(s)) => if s == GL_TRUE {
            CompilePhase::Finished
        } else {
            CompilePhase::LogLength(h)
        },
        (CompilePhase::LogLength(h), Reply::Value(n)) => CompilePhase::FetchLog(h, n),
        (CompilePhase::FetchLog(h, _), Reply::Log(_)) => CompilePhase::Release(h),
        (CompilePhase::Release(_), Reply::Done) => match earlier {
            Some(e) => CompilePhase::ReleaseEarlier(e),
            None => CompilePhase::Finished,
        },
        (CompilePhase::ReleaseEarlier(_), Reply::Done) => CompilePhase::Finished,
        _ => phase,
    }
}

/// What a reply decides the compile with, if it decides it.
pub open spec fn compile_outcome_spec(stage: Stage, phase: CompilePhase, reply: Reply) -> Option<
    Outcome,
> {
    match (phase, reply) {
        (CompilePhase::Status(h), Reply::Value(s)) => if s == GL_TRUE {
            Some(Ok(h))
        } else {
            None
        },
        (CompilePhase::FetchLog(_, n), Reply::Log(b)) => Some(
            Err((Failure::Compile(stage), info_log_spec(b@, n))),
        ),
        _ => None,
    }
}

/// Feeding `replies` in turn from `phase` on, as far as they answer the
/// pending requests: the requests they answer, the outcome once a reply
/// decides it, and the phase where the run stops.
pub open spec fn compile_run(
    stage: Stage,
    earlier: Option<u32>,
    phase: CompilePhase,
    replies: Seq<Reply>,
) -> (Seq<GlRequest>, Option<Outcome>, CompilePhase)
    decreases replies.len(),
{
    if replies.len() == 0 || !compile_accepts_spec(phase, replies[0]) {
        (Seq::empty(), None, phase)
    } else {
        match compile_request_spec(stage, phase) {
            None => (Seq::empty(), None, phase),
            Some(q) => {
                let o = compile_outcome_spec(stage, phase, replies[0]);
                let rest = compile_run(
                    stage,
                    earlier,
                    compile_next_spec(earlier, phase, replies[0]),
                    replies.drop_first(),
                );
                (seq![q] + rest.0, if o is Some {
                    o
                } else {
                    rest.1
                }, rest.2)
            },
        }
    }
}

impl ShaderCompile {
    pub fn new(stage: Stage, earlier: Option<u32>) -> (r: ShaderCompile)
        ensures
            r.stage == stage,
            r.earlier == earlier,
            r.phase == CompilePhase::Create,
    {
        ShaderCompile { stage, earlier, phase: CompilePhase::Create }
    }

    /// The driver call to make next; `None` once the compile has ended.
    pub fn request(&self) -> (r: Option<GlRequest>)
        ensures
            r == compile_request_spec(self.stage, self.phase),
    {
        match self.phase {
            CompilePhase::Create => Some(GlRequest::CreateShader(self.stage)),
            CompilePhase::Source(h) => Some(GlRequest::ShaderSource(h)),
            CompilePhase::Compile(h) => Some(GlRequest::CompileShader(h)),
            CompilePhase::Status(h) => Some(GlRequest::ShaderStatus(h)),
            CompilePhase::LogLength(h) => Some(GlRequest::ShaderLogLength(h)),
            CompilePhase::FetchLog(h, n) => Some(GlRequest::ShaderLog(h, n)),
            CompilePhase::Release(h) => Some(GlRequest::DeleteShader(h)),
            CompilePhase::ReleaseEarlier(e) => Some(GlRequest::DeleteShader(e)),
            CompilePhase::Finished => None,
        }
    }

    /// Whether `reply` answers the pending request.
    pub fn accepts(&self, reply: &Reply) -> (r: bool)
        ensures
            r == compile_accepts_spec(self.phase, *reply),
    {
        match self.phase {
            CompilePhase::Create => matches!(reply, Reply::Name(_)),
            CompilePhase::Source(_) | CompilePhase::Compile(_) | CompilePhase::Release(_)
            | CompilePhase::ReleaseEarlier(_) => matches!(reply, Reply::Done),
            CompilePhase::Status(_) | CompilePhase::LogLength(_) => matches!(
                reply,
                Reply::Value(_)
            ),
            CompilePhase::FetchLog(_, _) => matches!(reply, Reply::Log(_)),
            CompilePhase::Finished => false,
        }
    }

    /// Hands over the answer to the pending request. Returns the outcome
    /// when this answer decides it: the shader's name once the status is
    /// `GL_TRUE`, or the failure with the log text once the log is in. A
    /// failed compile goes on to release its shaders before it ends.
    pub fn feed(&mut self, reply: Reply) -> (r: Option<Result<u32, BuildError>>)
        requires
            compile_accepts_spec(old(self).phase, reply),
        ensures
            final(self).stage == old(self).stage,
            final(self).earlier == old(self).earlier,
            final(self).phase == compile_next_spec(old(self).earlier, old(self).phase, reply),
            same_outcome(r, compile_outcome_spec(old(self).stage, old(self).phase, reply)),
    {
        match (self.phase, reply) {
            (CompilePhase::Create, Reply::Name(h)) => {
                self.phase = CompilePhase::Source(h);
                None
            },
            (CompilePhase::Source(h), Reply::Done) => {
                self.phase = CompilePhase::Compile(h);
                None
            },
            (CompilePhase::Compile(h), Reply::Done) => {
                self.phase = CompilePhase::Status(h);
                None
            },
            (CompilePhase::Status(h), Reply::Value(s)) => {
                if s == GL_TRUE {
                    self.phase = CompilePhase::Finished;
                    Some(Ok(h))
                } else {
                    self.phase = CompilePhase::LogLength(h);
                    None
                }
            },
            (CompilePhase::LogLength(h), Reply::Value(n)) => {
                self.phase = CompilePhase::FetchLog(h, n);
                None
            },
            (CompilePhase::FetchLog(h, n), Reply::Log(b)) => {
                self.phase = CompilePhase::Release(h);
                let log = info_log(&b, n);
                Some(Err(BuildError { kind: Failure::Compile(self.stage), log }))
            },
            (CompilePhase::Release(_), Reply::Done) => {
                self.phase = match self.earlier {
                    Some(e) => CompilePhase::ReleaseEarlier(e),
                    None => CompilePhase::Finished,
                };
                None
            },
            (CompilePhase::ReleaseEarlier(_), Reply::Done) => {
                self.phase = CompilePhase::Finished;
                None
            },
            _ => None,
        }
    }
}

/// Once a compile has decided, no later reply decides it again.
proof fn lemma_compile_quiet(
    stage: Stage,
    earlier: Option<u32>,
    phase: CompilePhase,
    replies: Seq<Reply>,
)
    requires
        phase is Release || phase is ReleaseEarlier || phase is Finished,
    ensures
        compile_run(stage, earlier, phase, replies).1 is None,
    decreases replies.len(),
{
    if replies.len() > 0 && compile_accepts_spec(phase, replies[0]) {
        lemma_compile_quiet(
            stage,
            earlier,
            compile_next_spec(earlier, phase, replies[0]),
            replies.drop_first(),
        );
    }
}

/// Runs a compile against answers given in advance, as far as they answer
/// its requests: the requests made, the outcome once decided, and the phase
/// where it stopped.
pub fn run_compile(stage: Stage, earlier: Option<u32>, replies: Vec<Reply>) -> (r: (
    Vec<GlRequest>,
    Option<Result<u32, BuildError>>,
    CompilePhase,
))
    ensures
        r.0@ == compile_run(stage, earlier, CompilePhase::Create, replies@).0,
        same_outcome(r.1, compile_run(stage, earlier, CompilePhase::Create, replies@).1),
        r.2 == compile_run(stage, earlier, CompilePhase::Create, replies@).2,
{
    let ghost all = replies@;
    let ghost whole = compile_run(stage, earlier, CompilePhase::Create, all);
    let mut m = ShaderCompile::new(stage, earlier);
    let mut replies = replies;
    let mut requests: Vec<GlRequest> = Vec::new();
    let mut outcome: Option<Result<u32, BuildError>> = None;
    loop
        invariant
            m.stage == stage,
            m.earlier == earlier,
            whole == compile_run(stage, earlier, CompilePhase::Create, all),
            requests@ + compile_run(stage, earlier, m.phase, replies@).0 == whole.0,
            compile_run(stage, earlier, m.phase, replies@).2 == whole.2,
            outcome is Some ==> same_outcome(outcome, whole.1) && compile_run(
                stage,
                earlier,
                m.phase,
                replies@,
            ).1 is None,
            outcome is None ==> compile_run(stage, earlier, m.phase, replies@).1 == whole.1,
        ensures
            requests@ == whole.0,
            m.phase == whole.2,
            same_outcome(outcome, whole.1),
        decreases replies@.len(),
    {
        if replies.len() == 0 || !m.accepts(&replies[0]) {
            assert(requests@ =~= whole.0);
            break ;
        }
        let pending = m.request();
        match pending {
            None => {
                assert(requests@ =~= whole.0);
                break ;
            },
            Some(q) => {
                let ghost before = replies@;
                let ghost phase = m.phase;
                let reply = replies.remove(0);
                assert(replies@ =~= before.drop_first());
                let o = m.feed(reply);
                requests.push(q);
                assert(requests@ + compile_run(stage, earlier, m.phase, replies@).0 =~= whole.0);
                if o.is_some() {
                    proof {
                        lemma_compile_quiet(stage, earlier, m.phase, replies@);
                    }
                    outcome = o;
                }
            },
        }
    }
    (requests, outcome, m.phase)
}

/// Where a program link stands.
#[derive(Clone, Copy, Debug, PartialEq, Eq, Structural)]
pub enum LinkPhase {
    Create,
    AttachVertex(u32),
    AttachFragment(u32),
    Link(u32),
    Status(u32),
    LogLength(u32),
    FetchLog(u32, i32),
    /// The link failed and its log is in: release the program.
    ReleaseProgram(u32),
    /// Then the fragment shader.
    ReleaseFragment,
    /// Then the vertex shader.
    ReleaseVertex,
    Finished,
}

/// Links a vertex and a fragment shader: create a program, attach both
/// shaders, link, check the status. On failure, fetch the info log, fail
/// with it, and release the program, the fragment shader and the vertex
/// shader, in that order.
pub struct ProgramLink {
    pub vertex: u32,
    pub fragment: u32,
    pub phase: LinkPhase,
}

pub open spec fn link_request_spec(vertex: u32, fragment: u32, phase: LinkPhase) -> Option<
    GlRequest,
> {
    match phase {
        LinkPhase::Create => Some(GlRequest::CreateProgram),
        LinkPhase::AttachVertex(p) => Some(GlRequest::AttachShader(p, vertex)),
        LinkPhase::AttachFragment(p) => Some(GlRequest::AttachShader(p, fragment)),
        LinkPhase::Link(p) => Some(GlRequest::LinkProgram(p)),
        LinkPhase::Status(p) => Some(GlRequest::ProgramStatus(p)),
        LinkPhase::LogLength(p) => Some(GlRequest::ProgramLogLength(p)),
        LinkPhase::FetchLog(p, n) => Some(GlRequest::ProgramLog(p, n)),
        LinkPhase::ReleaseProgram(p) => Some(GlRequest::DeleteProgram(p)),
        LinkPhase::ReleaseFragment => Some(GlRequest::DeleteShader(fragment)),
        LinkPhase::ReleaseVertex => Some(GlRequest::DeleteShader(vertex)),
        LinkPhase::Finished => None,
    }
}

/// Whether the reply is of the kind that the pending request is answered with.
pub open spec fn link_accepts_spec(phase: LinkPhase, reply: Reply) -> bool {
    match phase {
        LinkPhase::Create => reply is Name,
        LinkPhase::AttachVertex(_) | LinkPhase::AttachFragment(_) | LinkPhase::Link(_)
        | LinkPhase::ReleaseProgram(_) | LinkPhase::ReleaseFragment | LinkPhase::ReleaseVertex => reply is Done,
        LinkPhase::Status(_) | LinkPhase::LogLength(_) => reply is Value,
        LinkPhase::FetchLog(_, _) => reply is Log,
        LinkPhase::Finished => false,
    }
}

pub open spec fn link_next_spec(phase: LinkPhase, reply: Reply) -> LinkPhase {
    match (phase, reply) {
        (LinkPhase::Create, Reply::Name(p)) => LinkPhase::AttachVertex(p),
        (LinkPhase::AttachVertex(p), Reply::Done) => LinkPhase::AttachFragment(p),
        (LinkPhase::AttachFragment(p), Reply::Done) => LinkPhase::Link(p),
        (LinkPhase::Link(p), Reply::Done) => LinkPhase::Status(p),
        (LinkPhase::Status(p), Reply::Value(s)) => if s == GL_TRUE {
            LinkPhase::Finished
        } else {
            LinkPhase::LogLength(p)
        },
        (LinkPhase::LogLength(p), Reply::Value(n)) => LinkPhase::FetchLog(p, n),
        (LinkPhase::FetchLog(p, _), Reply::Log(_)) => LinkPhase::ReleaseProgram(p),
        (LinkPhase::ReleaseProgram(_), Reply::Done) => LinkPhase::ReleaseFragment,
        (LinkPhase::ReleaseFragment, Reply::Done) => LinkPhase::ReleaseVertex,
        (LinkPhase::ReleaseVertex, Reply::Done) => LinkPhase::Finished,
        _ => phase,
    }
}

/// What a reply decides the link with, if it decides it.
pub open spec fn link_outcome_spec(phase: LinkPhase, reply: Reply) -> Option<Outcome> {
    match (phase, reply) {
        (LinkPhase::Status(p), Reply::Value(s)) => if s == GL_TRUE {
            Some(Ok(p))
        } else {
            None
        },
        (LinkPhase::FetchLog(_, n), Reply::Log(b)) => Some(
            Err((Failure::Link, info_log_spec(b@, n))),
        ),
        _ => None,
    }
}

/// Feeding `replies` in turn from `phase` on, as far as they answer the
/// pending requests: the requests they answer, the outcome once a reply
/// decides it, and the phase where the run stops.
pub open spec fn link_run(vertex: u32, fragment: u32, phase: LinkPhase, replies: Seq<Reply>) -> (
    Seq<GlRequest>,
    Option<Outcome>,
    LinkPhase,
)
    decreases replies.len(),
{
    if replies.len() == 0 || !link_accepts_spec(phase, replies[0]) {
        (Seq::empty(), None, phase)
    } else {
        match link_request_spec(vertex, fragment, phase) {
            None => (Seq::empty(), None, phase),
            Some(q) => {
                let o = link_outcome_spec(phase, replies[0]);
                let rest = link_run(
                    vertex,
                    fragment,
                    link_next_spec(phase, replies[0]),
                    replies.drop_first(),
                );
                (seq![q] + rest.0, if o is Some {
                    o
                } else {
                    rest.1
                }, rest.2)
            },
        }
    }
}

impl ProgramLink {
    pub fn new(vertex: u32, fragment: u32) -> (r: ProgramLink)
        ensures
            r.vertex == vertex,
            r.fragment == fragment,
            r.phase == LinkPhase::Create,
    {
        ProgramLink { vertex, fragment, phase: LinkPhase::Create }
    }

    /// The driver call to make next; `None` once the link has ended.
    pub fn request(&self) -> (r: Option<GlRequest>)
        ensures
            r == link_request_spec(self.vertex, self.fragment, self.phase),
    {
        match self.phase {
            LinkPhase::Create => Some(GlRequest::CreateProgram),
            LinkPhase::AttachVertex(p) => Some(GlRequest::AttachShader(p, self.vertex)),
            LinkPhase::AttachFragment(p) => Some(GlRequest::AttachShader(p, self.fragment)),
            LinkPhase::Link(p) => Some(GlRequest::LinkProgram(p)),
            LinkPhase::Status(p) => Some(GlRequest::ProgramStatus(p)),
            LinkPhase::LogLength(p) => Some(GlRequest::ProgramLogLength(p)),
            LinkPhase::FetchLog(p, n) => Some(GlRequest::ProgramLog(p, n)),
            LinkPhase::ReleaseProgram(p) => Some(GlRequest::DeleteProgram(p)),
            LinkPhase::ReleaseFragment => Some(GlRequest::DeleteShader(self.fragment)),
            LinkPhase::ReleaseVertex => Some(GlRequest::DeleteShader(self.vertex)),
            LinkPhase::Finished => None,
        }
    }

    /// Whether `reply` answers the pending request.
    pub fn accepts(&self, reply: &Reply) -> (r: bool)
        ensures
            r == link_accepts_spec(self.phase, *reply),
    {
        match self.phase {
            LinkPhase::Create => matches!(reply, Reply::Name(_)),
            LinkPhase::AttachVertex(_) | LinkPhase::AttachFragment(_) | LinkPhase::Link(_)
            | LinkPhase::ReleaseProgram(_) | LinkPhase::ReleaseFragment
            | LinkPhase::ReleaseVertex => matches!(reply, Reply::Done),
            LinkPhase::Status(_) | LinkPhase::LogLength(_) => matches!(reply, Reply::Value(_)),
            LinkPhase::FetchLog(_, _) => matches!(reply, Reply::Log(_)),
            LinkPhase::Finished => false,
        }
    }

    /// Hands over the answer to the pending request. Returns the outcome
    /// when this answer decides it: the program's name once the status is
    /// `GL_TRUE`, or the failure with the log text once the log is in. A
    /// failed link goes on to release the program and both shaders before
    /// it ends.
    pub fn feed(&mut self, reply: Reply) -> (r: Option<Result<u32, BuildError>>)
        requires
            link_accepts_spec(old(self).phase, reply),
        ensures
            final(self).vertex == old(self).vertex,
            final(self).fragment == old(self).fragment,
            final(self).phase == link_next_spec(old(self).phase, reply),
            same_outcome(r, link_outcome_spec(old(self).phase, reply)),
    {
        match (self.phase, reply) {
            (LinkPhase::Create, Reply::Name(p)) => {
                self.phase = LinkPhase::AttachVertex(p);
                None
            },
            (LinkPhase::AttachVertex(p), Reply::Done) => {
                self.phase = LinkPhase::AttachFragment(p);
                None
            },
            (LinkPhase::AttachFragment(p), Reply::Done) => {
                self.phase = LinkPhase::Link(p);
                None
            },
            (LinkPhase::Link(p), Reply::Done) => {
                self.phase = LinkPhase::Status(p);
                None
            },
            (LinkPhase::Status(p), Reply::Value(s)) => {
                if s == GL_TRUE {
                    self.phase = LinkPhase::Finished;
                    Some(Ok(p))
                } else {
                    self.phase = LinkPhase::LogLength(p);
                    None
                }
            },
            (LinkPhase::LogLength(p), Reply::Value(n)) => {
                self.phase = LinkPhase::FetchLog(p, n);
                None
            },
            (LinkPhase::FetchLog(p, n), Reply::Log(b)) => {
                self.phase = LinkPhase::ReleaseProgram(p);
                let log = info_log(&b, n);
                Some(Err(BuildError { kind: Failure::Link, log }))
            },
            (LinkPhase::ReleaseProgram(_), Reply::Done) => {
                self.phase = LinkPhase::ReleaseFragment;
                None
            },
            (LinkPhase::ReleaseFragment, Reply::Done) => {
                self.phase = LinkPhase::ReleaseVertex;
                None
            },
            (LinkPhase::ReleaseVertex, Reply::Done) => {
                self.phase = LinkPhase::Finished;
                None
            },
            _ => None,
        }
    }
}

/// Once a link has decided, no later reply decides it again.
proof fn lemma_link_quiet(vertex: u32, fragment: u32, phase: LinkPhase, replies: Seq<Reply>)
    requires
        phase is ReleaseProgram || phase is ReleaseFragment || phase is ReleaseVertex
            || phase is Finished,
    ensures
        link_run(vertex, fragment, phase, replies).1 is None,
    decreases replies.len(),
{
    if replies.len() > 0 && link_accepts_spec(phase, replies[0]) {
        lemma_link_quiet(vertex, fragment, link_next_spec(phase, replies[0]), replies.drop_first());
    }
}

/// Runs a link against answers given in advance, as far as they answer its
/// requests: the requests made, the outcome once decided, and the phase
/// where it stopped.
pub fn run_link(vertex: u32, fragment: u32, replies: Vec<Reply>) -> (r: (
    Vec<GlRequest>,
    Option<Result<u32, BuildError>>,
    LinkPhase,
))
    ensures
        r.0@ == link_run(vertex, fragment, LinkPhase::Create, replies@).0,
        same_outcome(r.1, link_run(vertex, fragment, LinkPhase::Create, replies@).1),
        r.2 == link_run(vertex, fragment, LinkPhase::Create, replies@).2,
{
    let ghost all = replies@;
    let ghost whole = link_run(vertex, fragment, LinkPhase::Create, all);
    let mut m = ProgramLink::new(vertex, fragment);
    let mut replies = replies;
    let mut requests: Vec<GlRequest> = Vec::new();
    let mut outcome: Option<Result<u32, BuildError>> = None;
    loop
        invariant
            m.vertex == vertex,
            m.fragment == fragment,
            whole == link_run(vertex, fragment, LinkPhase::Create, all),
            requests@ + link_run(vertex, fragment, m.phase, replies@).0 == whole.0,
            link_run(vertex, fragment, m.phase, replies@).2 == whole.2,
            outcome is Some ==> same_outcome(outcome, whole.1) && link_run(
                vertex,
                fragment,
                m.phase,
                replies@,
            ).1 is None,
            outcome is None ==> link_run(vertex, fragment, m.phase, replies@).1 == whole.1,
        ensures
            requests@ == whole.0,
            m.phase == whole.2,
            same_outcome(outcome, whole.1),
        decreases replies@.len(),
    {
        if replies.len() == 0 || !m.accepts(&replies[0]) {
            assert(requests@ =~= whole.0);
            break ;
        }
        let pending = m.request();
        match pending {
            None => {
                assert(requests@ =~= whole.0);
                break ;
            },
            Some(q) => {
                let ghost before = replies@;
                let reply = replies.remove(0);
                assert(replies@ =~= before.drop_first());
                let o = m.feed(reply);
                requests.push(q);
                assert(requests@ + link_run(vertex, fragment, m.phase, replies@).0 =~= whole.0);
                if o.is_some() {
                    proof {
                        lemma_link_quiet(vertex, fragment, m.phase, replies@);
                    }
                    outcome = o;
                }
            },
        }
    }
    (requests, outcome, m.phase)
}

/// The calls that release the shader compiled before a failed one.
pub open spec fn release_earlier_spec(earlier: Option<u32>) -> Seq<GlRequest> {
    match earlier {
        Some(e) => seq![GlRequest::DeleteShader(e)],
        None => Seq::empty(),
    }
}

/// A compile that the driver fails ends with the driver's info log: the
/// calls are create, source, compile, status, log length and log; then the
/// failed shader is deleted, and after it the shader compiled before it in
/// the same build. The failure carries the bytes before the log's
/// terminator, which are not empty whenever the driver reports a log of at
/// least one character.
pub proof fn lemma_compile_failure(
    stage: Stage,
    earlier: Option<u32>,
    h: u32,
    status: i32,
    len: i32,
    buf: Vec<u8>,
)
    requires
        status != GL_TRUE,
    ensures
        ({
            let run = compile_run(
                stage,
                earlier,
                CompilePhase::Create,
                seq![Reply::Name(h), Reply::Done, Reply::Done, Reply::Value(status), Reply::Value(len), Reply::Log(buf), Reply::Done, Reply::Done],
            );
            &&& run.0 == seq![
                GlRequest::CreateShader(stage),
                GlRequest::ShaderSource(h),
                GlRequest::CompileShader(h),
                GlRequest::ShaderStatus(h),
                GlRequest::ShaderLogLength(h),
                GlRequest::ShaderLog(h, len),
                GlRequest::DeleteShader(h),
            ] + release_earlier_spec(earlier)
            &&& run.1 == Some(
                Err::<u32, (Failure, Seq<u8>)>((Failure::Compile(stage), info_log_spec(buf@, len))),
            )
            &&& run.2 == CompilePhase::Finished
        }),
        2 <= len && len - 1 <= buf@.len() ==> info_log_spec(buf@, len) == buf@.take(len - 1)
            && info_log_spec(buf@, len).len() > 0,
{
    let r7 = seq![Reply::Done];
    let r6 = seq![Reply::Done, Reply::Done];
    let r5 = seq![Reply::Log(buf), Reply::Done, Reply::Done];
    let r4 = seq![Reply::Value(len), Reply::Log(buf), Reply::Done, Reply::Done];
    let r3 = seq![Reply::Value(status), Reply::Value(len), Reply::Log(buf), Reply::Done, Reply::Done];
    let r2 = seq![Reply::Done, Reply::Value(status), Reply::Value(len), Reply::Log(buf), Reply::Done, Reply::Done];
    let r1 = seq![Reply::Done, Reply::Done, Reply::Value(status), Reply::Value(len), Reply::Log(buf), Reply::Done, Reply::Done];
    let r0 = seq![Reply::Name(h), Reply::Done, Reply::Done, Reply::Value(status), Reply::Value(len), Reply::Log(buf), Reply::Done, Reply::Done];
    assert(r0.drop_first() =~= r1);
    assert(r1.drop_first() =~= r2);
    assert(r2.drop_first() =~= r3);
    assert(r3.drop_first() =~= r4);
    assert(r4.drop_first() =~= r5);
    assert(r5.drop_first() =~= r6);
    assert(r6.drop_first() =~= r7);
    assert(r7.drop_first() =~= Seq::<Reply>::empty());
    let after = compile_next_spec(earlier, CompilePhase::Release(h), Reply::Done);
    let q7 = compile_run(stage, earlier, after, r7);
    let q6 = compile_run(stage, earlier, CompilePhase::Release(h), r6);
    let q5 = compile_run(stage, earlier, CompilePhase::FetchLog(h, len), r5);
    let q4 = compile_run(stage, earlier, CompilePhase::LogLength(h), r4);
    let q3 = compile_run(stage, earlier, CompilePhase::Status(h), r3);
    let q2 = compile_run(stage, earlier, CompilePhase::Compile(h), r2);
    let q1 = compile_run(stage, earlier, CompilePhase::Source(h), r1);
    let q0 = compile_run(stage, earlier, CompilePhase::Create, r0);
    match earlier {
        Some(e) => {
            let tail = compile_run(stage, earlier, CompilePhase::Finished, Seq::<Reply>::empty());
            assert(q7.0 =~= seq![GlRequest::DeleteShader(e)] + tail.0);
        },
        None => {},
    }
    assert(q7.0 =~= release_earlier_spec(earlier));
    assert(q7.1 is None && q7.2 == CompilePhase::Finished);
    assert(q6.0 =~= seq![GlRequest::DeleteShader(h)] + q7.0);
    assert(q5.0 =~= seq![GlRequest::ShaderLog(h, len)] + q6.0);
    assert(q4.0 =~= seq![GlRequest::ShaderLogLength(h)] + q5.0);
    assert(q3.0 =~= seq![GlRequest::ShaderStatus(h)] + q4.0);
    assert(q2.0 =~= seq![GlRequest::CompileShader(h)] + q3.0);
    assert(q1.0 =~= seq![GlRequest::ShaderSource(h)] + q2.0);
    assert(q0.0 =~= seq![GlRequest::CreateShader(stage)] + q1.0);
    assert(q0.0 =~= seq![
        GlRequest::CreateShader(stage),
        GlRequest::ShaderSource(h),
        GlRequest::CompileShader(h),
        GlRequest::ShaderStatus(h),
        GlRequest::ShaderLogLength(h),
        GlRequest::ShaderLog(h, len),
        GlRequest::DeleteShader(h),
    ] + release_earlier_spec(earlier));
}

/// A link that the driver fails ends with the driver's info log: both
/// shaders were attached, vertex then fragment, before the link was asked
/// for, and after the log the program, the fragment shader and the vertex
/// shader are deleted.
pub proof fn lemma_link_failure(
    vertex: u32,
    fragment: u32,
    p: u32,
    status: i32,
    len: i32,
    buf: Vec<u8>,
)
    requires
        status != GL_TRUE,
    ensures
        ({
            let run = link_run(
                vertex,
                fragment,
                LinkPhase::Create,
                seq![Reply::Name(p), Reply::Done, Reply::Done, Reply::Done, Reply::Value(status), Reply::Value(len), Reply::Log(buf), Reply::Done, Reply::Done, Reply::Done],
            );
            &&& run.0 == seq![
                GlRequest::CreateProgram,
                GlRequest::AttachShader(p, vertex),
                GlRequest::AttachShader(p, fragment),
                GlRequest::LinkProgram(p),
                GlRequest::ProgramStatus(p),
                GlRequest::ProgramLogLength(p),
                GlRequest::ProgramLog(p, len),
                GlRequest::DeleteProgram(p),
                GlRequest::DeleteShader(fragment),
                GlRequest::DeleteShader(vertex),
            ]
            &&& run.1 == Some(Err::<u32, (Failure, Seq<u8>)>((Failure::Link, info_log_spec(buf@, len))))
            &&& run.2 == LinkPhase::Finished
        }),
{
    let r9 = seq![Reply::Done];
    let r8 = seq![Reply::Done, Reply::Done];
    let r7 = seq![Reply::Done, Reply::Done, Reply::Done];
    let r6 = seq![Reply::Log(buf)] + r7;
    let r5 = seq![Reply::Value(len)] + r6;
    let r4 = seq![Reply::Value(status)] + r5;
    let r3 = seq![Reply::Done] + r4;
    let r2 = seq![Reply::Done] + r3;
    let r1 = seq![Reply::Done] + r2;
    let r0 = seq![Reply::Name(p)] + r1;
    assert(r0 =~= seq![Reply::Name(p), Reply::Done, Reply::Done, Reply::Done, Reply::Value(status), Reply::Value(len), Reply::Log(buf), Reply::Done, Reply::Done, Reply::Done]);
    assert(r0.drop_first() =~= r1);
    assert(r1.drop_first() =~= r2);
    assert(r2.drop_first() =~= r3);
    assert(r3.drop_first() =~= r4);
    assert(r4.drop_first() =~= r5);
    assert(r5.drop_first() =~= r6);
    assert(r6.drop_first() =~= r7);
    assert(r7.drop_first() =~= r8);
    assert(r8.drop_first() =~= r9);
    assert(r9.drop_first() =~= Seq::<Reply>::empty());
    let q10 = link_run(vertex, fragment, LinkPhase::Finished, Seq::<Reply>::empty());
    let q9 = link_run(vertex, fragment, LinkPhase::ReleaseVertex, r9);
    let q8 = link_run(vertex, fragment, LinkPhase::ReleaseFragment, r8);
    let q7 = link_run(vertex, fragment, LinkPhase::ReleaseProgram(p), r7);
    let q6 = link_run(vertex, fragment, LinkPhase::FetchLog(p, len), r6);
    let q5 = link_run(vertex, fragment, LinkPhase::LogLength(p), r5);
    let q4 = link_run(vertex, fragment, LinkPhase::Status(p), r4);
    let q3 = link_run(vertex, fragment, LinkPhase::Link(p), r3);
    let q2 = link_run(vertex, fragment, LinkPhase::AttachFragment(p), r2);
    let q1 = link_run(vertex, fragment, LinkPhase::AttachVertex(p), r1);
    let q0 = link_run(vertex, fragment, LinkPhase::Create, r0);
    assert(q9.0 =~= seq![GlRequest::DeleteShader(vertex)] + q10.0);
    assert(q8.0 =~= seq![GlRequest::DeleteShader(fragment)] + q9.0);
    assert(q7.0 =~= seq![GlRequest::DeleteProgram(p)] + q8.0);
    assert(q7.1 is None && q7.2 == LinkPhase::Finished);
    assert(q6.0 =~= seq![GlRequest::ProgramLog(p, len)] + q7.0);
    assert(q5.0 =~= seq![GlRequest::ProgramLogLength(p)] + q6.0);
    assert(q4.0 =~= seq![GlRequest::ProgramStatus(p)] + q5.0);
    assert(q3.0 =~= seq![GlRequest::LinkProgram(p)] + q4.0);
    assert(q2.0 =~= seq![GlRequest::AttachShader(p, fragment)] + q3.0);
    assert(q1.0 =~= seq![GlRequest::AttachShader(p, vertex)] + q2.0);
    assert(q0.0 =~= seq![GlRequest::CreateProgram] + q1.0);
    assert(q0.0 =~= seq![
        GlRequest::CreateProgram,
        GlRequest::AttachShader(p, vertex),
        GlRequest::AttachShader(p, fragment),
        GlRequest::LinkProgram(p),
        GlRequest::ProgramStatus(p),
        GlRequest::ProgramLogLength(p),
        GlRequest::ProgramLog(p, len),
        GlRequest::DeleteProgram(p),
        GlRequest::DeleteShader(fragment),
        GlRequest::DeleteShader(vertex),
    ]);
}

/// The program name that a link phase carries, if it carries one.
pub open spec fn link_phase_program(phase: LinkPhase) -> Option<u32> {
    match phase {
        LinkPhase::AttachVertex(p) | LinkPhase::AttachFragment(p) | LinkPhase::Link(p)
        | LinkPhase::Status(p) | LinkPhase::LogLength(p) | LinkPhase::FetchLog(p, _)
        | LinkPhase::ReleaseProgram(p) => Some(p),
        _ => None,
    }
}

proof fn lemma_link_tail(vertex: u32, fragment: u32, phase: LinkPhase, replies: Seq<Reply>)
    requires
        phase is Status || phase is LogLength || phase is FetchLog || phase is ReleaseProgram
            || phase is ReleaseFragment || phase is ReleaseVertex || phase is Finished,
    ensures
        forall|i: int|
            0 <= i < link_run(vertex, fragment, phase, replies).0.len() ==> !(#[trigger] link_run(
                vertex,
                fragment,
                phase,
                replies,
            ).0[i] is LinkProgram),
        link_run(vertex, fragment, phase, replies).1 matches Some(Ok(x)) ==> link_phase_program(
            phase,
        ) == Some(x),
    decreases replies.len(),
{
    if replies.len() > 0 && link_accepts_spec(phase, replies[0]) {
        lemma_link_tail(vertex, fragment, link_next_spec(phase, replies[0]), replies.drop_first());
    }
}

/// Whatever the driver answers, the link is asked for only as the fourth
/// call, after the program was created and the vertex shader, then the
/// fragment shader, were attached to that same program; and a link that
/// succeeds returns the name that the driver gave the new program.
pub proof fn lemma_link_order(vertex: u32, fragment: u32, replies: Seq<Reply>)
    ensures
        forall|i: int|
            0 <= i < link_run(vertex, fragment, LinkPhase::Create, replies).0.len() && (
            #[trigger] link_run(vertex, fragment, LinkPhase::Create, replies).0[i] is LinkProgram)
                ==> {
                let qs = link_run(vertex, fragment, LinkPhase::Create, replies).0;
                let p = qs[i]->LinkProgram_0;
                &&& i == 3
                &&& qs[0] == GlRequest::CreateProgram
                &&& qs[1] == GlRequest::AttachShader(p, vertex)
                &&& qs[2] == GlRequest::AttachShader(p, fragment)
                &&& replies[0] == Reply::Name(p)
            },
        link_run(vertex, fragment, LinkPhase::Create, replies).1 matches Some(Ok(x)) ==> {
            &&& replies.len() > 0
            &&& replies[0] == Reply::Name(x)
        },
{
    let qs = link_run(vertex, fragment, LinkPhase::Create, replies).0;
    if replies.len() > 0 && replies[0] is Name {
        let p = replies[0]->Name_0;
        let r1 = replies.drop_first();
        let q1 = link_run(vertex, fragment, LinkPhase::AttachVertex(p), r1).0;
        assert(qs =~= seq![GlRequest::CreateProgram] + q1);
        if r1.len() > 0 && r1[0] is Done {
            let r2 = r1.drop_first();
            let q2 = link_run(vertex, fragment, LinkPhase::AttachFragment(p), r2).0;
            assert(q1 =~= seq![GlRequest::AttachShader(p, vertex)] + q2);
            if r2.len() > 0 && r2[0] is Done {
                let r3 = r2.drop_first();
                let q3 = link_run(vertex, fragment, LinkPhase::Link(p), r3).0;
                assert(q2 =~= seq![GlRequest::AttachShader(p, fragment)] + q3);
                if r3.len() > 0 && r3[0] is Done {
                    let r4 = r3.drop_first();
                    let q4 = link_run(vertex, fragment, LinkPhase::Status(p), r4).0;
                    assert(q3 =~= seq![GlRequest::LinkProgram(p)] + q4);
                    lemma_link_tail(vertex, fragment, LinkPhase::Status(p), r4);
                    assert forall|i: int|
                        0 <= i < qs.len() && (#[trigger] qs[i] is LinkProgram) implies i == 3 by {
                        if i > 3 {
                            assert(qs[i] == q4[i - 4]);
                        }
                    }
                } else {
                    assert(q3 =~= Seq::<GlRequest>::empty());
                }
            } else {
                assert(q2 =~= Seq::<GlRequest>::empty());
            }
        } else {
            assert(q1 =~= Seq::<GlRequest>::empty());
        }
    } else {
        assert(qs =~= Seq::<GlRequest>::empty());
    }
}

/// A successful link returns a name distinct from both shaders' whenever
/// the driver named the new program apart from them, as it does with every
/// new object.
pub proof fn lemma_link_result_distinct(vertex: u32, fragment: u32, replies: Seq<Reply>)
    requires
        replies.len() > 0,
        replies[0] != Reply::Name(vertex),
        replies[0] != Reply::Name(fragment),
    ensures
        link_run(vertex, fragment, LinkPhase::Create, replies).1 matches Some(Ok(x)) ==> x
            != vertex && x != fragment,
{
    lemma_link_order(vertex, fragment, replies);
}

/// Whatever the driver answers, a compile ends only as the status query
/// decides: with the name that the driver gave the shader, after a status
/// of `GL_TRUE`; or, after any other status, with a failure for this stage
/// that carries the log fetched for the reported length.
pub proof fn lemma_compile_outcome(stage: Stage, earlier: Option<u32>, replies: Seq<Reply>)
    ensures
        compile_run(stage, earlier, CompilePhase::Create, replies).1 matches Some(Ok(x)) ==> {
            &&& replies.len() >= 4
            &&& replies[0] == Reply::Name(x)
            &&& replies[3] == Reply::Value(GL_TRUE)
        },
        compile_run(stage, earlier, CompilePhase::Create, replies).1 matches Some(Err(e)) ==> {
            &&& replies.len() >= 6
            &&& replies[3] is Value
            &&& replies[3]->Value_0 != GL_TRUE
            &&& replies[4] is Value
            &&& replies[5] is Log
            &&& e == (Failure::Compile(stage), info_log_spec(
                replies[5]->Log_0@,
                replies[4]->Value_0,
            ))
        },
{
    let o = compile_run(stage, earlier, CompilePhase::Create, replies).1;
    if replies.len() > 0 && replies[0] is Name {
        let h = replies[0]->Name_0;
        let r1 = replies.drop_first();
        assert(o == compile_run(stage, earlier, CompilePhase::Source(h), r1).1);
        if r1.len() > 0 && r1[0] is Done {
            let r2 = r1.drop_first();
            assert(o == compile_run(stage, earlier, CompilePhase::Compile(h), r2).1);
            if r2.len() > 0 && r2[0] is Done {
                let r3 = r2.drop_first();
                assert(o == compile_run(stage, earlier, CompilePhase::Status(h), r3).1);
                assert(r3.len() > 0 ==> r3[0] == replies[3]);
                if r3.len() > 0 && r3[0] is Value && r3[0]->Value_0 != GL_TRUE {
                    let r4 = r3.drop_first();
                    assert(o == compile_run(stage, earlier, CompilePhase::LogLength(h), r4).1);
                    assert(r4.len() > 0 ==> r4[0] == replies[4]);
                    if r4.len() > 0 && r4[0] is Value {
                        let n = r4[0]->Value_0;
                        let r5 = r4.drop_first();
                        assert(o == compile_run(stage, earlier, CompilePhase::FetchLog(h, n), r5).1);
                        assert(r5.len() > 0 ==> r5[0] == replies[5]);
                    }
                }
            }
        }
    }
}

} // verus!
