use vstd::prelude::*;
use crate::gpu::{Command, GpuObject};
use crate::layout::{flatten, flatten_vertices, Vertex};
use crate::math::{Vec2, Vec3, Vec4};
use crate::shader::Shader;

verus! {

/// The largest vertex capacity a renderer accepts: its buffer's byte size
/// and its draw counts then fit a signed 32-bit integer.
pub const MAX_VERTEX_CAPACITY: usize = 16777216;
/// The vertex capacity of a renderer made by `Renderer::new`.
pub const DEFAULT_VERTEX_CAPACITY: usize = 10000;
/// Vertices in one quad: two triangles.
pub const QUAD_VERTICES: usize = 6;

/// Where a renderer stands in its frame cycle.
#[derive(Clone, Copy, Debug, PartialEq, Eq, Structural)]
pub enum Phase {
    /// Between frames: `begin`, `clear` and `delete` are allowed.
    Ready,
    /// Between `begin` and `end`: vertices may be pushed.
    Recording,
    /// Released: nothing more is allowed.
    Destroyed,
}

/// Why a renderer refused a call.
#[derive(Clone, Copy, Debug, PartialEq, Eq, Structural)]
pub enum RenderError {
    /// The vertex capacity cannot hold one quad, or its buffer would be too
    /// large.
    InvalidCapacity,
    /// The backend handed out no vertex array or no vertex buffer.
    ResourceAllocation,
    /// The call came out of the order new, {clear, begin, push, end}, delete.
    PreconditionViolation,
    /// A single vertex was pushed into a full batch.
    BatchFull,
}

/// The six vertices of the quad from corner `pos` to the opposite corner
/// `far`, all at depth `pos.z` and all of one color: `pos`, right, far,
/// far, top, `pos`.
pub open spec fn quad_vertices<T>(pos: Vec3<T>, far: Vec2<T>, color: Vec4<T>) -> Seq<Vertex<T>> {
    let origin = Vertex { pos, color };
    let right = Vertex { pos: Vec3 { x: far.x, y: pos.y, z: pos.z }, color };
    let opposite = Vertex { pos: Vec3 { x: far.x, y: far.y, z: pos.z }, color };
    let top = Vertex { pos: Vec3 { x: pos.x, y: far.y, z: pos.z }, color };
    seq![origin, right, opposite, opposite, top, origin]
}

/// One more quad does not fit a batch that holds `staged` vertices.
pub open spec fn overflows(capacity: nat, staged: nat) -> bool {
    staged + QUAD_VERTICES > capacity
}

/// `cmds[at]` and `cmds[at + 1]` flush `staged`: its scalars are written to
/// the start of the vertex buffer, then that many vertices are drawn.
pub open spec fn flushes<T>(cmds: Seq<Command<T>>, at: int, staged: Seq<Vertex<T>>) -> bool {
    &&& cmds[at] is Upload
    &&& cmds[at]->Upload_0@ == flatten(staged)
    &&& cmds[at + 1] == Command::<T>::Draw(staged.len() as usize)
}

/// A batch renderer: it gathers vertices into a staging list of bounded
/// size and turns them into uploads and draw calls, flushing on its own
/// when a quad would not fit. The calls it makes of the backend queue up
/// as commands, taken in order by `take_commands`.
pub struct Renderer<T> {
    vao: u32,
    vbo: u32,
    buffer: Vec<Vertex<T>>,
    buff_idx: usize,
    capacity: usize,
    shader: Shader,
    phase: Phase,
    commands: Vec<Command<T>>,
}

impl<T: Copy> Renderer<T> {
    pub closed spec fn wf(&self) -> bool {
        &&& self.buff_idx == self.buffer@.len()
        &&& self.buff_idx <= self.capacity
        &&& QUAD_VERTICES <= self.capacity <= MAX_VERTEX_CAPACITY
    }

    /// The vertices queued for the current batch, in push order.
    pub closed spec fn staged(&self) -> Seq<Vertex<T>> {
        self.buffer@
    }

    /// The commands issued and not yet taken.
    pub closed spec fn pending(&self) -> Seq<Command<T>> {
        self.commands@
    }

    pub closed spec fn phase_of(&self) -> Phase {
        self.phase
    }

    pub closed spec fn cap(&self) -> nat {
        self.capacity as nat
    }

    pub closed spec fn program(&self) -> u32 {
        self.shader.id
    }

    pub closed spec fn vertex_array(&self) -> u32 {
        self.vao
    }

    pub closed spec fn vertex_buffer(&self) -> u32 {
        self.vbo
    }

    /// `after` and `r` are what `clear` leaves and returns from `before`.
    pub open spec fn cleared(before: Self, after: Self, color: Vec4<T>, r: Result<(), RenderError>) -> bool {
        &&& after.staged() == before.staged()
        &&& after.phase_of() == before.phase_of()
        &&& after.cap() == before.cap()
        &&& after.program() == before.program()
        &&& after.vertex_array() == before.vertex_array()
        &&& after.vertex_buffer() == before.vertex_buffer()
        &&& before.phase_of() == Phase::Destroyed ==> r == Err::<(), RenderError>(
            RenderError::PreconditionViolation,
        ) && after.pending() == before.pending()
        &&& before.phase_of() != Phase::Destroyed ==> r is Ok && after.pending()
            == before.pending().push(Command::Clear(color))
    }

    /// `after` and `r` are what `end` leaves and returns from `before`.
    pub open spec fn ended(before: Self, after: Self, r: Result<(), RenderError>) -> bool {
        &&& after.staged() == before.staged()
        &&& after.cap() == before.cap()
        &&& after.program() == before.program()
        &&& after.vertex_array() == before.vertex_array()
        &&& after.vertex_buffer() == before.vertex_buffer()
        &&& before.phase_of() != Phase::Recording ==> r == Err::<(), RenderError>(
            RenderError::PreconditionViolation,
        ) && after == before
        &&& before.phase_of() == Phase::Recording ==> {
            &&& r is Ok
            &&& after.phase_of() == Phase::Ready
            &&& after.pending().len() == before.pending().len() + 2
            &&& after.pending().subrange(0, before.pending().len() as int) == before.pending()
            &&& flushes(after.pending(), before.pending().len() as int, before.staged())
        }
    }

    /// `after` and `r` are what `delete` leaves and returns from `before`.
    pub open spec fn deleted(before: Self, after: Self, r: Result<(), RenderError>) -> bool {
        &&& before.phase_of() != Phase::Ready ==> r == Err::<(), RenderError>(
            RenderError::PreconditionViolation,
        ) && after == before
        &&& before.phase_of() == Phase::Ready ==> {
            &&& r is Ok
            &&& after.phase_of() == Phase::Destroyed
            &&& after.pending() == before.pending() + seq![
                Command::Release(GpuObject::Program(before.program())),
                Command::Release(GpuObject::VertexArray(before.vertex_array())),
                Command::Release(GpuObject::Buffer(before.vertex_buffer())),
            ]
        }
    }

    /// A renderer over a linked program and a vertex array and buffer
    /// sized for `DEFAULT_VERTEX_CAPACITY` vertices.
    pub fn new(shader: Shader, vao: u32, vbo: u32) -> (r: Result<Renderer<T>, (RenderError, Vec<GpuObject>)>)
        ensures
            Self::made(r, shader, vao, vbo, DEFAULT_VERTEX_CAPACITY),
    {
        Self::with_capacity(shader, vao, vbo, DEFAULT_VERTEX_CAPACITY)
    }

    /// `r` is what `with_capacity(shader, vao, vbo, capacity)` returns.
    pub open spec fn made(
        r: Result<Renderer<T>, (RenderError, Vec<GpuObject>)>,
        shader: Shader,
        vao: u32,
        vbo: u32,
        capacity: usize,
    ) -> bool {
        match r {
            Ok(rd) => {
                &&& QUAD_VERTICES <= capacity <= MAX_VERTEX_CAPACITY
                &&& vao != 0 && vbo != 0
                &&& rd.wf()
                &&& rd.staged().len() == 0
                &&& rd.pending().len() == 0
                &&& rd.phase_of() == Phase::Ready
                &&& rd.cap() == capacity
                &&& rd.program() == shader.id
                &&& rd.vertex_array() == vao
                &&& rd.vertex_buffer() == vbo
            },
            Err((e, release)) => {
                &&& e == if !(QUAD_VERTICES <= capacity <= MAX_VERTEX_CAPACITY) {
                    RenderError::InvalidCapacity
                } else {
                    RenderError::ResourceAllocation
                }
                &&& (QUAD_VERTICES <= capacity <= MAX_VERTEX_CAPACITY ==> vao == 0 || vbo == 0)
                &&& release@ == seq![
                    GpuObject::Program(shader.id),
                    GpuObject::VertexArray(vao),
                    GpuObject::Buffer(vbo),
                ]
            },
        }
    }

    /// A renderer over a linked program and a vertex array and buffer
    /// sized for `capacity` vertices. On failure every object handed in is
    /// given back for release.
    pub fn with_capacity(shader: Shader, vao: u32, vbo: u32, capacity: usize) -> (r: Result<
        Renderer<T>,
        (RenderError, Vec<GpuObject>),
    >)
        ensures
            Self::made(r, shader, vao, vbo, capacity),
    {
        let error = if capacity < QUAD_VERTICES || capacity > MAX_VERTEX_CAPACITY {
            RenderError::InvalidCapacity
        } else if vao == 0 || vbo == 0 {
            RenderError::ResourceAllocation
        } else {
            return Ok(
                Renderer {
                    vao,
                    vbo,
                    buffer: Vec::new(),
                    buff_idx: 0,
                    capacity,
                    shader,
                    phase: Phase::Ready,
                    commands: Vec::new(),
                },
            );
        };
        let mut release = Vec::new();
        release.push(GpuObject::Program(shader.id));
        release.push(GpuObject::VertexArray(vao));
        release.push(GpuObject::Buffer(vbo));
        proof {
            assert(release@ =~= seq![
                GpuObject::Program(shader.id),
                GpuObject::VertexArray(vao),
                GpuObject::Buffer(vbo),
            ]);
        }
        Err((error, release))
    }

    /// Queues a clear of the color buffer to `color`; allowed before
    /// `begin` and inside a frame, refused once destroyed.
    pub fn clear(&mut self, color: Vec4<T>) -> (r: Result<(), RenderError>)
        requires
            old(self).wf(),
        ensures
            final(self).wf(),
            Self::cleared(*old(self), *final(self), color, r),
    {
        if self.phase == Phase::Destroyed {
            return Err(RenderError::PreconditionViolation);
        }
        self.commands.push(Command::Clear(color));
        Ok(())
    }

    /// Starts a frame: binds the program and empties the staging list.
    pub fn begin(&mut self) -> (r: Result<(), RenderError>)
        requires
            old(self).wf(),
        ensures
            final(self).wf(),
            final(self).cap() == old(self).cap(),
            final(self).program() == old(self).program(),
            old(self).phase_of() != Phase::Ready ==> r == Err::<(), RenderError>(
                RenderError::PreconditionViolation,
            ) && *final(self) == *old(self),
            old(self).phase_of() == Phase::Ready ==> {
                &&& r is Ok
                &&& final(self).phase_of() == Phase::Recording
                &&& final(self).staged().len() == 0
                &&& final(self).pending() == old(self).pending().push(
                    Command::UseProgram(old(self).program()),
                )
            },
    {
        if self.phase != Phase::Ready {
            return Err(RenderError::PreconditionViolation);
        }
        self.restart();
        self.phase = Phase::Recording;
        Ok(())
    }

    fn restart(&mut self)
        requires
            old(self).wf(),
        ensures
            final(self).wf(),
            final(self).staged().len() == 0,
            final(self).pending() == old(self).pending().push(
                Command::UseProgram(old(self).program()),
            ),
            final(self).phase == old(self).phase,
            final(self).capacity == old(self).capacity,
            final(self).shader == old(self).shader,
            final(self).vao == old(self).vao,
            final(self).vbo == old(self).vbo,
    {
        let bind = self.shader.bind();
        self.commands.push(bind);
        self.buff_idx = 0;
        self.buffer.clear();
    }

    fn flush(&mut self)
        requires
            old(self).wf(),
        ensures
            final(self).wf(),
            final(self).buffer == old(self).buffer,
            final(self).buff_idx == old(self).buff_idx,
            final(self).phase == old(self).phase,
            final(self).capacity == old(self).capacity,
            final(self).shader == old(self).shader,
            final(self).vao == old(self).vao,
            final(self).vbo == old(self).vbo,
            final(self).pending().len() == old(self).pending().len() + 2,
            final(self).pending().subrange(0, old(self).pending().len() as int)
                == old(self).pending(),
            flushes(final(self).pending(), old(self).pending().len() as int, old(self).staged()),
    {
        let data = flatten_vertices(&self.buffer);
        self.commands.push(Command::Upload(data));
        self.commands.push(Command::Draw(self.buff_idx));
        proof {
            assert(self.commands@.subrange(0, old(self).commands@.len() as int)
                =~= old(self).commands@);
        }
    }

    /// Ends a frame: uploads the staged vertices to the start of the vertex
    /// buffer and draws them, all in one call. The staging list stays as it
    /// is until the next `begin`.
    pub fn end(&mut self) -> (r: Result<(), RenderError>)
        requires
            old(self).wf(),
        ensures
            final(self).wf(),
            Self::ended(*old(self), *final(self), r),
    {
        if self.phase != Phase::Recording {
            return Err(RenderError::PreconditionViolation);
        }
        self.flush();
        self.phase = Phase::Ready;
        Ok(())
    }

    /// Appends one vertex to the current batch; a full batch refuses it.
    pub fn push_vertex(&mut self, v: Vertex<T>) -> (r: Result<(), RenderError>)
        requires
            old(self).wf(),
        ensures
            final(self).wf(),
            final(self).pending() == old(self).pending(),
            final(self).phase_of() == old(self).phase_of(),
            final(self).cap() == old(self).cap(),
            final(self).program() == old(self).program(),
            old(self).phase_of() != Phase::Recording ==> r == Err::<(), RenderError>(
                RenderError::PreconditionViolation,
            ) && final(self).staged() == old(self).staged(),
            old(self).phase_of() == Phase::Recording && old(self).staged().len() >= old(self).cap()
                ==> r == Err::<(), RenderError>(RenderError::BatchFull) && final(self).staged()
                == old(self).staged(),
            old(self).phase_of() == Phase::Recording && old(self).staged().len() < old(self).cap()
                ==> r is Ok && final(self).staged() == old(self).staged().push(v),
    {
        if self.phase != Phase::Recording {
            return Err(RenderError::PreconditionViolation);
        }
        if self.buff_idx >= self.capacity {
            return Err(RenderError::BatchFull);
        }
        self.buffer.push(v);
        self.buff_idx += 1;
        Ok(())
    }

    /// Appends the six vertices of the quad from corner `pos` to the
    /// opposite corner `far` in color `color`. Where they would not fit the
    /// current batch, that batch is first flushed and a new one begun, so a
    /// frame of any size becomes several draw calls and loses no vertex.
    pub fn push_quad(&mut self, pos: Vec3<T>, far: Vec2<T>, color: Vec4<T>) -> (r: Result<(), RenderError>)
        requires
            old(self).wf(),
        ensures
            final(self).wf(),
            final(self).phase_of() == old(self).phase_of(),
            final(self).cap() == old(self).cap(),
            final(self).program() == old(self).program(),
            old(self).phase_of() != Phase::Recording ==> r == Err::<(), RenderError>(
                RenderError::PreconditionViolation,
            ) && *final(self) == *old(self),
            old(self).phase_of() == Phase::Recording && !overflows(old(self).cap(), old(self).staged().len())
                ==> {
                &&& r is Ok
                &&& final(self).pending() == old(self).pending()
                &&& final(self).staged() == old(self).staged() + quad_vertices(pos, far, color)
            },
            old(self).phase_of() == Phase::Recording && overflows(old(self).cap(), old(self).staged().len())
                ==> {
                let n = old(self).pending().len() as int;
                &&& r is Ok
                &&& final(self).pending().len() == n + 3
                &&& final(self).pending().subrange(0, n) == old(self).pending()
                &&& flushes(final(self).pending(), n, old(self).staged())
                &&& final(self).pending()[n + 2] == Command::<T>::UseProgram(old(self).program())
                &&& final(self).staged() == quad_vertices(pos, far, color)
            },
    {
        if self.phase != Phase::Recording {
            return Err(RenderError::PreconditionViolation);
        }
        if self.buff_idx > self.capacity - QUAD_VERTICES {
            self.flush();
            let ghost mid = self.commands@;
            self.restart();
            proof {
                let n = old(self).commands@.len() as int;
                assert(mid.subrange(0, n) == old(self).commands@);
                assert(self.commands@.subrange(0, n) =~= mid.subrange(0, n));
                assert(self.commands@[n] == mid[n]);
                assert(self.commands@[n + 1] == mid[n + 1]);
            }
        }
        let ghost before = self.buffer@;
        let origin = Vertex { pos, color };
        let right = Vertex { pos: Vec3 { x: far.x, y: pos.y, z: pos.z }, color };
        let opposite = Vertex { pos: Vec3 { x: far.x, y: far.y, z: pos.z }, color };
        let top = Vertex { pos: Vec3 { x: pos.x, y: far.y, z: pos.z }, color };
        self.buffer.push(origin);
        self.buffer.push(right);
        self.buffer.push(opposite);
        self.buffer.push(opposite);
        self.buffer.push(top);
        self.buffer.push(origin);
        self.buff_idx += QUAD_VERTICES;
        proof {
            assert(self.buffer@ =~= before + quad_vertices(pos, far, color));
        }
        Ok(())
    }

    /// Releases the program, the vertex array and the vertex buffer, once.
    /// Refused inside a frame and after an earlier `delete`.
    pub fn delete(&mut self) -> (r: Result<(), RenderError>)
        requires
            old(self).wf(),
        ensures
            final(self).wf(),
            Self::deleted(*old(self), *final(self), r),
    {
        if self.phase != Phase::Ready {
            return Err(RenderError::PreconditionViolation);
        }
        let ghost before = self.commands@;
        self.commands.push(Command::Release(GpuObject::Program(self.shader.id)));
        self.commands.push(Command::Release(GpuObject::VertexArray(self.vao)));
        self.commands.push(Command::Release(GpuObject::Buffer(self.vbo)));
        self.phase = Phase::Destroyed;
        proof {
            assert(self.commands@ =~= before + seq![
                Command::Release(GpuObject::Program(self.shader.id)),
                Command::Release(GpuObject::VertexArray(self.vao)),
                Command::Release(GpuObject::Buffer(self.vbo)),
            ]);
        }
        Ok(())
    }

    /// Hands over the commands issued since the last call, in order.
    pub fn take_commands(&mut self) -> (r: Vec<Command<T>>)
        requires
            old(self).wf(),
        ensures
            final(self).wf(),
            r@ == old(self).pending(),
            final(self).pending().len() == 0,
            final(self).staged() == old(self).staged(),
            final(self).phase_of() == old(self).phase_of(),
            final(self).cap() == old(self).cap(),
            final(self).program() == old(self).program(),
    {
        let mut taken = Vec::new();
        std::mem::swap(&mut taken, &mut self.commands);
        taken
    }
    /// The vertices queued for the current batch.
    pub fn staging(&self) -> (r: &Vec<Vertex<T>>)
        ensures
            r@ == self.staged(),
    {
        &self.buffer
    }

    /// How many vertices the current batch holds.
    pub fn vertex_count(&self) -> (r: usize)
        requires
            self.wf(),
        ensures
            r == self.staged().len(),
    {
        self.buff_idx
    }

    /// How many vertices one batch can hold.
    pub fn capacity(&self) -> (r: usize)
        ensures
            r == self.cap(),
    {
        self.capacity
    }

    /// The vertex array that draws read through.
    pub fn vertex_array_id(&self) -> (r: u32)
        ensures
            r == self.vertex_array(),
    {
        self.vao
    }

    /// The vertex buffer that uploads write to.
    pub fn vertex_buffer_id(&self) -> (r: u32)
        ensures
            r == self.vertex_buffer(),
    {
        self.vbo
    }

    pub fn phase(&self) -> (r: Phase)
        ensures
            r == self.phase_of(),
    {
        self.phase
    }
}

/// Ending a frame in which nothing was pushed uploads no data and draws
/// zero vertices.
pub proof fn lemma_empty_frame_draws_nothing<T>(cmds: Seq<Command<T>>, at: int)
    requires
        flushes(cmds, at, Seq::<Vertex<T>>::empty()),
    ensures
        cmds[at]->Upload_0@.len() == 0,
        cmds[at + 1] == Command::<T>::Draw(0),
{
}


/// Clearing and then ending a frame in which nothing was pushed both
/// succeed, and issue the clear, an upload of no data and a draw of zero
/// vertices.
pub proof fn lemma_clear_then_end_draws_nothing<T: Copy>(
    start: Renderer<T>,
    cleared: Renderer<T>,
    ended: Renderer<T>,
    color: Vec4<T>,
    r1: Result<(), RenderError>,
    r2: Result<(), RenderError>,
)
    requires
        start.wf(),
        start.phase_of() == Phase::Recording,
        start.staged().len() == 0,
        Renderer::cleared(start, cleared, color, r1),
        Renderer::ended(cleared, ended, r2),
    ensures
        r1 is Ok,
        r2 is Ok,
        ended.phase_of() == Phase::Ready,
        ended.pending().len() == start.pending().len() + 3,
        ended.pending().subrange(0, start.pending().len() as int) == start.pending(),
        ended.pending()[start.pending().len() as int] == Command::Clear(color),
        ended.pending()[start.pending().len() + 1 as int] is Upload,
        ended.pending()[start.pending().len() + 1 as int]->Upload_0@.len() == 0,
        ended.pending()[start.pending().len() + 2 as int] == Command::<T>::Draw(0),
{
    let n = start.pending().len() as int;
    let mid = cleared.pending();
    assert(ended.pending().subrange(0, n + 1) =~= mid);
    assert(ended.pending()[n] == mid[n]);
    assert(mid.subrange(0, n) =~= start.pending());
    assert(ended.pending().subrange(0, n) =~= mid.subrange(0, n));
    lemma_empty_frame_draws_nothing(ended.pending(), n + 1);
}

/// Deleting a renderer twice releases its program, vertex array and vertex
/// buffer once each: the first call issues the three releases, the second
/// is refused and issues nothing.
pub proof fn lemma_delete_releases_once<T: Copy>(
    start: Renderer<T>,
    once: Renderer<T>,
    twice: Renderer<T>,
    r1: Result<(), RenderError>,
    r2: Result<(), RenderError>,
)
    requires
        start.wf(),
        start.phase_of() == Phase::Ready,
        Renderer::deleted(start, once, r1),
        Renderer::deleted(once, twice, r2),
    ensures
        r1 is Ok,
        r2 == Err::<(), RenderError>(RenderError::PreconditionViolation),
        twice.phase_of() == Phase::Destroyed,
        twice.pending() == start.pending() + seq![
            Command::Release(GpuObject::Program(start.program())),
            Command::Release(GpuObject::VertexArray(start.vertex_array())),
            Command::Release(GpuObject::Buffer(start.vertex_buffer())),
        ],
{
}

} // verus!
