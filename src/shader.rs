use vstd::prelude::*;
use crate::gpu::{Command, GpuObject};

verus! {

/// The built-in vertex stage: reads `pos` (three scalars) and `color`
/// (four scalars), places the vertex at `pos` with w = 1 and passes the
/// color on.
pub const VERTEX_SOURCE: &'static str = "#version 100
attribute vec3 pos;
attribute vec4 color;

varying vec4 o_color;

void main() {
    o_color = color;
    gl_Position = vec4(pos, 1.0);
}
";

/// The built-in fragment stage: writes the interpolated color unchanged.
pub const FRAGMENT_SOURCE: &'static str = "#version 100
precision mediump float;

varying vec4 o_color;

void main() {
    gl_FragColor = o_color;
}
";

/// A shader stage.
#[derive(Clone, Copy, Debug, PartialEq, Eq, Structural)]
pub enum Stage {
    Vertex,
    Fragment,
}

/// Why a program could not be built, with the backend's diagnostic text.
#[derive(Clone, Debug, PartialEq)]
pub enum ShaderError {
    Compile { stage: Stage, diagnostic: String },
    Link { diagnostic: String },
}

/// A linked GPU program.
#[derive(Clone, Copy, Debug, PartialEq, Eq, Structural)]
pub struct Shader {
    pub id: u32,
}

impl Shader {
    /// Starts building a program from a vertex and a fragment source: the
    /// first step is to compile the vertex source.
    pub fn from_src(v_src: &str, f_src: &str) -> (r: (ProgramBuild, BuildAction))
        ensures
            r.0 is CompilingVertex,
            r.0->fragment_source@ == f_src@,
            r.1 is Compile,
            r.1->stage == Stage::Vertex,
            r.1->source@ == v_src@,
    {
        (
            ProgramBuild::CompilingVertex { fragment_source: f_src.to_owned() },
            BuildAction::Compile { stage: Stage::Vertex, source: v_src.to_owned() },
        )
    }

    /// The command that makes this program active for later draws.
    pub fn bind<T>(&self) -> (r: Command<T>)
        ensures
            r == Command::<T>::UseProgram(self.id),
    {
        Command::UseProgram(self.id)
    }

    /// Gives the program up for release; taking `self` by value lets it be
    /// released only once.
    pub fn delete(self) -> (r: GpuObject)
        ensures
            r == GpuObject::Program(self.id),
    {
        GpuObject::Program(self.id)
    }
}

/// How far building a program from a vertex and a fragment source has come.
#[derive(Debug, PartialEq)]
pub enum ProgramBuild {
    /// The vertex source is being compiled; the fragment source waits.
    CompilingVertex { fragment_source: String },
    /// The vertex stage compiled; the fragment source is being compiled.
    CompilingFragment { vertex: u32 },
    /// Both stages compiled; they are being linked.
    Linking { vertex: u32, fragment: u32 },
    /// A program came out, or an error did.
    Finished,
}

/// What the backend is to do next for a program build.
#[derive(Debug, PartialEq)]
pub enum BuildAction {
    /// Compile `source` as this stage and report with `compiled`.
    Compile { stage: Stage, source: String },
    /// Link these two stages into a program and report with `linked`.
    Link { vertex: u32, fragment: u32 },
    /// Release these objects; the build is over with this outcome.
    Finish { release: Vec<GpuObject>, outcome: Result<Shader, ShaderError> },
}

/// `a` ends the build: it releases exactly `release` and yields `outcome`.
pub open spec fn finishes(
    a: BuildAction,
    release: Seq<GpuObject>,
    outcome: Result<Shader, ShaderError>,
) -> bool {
    match a {
        BuildAction::Finish { release: rel, outcome: out } => rel@ == release && out == outcome,
        _ => false,
    }
}

fn stage_pair(first: u32, second: u32) -> (r: Vec<GpuObject>)
    ensures
        r@ == seq![GpuObject::ShaderStage(first), GpuObject::ShaderStage(second)],
{
    let mut r = Vec::new();
    r.push(GpuObject::ShaderStage(first));
    r.push(GpuObject::ShaderStage(second));
    proof {
        assert(r@ =~= seq![GpuObject::ShaderStage(first), GpuObject::ShaderStage(second)]);
    }
    r
}

impl ProgramBuild {
    pub open spec fn is_compiling(&self) -> bool {
        self is CompilingVertex || self is CompilingFragment
    }

    pub fn compiling(&self) -> (r: bool)
        ensures
            r == self.is_compiling(),
    {
        match self {
            ProgramBuild::CompilingVertex { .. } => true,
            ProgramBuild::CompilingFragment { .. } => true,
            _ => false,
        }
    }

    pub fn linking(&self) -> (r: bool)
        ensures
            r == self is Linking,
    {
        match self {
            ProgramBuild::Linking { .. } => true,
            _ => false,
        }
    }

    /// The backend compiled the current stage into `object`; `ok` says
    /// whether compilation succeeded and `log` holds its diagnostic.
    /// A failed stage ends the build before any link, releasing every stage
    /// object made so far.
    pub fn compiled(&mut self, object: u32, ok: bool, log: String) -> (r: BuildAction)
        requires
            old(self).is_compiling(),
        ensures
            match *old(self) {
                ProgramBuild::CompilingVertex { fragment_source } => if ok {
                    &&& *final(self) == (ProgramBuild::CompilingFragment { vertex: object })
                    &&& r is Compile
                    &&& r->stage == Stage::Fragment
                    &&& r->source == fragment_source
                } else {
                    *final(self) == ProgramBuild::Finished && finishes(
                        r,
                        seq![GpuObject::ShaderStage(object)],
                        Err(ShaderError::Compile { stage: Stage::Vertex, diagnostic: log }),
                    )
                },
                ProgramBuild::CompilingFragment { vertex } => if ok {
                    *final(self) == (ProgramBuild::Linking { vertex, fragment: object })
                        && r == (BuildAction::Link { vertex, fragment: object })
                } else {
                    *final(self) == ProgramBuild::Finished && finishes(
                        r,
                        seq![GpuObject::ShaderStage(vertex), GpuObject::ShaderStage(object)],
                        Err(ShaderError::Compile { stage: Stage::Fragment, diagnostic: log }),
                    )
                },
                _ => false,
            },
    {
        let mut prev = ProgramBuild::Finished;
        std::mem::swap(&mut prev, self);
        match prev {
            ProgramBuild::CompilingVertex { fragment_source } => {
                if ok {
                    *self = ProgramBuild::CompilingFragment { vertex: object };
                    BuildAction::Compile { stage: Stage::Fragment, source: fragment_source }
                } else {
                    let mut release = Vec::new();
                    release.push(GpuObject::ShaderStage(object));
                    proof {
                        assert(release@ =~= seq![GpuObject::ShaderStage(object)]);
                    }
                    BuildAction::Finish {
                        release,
                        outcome: Err(ShaderError::Compile { stage: Stage::Vertex, diagnostic: log }),
                    }
                }
            },
            ProgramBuild::CompilingFragment { vertex } => {
                if ok {
                    *self = ProgramBuild::Linking { vertex, fragment: object };
                    BuildAction::Link { vertex, fragment: object }
                } else {
                    BuildAction::Finish {
                        release: stage_pair(vertex, object),
                        outcome: Err(
                            ShaderError::Compile { stage: Stage::Fragment, diagnostic: log },
                        ),
                    }
                }
            },
            _ => BuildAction::Link { vertex: 0, fragment: 0 },
        }
    }

    /// The backend linked the two stages into `program`; `ok` says whether
    /// linking succeeded and `log` holds its diagnostic. Both stage objects
    /// are released either way, and a program that failed to link as well.
    pub fn linked(&mut self, program: u32, ok: bool, log: String) -> (r: BuildAction)
        requires
            *old(self) is Linking,
        ensures
            *final(self) == ProgramBuild::Finished,
            match *old(self) {
                ProgramBuild::Linking { vertex, fragment } => if ok {
                    finishes(
                        r,
                        seq![GpuObject::ShaderStage(vertex), GpuObject::ShaderStage(fragment)],
                        Ok(Shader { id: program }),
                    )
                } else {
                    finishes(
                        r,
                        seq![
                            GpuObject::ShaderStage(vertex),
                            GpuObject::ShaderStage(fragment),
                            GpuObject::Program(program),
                        ],
                        Err(ShaderError::Link { diagnostic: log }),
                    )
                },
                _ => false,
            },
    {
        let (vertex, fragment) = match *self {
            ProgramBuild::Linking { vertex, fragment } => (vertex, fragment),
            _ => (0, 0),
        };
        *self = ProgramBuild::Finished;
        let mut release = stage_pair(vertex, fragment);
        if ok {
            BuildAction::Finish { release, outcome: Ok(Shader { id: program }) }
        } else {
            release.push(GpuObject::Program(program));
            proof {
                assert(release@ =~= seq![
                    GpuObject::ShaderStage(vertex),
                    GpuObject::ShaderStage(fragment),
                    GpuObject::Program(program),
                ]);
            }
            BuildAction::Finish { release, outcome: Err(ShaderError::Link { diagnostic: log }) }
        }
    }
}

/// A vertex source that fails to compile ends the build at once: the
/// outcome is a compile error that names the vertex stage, only that
/// stage's object is released, and no link is ever asked for.
pub proof fn lemma_bad_vertex_source_never_links(
    before: ProgramBuild,
    after: ProgramBuild,
    object: u32,
    log: String,
    r: BuildAction,
)
    requires
        before is CompilingVertex,
        match before {
            ProgramBuild::CompilingVertex { fragment_source } => after == ProgramBuild::Finished
                && finishes(
                r,
                seq![GpuObject::ShaderStage(object)],
                Err(ShaderError::Compile { stage: Stage::Vertex, diagnostic: log }),
            ),
            _ => false,
        },
    ensures
        !(r is Link),
        r is Finish,
        r->outcome is Err,
        r->outcome->Err_0 is Compile,
        r->outcome->Err_0->stage == Stage::Vertex,
        !after.is_compiling(),
        !(after is Linking),
{
}

} // verus!
