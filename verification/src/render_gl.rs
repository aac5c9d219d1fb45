//! The shader and program lifecycle: compiling source into shader
//! objects, linking shader objects into programs, and releasing the
//! driver handles exactly once.
//!
//! A [`Shader`] or [`Program`] owns its driver handle: construction
//! either succeeds with a nonzero handle or fails before any object
//! exists, and [`Shader::destroy`] / [`Program::destroy`] consume the
//! owner, so a handle cannot be released twice.

use vstd::prelude::*;

verus! {

use vstd::string::*;
use crate::gles::{
    compile_failure_log, live_programs, live_shaders, source_accepted, GlCall, Gles, GlesModel,
    ProgramModel, ShaderKind, ShaderModel, Status,
};
use crate::resources::{has_nil, lookup, Error as ResourcesError, Resources};
use crate::text::{ends_with, str_ends_with};

/// Everything that can go wrong between naming a resource and holding a
/// linked program.
#[derive(Debug)]
pub enum Error {
    /// The resource store could not provide the named source.
    ResourceLoad { name: String, inner: ResourcesError },
    /// The resource name carries neither a vertex nor a fragment
    /// shader extension.
    CanNotDetermineShaderTypeForResource { name: String },
    /// The driver refused the source; `message` is its info log.
    CompileError { name: String, message: String },
    /// The driver refused to link; `message` is its info log.
    LinkError { name: String, message: String },
    /// The driver returned the zero sentinel for a new object: out of
    /// handles.
    AllocationError,
    /// A named attribute or uniform is not present in the linked
    /// program.
    UnresolvedBinding { name: String },
}

/// The driver has room for one more shader object.
pub open spec fn shader_can_alloc(m: GlesModel) -> bool {
    live_shaders(m.shaders) < m.capacity && m.shaders.len() < u32::MAX
}

/// The driver has room for one more program object.
pub open spec fn program_can_alloc(m: GlesModel) -> bool {
    live_programs(m.programs) < m.capacity && m.programs.len() < u32::MAX
}

/// One compiled shader stage.  The object exclusively owns the driver
/// handle `id`; no `Shader` with handle 0 ever exists.
#[derive(Debug)]
pub struct Shader {
    id: u32,
    kind: ShaderKind,
}

impl Shader {
    /// The owned driver handle.
    pub closed spec fn spec_id(&self) -> u32 {
        self.id
    }

    /// The stage this shader was compiled for.
    pub closed spec fn spec_kind(&self) -> ShaderKind {
        self.kind
    }

    /// The shader object this owner stands for is alive and compiled in
    /// the table state `m`.
    pub open spec fn valid(&self, m: GlesModel) -> bool {
        &&& m.shader_live(self.spec_id())
        &&& m.shader(self.spec_id()).status is Succeeded
        &&& m.shader(self.spec_id()).kind == self.spec_kind()
    }

    /// The owned driver handle; never 0.
    pub fn id(&self) -> (r: u32)
        ensures
            r == self.spec_id(),
    {
        self.id
    }

    /// The stage this shader was compiled for.
    pub fn kind(&self) -> (r: ShaderKind)
        ensures
            r == self.spec_kind(),
    {
        self.kind
    }

    /// Releases the owned handle.  Taking the shader by value makes a
    /// second release impossible.
    pub fn destroy(self, gl: &mut Gles)
        requires
            old(gl).wf(),
            old(gl)@.shader_live(self.spec_id()),
        ensures
            final(gl).wf(),
            final(gl)@ == (GlesModel {
                shaders: old(gl)@.shaders.update(
                    self.spec_id() - 1,
                    (ShaderModel { alive: false, ..old(gl)@.shader(self.spec_id()) }),
                ),
                calls: old(gl)@.calls.push(GlCall::DeleteShader { shader: self.spec_id() }),
                ..old(gl)@
            }),
            live_shaders(final(gl)@.shaders) + 1 == live_shaders(old(gl)@.shaders),
    {
        gl.delete_shader(self.id);
    }
}

/// What compiling `source` for stage `kind` against table state `m0`
/// leaves behind: the result handed back and the table state `m1`.
///
/// When the driver has room and accepts the source, a `Shader` with the
/// next fresh handle exists and the trace gained the create, source and
/// compile calls.  When the driver is out of handles, only a failed
/// create call is recorded.  When the driver refuses the source, the
/// half-built shader object is deleted again, so no live object and no
/// owner outlives the failure, and the error carries the driver's
/// non-empty info log.
pub open spec fn compile_result(
    m0: GlesModel,
    source: Seq<u8>,
    kind: ShaderKind,
    r: Result<Shader, String>,
    m1: GlesModel,
) -> bool {
    let h = (m0.shaders.len() + 1) as u32;
    &&& ((r is Ok) <==> (shader_can_alloc(m0) && source_accepted(source)))
    &&& (r matches Ok(sh) ==> {
        &&& sh.spec_id() == h
        &&& sh.spec_id() != 0
        &&& sh.spec_kind() == kind
        &&& sh.valid(m1)
        &&& m1 == (GlesModel {
            shaders: m0.shaders.push(
                ShaderModel {
                    alive: true,
                    kind,
                    source,
                    status: Status::Succeeded,
                    log: Seq::empty(),
                },
            ),
            calls: m0.calls + seq![
                GlCall::CreateShader { handle: h },
                GlCall::ShaderSource { shader: h },
                GlCall::CompileShader { shader: h },
            ],
            ..m0
        })
    })
    &&& (!shader_can_alloc(m0) ==> (r matches Err(msg) && msg@
        == "cannot create a shader object (CreateShader)"@ && m1 == (GlesModel {
        calls: m0.calls.push(GlCall::CreateShader { handle: 0 }),
        ..m0
    })))
    &&& (shader_can_alloc(m0) && !source_accepted(source) ==> (r matches Err(msg) && {
        &&& msg@ == compile_failure_log(source)
        &&& msg@.len() > 0
        &&& m1 == (GlesModel {
            shaders: m0.shaders.push(
                ShaderModel {
                    alive: false,
                    kind,
                    source,
                    status: Status::Failed,
                    log: compile_failure_log(source),
                },
            ),
            calls: m0.calls + seq![
                GlCall::CreateShader { handle: h },
                GlCall::ShaderSource { shader: h },
                GlCall::CompileShader { shader: h },
                GlCall::DeleteShader { shader: h },
            ],
            ..m0
        })
        &&& live_shaders(m1.shaders) == live_shaders(m0.shaders)
    }))
}

impl Shader {
    /// Allocates a shader object, uploads `source` and compiles it,
    /// following the driver's query protocol: compile status first, then
    /// info-log length, then the log into a buffer of length + 1.
    fn from_source(gl: &mut Gles, source: &Vec<u8>, kind: ShaderKind) -> (r: Result<
        Shader,
        String,
    >)
        requires
            old(gl).wf(),
        ensures
            final(gl).wf(),
            compile_result(old(gl)@, source@, kind, r, final(gl)@),
    {
        let ghost m0 = old(gl)@;
        let h = gl.create_shader(kind);
        if h == 0 {
            return Err(String::from_str("cannot create a shader object (CreateShader)"));
        }
        gl.shader_source(h, source);
        proof {
            assert(gl@.shaders =~= m0.shaders.push(
                ShaderModel {
                    alive: true,
                    kind,
                    source: source@,
                    status: Status::Pending,
                    log: Seq::empty(),
                },
            ));
        }
        gl.compile_shader(h);
        let ghost compiled = ShaderModel {
            alive: true,
            kind,
            source: source@,
            status: if source_accepted(source@) {
                Status::Succeeded
            } else {
                Status::Failed
            },
            log: if source_accepted(source@) {
                Seq::empty()
            } else {
                compile_failure_log(source@)
            },
        };
        proof {
            assert(gl@.shaders =~= m0.shaders.push(compiled));
            assert(gl@.calls =~= m0.calls + seq![
                GlCall::CreateShader { handle: h },
                GlCall::ShaderSource { shader: h },
                GlCall::CompileShader { shader: h },
            ]);
        }
        if gl.get_shader_compile_status(h) {
            proof {
                assert(gl@ =~= (GlesModel {
                    shaders: m0.shaders.push(compiled),
                    calls: m0.calls + seq![
                        GlCall::CreateShader { handle: h },
                        GlCall::ShaderSource { shader: h },
                        GlCall::CompileShader { shader: h },
                    ],
                    ..m0
                }));
            }
            Ok(Shader { id: h, kind })
        } else {
            let len = gl.get_shader_info_log_len(h);
            let log = gl.get_shader_info_log(h, len + 1);
            gl.delete_shader(h);
            proof {
                crate::gles::lemma_compile_failure_log_nonempty(source@);
                assert(gl@.shaders =~= m0.shaders.push(
                    (ShaderModel { alive: false, ..compiled }),
                ));
                assert(gl@.calls =~= m0.calls + seq![
                    GlCall::CreateShader { handle: h },
                    GlCall::ShaderSource { shader: h },
                    GlCall::CompileShader { shader: h },
                    GlCall::DeleteShader { shader: h },
                ]);
                assert(gl@ =~= (GlesModel {
                    shaders: m0.shaders.push((ShaderModel { alive: false, ..compiled })),
                    calls: m0.calls + seq![
                        GlCall::CreateShader { handle: h },
                        GlCall::ShaderSource { shader: h },
                        GlCall::CompileShader { shader: h },
                        GlCall::DeleteShader { shader: h },
                    ],
                    ..m0
                }));
                crate::gles::lemma_live_shaders_push(m0.shaders, compiled);
                crate::gles::lemma_live_shaders_push(
                    m0.shaders,
                    (ShaderModel { alive: false, ..compiled }),
                );
            }
            Err(log)
        }
    }

    /// Compiles `source` as a vertex shader.
    pub fn from_vert_source(gl: &mut Gles, source: &Vec<u8>) -> (r: Result<Shader, String>)
        requires
            old(gl).wf(),
        ensures
            final(gl).wf(),
            compile_result(old(gl)@, source@, ShaderKind::Vertex, r, final(gl)@),
    {
        Self::from_source(gl, source, ShaderKind::Vertex)
    }

    /// Compiles `source` as a fragment shader.
    pub fn from_frag_source(gl: &mut Gles, source: &Vec<u8>) -> (r: Result<Shader, String>)
        requires
            old(gl).wf(),
        ensures
            final(gl).wf(),
            compile_result(old(gl)@, source@, ShaderKind::Fragment, r, final(gl)@),
    {
        Self::from_source(gl, source, ShaderKind::Fragment)
    }
}

/// The stage a resource name selects through its extension.
pub open spec fn shader_kind_for(name: Seq<char>) -> Option<ShaderKind> {
    if ends_with(name, ".vert"@) {
        Some(ShaderKind::Vertex)
    } else if ends_with(name, ".frag"@) {
        Some(ShaderKind::Fragment)
    } else {
        None
    }
}

/// The table state after a successful compile of a fresh shader.
pub open spec fn table_after_compile_ok(
    m0: GlesModel,
    source: Seq<u8>,
    kind: ShaderKind,
) -> GlesModel {
    let h = (m0.shaders.len() + 1) as u32;
    GlesModel {
        shaders: m0.shaders.push(
            ShaderModel { alive: true, kind, source, status: Status::Succeeded, log: Seq::empty() },
        ),
        calls: m0.calls + seq![
            GlCall::CreateShader { handle: h },
            GlCall::ShaderSource { shader: h },
            GlCall::CompileShader { shader: h },
        ],
        ..m0
    }
}

/// The table state after a refused compile: the half-built shader object
/// was deleted again, only the dead entry and the calls remain.
pub open spec fn table_after_compile_failed(
    m0: GlesModel,
    source: Seq<u8>,
    kind: ShaderKind,
) -> GlesModel {
    let h = (m0.shaders.len() + 1) as u32;
    GlesModel {
        shaders: m0.shaders.push(
            ShaderModel {
                alive: false,
                kind,
                source,
                status: Status::Failed,
                log: compile_failure_log(source),
            },
        ),
        calls: m0.calls + seq![
            GlCall::CreateShader { handle: h },
            GlCall::ShaderSource { shader: h },
            GlCall::CompileShader { shader: h },
            GlCall::DeleteShader { shader: h },
        ],
        ..m0
    }
}

impl Shader {
    /// Builds a shader from a named resource: the extension picks the
    /// stage, the store provides the source, and the driver compiles it.
    /// Each failure is reported as its own error, the table untouched up
    /// to the point the failure was detected.
    pub fn from_res(gl: &mut Gles, res: &Resources, name: &str) -> (r: Result<Shader, Error>)
        requires
            old(gl).wf(),
        ensures
            final(gl).wf(),
            ({
                let m0 = old(gl)@;
                match shader_kind_for(name@) {
                    None => (r matches Err(e) && e matches
                        Error::CanNotDetermineShaderTypeForResource { name: n } && n@ == name@
                        && final(gl)@ == m0),
                    Some(kind) => match lookup(res@, name@) {
                        None => (r matches Err(e) && e matches Error::ResourceLoad {
                            name: n,
                            inner,
                        } && n@ == name@ && inner is NotFound && final(gl)@ == m0),
                        Some(bytes) => if has_nil(bytes) {
                            r matches Err(e) && e matches Error::ResourceLoad { name: n, inner }
                                && n@ == name@ && inner is FileContainsNil && final(gl)@ == m0
                        } else if !shader_can_alloc(m0) {
                            r matches Err(e) && e is AllocationError && final(gl)@ == (GlesModel {
                                calls: m0.calls.push(GlCall::CreateShader { handle: 0 }),
                                ..m0
                            })
                        } else if source_accepted(bytes) {
                            r matches Ok(sh) && sh.spec_id() == m0.shaders.len() + 1
                                && sh.spec_id() != 0 && sh.spec_kind() == kind && sh.valid(
                                final(gl)@,
                            ) && final(gl)@ == table_after_compile_ok(m0, bytes, kind)
                        } else {
                            r matches Err(e) && e matches Error::CompileError { name: n, message }
                                && n@ == name@ && message@ == compile_failure_log(bytes)
                                && message@.len() > 0 && final(gl)@ == table_after_compile_failed(
                                m0,
                                bytes,
                                kind,
                            ) && live_shaders(final(gl)@.shaders) == live_shaders(m0.shaders)
                        },
                    },
                }
            }),
    {
        let kind = if str_ends_with(name, ".vert") {
            ShaderKind::Vertex
        } else if str_ends_with(name, ".frag") {
            ShaderKind::Fragment
        } else {
            return Err(
                Error::CanNotDetermineShaderTypeForResource { name: String::from_str(name) },
            );
        };
        let source = match res.load_cstring(name) {
            Ok(bytes) => bytes,
            Err(e) => {
                return Err(Error::ResourceLoad { name: String::from_str(name), inner: e });
            },
        };
        let can_alloc = gl.live_shader_total() < gl.capacity() && gl.shader_count() < u32::MAX
            as usize;
        match Self::from_source(gl, &source, kind) {
            Ok(sh) => Ok(sh),
            Err(message) => {
                if can_alloc {
                    Err(Error::CompileError { name: String::from_str(name), message })
                } else {
                    Err(Error::AllocationError)
                }
            },
        }
    }
}

/// The handles of a sequence of shader owners, in order.
pub open spec fn shader_ids(shaders: Seq<Shader>) -> Seq<u32> {
    Seq::new(shaders.len(), |i: int| shaders[i].spec_id())
}

/// No two of the shaders belong to the same stage.
pub open spec fn kinds_distinct(shaders: Seq<Shader>) -> bool {
    forall|i: int, j: int|
        #![trigger shaders[i], shaders[j]]
        0 <= i < j < shaders.len() ==> shaders[i].spec_kind() != shaders[j].spec_kind()
}

/// No two of the shaders own the same handle.
pub open spec fn ids_distinct(shaders: Seq<Shader>) -> bool {
    forall|i: int, j: int|
        #![trigger shaders[i], shaders[j]]
        0 <= i < j < shaders.len() ==> shaders[i].spec_id() != shaders[j].spec_id()
}

/// The attach calls linking issues, one per shader in order.
pub open spec fn attach_calls(p: u32, ids: Seq<u32>) -> Seq<GlCall> {
    Seq::new(ids.len(), |i: int| GlCall::AttachShader { program: p, shader: ids[i] })
}

/// The detach calls issued after a successful link, one per shader in
/// order.
pub open spec fn detach_calls(p: u32, ids: Seq<u32>) -> Seq<GlCall> {
    Seq::new(ids.len(), |i: int| GlCall::DetachShader { program: p, shader: ids[i] })
}

/// One linked program.  The object exclusively owns the driver handle
/// `id`; no `Program` with handle 0 ever exists.
#[derive(Debug)]
pub struct Program {
    id: u32,
}

impl Program {
    /// The owned driver handle.
    pub closed spec fn spec_id(&self) -> u32 {
        self.id
    }

    /// The program object this owner stands for is alive and linked in
    /// the table state `m`.
    pub open spec fn valid(&self, m: GlesModel) -> bool {
        &&& m.program_live(self.spec_id())
        &&& m.program(self.spec_id()).status is Succeeded
    }

    /// The owned driver handle; never 0.
    pub fn id(&self) -> (r: u32)
        ensures
            r == self.spec_id(),
    {
        self.id
    }

    /// Binds this program as the active one for the draw calls that
    /// follow.
    pub fn set_used(&self, gl: &mut Gles)
        requires
            old(gl).wf(),
            self.valid(old(gl)@),
        ensures
            final(gl).wf(),
            final(gl)@ == (GlesModel {
                current_program: self.spec_id(),
                calls: old(gl)@.calls.push(GlCall::UseProgram { program: self.spec_id() }),
                ..old(gl)@
            }),
    {
        gl.use_program(self.id);
    }

    /// Releases the owned handle.  Taking the program by value makes a
    /// second release impossible.
    pub fn destroy(self, gl: &mut Gles)
        requires
            old(gl).wf(),
            old(gl)@.program_live(self.spec_id()),
        ensures
            final(gl).wf(),
            final(gl)@ == (GlesModel {
                programs: old(gl)@.programs.update(
                    self.spec_id() - 1,
                    (ProgramModel { alive: false, ..old(gl)@.program(self.spec_id()) }),
                ),
                current_program: if old(gl)@.current_program == self.spec_id() {
                    0u32
                } else {
                    old(gl)@.current_program
                },
                calls: old(gl)@.calls.push(GlCall::DeleteProgram { program: self.spec_id() }),
                ..old(gl)@
            }),
            live_programs(final(gl)@.programs) + 1 == live_programs(old(gl)@.programs),
    {
        gl.delete_program(self.id);
    }

    /// Links a program from a non-empty collection of compiled shaders:
    /// allocate, attach every shader in order, link, and on success
    /// detach them all again, leaving the shader objects independently
    /// owned and alive.  A failed link deletes the program object again,
    /// so no handle outlives the failure, and hands back the driver's
    /// info log.  Linking from zero shaders is a precondition violation,
    /// rejected before any driver call.
    pub fn from_shaders(gl: &mut Gles, shaders: &Vec<Shader>) -> (r: Result<Program, String>)
        requires
            old(gl).wf(),
            shaders@.len() >= 1,
            forall|i: int| 0 <= i < shaders@.len() ==> (#[trigger] shaders@[i]).valid(old(gl)@),
            ids_distinct(shaders@),
        ensures
            final(gl).wf(),
            ({
                let m0 = old(gl)@;
                let ids = shader_ids(shaders@);
                let p = (m0.programs.len() + 1) as u32;
                &&& ((r is Ok) <==> (program_can_alloc(m0) && kinds_distinct(shaders@)))
                &&& (!program_can_alloc(m0) ==> (r matches Err(msg) && msg@
                    == "Cannot create the opengl program (CreateProgram)"@ && final(gl)@
                    == (GlesModel {
                    calls: m0.calls.push(GlCall::CreateProgram { handle: 0 }),
                    ..m0
                })))
                &&& (r matches Ok(pr) ==> {
                    &&& pr.spec_id() == p
                    &&& pr.spec_id() != 0
                    &&& pr.valid(final(gl)@)
                    &&& final(gl)@ == (GlesModel {
                        programs: m0.programs.push(
                            ProgramModel {
                                alive: true,
                                attached: Seq::empty(),
                                status: Status::Succeeded,
                                log: Seq::empty(),
                                linked_source: crate::gles::sources_concat(m0.shaders, ids),
                            },
                        ),
                        calls: m0.calls + seq![GlCall::CreateProgram { handle: p }]
                            + attach_calls(p, ids) + seq![GlCall::LinkProgram { program: p }]
                            + detach_calls(p, ids),
                        ..m0
                    })
                })
                &&& (program_can_alloc(m0) && !kinds_distinct(shaders@) ==> (r matches Err(msg)
                    && {
                    &&& msg@ == "duplicate shader stage attached"@
                    &&& msg@.len() > 0
                    &&& final(gl)@ == (GlesModel {
                        programs: m0.programs.push(
                            ProgramModel {
                                alive: false,
                                attached: ids,
                                status: Status::Failed,
                                log: "duplicate shader stage attached"@,
                                linked_source: Seq::empty(),
                            },
                        ),
                        calls: m0.calls + seq![GlCall::CreateProgram { handle: p }]
                            + attach_calls(p, ids) + seq![
                            GlCall::LinkProgram { program: p },
                            GlCall::DeleteProgram { program: p },
                        ],
                        ..m0
                    })
                    &&& live_programs(final(gl)@.programs) == live_programs(m0.programs)
                }))
            }),
    {
        let ghost m0 = old(gl)@;
        let ghost ids = shader_ids(shaders@);
        proof {
            old(gl).lemma_wf_model();
        }
        let p = gl.create_program();
        if p == 0 {
            return Err(String::from_str("Cannot create the opengl program (CreateProgram)"));
        }
        proof {
            assert(m0.current_program != p);
            assert(ids.subrange(0, 0) =~= Seq::<u32>::empty());
            assert(attach_calls(p, ids.subrange(0, 0)) =~= Seq::<GlCall>::empty());
            assert(m0.calls + seq![GlCall::CreateProgram { handle: p }] + attach_calls(
                p,
                ids.subrange(0, 0),
            ) =~= m0.calls.push(GlCall::CreateProgram { handle: p }));
            assert(gl@ =~= (GlesModel {
                programs: m0.programs.push(
                    ProgramModel {
                        alive: true,
                        attached: ids.subrange(0, 0),
                        status: Status::Pending,
                        log: Seq::empty(),
                        linked_source: Seq::empty(),
                    },
                ),
                calls: m0.calls + seq![GlCall::CreateProgram { handle: p }] + attach_calls(
                    p,
                    ids.subrange(0, 0),
                ),
                ..m0
            }));
        }
        let n = shaders.len();
        let mut i: usize = 0;
        while i < n
            invariant
                gl.wf(),
                i <= n,
                n == shaders@.len(),
                n >= 1,
                ids == shader_ids(shaders@),
                forall|k: int| 0 <= k < shaders@.len() ==> (#[trigger] shaders@[k]).valid(m0),
                ids_distinct(shaders@),
                p == m0.programs.len() + 1,
                p >= 1,
                gl@ == (GlesModel {
                    programs: m0.programs.push(
                        ProgramModel {
                            alive: true,
                            attached: ids.subrange(0, i as int),
                            status: Status::Pending,
                            log: Seq::empty(),
                            linked_source: Seq::empty(),
                        },
                    ),
                    calls: m0.calls + seq![GlCall::CreateProgram { handle: p }] + attach_calls(
                        p,
                        ids.subrange(0, i as int),
                    ),
                    ..m0
                }),
            decreases n - i,
        {
            let ghost m_pre = gl@;
            let sid = shaders[i].id();
            proof {
                assert(ids[i as int] == sid);
                assert(gl@.program_live(p));
                assert(gl@.shaders == m0.shaders);
                assert(shaders@[i as int].valid(m0));
                assert(gl@.shader_live(sid));
                assert(!gl@.program(p).attached.contains(sid)) by {
                    if gl@.program(p).attached.contains(sid) {
                        let j = choose|j: int|
                            0 <= j < i && ids.subrange(0, i as int)[j] == sid;
                        assert(shaders@[j].spec_id() == shaders@[i as int].spec_id());
                    }
                }
            }
            gl.attach_shader(p, sid);
            proof {
                assert(ids.subrange(0, i + 1) =~= ids.subrange(0, i as int).push(sid));
                assert(attach_calls(p, ids.subrange(0, i + 1)) =~= attach_calls(
                    p,
                    ids.subrange(0, i as int),
                ).push(GlCall::AttachShader { program: p, shader: sid }));
                assert(gl@.programs =~= m0.programs.push(
                    ProgramModel {
                        alive: true,
                        attached: ids.subrange(0, i + 1),
                        status: Status::Pending,
                        log: Seq::empty(),
                        linked_source: Seq::empty(),
                    },
                ));
                assert(gl@.calls =~= m0.calls + seq![GlCall::CreateProgram { handle: p }]
                    + attach_calls(p, ids.subrange(0, i + 1)));
                assert(gl@ =~= (GlesModel {
                    programs: m0.programs.push(
                        ProgramModel {
                            alive: true,
                            attached: ids.subrange(0, i + 1),
                            status: Status::Pending,
                            log: Seq::empty(),
                            linked_source: Seq::empty(),
                        },
                    ),
                    calls: m0.calls + seq![GlCall::CreateProgram { handle: p }] + attach_calls(
                        p,
                        ids.subrange(0, i + 1),
                    ),
                    ..m0
                }));
            }
            i = i + 1;
        }
        proof {
            assert(ids.subrange(0, n as int) =~= ids);
        }
        let ghost m_linkpre = gl@;
        proof {
            assert(m_linkpre.program(p).attached == ids);
            assert forall|k: int| 0 <= k < ids.len() implies m_linkpre.shader_live(
                #[trigger] ids[k],
            ) && m_linkpre.shader(ids[k]).status is Succeeded by {
                assert(shaders@[k].valid(m0));
            }
            assert(m_linkpre.link_ok(p) == kinds_distinct(shaders@)) by {
                if kinds_distinct(shaders@) {
                    assert forall|a: int, b: int|
                        #![trigger ids[a], ids[b]]
                        0 <= a < b < ids.len() implies m_linkpre.shader(ids[a]).kind
                        != m_linkpre.shader(ids[b]).kind by {
                        assert(shaders@[a].valid(m0) && shaders@[b].valid(m0));
                    }
                }
                if m_linkpre.link_ok(p) {
                    assert forall|a: int, b: int|
                        #![trigger shaders@[a], shaders@[b]]
                        0 <= a < b < shaders@.len() implies shaders@[a].spec_kind()
                        != shaders@[b].spec_kind() by {
                        assert(shaders@[a].valid(m0) && shaders@[b].valid(m0));
                        assert(m_linkpre.shader(ids[a]).kind != m_linkpre.shader(ids[b]).kind);
                    }
                }
            }
        }
        gl.link_program(p);
        if !gl.get_program_link_status(p) {
            proof {
                assert(!kinds_distinct(shaders@));
                assert(m_linkpre.link_failure_log(p) == "duplicate shader stage attached"@);
                crate::gles::lemma_link_failure_log_nonempty(m_linkpre, p);
            }
            let len = gl.get_program_info_log_len(p);
            let log = gl.get_program_info_log(p, len + 1);
            gl.delete_program(p);
            proof {
                assert(m0.current_program != p);
                let ghost prog_dead = ProgramModel {
                    alive: false,
                    attached: ids,
                    status: Status::Failed,
                    log: "duplicate shader stage attached"@,
                    linked_source: Seq::empty(),
                };
                assert(gl@.programs =~= m0.programs.push(prog_dead));
                assert(gl@.calls =~= m0.calls + seq![GlCall::CreateProgram { handle: p }]
                    + attach_calls(p, ids) + seq![
                    GlCall::LinkProgram { program: p },
                    GlCall::DeleteProgram { program: p },
                ]);
                assert(gl@ =~= (GlesModel {
                    programs: m0.programs.push(prog_dead),
                    calls: m0.calls + seq![GlCall::CreateProgram { handle: p }] + attach_calls(
                        p,
                        ids,
                    ) + seq![
                        GlCall::LinkProgram { program: p },
                        GlCall::DeleteProgram { program: p },
                    ],
                    ..m0
                }));
                crate::gles::lemma_live_programs_push(m0.programs, prog_dead);
                crate::gles::lemma_live_programs_push(
                    m0.programs,
                    (ProgramModel { alive: true, ..prog_dead }),
                );
            }
            return Err(log);
        }
        let ghost linked_src = crate::gles::sources_concat(m0.shaders, ids);
        let ghost prog_linked = ProgramModel {
            alive: true,
            attached: ids,
            status: Status::Succeeded,
            log: Seq::empty(),
            linked_source: linked_src,
        };
        proof {
            assert(gl@.programs =~= m0.programs.push(prog_linked));
        }
        let mut i2: usize = 0;
        while i2 < n
            invariant
                gl.wf(),
                i2 <= n,
                n == shaders@.len(),
                ids == shader_ids(shaders@),
                p == m0.programs.len() + 1,
                p >= 1,
                gl@ == (GlesModel {
                    programs: m0.programs.push(
                        ProgramModel {
                            alive: true,
                            attached: ids.subrange(i2 as int, n as int),
                            status: Status::Succeeded,
                            log: Seq::empty(),
                            linked_source: linked_src,
                        },
                    ),
                    calls: m0.calls + seq![GlCall::CreateProgram { handle: p }] + attach_calls(
                        p,
                        ids,
                    ) + seq![GlCall::LinkProgram { program: p }] + detach_calls(
                        p,
                        ids.subrange(0, i2 as int),
                    ),
                    ..m0
                }),
            decreases n - i2,
        {
            let sid = shaders[i2].id();
            let ghost att_now = ids.subrange(i2 as int, n as int);
            proof {
                assert(ids[i2 as int] == sid);
                assert(att_now[0] == sid);
                assert(gl@.program_live(p));
                assert(gl@.program(p).attached.contains(sid));
                assert(crate::gles::find_first(att_now, sid) == 0);
            }
            gl.detach_shader(p, sid);
            proof {
                assert(att_now.remove(0) =~= ids.subrange(i2 + 1, n as int));
                assert(detach_calls(p, ids.subrange(0, i2 + 1)) =~= detach_calls(
                    p,
                    ids.subrange(0, i2 as int),
                ).push(GlCall::DetachShader { program: p, shader: sid }));
                assert(gl@.programs =~= m0.programs.push(
                    ProgramModel {
                        alive: true,
                        attached: ids.subrange(i2 + 1, n as int),
                        status: Status::Succeeded,
                        log: Seq::empty(),
                        linked_source: linked_src,
                    },
                ));
                assert(gl@.calls =~= m0.calls + seq![GlCall::CreateProgram { handle: p }]
                    + attach_calls(p, ids) + seq![GlCall::LinkProgram { program: p }]
                    + detach_calls(p, ids.subrange(0, i2 + 1)));
                assert(gl@ =~= (GlesModel {
                    programs: m0.programs.push(
                        ProgramModel {
                            alive: true,
                            attached: ids.subrange(i2 + 1, n as int),
                            status: Status::Succeeded,
                            log: Seq::empty(),
                            linked_source: linked_src,
                        },
                    ),
                    calls: m0.calls + seq![GlCall::CreateProgram { handle: p }] + attach_calls(
                        p,
                        ids,
                    ) + seq![GlCall::LinkProgram { program: p }] + detach_calls(
                        p,
                        ids.subrange(0, i2 + 1),
                    ),
                    ..m0
                }));
            }
            i2 = i2 + 1;
        }
        proof {
            assert(ids.subrange(n as int, n as int) =~= Seq::<u32>::empty());
            assert(ids.subrange(0, n as int) =~= ids);
            assert(gl@ =~= (GlesModel {
                programs: m0.programs.push(
                    ProgramModel {
                        alive: true,
                        attached: Seq::empty(),
                        status: Status::Succeeded,
                        log: Seq::empty(),
                        linked_source: linked_src,
                    },
                ),
                calls: m0.calls + seq![GlCall::CreateProgram { handle: p }] + attach_calls(p, ids)
                    + seq![GlCall::LinkProgram { program: p }] + detach_calls(p, ids),
                ..m0
            }));
        }
        Ok(Program { id: p })
    }
}


/// The three calls a successful or failed compile uploads for handle `h`
/// (the failure case additionally deletes, see
/// [`table_after_compile_failed`]).
pub open spec fn compile_calls(h: u32) -> Seq<GlCall> {
    seq![
        GlCall::CreateShader { handle: h },
        GlCall::ShaderSource { shader: h },
        GlCall::CompileShader { shader: h },
    ]
}

impl Program {
    /// Builds a linked program from a named resource pair: `name.vert`
    /// compiled as the vertex stage, `name.frag` as the fragment stage,
    /// linked, and both shader objects released again whether or not
    /// anything failed, so the failure path leaks no handle.
    pub fn from_res(gl: &mut Gles, res: &Resources, name: &str) -> (r: Result<Program, Error>)
        requires
            old(gl).wf(),
        ensures
            final(gl).wf(),
            r is Err ==> final(gl)@.programs == old(gl)@.programs && live_shaders(
                final(gl)@.shaders,
            ) == live_shaders(old(gl)@.shaders) && final(gl)@.capacity == old(gl)@.capacity
                && final(gl)@.caps == old(gl)@.caps && final(gl)@.current_program == old(
                gl,
            )@.current_program,
            ({
                let m0 = old(gl)@;
                let vn = name@ + ".vert"@;
                let fnm = name@ + ".frag"@;
                match lookup(res@, vn) {
                    None => (r matches Err(e) && e matches Error::ResourceLoad { name: n, inner }
                        && n@ == vn && inner is NotFound && final(gl)@ == m0),
                    Some(vb) => if has_nil(vb) {
                        r matches Err(e) && e matches Error::ResourceLoad { name: n, inner } && n@
                            == vn && inner is FileContainsNil && final(gl)@ == m0
                    } else if !shader_can_alloc(m0) {
                        r matches Err(e) && e is AllocationError && final(gl)@ == (GlesModel {
                            calls: m0.calls.push(GlCall::CreateShader { handle: 0 }),
                            ..m0
                        })
                    } else if !source_accepted(vb) {
                        r matches Err(e) && e matches Error::CompileError { name: n, message }
                            && n@ == vn && message@ == compile_failure_log(vb) && message@.len()
                            > 0 && final(gl)@ == table_after_compile_failed(
                            m0,
                            vb,
                            ShaderKind::Vertex,
                        )
                    } else {
                        let m1 = table_after_compile_ok(m0, vb, ShaderKind::Vertex);
                        let h1 = (m0.shaders.len() + 1) as u32;
                        let h2 = (m0.shaders.len() + 2) as u32;
                        let vs_dead = ShaderModel {
                            alive: false,
                            kind: ShaderKind::Vertex,
                            source: vb,
                            status: Status::Succeeded,
                            log: Seq::empty(),
                        };
                        let vert_released = GlesModel {
                            shaders: m0.shaders.push(vs_dead),
                            calls: m0.calls + compile_calls(h1) + seq![
                                GlCall::DeleteShader { shader: h1 },
                            ],
                            ..m0
                        };
                        match lookup(res@, fnm) {
                            None => (r matches Err(e) && e matches Error::ResourceLoad {
                                name: n,
                                inner,
                            } && n@ == fnm && inner is NotFound && final(gl)@ == vert_released),
                            Some(fb) => if has_nil(fb) {
                                r matches Err(e) && e matches Error::ResourceLoad {
                                    name: n,
                                    inner,
                                } && n@ == fnm && inner is FileContainsNil && final(gl)@
                                    == vert_released
                            } else if !shader_can_alloc(m1) {
                                r matches Err(e) && e is AllocationError && final(gl)@
                                    == (GlesModel {
                                    shaders: m0.shaders.push(vs_dead),
                                    calls: m0.calls + compile_calls(h1) + seq![
                                        GlCall::CreateShader { handle: 0 },
                                        GlCall::DeleteShader { shader: h1 },
                                    ],
                                    ..m0
                                })
                            } else if !source_accepted(fb) {
                                r matches Err(e) && e matches Error::CompileError {
                                    name: n,
                                    message,
                                } && n@ == fnm && message@ == compile_failure_log(fb)
                                    && message@.len() > 0 && final(gl)@ == (GlesModel {
                                    shaders: m0.shaders.push(vs_dead).push(
                                        ShaderModel {
                                            alive: false,
                                            kind: ShaderKind::Fragment,
                                            source: fb,
                                            status: Status::Failed,
                                            log: compile_failure_log(fb),
                                        },
                                    ),
                                    calls: m0.calls + compile_calls(h1) + compile_calls(h2)
                                        + seq![
                                        GlCall::DeleteShader { shader: h2 },
                                        GlCall::DeleteShader { shader: h1 },
                                    ],
                                    ..m0
                                })
                            } else if !program_can_alloc(m0) {
                                r matches Err(e) && e matches Error::LinkError {
                                    name: n,
                                    message,
                                } && n@ == name@ && message@
                                    == "Cannot create the opengl program (CreateProgram)"@
                                    && final(gl)@ == (GlesModel {
                                    shaders: m0.shaders.push(vs_dead).push(
                                        ShaderModel {
                                            alive: false,
                                            kind: ShaderKind::Fragment,
                                            source: fb,
                                            status: Status::Succeeded,
                                            log: Seq::empty(),
                                        },
                                    ),
                                    calls: m0.calls + compile_calls(h1) + compile_calls(h2)
                                        + seq![
                                        GlCall::CreateProgram { handle: 0 },
                                        GlCall::DeleteShader { shader: h1 },
                                        GlCall::DeleteShader { shader: h2 },
                                    ],
                                    ..m0
                                })
                            } else {
                                let h1 = (m0.shaders.len() + 1) as u32;
                                let h2 = (m0.shaders.len() + 2) as u32;
                                let p = (m0.programs.len() + 1) as u32;
                                r matches Ok(pr) && pr.spec_id() == p && pr.spec_id() != 0
                                    && pr.valid(final(gl)@) && live_programs(
                                    final(gl)@.programs,
                                ) == live_programs(m0.programs) + 1 && live_shaders(
                                    final(gl)@.shaders,
                                ) == live_shaders(m0.shaders) && final(gl)@ == (GlesModel {
                                    shaders: m0.shaders.push(
                                        ShaderModel {
                                            alive: false,
                                            kind: ShaderKind::Vertex,
                                            source: vb,
                                            status: Status::Succeeded,
                                            log: Seq::empty(),
                                        },
                                    ).push(
                                        ShaderModel {
                                            alive: false,
                                            kind: ShaderKind::Fragment,
                                            source: fb,
                                            status: Status::Succeeded,
                                            log: Seq::empty(),
                                        },
                                    ),
                                    programs: m0.programs.push(
                                        ProgramModel {
                                            alive: true,
                                            attached: Seq::empty(),
                                            status: Status::Succeeded,
                                            log: Seq::empty(),
                                            linked_source: vb + fb,
                                        },
                                    ),
                                    calls: m0.calls + compile_calls(h1) + compile_calls(h2)
                                        + seq![GlCall::CreateProgram { handle: p }] + attach_calls(
                                        p,
                                        seq![h1, h2],
                                    ) + seq![GlCall::LinkProgram { program: p }] + detach_calls(
                                        p,
                                        seq![h1, h2],
                                    ) + seq![
                                        GlCall::DeleteShader { shader: h1 },
                                        GlCall::DeleteShader { shader: h2 },
                                    ],
                                    ..m0
                                })
                            },
                        }
                    },
                }
            }),
    {
        let ghost m0 = old(gl)@;
        let mut vert_name = String::from_str(name);
        vert_name.append(".vert");
        let mut frag_name = String::from_str(name);
        frag_name.append(".frag");
        proof {
            reveal_strlit(".vert");
            reveal_strlit(".frag");
            assert(ends_with(vert_name@, ".vert"@)) by {
                assert(vert_name@.subrange(
                    vert_name@.len() - 5,
                    vert_name@.len() as int,
                ) =~= ".vert"@);
            }
            assert(shader_kind_for(vert_name@) == Some(ShaderKind::Vertex));
            assert(!ends_with(frag_name@, ".vert"@)) by {
                if frag_name@.len() >= 5 && frag_name@.subrange(
                    frag_name@.len() - 5,
                    frag_name@.len() as int,
                ) == ".vert"@ {
                    assert(frag_name@.subrange(
                        frag_name@.len() - 5,
                        frag_name@.len() as int,
                    )[4] == frag_name@[frag_name@.len() - 1]);
                }
            }
            assert(ends_with(frag_name@, ".frag"@)) by {
                assert(frag_name@.subrange(
                    frag_name@.len() - 5,
                    frag_name@.len() as int,
                ) =~= ".frag"@);
            }
            assert(shader_kind_for(frag_name@) == Some(ShaderKind::Fragment));
        }
        let vs = match Shader::from_res(gl, res, vert_name.as_str()) {
            Ok(s) => s,
            Err(e) => {
                return Err(e);
            },
        };
        let ghost m1 = gl@;
        let fs = match Shader::from_res(gl, res, frag_name.as_str()) {
            Ok(s) => s,
            Err(e) => {
                proof {
                    assert(vs.valid(gl@));
                }
                vs.destroy(gl);
                proof {
                    let ghost vb = lookup(res@, vert_name@)->0;
                    let ghost h1 = (m0.shaders.len() + 1) as u32;
                    let ghost h2 = (m0.shaders.len() + 2) as u32;
                    let ghost vs_live = ShaderModel {
                        alive: true,
                        kind: ShaderKind::Vertex,
                        source: vb,
                        status: Status::Succeeded,
                        log: Seq::empty(),
                    };
                    let ghost vs_dead = ShaderModel { alive: false, ..vs_live };
                    crate::gles::lemma_live_shaders_push(m0.shaders, vs_live);
                    let frag_found = lookup(res@, frag_name@);
                    if frag_found is None || has_nil(frag_found->0) {
                        assert(gl@.shaders =~= m0.shaders.push(vs_dead));
                        assert(gl@.calls =~= m0.calls + compile_calls(h1) + seq![
                            GlCall::DeleteShader { shader: h1 },
                        ]);
                        assert(gl@ =~= (GlesModel {
                            shaders: m0.shaders.push(vs_dead),
                            calls: m0.calls + compile_calls(h1) + seq![
                                GlCall::DeleteShader { shader: h1 },
                            ],
                            ..m0
                        }));
                    } else if !shader_can_alloc(table_after_compile_ok(
                        m0,
                        vb,
                        ShaderKind::Vertex,
                    )) {
                        assert(gl@.shaders =~= m0.shaders.push(vs_dead));
                        assert(gl@.calls =~= m0.calls + compile_calls(h1) + seq![
                            GlCall::CreateShader { handle: 0 },
                            GlCall::DeleteShader { shader: h1 },
                        ]);
                        assert(gl@ =~= (GlesModel {
                            shaders: m0.shaders.push(vs_dead),
                            calls: m0.calls + compile_calls(h1) + seq![
                                GlCall::CreateShader { handle: 0 },
                                GlCall::DeleteShader { shader: h1 },
                            ],
                            ..m0
                        }));
                    } else {
                        let ghost fb = frag_found->0;
                        let ghost fs_dead = ShaderModel {
                            alive: false,
                            kind: ShaderKind::Fragment,
                            source: fb,
                            status: Status::Failed,
                            log: compile_failure_log(fb),
                        };
                        assert(gl@.shaders =~= m0.shaders.push(vs_dead).push(fs_dead));
                        assert(gl@.calls =~= m0.calls + compile_calls(h1) + compile_calls(h2)
                            + seq![
                            GlCall::DeleteShader { shader: h2 },
                            GlCall::DeleteShader { shader: h1 },
                        ]);
                        assert(gl@ =~= (GlesModel {
                            shaders: m0.shaders.push(vs_dead).push(fs_dead),
                            calls: m0.calls + compile_calls(h1) + compile_calls(h2) + seq![
                                GlCall::DeleteShader { shader: h2 },
                                GlCall::DeleteShader { shader: h1 },
                            ],
                            ..m0
                        }));
                    }
                }
                return Err(e);
            },
        };
        let ghost m2 = gl@;
        proof {
            assert(vs.valid(m2)) by {
                assert(m2.shaders[vs.spec_id() - 1] == m1.shaders[vs.spec_id() - 1]);
            }
            assert(fs.valid(m2));
        }
        let ghost h1 = vs.spec_id();
        let ghost h2 = fs.spec_id();
        let mut stages: Vec<Shader> = Vec::new();
        stages.push(vs);
        stages.push(fs);
        let ghost ids0 = shader_ids(stages@);
        let outcome = Self::from_shaders(gl, &stages);
        proof {
            assert(stages@[0].spec_kind() != stages@[1].spec_kind());
            assert(kinds_distinct(stages@));
        }
        let fs_back = match stages.pop() {
            Some(sh) => sh,
            None => {
                proof {
                    assert(false);
                }
                unreached()
            },
        };
        let vs_back = match stages.pop() {
            Some(sh) => sh,
            None => {
                proof {
                    assert(false);
                }
                unreached()
            },
        };
        vs_back.destroy(gl);
        fs_back.destroy(gl);
        match outcome {
            Ok(pr) => {
                proof {
                    let vb = lookup(res@, vert_name@)->0;
                    let fb = lookup(res@, frag_name@)->0;
                    let p = (m0.programs.len() + 1) as u32;
                    assert(h1 == m0.shaders.len() + 1);
                    assert(h2 == m0.shaders.len() + 2);
                    assert(ids0 =~= seq![h1, h2]);
                    let vs_live = ShaderModel {
                        alive: true,
                        kind: ShaderKind::Vertex,
                        source: vb,
                        status: Status::Succeeded,
                        log: Seq::empty(),
                    };
                    let fs_live = ShaderModel {
                        alive: true,
                        kind: ShaderKind::Fragment,
                        source: fb,
                        status: Status::Succeeded,
                        log: Seq::empty(),
                    };
                    let ids = shader_ids(stages@.push(vs_back).push(fs_back));
                    assert(gl@.shaders =~= m0.shaders.push(
                        (ShaderModel { alive: false, ..vs_live }),
                    ).push((ShaderModel { alive: false, ..fs_live })));
                    assert(crate::gles::sources_concat(m2.shaders, ids0) =~= vb + fb) by {
                        assert(ids0[0] == h1 && ids0[1] == h2 && ids0.len() == 2);
                        assert(m2.shaders[h1 - 1].source == vb);
                        assert(m2.shaders[h2 - 1].source == fb);
                        assert(crate::gles::sources_prefix(m2.shaders, ids0, 0)
                            =~= Seq::<u8>::empty());
                        assert(crate::gles::sources_prefix(m2.shaders, ids0, 1) =~= Seq::<
                            u8,
                        >::empty() + vb);
                        assert(Seq::<u8>::empty() + vb =~= vb);
                        assert(crate::gles::sources_prefix(m2.shaders, ids0, 2) =~= vb + fb);
                    }
                    assert(m2.programs == m0.programs);
                    crate::gles::lemma_live_shaders_push(m0.shaders, vs_live);
                    crate::gles::lemma_live_shaders_push(m0.shaders.push(vs_live), fs_live);
                    crate::gles::lemma_live_programs_push(
                        m0.programs,
                        ProgramModel {
                            alive: true,
                            attached: Seq::empty(),
                            status: Status::Succeeded,
                            log: Seq::empty(),
                            linked_source: vb + fb,
                        },
                    );
                    assert(gl@.calls =~= m0.calls + compile_calls(h1) + compile_calls(h2)
                        + seq![GlCall::CreateProgram { handle: p }] + attach_calls(
                        p,
                        seq![h1, h2],
                    ) + seq![GlCall::LinkProgram { program: p }] + detach_calls(p, seq![h1, h2])
                        + seq![
                        GlCall::DeleteShader { shader: h1 },
                        GlCall::DeleteShader { shader: h2 },
                    ]);
                    assert(gl@.programs =~~= m0.programs.push(
                        ProgramModel {
                            alive: true,
                            attached: Seq::empty(),
                            status: Status::Succeeded,
                            log: Seq::empty(),
                            linked_source: vb + fb,
                        },
                    ));
                    assert(gl@ =~~= (GlesModel {
                        shaders: m0.shaders.push((ShaderModel { alive: false, ..vs_live })).push(
                            (ShaderModel { alive: false, ..fs_live }),
                        ),
                        programs: m0.programs.push(
                            ProgramModel {
                                alive: true,
                                attached: Seq::empty(),
                                status: Status::Succeeded,
                                log: Seq::empty(),
                                linked_source: vb + fb,
                            },
                        ),
                        calls: m0.calls + compile_calls(h1) + compile_calls(h2)
                            + seq![GlCall::CreateProgram { handle: p }] + attach_calls(
                            p,
                            seq![h1, h2],
                        ) + seq![GlCall::LinkProgram { program: p }] + detach_calls(
                            p,
                            seq![h1, h2],
                        ) + seq![
                            GlCall::DeleteShader { shader: h1 },
                            GlCall::DeleteShader { shader: h2 },
                        ],
                        ..m0
                    }));
                }
                Ok(pr)
            },
            Err(message) => {
                proof {
                    let vb = lookup(res@, vert_name@)->0;
                    let fb = lookup(res@, frag_name@)->0;
                    let vs_live = ShaderModel {
                        alive: true,
                        kind: ShaderKind::Vertex,
                        source: vb,
                        status: Status::Succeeded,
                        log: Seq::empty(),
                    };
                    let fs_live = ShaderModel {
                        alive: true,
                        kind: ShaderKind::Fragment,
                        source: fb,
                        status: Status::Succeeded,
                        log: Seq::empty(),
                    };
                    crate::gles::lemma_live_shaders_push(m0.shaders, vs_live);
                    crate::gles::lemma_live_shaders_push(m0.shaders.push(vs_live), fs_live);
                }
                Err(Error::LinkError { name: String::from_str(name), message })
            },
        }
    }
}

} // verus!
