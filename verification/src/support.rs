//! The render context and the context registry.
//!
//! [`Gl`] owns the loaded function table and the frame-level state (the
//! viewport size and the lazily created vertex buffer and vertex-array
//! object); [`GlContext`] is the single-slot registry through which the
//! event loop borrows the context for the duration of a callback.

use vstd::prelude::*;

verus! {

use vstd::slice::slice_to_vec;
use crate::gles::{
    contains_substr, fresh_table, is_substr_at, live_programs, live_shaders, source_accepted,
    Capability, GlCall, Gles, GlesModel, ProgramModel, ShaderKind, ShaderModel, Status,
    LEFT_BRACE, RIGHT_BRACE,
};
use crate::gles::{
    lemma_live_programs_push, lemma_live_shaders_push, lemma_single_brace_pair_balanced,
    program_creates, program_deletes, shader_creates, shader_deletes,
};
use crate::render_gl::{
    attach_calls, compile_calls, detach_calls, program_can_alloc, shader_can_alloc,
    table_after_compile_ok, Error, Program, Shader,
};

/// Bytes of the fixed vertex set the context draws: twelve 32-bit
/// floats, two triangles of three two-component vertices each.
pub const VERTEX_DATA_BYTES: usize = 48;

/// Vertices handed to the draw call of [`Gl::rect`].
pub const RECT_VERTEX_COUNT: i32 = 12;

/// Vertices handed to the draw call of [`Gl::draw_frame`].
pub const FRAME_VERTEX_COUNT: i32 = 3;

/// The attribute name the drawing code resolves, the bytes of
/// `position`.
pub open spec fn position_name() -> Seq<u8> {
    seq![112u8, 111u8, 115u8, 105u8, 116u8, 105u8, 111u8, 110u8]
}

/// The uniform name the drawing code resolves, the bytes of `uColor`.
pub open spec fn ucolor_name() -> Seq<u8> {
    seq![117u8, 67u8, 111u8, 108u8, 111u8, 114u8]
}

/// The embedded vertex source of the demonstration frame, the bytes of
/// `attribute vec2 position; void main() { gl_Position = vec4(position, 0, 1); }`.
pub open spec fn rect_vertex_source() -> Seq<u8> {
    seq![
        97u8, 116u8, 116u8, 114u8, 105u8, 98u8, 117u8, 116u8, 101u8, 32u8, 118u8, 101u8,
        99u8, 50u8, 32u8, 112u8, 111u8, 115u8, 105u8, 116u8, 105u8, 111u8, 110u8, 59u8,
        32u8, 118u8, 111u8, 105u8, 100u8, 32u8, 109u8, 97u8, 105u8, 110u8, 40u8, 41u8,
        32u8, 123u8, 32u8, 103u8, 108u8, 95u8, 80u8, 111u8, 115u8, 105u8, 116u8, 105u8,
        111u8, 110u8, 32u8, 61u8, 32u8, 118u8, 101u8, 99u8, 52u8, 40u8, 112u8, 111u8,
        115u8, 105u8, 116u8, 105u8, 111u8, 110u8, 44u8, 32u8, 48u8, 44u8, 32u8, 49u8,
        41u8, 59u8, 32u8, 125u8,
    ]
}

/// The embedded fragment source of the demonstration frame, the bytes of
/// `precision mediump float; uniform vec4 uColor; void main() { gl_FragColor = uColor; }`.
pub open spec fn rect_fragment_source() -> Seq<u8> {
    seq![
        112u8, 114u8, 101u8, 99u8, 105u8, 115u8, 105u8, 111u8, 110u8, 32u8, 109u8, 101u8,
        100u8, 105u8, 117u8, 109u8, 112u8, 32u8, 102u8, 108u8, 111u8, 97u8, 116u8, 59u8,
        32u8, 117u8, 110u8, 105u8, 102u8, 111u8, 114u8, 109u8, 32u8, 118u8, 101u8, 99u8,
        52u8, 32u8, 117u8, 67u8, 111u8, 108u8, 111u8, 114u8, 59u8, 32u8, 118u8, 111u8,
        105u8, 100u8, 32u8, 109u8, 97u8, 105u8, 110u8, 40u8, 41u8, 32u8, 123u8, 32u8,
        103u8, 108u8, 95u8, 70u8, 114u8, 97u8, 103u8, 67u8, 111u8, 108u8, 111u8, 114u8,
        32u8, 61u8, 32u8, 117u8, 67u8, 111u8, 108u8, 111u8, 114u8, 59u8, 32u8, 125u8,
    ]
}

/// Mathematical view of the render context.
#[verifier::ext_equal]
pub struct GlModel {
    pub table: GlesModel,
    pub width: i32,
    pub height: i32,
    pub vertex_buffer: u32,
    pub vertex_array: u32,
}

/// The render context: the loaded function table plus the frame-level
/// state.  The vertex buffer and the vertex-array object are created on
/// the first draw that needs them; 0 means not created yet.
pub struct Gl {
    table: Gles,
    width: i32,
    height: i32,
    vertex_buffer: u32,
    vertex_array: u32,
}

impl View for Gl {
    type V = GlModel;

    closed spec fn view(&self) -> GlModel {
        GlModel {
            table: self.table@,
            width: self.width,
            height: self.height,
            vertex_buffer: self.vertex_buffer,
            vertex_array: self.vertex_array,
        }
    }
}

impl Gl {
    /// The table is consistent, the cached buffer and array handles were
    /// really handed out by it, and an array handle exists only where
    /// the capability resolved.
    pub closed spec fn wf(self) -> bool {
        &&& self.table.wf()
        &&& (self@.vertex_buffer == 0 || self@.vertex_buffer <= self@.table.buffers)
        &&& (self@.vertex_array == 0 || (self@.table.caps is VertexArrays && self@.vertex_array
            <= self@.table.arrays))
        &&& self@.width >= 0
        &&& self@.height >= 0
    }

    /// A well-formed context has a well-formed table model.
    pub proof fn lemma_wf_table(&self)
        requires
            self.wf(),
        ensures
            self@.table.wf(),
    {
        self.table.lemma_wf_model();
    }

    /// Wraps a freshly loaded function table.
    pub fn new(table: Gles) -> (r: Gl)
        requires
            table.wf(),
        ensures
            r.wf(),
            r@ == (GlModel {
                table: table@,
                width: 0,
                height: 0,
                vertex_buffer: 0,
                vertex_array: 0,
            }),
    {
        Gl { table, width: 0, height: 0, vertex_buffer: 0, vertex_array: 0 }
    }

    /// Read access to the function table, for inspecting the call log
    /// and the live object counts.
    pub fn table(&self) -> (r: &Gles)
        ensures
            r@ == self@.table,
            self.wf() ==> r.wf(),
    {
        &self.table
    }

    /// Sets the visible drawing rectangle and clears the colour buffer:
    /// exactly one viewport-configuration call with these dimensions,
    /// followed by exactly one clear.
    pub fn viewport(&mut self, width: i32, height: i32)
        requires
            old(self).wf(),
            0 <= width,
            0 <= height,
        ensures
            final(self).wf(),
            final(self)@ == (GlModel {
                table: (GlesModel {
                    calls: old(self)@.table.calls + seq![
                        GlCall::Viewport { width, height },
                        GlCall::Clear,
                    ],
                    ..old(self)@.table
                }),
                width,
                height,
                ..old(self)@
            }),
    {
        self.table.viewport(width, height);
        self.table.clear();
        self.width = width;
        self.height = height;
        proof {
            assert(self@.table.calls =~= old(self)@.table.calls + seq![
                GlCall::Viewport { width, height },
                GlCall::Clear,
            ]);
            assert(self@.table =~= (GlesModel {
                calls: old(self)@.table.calls + seq![
                    GlCall::Viewport { width, height },
                    GlCall::Clear,
                ],
                ..old(self)@.table
            }));
            assert(self@ =~= (GlModel {
                table: (GlesModel {
                    calls: old(self)@.table.calls + seq![
                        GlCall::Viewport { width, height },
                        GlCall::Clear,
                    ],
                    ..old(self)@.table
                }),
                width,
                height,
                ..old(self)@
            }));
        }
    }

    /// Clears the colour buffer and draws the three-vertex frame.
    pub fn draw_frame(&mut self)
        requires
            old(self).wf(),
        ensures
            final(self).wf(),
            final(self)@ == (GlModel {
                table: (GlesModel {
                    calls: old(self)@.table.calls + seq![
                        GlCall::Clear,
                        GlCall::DrawArrays { first: 0, count: FRAME_VERTEX_COUNT },
                    ],
                    ..old(self)@.table
                }),
                ..old(self)@
            }),
    {
        self.table.clear();
        self.table.draw_arrays(0, FRAME_VERTEX_COUNT);
        proof {
            assert(self@.table.calls =~= old(self)@.table.calls + seq![
                GlCall::Clear,
                GlCall::DrawArrays { first: 0, count: FRAME_VERTEX_COUNT },
            ]);
            assert(self@ =~= (GlModel {
                table: (GlesModel {
                    calls: old(self)@.table.calls + seq![
                        GlCall::Clear,
                        GlCall::DrawArrays { first: 0, count: FRAME_VERTEX_COUNT },
                    ],
                    ..old(self)@.table
                }),
                ..old(self)@
            }));
        }
    }
}

/// The process-wide context slot: it holds at most one render context,
/// [`GlContext::take_context`] transfers it to the caller and
/// [`GlContext::give_back_context`] reinstates it.  Taking from an empty
/// slot, or giving back into a full one, is a programmer error and is
/// excluded by precondition: there is never more than one outstanding
/// owner.
pub struct GlContext {
    gl: Option<Gl>,
}

impl GlContext {
    /// The context currently parked in the slot.
    pub closed spec fn slot(self) -> Option<Gl> {
        self.gl
    }

    /// A parked context is well-formed.
    pub closed spec fn wf(self) -> bool {
        self.gl matches Some(g) ==> g.wf()
    }

    /// An empty registry.
    pub fn new() -> (r: GlContext)
        ensures
            r.slot() is None,
            r.wf(),
    {
        GlContext { gl: None }
    }

    /// Whether a context is currently parked; check before taking.
    pub fn has_context(&self) -> (r: bool)
        ensures
            r == (self.slot() is Some),
    {
        self.gl.is_some()
    }

    /// Removes and returns the parked context, leaving the slot empty.
    pub fn take_context(&mut self) -> (r: Gl)
        requires
            old(self).slot() is Some,
            old(self).wf(),
        ensures
            final(self).slot() is None,
            final(self).wf(),
            r == old(self).slot()->0,
            r.wf(),
    {
        let taken = self.gl.take();
        match taken {
            Some(g) => g,
            None => {
                proof {
                    assert(false);
                }
                unreached()
            },
        }
    }

    /// Reinstates a context into the empty slot.
    pub fn give_back_context(&mut self, ctx: Gl)
        requires
            old(self).slot() is None,
            ctx.wf(),
        ensures
            final(self).slot() == Some(ctx),
            final(self).wf(),
    {
        self.gl = Some(ctx);
    }
}

/// Builds the function table from the resolver's addresses and parks the
/// render context in the registry; diagnostics (the version string) are
/// kept on the table.  Returns whether every required entry point
/// resolved; on failure the registry stays empty.
pub fn load(
    registry: &mut GlContext,
    required_entries: &Vec<u64>,
    vertex_array_entry: u64,
    capacity: u32,
    version: String,
) -> (ok: bool)
    requires
        old(registry).slot() is None,
        old(registry).wf(),
    ensures
        final(registry).wf(),
        ok <==> (forall|i: int|
            0 <= i < required_entries@.len() ==> required_entries@[i] != 0),
        ok ==> (final(registry).slot() matches Some(g) && g.wf() && g@ == (GlModel {
            table: fresh_table(
                if vertex_array_entry != 0 {
                    Capability::VertexArrays
                } else {
                    Capability::NoVertexArrays
                },
                capacity,
                version@,
            ),
            width: 0,
            height: 0,
            vertex_buffer: 0,
            vertex_array: 0,
        })),
        !ok ==> final(registry).slot() is None,
{
    match Gles::load_with(required_entries, vertex_array_entry, capacity, version) {
        Some(table) => {
            registry.give_back_context(Gl::new(table));
            true
        },
        None => false,
    }
}

/// Giving a context back to an empty registry and immediately taking it
/// again yields a context identical to the one given back, and leaves
/// the registry as takeable as before: the slot hand-off loses nothing.
/// The hypotheses are exactly what [`GlContext::give_back_context`] and
/// [`GlContext::take_context`] ensure.
pub proof fn lemma_registry_round_trip(
    after_give: GlContext,
    after_take: GlContext,
    given: Gl,
    taken: Gl,
)
    requires
        after_give.slot() == Some(given),
        taken == after_give.slot()->0,
        after_take.slot() is None,
    ensures
        taken == given,
{
}

/// Activating a built renderable and drawing with it performs no
/// allocation: whenever two well-formed table states hold the same
/// driver objects — which is what [`Program::set_used`] and [`Gl::draw`]
/// guarantee about the states before and after them — their call traces
/// balance creations and deletions identically, so not a single new
/// shader or program handle was created in between.
pub proof fn lemma_use_and_draw_allocate_nothing(before: GlesModel, after: GlesModel)
    requires
        before.wf(),
        after.wf(),
        after.shaders == before.shaders,
        after.programs == before.programs,
    ensures
        shader_creates(after.calls) == shader_creates(before.calls),
        shader_deletes(after.calls) == shader_deletes(before.calls),
        program_creates(after.calls) == program_creates(before.calls),
        program_deletes(after.calls) == program_deletes(before.calls),
{
}

/// The dead entry a released vertex shader compiled from `source` leaves
/// behind in the table.
pub open spec fn built_vertex_released(source: Seq<u8>) -> ShaderModel {
    ShaderModel {
        alive: false,
        kind: ShaderKind::Vertex,
        source,
        status: Status::Succeeded,
        log: Seq::empty(),
    }
}

/// The calls that establish the vertex buffer before a draw against
/// table state `m`: generated, bound and filled on first use, bound
/// alone afterwards.
pub open spec fn buffer_setup_calls(m: GlesModel, vertex_buffer: u32) -> Seq<GlCall> {
    if vertex_buffer == 0 {
        seq![
            GlCall::GenBuffer { handle: (m.buffers + 1) as u32 },
            GlCall::BindBuffer { buffer: (m.buffers + 1) as u32 },
            GlCall::BufferData { len: VERTEX_DATA_BYTES },
        ]
    } else {
        seq![GlCall::BindBuffer { buffer: vertex_buffer }]
    }
}

/// The calls that bind the vertex state before a draw against table
/// state `m`: the buffer part, then — where the capability resolved —
/// the vertex-array object, generated if `vertex_array` is still 0 and
/// bound either way.
pub open spec fn vertex_setup_calls(m: GlesModel, vertex_buffer: u32, vertex_array: u32) -> Seq<
    GlCall,
> {
    let array_part = if m.caps is VertexArrays {
        if vertex_array == 0 {
            seq![
                GlCall::GenVertexArray { handle: (m.arrays + 1) as u32 },
                GlCall::BindVertexArray { array: (m.arrays + 1) as u32 },
            ]
        } else {
            seq![GlCall::BindVertexArray { array: vertex_array }]
        }
    } else {
        Seq::<GlCall>::empty()
    };
    buffer_setup_calls(m, vertex_buffer) + array_part
}

/// The context state after a draw's vertex setup succeeded against
/// context state `g0`: the buffer and, where the capability resolved,
/// the vertex-array object exist and are bound, and nothing else has
/// changed.
pub open spec fn after_vertex_setup(g0: GlModel) -> GlModel {
    let m0 = g0.table;
    let new_vb = if g0.vertex_buffer != 0 {
        g0.vertex_buffer
    } else {
        (m0.buffers + 1) as u32
    };
    let new_va = if m0.caps is VertexArrays && g0.vertex_array == 0 {
        (m0.arrays + 1) as u32
    } else {
        g0.vertex_array
    };
    GlModel {
        table: (GlesModel {
            buffers: if g0.vertex_buffer != 0 {
                m0.buffers
            } else {
                (m0.buffers + 1) as u32
            },
            bound_buffer: new_vb,
            arrays: if m0.caps is VertexArrays && g0.vertex_array == 0 {
                (m0.arrays + 1) as u32
            } else {
                m0.arrays
            },
            bound_array: if m0.caps is VertexArrays {
                new_va
            } else {
                m0.bound_array
            },
            calls: m0.calls + vertex_setup_calls(m0, g0.vertex_buffer, g0.vertex_array),
            ..m0
        }),
        vertex_buffer: new_vb,
        vertex_array: new_va,
        ..g0
    }
}

/// The calls that finish a draw once the vertex state is bound: set the
/// colour uniform, enable and describe the position attribute, and issue
/// the draw call.
pub open spec fn draw_tail_calls(uniform_loc: usize, attrib_loc: usize) -> Seq<GlCall> {
    seq![
        GlCall::Uniform4 { location: uniform_loc },
        GlCall::EnableVertexAttribArray { location: attrib_loc },
        GlCall::VertexAttribPointer { location: attrib_loc },
        GlCall::DrawArrays { first: 0, count: RECT_VERTEX_COUNT },
    ]
}

impl Gl {
    /// Composes two compilations and one link: the vertex source, the
    /// fragment source, and a program linked from both.  On any failure
    /// the first error is propagated and every shader compiled so far is
    /// released: the failure path leaks no handle.  The two shader
    /// objects are released on success as well, once detached.
    pub fn build_renderable(&mut self, vert_source: &Vec<u8>, frag_source: &Vec<u8>) -> (r:
        Result<Program, Error>)
        requires
            old(self).wf(),
        ensures
            final(self).wf(),
            final(self)@.width == old(self)@.width,
            final(self)@.height == old(self)@.height,
            final(self)@.vertex_buffer == old(self)@.vertex_buffer,
            final(self)@.vertex_array == old(self)@.vertex_array,
            final(self)@.table.caps == old(self)@.table.caps,
            final(self)@.table.capacity == old(self)@.table.capacity,
            final(self)@.table.buffers == old(self)@.table.buffers,
            final(self)@.table.arrays == old(self)@.table.arrays,
            final(self)@.table.current_program == old(self)@.table.current_program,
            live_shaders(final(self)@.table.shaders) == live_shaders(old(self)@.table.shaders),
            r is Err ==> final(self)@.table.programs == old(self)@.table.programs,
            ({
                let m0 = old(self)@.table;
                let m1 = table_after_compile_ok(m0, vert_source@, ShaderKind::Vertex);
                &&& ((r is Ok) <==> (shader_can_alloc(m0) && source_accepted(vert_source@)
                    && shader_can_alloc(m1) && source_accepted(frag_source@)
                    && program_can_alloc(m0)))
                &&& (!shader_can_alloc(m0) ==> (r matches Err(e) && e is AllocationError
                    && final(self)@.table == (GlesModel {
                    calls: m0.calls.push(GlCall::CreateShader { handle: 0 }),
                    ..m0
                })))
                &&& (shader_can_alloc(m0) && !source_accepted(vert_source@) ==> (r matches Err(e)
                    && e matches Error::CompileError { name: n, message } && n@ == "vertex"@
                    && message@ == crate::gles::compile_failure_log(vert_source@)
                    && message@.len() > 0 && final(self)@.table
                    == crate::render_gl::table_after_compile_failed(
                    m0,
                    vert_source@,
                    ShaderKind::Vertex,
                )))
                &&& (shader_can_alloc(m0) && source_accepted(vert_source@) && !shader_can_alloc(
                    m1,
                ) ==> (r matches Err(e) && e is AllocationError && final(self)@.table
                    == (GlesModel {
                    shaders: m0.shaders.push(built_vertex_released(vert_source@)),
                    calls: m0.calls + compile_calls((m0.shaders.len() + 1) as u32) + seq![
                        GlCall::CreateShader { handle: 0 },
                        GlCall::DeleteShader { shader: (m0.shaders.len() + 1) as u32 },
                    ],
                    ..m0
                })))
                &&& (shader_can_alloc(m0) && source_accepted(vert_source@) && shader_can_alloc(m1)
                    && !source_accepted(frag_source@) ==> (r matches Err(e) && e matches
                    Error::CompileError { name: n, message } && n@ == "fragment"@ && message@
                    == crate::gles::compile_failure_log(frag_source@) && message@.len() > 0
                    && final(self)@.table == (GlesModel {
                    shaders: m0.shaders.push(built_vertex_released(vert_source@)).push(
                        ShaderModel {
                            alive: false,
                            kind: ShaderKind::Fragment,
                            source: frag_source@,
                            status: Status::Failed,
                            log: crate::gles::compile_failure_log(frag_source@),
                        },
                    ),
                    calls: m0.calls + compile_calls((m0.shaders.len() + 1) as u32)
                        + compile_calls((m0.shaders.len() + 2) as u32) + seq![
                        GlCall::DeleteShader { shader: (m0.shaders.len() + 2) as u32 },
                        GlCall::DeleteShader { shader: (m0.shaders.len() + 1) as u32 },
                    ],
                    ..m0
                })))
                &&& (shader_can_alloc(m0) && source_accepted(vert_source@) && shader_can_alloc(m1)
                    && source_accepted(frag_source@) && !program_can_alloc(m0) ==> (r matches Err(
                    e,
                ) && e is AllocationError && final(self)@.table == (GlesModel {
                    shaders: m0.shaders.push(built_vertex_released(vert_source@)).push(
                        ShaderModel {
                            alive: false,
                            kind: ShaderKind::Fragment,
                            source: frag_source@,
                            status: Status::Succeeded,
                            log: Seq::empty(),
                        },
                    ),
                    calls: m0.calls + compile_calls((m0.shaders.len() + 1) as u32)
                        + compile_calls((m0.shaders.len() + 2) as u32) + seq![
                        GlCall::CreateProgram { handle: 0 },
                        GlCall::DeleteShader { shader: (m0.shaders.len() + 1) as u32 },
                        GlCall::DeleteShader { shader: (m0.shaders.len() + 2) as u32 },
                    ],
                    ..m0
                })))
                &&& (r matches Ok(pr) ==> ({
                    let h1 = (m0.shaders.len() + 1) as u32;
                    let h2 = (m0.shaders.len() + 2) as u32;
                    let p = (m0.programs.len() + 1) as u32;
                    &&& pr.spec_id() == p
                    &&& pr.spec_id() != 0
                    &&& pr.valid(final(self)@.table)
                    &&& live_programs(final(self)@.table.programs) == live_programs(m0.programs)
                        + 1
                    &&& final(self)@.table == (GlesModel {
                        shaders: m0.shaders.push(
                            ShaderModel {
                                alive: false,
                                kind: ShaderKind::Vertex,
                                source: vert_source@,
                                status: Status::Succeeded,
                                log: Seq::empty(),
                            },
                        ).push(
                            ShaderModel {
                                alive: false,
                                kind: ShaderKind::Fragment,
                                source: frag_source@,
                                status: Status::Succeeded,
                                log: Seq::empty(),
                            },
                        ),
                        programs: m0.programs.push(
                            ProgramModel {
                                alive: true,
                                attached: Seq::empty(),
                                status: Status::Succeeded,
                                log: Seq::empty(),
                                linked_source: vert_source@ + frag_source@,
                            },
                        ),
                        calls: m0.calls + compile_calls(h1) + compile_calls(h2)
                            + seq![GlCall::CreateProgram { handle: p }] + attach_calls(
                            p,
                            seq![h1, h2],
                        ) + seq![GlCall::LinkProgram { program: p }] + detach_calls(
                            p,
                            seq![h1, h2],
                        ) + seq![
                            GlCall::DeleteShader { shader: h1 },
                            GlCall::DeleteShader { shader: h2 },
                        ],
                        ..m0
                    })
                }))
            }),
    {
        let ghost m0 = self@.table;
        let can_alloc_v = self.table.live_shader_total() < self.table.capacity()
            && self.table.shader_count() < u32::MAX as usize;
        let vs = match Shader::from_vert_source(&mut self.table, vert_source) {
            Ok(s) => s,
            Err(message) => {
                if can_alloc_v {
                    return Err(
                        Error::CompileError { name: String::from_str("vertex"), message },
                    );
                } else {
                    return Err(Error::AllocationError);
                }
            },
        };
        let ghost m1 = self@.table;
        let can_alloc_f = self.table.live_shader_total() < self.table.capacity()
            && self.table.shader_count() < u32::MAX as usize;
        let fs = match Shader::from_frag_source(&mut self.table, frag_source) {
            Ok(s) => s,
            Err(message) => {
                proof {
                    assert(vs.valid(self@.table));
                }
                vs.destroy(&mut self.table);
                proof {
                    lemma_live_shaders_push(
                        m0.shaders,
                        (ShaderModel {
                            alive: true,
                            kind: ShaderKind::Vertex,
                            source: vert_source@,
                            status: Status::Succeeded,
                            log: Seq::empty(),
                        }),
                    );
                }
                if can_alloc_f {
                    return Err(
                        Error::CompileError { name: String::from_str("fragment"), message },
                    );
                } else {
                    return Err(Error::AllocationError);
                }
            },
        };
        let ghost m2 = self@.table;
        proof {
            assert(vs.valid(m2)) by {
                assert(m2.shaders[vs.spec_id() - 1] == m1.shaders[vs.spec_id() - 1]);
            }
            assert(fs.valid(m2));
        }
        let ghost h1 = vs.spec_id();
        let ghost h2 = fs.spec_id();
        let mut stages: Vec<Shader> = Vec::new();
        stages.push(vs);
        stages.push(fs);
        let ghost ids0 = crate::render_gl::shader_ids(stages@);
        let outcome = Program::from_shaders(&mut self.table, &stages);
        proof {
            assert(stages@[0].spec_kind() != stages@[1].spec_kind());
            assert(crate::render_gl::kinds_distinct(stages@));
        }
        let fs_back = match stages.pop() {
            Some(sh) => sh,
            None => {
                proof {
                    assert(false);
                }
                unreached()
            },
        };
        let vs_back = match stages.pop() {
            Some(sh) => sh,
            None => {
                proof {
                    assert(false);
                }
                unreached()
            },
        };
        vs_back.destroy(&mut self.table);
        fs_back.destroy(&mut self.table);
        let ghost vs_live = ShaderModel {
            alive: true,
            kind: ShaderKind::Vertex,
            source: vert_source@,
            status: Status::Succeeded,
            log: Seq::empty(),
        };
        let ghost fs_live = ShaderModel {
            alive: true,
            kind: ShaderKind::Fragment,
            source: frag_source@,
            status: Status::Succeeded,
            log: Seq::empty(),
        };
        proof {
            lemma_live_shaders_push(m0.shaders, vs_live);
            lemma_live_shaders_push(m0.shaders.push(vs_live), fs_live);
        }
        match outcome {
            Ok(pr) => {
                proof {
                    let p = (m0.programs.len() + 1) as u32;
                    assert(h1 == m0.shaders.len() + 1);
                    assert(h2 == m0.shaders.len() + 2);
                    assert(ids0 =~= seq![h1, h2]);
                    assert(crate::gles::sources_concat(m2.shaders, ids0) =~= vert_source@
                        + frag_source@) by {
                        assert(ids0[0] == h1 && ids0[1] == h2 && ids0.len() == 2);
                        assert(m2.shaders[h1 - 1].source == vert_source@);
                        assert(m2.shaders[h2 - 1].source == frag_source@);
                        assert(crate::gles::sources_prefix(m2.shaders, ids0, 0)
                            =~= Seq::<u8>::empty());
                        assert(crate::gles::sources_prefix(m2.shaders, ids0, 1) =~= Seq::<
                            u8,
                        >::empty() + vert_source@);
                        assert(Seq::<u8>::empty() + vert_source@ =~= vert_source@);
                        assert(crate::gles::sources_prefix(m2.shaders, ids0, 2) =~= vert_source@
                            + frag_source@);
                    }
                    assert(m2.programs == m0.programs);
                    assert(self@.table.shaders =~= m0.shaders.push(
                        (ShaderModel { alive: false, ..vs_live }),
                    ).push((ShaderModel { alive: false, ..fs_live })));
                    lemma_live_programs_push(
                        m0.programs,
                        ProgramModel {
                            alive: true,
                            attached: Seq::empty(),
                            status: Status::Succeeded,
                            log: Seq::empty(),
                            linked_source: vert_source@ + frag_source@,
                        },
                    );
                    assert(self@.table.calls =~= m0.calls + compile_calls(h1) + compile_calls(h2)
                        + seq![GlCall::CreateProgram { handle: p }] + attach_calls(
                        p,
                        seq![h1, h2],
                    ) + seq![GlCall::LinkProgram { program: p }] + detach_calls(p, seq![h1, h2])
                        + seq![
                        GlCall::DeleteShader { shader: h1 },
                        GlCall::DeleteShader { shader: h2 },
                    ]);
                    assert(self@.table.programs =~~= m0.programs.push(
                        ProgramModel {
                            alive: true,
                            attached: Seq::empty(),
                            status: Status::Succeeded,
                            log: Seq::empty(),
                            linked_source: vert_source@ + frag_source@,
                        },
                    ));
                    assert(self@.table =~~= (GlesModel {
                        shaders: m0.shaders.push((ShaderModel { alive: false, ..vs_live })).push(
                            (ShaderModel { alive: false, ..fs_live }),
                        ),
                        programs: m0.programs.push(
                            ProgramModel {
                                alive: true,
                                attached: Seq::empty(),
                                status: Status::Succeeded,
                                log: Seq::empty(),
                                linked_source: vert_source@ + frag_source@,
                            },
                        ),
                        calls: m0.calls + compile_calls(h1) + compile_calls(h2)
                            + seq![GlCall::CreateProgram { handle: p }] + attach_calls(
                            p,
                            seq![h1, h2],
                        ) + seq![GlCall::LinkProgram { program: p }] + detach_calls(
                            p,
                            seq![h1, h2],
                        ) + seq![
                            GlCall::DeleteShader { shader: h1 },
                            GlCall::DeleteShader { shader: h2 },
                        ],
                        ..m0
                    }));
                }
                Ok(pr)
            },
            Err(_) => {
                Err(Error::AllocationError)
            },
        }
    }
}


impl Gl {
    /// Binds a built renderable as the active program for the draw calls
    /// that follow.
    pub fn use_renderable(&mut self, program: &Program)
        requires
            old(self).wf(),
            program.valid(old(self)@.table),
        ensures
            final(self).wf(),
            final(self)@ == (GlModel {
                table: (GlesModel {
                    current_program: program.spec_id(),
                    calls: old(self)@.table.calls.push(
                        GlCall::UseProgram { program: program.spec_id() },
                    ),
                    ..old(self)@.table
                }),
                ..old(self)@
            }),
    {
        program.set_used(&mut self.table);
        proof {
            assert(self@ =~= (GlModel {
                table: (GlesModel {
                    current_program: program.spec_id(),
                    calls: old(self)@.table.calls.push(
                        GlCall::UseProgram { program: program.spec_id() },
                    ),
                    ..old(self)@.table
                }),
                ..old(self)@
            }));
        }
    }

    /// Binds the vertex data (uploading the fixed vertex buffer on first
    /// use, and creating the vertex-array object on first use where the
    /// capability resolved), resolves the active program's attribute and
    /// uniform by name, and issues the draw call.  A name that does not
    /// resolve is reported before anything is drawn.
    pub fn draw(&mut self, program: &Program) -> (r: Result<(), Error>)
        requires
            old(self).wf(),
            program.valid(old(self)@.table),
            old(self)@.table.current_program == program.spec_id(),
        ensures
            final(self).wf(),
            final(self)@.table.shaders == old(self)@.table.shaders,
            final(self)@.table.programs == old(self)@.table.programs,
            final(self)@.table.caps == old(self)@.table.caps,
            final(self)@.table.capacity == old(self)@.table.capacity,
            final(self)@.table.current_program == old(self)@.table.current_program,
            final(self)@.width == old(self)@.width,
            final(self)@.height == old(self)@.height,
            ({
                let m0 = old(self)@.table;
                let lsrc = m0.program(program.spec_id()).linked_source;
                let buffer_ready = old(self)@.vertex_buffer != 0;
                let array_ready = !(m0.caps is VertexArrays) || old(self)@.vertex_array != 0;
                let alloc_ok = (buffer_ready || m0.buffers < u32::MAX) && (array_ready
                    || m0.arrays < u32::MAX);
                let names_ok = contains_substr(lsrc, position_name()) && contains_substr(
                    lsrc,
                    ucolor_name(),
                );
                &&& ((r is Ok) <==> (alloc_ok && names_ok))
                &&& (!buffer_ready && m0.buffers == u32::MAX ==> (r matches Err(e)
                    && e is AllocationError && final(self)@ == (GlModel {
                    table: (GlesModel {
                        calls: m0.calls.push(GlCall::GenBuffer { handle: 0 }),
                        ..m0
                    }),
                    ..old(self)@
                })))
                &&& ((buffer_ready || m0.buffers < u32::MAX) && !array_ready && m0.arrays
                    == u32::MAX ==> (r matches Err(e) && e is AllocationError && final(self)@
                    == (GlModel {
                    table: (GlesModel {
                        buffers: if buffer_ready {
                            m0.buffers
                        } else {
                            (m0.buffers + 1) as u32
                        },
                        bound_buffer: if buffer_ready {
                            old(self)@.vertex_buffer
                        } else {
                            (m0.buffers + 1) as u32
                        },
                        calls: m0.calls + buffer_setup_calls(m0, old(self)@.vertex_buffer)
                            + seq![GlCall::GenVertexArray { handle: 0 }],
                        ..m0
                    }),
                    vertex_buffer: if buffer_ready {
                        old(self)@.vertex_buffer
                    } else {
                        (m0.buffers + 1) as u32
                    },
                    ..old(self)@
                })))
                &&& (alloc_ok && !contains_substr(lsrc, position_name()) ==> (r matches Err(e)
                    && e matches Error::UnresolvedBinding { name: n } && n@ == "position"@
                    && final(self)@ == after_vertex_setup(old(self)@)))
                &&& (alloc_ok && contains_substr(lsrc, position_name()) && !contains_substr(
                    lsrc,
                    ucolor_name(),
                ) ==> (r matches Err(e) && e matches Error::UnresolvedBinding { name: n } && n@
                    == "uColor"@ && final(self)@ == after_vertex_setup(old(self)@)))
                &&& (buffer_ready ==> final(self)@.vertex_buffer == old(self)@.vertex_buffer)
                &&& (r is Ok ==> final(self)@.vertex_buffer != 0)
                &&& (r is Ok ==> (exists|pl: usize, ul: usize|
                    is_substr_at(lsrc, position_name(), pl as int) && (forall|j: int|
                        0 <= j < pl ==> !is_substr_at(lsrc, position_name(), j))
                        && is_substr_at(lsrc, ucolor_name(), ul as int) && (forall|j: int|
                        0 <= j < ul ==> !is_substr_at(lsrc, ucolor_name(), j)) && final(self)@
                        == (GlModel {
                        table: (GlesModel {
                            calls: after_vertex_setup(old(self)@).table.calls + draw_tail_calls(
                                ul,
                                pl,
                            ),
                            ..after_vertex_setup(old(self)@).table
                        }),
                        ..after_vertex_setup(old(self)@)
                    })))
            }),
    {
        let ghost m0 = self@.table;
        if self.vertex_buffer == 0 {
            let vb = self.table.gen_buffer();
            if vb == 0 {
                return Err(Error::AllocationError);
            }
            self.vertex_buffer = vb;
            self.table.bind_buffer(vb);
            self.table.buffer_data(VERTEX_DATA_BYTES);
        } else {
            let vb = self.vertex_buffer;
            self.table.bind_buffer(vb);
        }
        match self.table.capability() {
            Capability::VertexArrays => {
                if self.vertex_array == 0 {
                    let va = self.table.gen_vertex_array();
                    if va == 0 {
                        proof {
                            assert(self@ =~= (GlModel {
                                table: (GlesModel {
                                    buffers: if old(self)@.vertex_buffer != 0 {
                                        m0.buffers
                                    } else {
                                        (m0.buffers + 1) as u32
                                    },
                                    bound_buffer: if old(self)@.vertex_buffer != 0 {
                                        old(self)@.vertex_buffer
                                    } else {
                                        (m0.buffers + 1) as u32
                                    },
                                    calls: m0.calls + buffer_setup_calls(
                                        m0,
                                        old(self)@.vertex_buffer,
                                    ) + seq![GlCall::GenVertexArray { handle: 0 }],
                                    ..m0
                                }),
                                vertex_buffer: if old(self)@.vertex_buffer != 0 {
                                    old(self)@.vertex_buffer
                                } else {
                                    (m0.buffers + 1) as u32
                                },
                                ..old(self)@
                            }));
                        }
                        return Err(Error::AllocationError);
                    }
                    self.vertex_array = va;
                }
                let va = self.vertex_array;
                self.table.bind_vertex_array(va);
            },
            Capability::NoVertexArrays => {},
        }
        proof {
            assert(self@ =~= after_vertex_setup(old(self)@));
            assert(program.valid(self@.table));
        }
        let pid = program.id();
        let pos_arr: [u8; 8] = [112u8, 111u8, 115u8, 105u8, 116u8, 105u8, 111u8, 110u8];
        let pos_name = slice_to_vec(pos_arr.as_slice());
        proof {
            assert(pos_name@ =~= position_name());
        }
        let pos_loc = match self.table.get_attrib_location(pid, &pos_name) {
            Some(l) => l,
            None => {
                return Err(Error::UnresolvedBinding { name: String::from_str("position") });
            },
        };
        let col_arr: [u8; 6] = [117u8, 67u8, 111u8, 108u8, 111u8, 114u8];
        let col_name = slice_to_vec(col_arr.as_slice());
        proof {
            assert(col_name@ =~= ucolor_name());
        }
        let col_loc = match self.table.get_uniform_location(pid, &col_name) {
            Some(l) => l,
            None => {
                return Err(Error::UnresolvedBinding { name: String::from_str("uColor") });
            },
        };
        self.table.uniform4(col_loc);
        self.table.enable_vertex_attrib_array(pos_loc);
        self.table.vertex_attrib_pointer(pos_loc);
        self.table.draw_arrays(0, RECT_VERTEX_COUNT);
        proof {
            let lsrc = m0.program(program.spec_id()).linked_source;
            let a = after_vertex_setup(old(self)@);
            assert(self@.table.calls =~= a.table.calls + draw_tail_calls(col_loc, pos_loc));
            assert(self@ =~= (GlModel {
                table: (GlesModel {
                    calls: a.table.calls + draw_tail_calls(col_loc, pos_loc),
                    ..a.table
                }),
                ..a
            }));
            assert(is_substr_at(lsrc, position_name(), pos_loc as int) && (forall|j: int|
                0 <= j < pos_loc ==> !is_substr_at(lsrc, position_name(), j)) && is_substr_at(
                lsrc,
                ucolor_name(),
                col_loc as int,
            ) && (forall|j: int| 0 <= j < col_loc ==> !is_substr_at(lsrc, ucolor_name(), j))
                && self@ == (GlModel {
                table: (GlesModel {
                    calls: a.table.calls + draw_tail_calls(col_loc, pos_loc),
                    ..a.table
                }),
                ..a
            }));
        }
        Ok(())
    }

    /// The one-shot demonstration frame: compiles the embedded sources
    /// ([`rect_vertex_source`], [`rect_fragment_source`]), links them,
    /// activates the program, draws the fixed rectangle, and releases
    /// the program again, so a frame leaves no shader or program object
    /// behind whatever happens.  Both sources compile and carry the two
    /// resolved names, so the only failure left is the driver running
    /// out of handles; every outcome states exactly the driver calls
    /// that were issued.
    pub fn rect(&mut self) -> (r: Result<(), Error>)
        requires
            old(self).wf(),
        ensures
            final(self).wf(),
            final(self)@.width == old(self)@.width,
            final(self)@.height == old(self)@.height,
            final(self)@.table.caps == old(self)@.table.caps,
            final(self)@.table.capacity == old(self)@.table.capacity,
            live_shaders(final(self)@.table.shaders) == live_shaders(old(self)@.table.shaders),
            live_programs(final(self)@.table.programs) == live_programs(
                old(self)@.table.programs,
            ),
            r matches Err(e) ==> e is AllocationError,
            ({
                let g0 = old(self)@;
                let m0 = g0.table;
                let vsrc = rect_vertex_source();
                let fsrc = rect_fragment_source();
                let h1 = (m0.shaders.len() + 1) as u32;
                let h2 = (m0.shaders.len() + 2) as u32;
                let p = (m0.programs.len() + 1) as u32;
                let vs_ok = shader_can_alloc(m0);
                let fs_ok = shader_can_alloc(
                    table_after_compile_ok(m0, vsrc, ShaderKind::Vertex),
                );
                let pr_ok = program_can_alloc(m0);
                let buf_ok = g0.vertex_buffer != 0 || m0.buffers < u32::MAX;
                let arr_ok = !(m0.caps is VertexArrays) || g0.vertex_array != 0 || m0.arrays
                    < u32::MAX;
                let built_shaders = m0.shaders.push(built_vertex_released(vsrc)).push(
                    ShaderModel {
                        alive: false,
                        kind: ShaderKind::Fragment,
                        source: fsrc,
                        status: Status::Succeeded,
                        log: Seq::empty(),
                    },
                );
                let dead_program = ProgramModel {
                    alive: false,
                    attached: Seq::empty(),
                    status: Status::Succeeded,
                    log: Seq::empty(),
                    linked_source: vsrc + fsrc,
                };
                let build_calls = m0.calls + compile_calls(h1) + compile_calls(h2) + seq![
                    GlCall::CreateProgram { handle: p },
                ] + attach_calls(p, seq![h1, h2]) + seq![GlCall::LinkProgram { program: p }]
                    + detach_calls(p, seq![h1, h2]) + seq![
                    GlCall::DeleteShader { shader: h1 },
                    GlCall::DeleteShader { shader: h2 },
                ];
                let new_vb = if g0.vertex_buffer != 0 {
                    g0.vertex_buffer
                } else {
                    (m0.buffers + 1) as u32
                };
                let new_va = if m0.caps is VertexArrays && g0.vertex_array == 0 {
                    (m0.arrays + 1) as u32
                } else {
                    g0.vertex_array
                };
                &&& ((r is Ok) <==> (vs_ok && fs_ok && pr_ok && buf_ok && arr_ok))
                &&& (!vs_ok ==> final(self)@ == (GlModel {
                    table: (GlesModel {
                        calls: m0.calls.push(GlCall::CreateShader { handle: 0 }),
                        ..m0
                    }),
                    ..g0
                }))
                &&& (vs_ok && !fs_ok ==> final(self)@ == (GlModel {
                    table: (GlesModel {
                        shaders: m0.shaders.push(built_vertex_released(vsrc)),
                        calls: m0.calls + compile_calls(h1) + seq![
                            GlCall::CreateShader { handle: 0 },
                            GlCall::DeleteShader { shader: h1 },
                        ],
                        ..m0
                    }),
                    ..g0
                }))
                &&& (vs_ok && fs_ok && !pr_ok ==> final(self)@ == (GlModel {
                    table: (GlesModel {
                        shaders: built_shaders,
                        calls: m0.calls + compile_calls(h1) + compile_calls(h2) + seq![
                            GlCall::CreateProgram { handle: 0 },
                            GlCall::DeleteShader { shader: h1 },
                            GlCall::DeleteShader { shader: h2 },
                        ],
                        ..m0
                    }),
                    ..g0
                }))
                &&& (vs_ok && fs_ok && pr_ok && !buf_ok ==> final(self)@ == (GlModel {
                    table: (GlesModel {
                        shaders: built_shaders,
                        programs: m0.programs.push(dead_program),
                        current_program: 0,
                        calls: build_calls + seq![
                            GlCall::UseProgram { program: p },
                            GlCall::GenBuffer { handle: 0 },
                            GlCall::DeleteProgram { program: p },
                        ],
                        ..m0
                    }),
                    ..g0
                }))
                &&& (vs_ok && fs_ok && pr_ok && buf_ok && !arr_ok ==> final(self)@ == (GlModel {
                    table: (GlesModel {
                        shaders: built_shaders,
                        programs: m0.programs.push(dead_program),
                        current_program: 0,
                        buffers: if g0.vertex_buffer != 0 {
                            m0.buffers
                        } else {
                            (m0.buffers + 1) as u32
                        },
                        bound_buffer: new_vb,
                        calls: build_calls + seq![GlCall::UseProgram { program: p }]
                            + buffer_setup_calls(m0, g0.vertex_buffer) + seq![
                            GlCall::GenVertexArray { handle: 0 },
                            GlCall::DeleteProgram { program: p },
                        ],
                        ..m0
                    }),
                    vertex_buffer: new_vb,
                    ..g0
                }))
                &&& (r is Ok ==> (exists|pl: usize, ul: usize|
                    is_substr_at(vsrc + fsrc, position_name(), pl as int) && (forall|j: int|
                        0 <= j < pl ==> !is_substr_at(vsrc + fsrc, position_name(), j))
                        && is_substr_at(vsrc + fsrc, ucolor_name(), ul as int) && (forall|j: int|
                        0 <= j < ul ==> !is_substr_at(vsrc + fsrc, ucolor_name(), j))
                        && final(self)@ == (GlModel {
                        table: (GlesModel {
                            shaders: built_shaders,
                            programs: m0.programs.push(dead_program),
                            current_program: 0,
                            buffers: if g0.vertex_buffer != 0 {
                                m0.buffers
                            } else {
                                (m0.buffers + 1) as u32
                            },
                            bound_buffer: new_vb,
                            arrays: if m0.caps is VertexArrays && g0.vertex_array == 0 {
                                (m0.arrays + 1) as u32
                            } else {
                                m0.arrays
                            },
                            bound_array: if m0.caps is VertexArrays {
                                new_va
                            } else {
                                m0.bound_array
                            },
                            calls: build_calls + seq![GlCall::UseProgram { program: p }]
                                + vertex_setup_calls(m0, g0.vertex_buffer, g0.vertex_array)
                                + draw_tail_calls(ul, pl) + seq![
                                GlCall::DeleteProgram { program: p },
                            ],
                            ..m0
                        }),
                        vertex_buffer: new_vb,
                        vertex_array: new_va,
                        ..g0
                    })))
            }),
    {
        let ghost g0 = old(self)@;
        let ghost m0 = g0.table;
        // "attribute vec2 position; void main() { gl_Position = vec4(position, 0, 1); }"
        let vs_arr: [u8; 76] = [
            97u8, 116u8, 116u8, 114u8, 105u8, 98u8, 117u8, 116u8, 101u8, 32u8, 118u8, 101u8, 99u8,
            50u8, 32u8, 112u8, 111u8, 115u8, 105u8, 116u8, 105u8, 111u8, 110u8, 59u8, 32u8, 118u8,
            111u8, 105u8, 100u8, 32u8, 109u8, 97u8, 105u8, 110u8, 40u8, 41u8, 32u8, 123u8, 32u8,
            103u8, 108u8, 95u8, 80u8, 111u8, 115u8, 105u8, 116u8, 105u8, 111u8, 110u8, 32u8, 61u8,
            32u8, 118u8, 101u8, 99u8, 52u8, 40u8, 112u8, 111u8, 115u8, 105u8, 116u8, 105u8, 111u8,
            110u8, 44u8, 32u8, 48u8, 44u8, 32u8, 49u8, 41u8, 59u8, 32u8, 125u8,
        ];
        // "precision mediump float; uniform vec4 uColor; void main() { gl_FragColor = uColor; }"
        let fs_arr: [u8; 84] = [
            112u8, 114u8, 101u8, 99u8, 105u8, 115u8, 105u8, 111u8, 110u8, 32u8, 109u8, 101u8,
            100u8, 105u8, 117u8, 109u8, 112u8, 32u8, 102u8, 108u8, 111u8, 97u8, 116u8, 59u8, 32u8,
            117u8, 110u8, 105u8, 102u8, 111u8, 114u8, 109u8, 32u8, 118u8, 101u8, 99u8, 52u8, 32u8,
            117u8, 67u8, 111u8, 108u8, 111u8, 114u8, 59u8, 32u8, 118u8, 111u8, 105u8, 100u8, 32u8,
            109u8, 97u8, 105u8, 110u8, 40u8, 41u8, 32u8, 123u8, 32u8, 103u8, 108u8, 95u8, 70u8,
            114u8, 97u8, 103u8, 67u8, 111u8, 108u8, 111u8, 114u8, 32u8, 61u8, 32u8, 117u8, 67u8,
            111u8, 108u8, 111u8, 114u8, 59u8, 32u8, 125u8,
        ];
        let vs_src = slice_to_vec(vs_arr.as_slice());
        let fs_src = slice_to_vec(fs_arr.as_slice());
        proof {
            assert(vs_src@ =~= rect_vertex_source());
            assert(fs_src@ =~= rect_fragment_source());
            assert(forall|i: int|
                0 <= i < vs_src@.len() && i != 37 && i != 75 ==> vs_src@[i] != LEFT_BRACE
                    && vs_src@[i] != RIGHT_BRACE);
            lemma_single_brace_pair_balanced(vs_src@, 37, 75);
            assert(forall|i: int|
                0 <= i < fs_src@.len() && i != 58 && i != 83 ==> fs_src@[i] != LEFT_BRACE
                    && fs_src@[i] != RIGHT_BRACE);
            lemma_single_brace_pair_balanced(fs_src@, 58, 83);
            assert(source_accepted(vs_src@));
            assert(source_accepted(fs_src@));
            lemma_live_shaders_push(
                m0.shaders,
                (ShaderModel {
                    alive: true,
                    kind: ShaderKind::Vertex,
                    source: rect_vertex_source(),
                    status: Status::Succeeded,
                    log: Seq::empty(),
                }),
            );
        }
        let prog = match self.build_renderable(&vs_src, &fs_src) {
            Ok(p) => p,
            Err(e) => {
                return Err(e);
            },
        };
        proof {
            let lsrc = rect_vertex_source() + rect_fragment_source();
            assert(lsrc.subrange(15, 23) =~= position_name());
            assert(is_substr_at(lsrc, position_name(), 15));
            assert(contains_substr(lsrc, position_name()));
            assert(lsrc.subrange(114, 120) =~= ucolor_name());
            assert(is_substr_at(lsrc, ucolor_name(), 114));
            assert(contains_substr(lsrc, ucolor_name()));
        }
        prog.set_used(&mut self.table);
        let ghost g2 = self@;
        let outcome = self.draw(&prog);
        let ghost g3 = self@;
        proof {
            assert(prog.valid(self@.table));
        }
        prog.destroy(&mut self.table);
        let ghost vsrc = rect_vertex_source();
        let ghost fsrc = rect_fragment_source();
        let ghost h1 = (m0.shaders.len() + 1) as u32;
        let ghost h2 = (m0.shaders.len() + 2) as u32;
        let ghost p = (m0.programs.len() + 1) as u32;
        let ghost dead_program = ProgramModel {
            alive: false,
            attached: Seq::empty(),
            status: Status::Succeeded,
            log: Seq::empty(),
            linked_source: vsrc + fsrc,
        };
        let ghost build_calls = m0.calls + compile_calls(h1) + compile_calls(h2) + seq![
            GlCall::CreateProgram { handle: p },
        ] + attach_calls(p, seq![h1, h2]) + seq![GlCall::LinkProgram { program: p }]
            + detach_calls(p, seq![h1, h2]) + seq![
            GlCall::DeleteShader { shader: h1 },
            GlCall::DeleteShader { shader: h2 },
        ];
        proof {
            assert(self@.table.programs =~= m0.programs.push(dead_program));
            assert(g2.table.calls =~= build_calls + seq![GlCall::UseProgram { program: p }]);
        }
        match outcome {
            Ok(_) => {
                proof {
                    let lsrc = vsrc + fsrc;
                    let (pl, ul) = choose|pl: usize, ul: usize|
                        is_substr_at(lsrc, position_name(), pl as int) && (forall|j: int|
                            0 <= j < pl ==> !is_substr_at(lsrc, position_name(), j))
                            && is_substr_at(lsrc, ucolor_name(), ul as int) && (forall|j: int|
                            0 <= j < ul ==> !is_substr_at(lsrc, ucolor_name(), j)) && g3
                            == (GlModel {
                            table: (GlesModel {
                                calls: after_vertex_setup(g2).table.calls + draw_tail_calls(
                                    ul,
                                    pl,
                                ),
                                ..after_vertex_setup(g2).table
                            }),
                            ..after_vertex_setup(g2)
                        });
                    assert(self@.table.calls =~= build_calls + seq![
                        GlCall::UseProgram { program: p },
                    ] + vertex_setup_calls(m0, g0.vertex_buffer, g0.vertex_array)
                        + draw_tail_calls(ul, pl) + seq![GlCall::DeleteProgram { program: p }]);
                    assert(is_substr_at(lsrc, position_name(), pl as int) && (forall|j: int|
                        0 <= j < pl ==> !is_substr_at(lsrc, position_name(), j)) && is_substr_at(
                        lsrc,
                        ucolor_name(),
                        ul as int,
                    ) && (forall|j: int| 0 <= j < ul ==> !is_substr_at(lsrc, ucolor_name(), j))
                        && self@ =~= (GlModel {
                        table: (GlesModel {
                            shaders: m0.shaders.push(built_vertex_released(vsrc)).push(
                                ShaderModel {
                                    alive: false,
                                    kind: ShaderKind::Fragment,
                                    source: fsrc,
                                    status: Status::Succeeded,
                                    log: Seq::empty(),
                                },
                            ),
                            programs: m0.programs.push(dead_program),
                            current_program: 0,
                            buffers: if g0.vertex_buffer != 0 {
                                m0.buffers
                            } else {
                                (m0.buffers + 1) as u32
                            },
                            bound_buffer: if g0.vertex_buffer != 0 {
                                g0.vertex_buffer
                            } else {
                                (m0.buffers + 1) as u32
                            },
                            arrays: if m0.caps is VertexArrays && g0.vertex_array == 0 {
                                (m0.arrays + 1) as u32
                            } else {
                                m0.arrays
                            },
                            bound_array: if m0.caps is VertexArrays {
                                if g0.vertex_array == 0 {
                                    (m0.arrays + 1) as u32
                                } else {
                                    g0.vertex_array
                                }
                            } else {
                                m0.bound_array
                            },
                            calls: build_calls + seq![GlCall::UseProgram { program: p }]
                                + vertex_setup_calls(m0, g0.vertex_buffer, g0.vertex_array)
                                + draw_tail_calls(ul, pl) + seq![
                                GlCall::DeleteProgram { program: p },
                            ],
                            ..m0
                        }),
                        vertex_buffer: if g0.vertex_buffer != 0 {
                            g0.vertex_buffer
                        } else {
                            (m0.buffers + 1) as u32
                        },
                        vertex_array: if m0.caps is VertexArrays && g0.vertex_array == 0 {
                            (m0.arrays + 1) as u32
                        } else {
                            g0.vertex_array
                        },
                        ..g0
                    }));
                }
                Ok(())
            },
            Err(e) => {
                proof {
                    if g0.vertex_buffer == 0 && m0.buffers == u32::MAX {
                        assert(self@ =~= (GlModel {
                            table: (GlesModel {
                                shaders: g2.table.shaders,
                                programs: m0.programs.push(dead_program),
                                current_program: 0,
                                calls: build_calls + seq![
                                    GlCall::UseProgram { program: p },
                                    GlCall::GenBuffer { handle: 0 },
                                    GlCall::DeleteProgram { program: p },
                                ],
                                ..m0
                            }),
                            ..g0
                        }));
                    } else {
                        assert(self@ =~= (GlModel {
                            table: (GlesModel {
                                shaders: g2.table.shaders,
                                programs: m0.programs.push(dead_program),
                                current_program: 0,
                                buffers: if g0.vertex_buffer != 0 {
                                    m0.buffers
                                } else {
                                    (m0.buffers + 1) as u32
                                },
                                bound_buffer: if g0.vertex_buffer != 0 {
                                    g0.vertex_buffer
                                } else {
                                    (m0.buffers + 1) as u32
                                },
                                calls: build_calls + seq![GlCall::UseProgram { program: p }]
                                    + buffer_setup_calls(m0, g0.vertex_buffer) + seq![
                                    GlCall::GenVertexArray { handle: 0 },
                                    GlCall::DeleteProgram { program: p },
                                ],
                                ..m0
                            }),
                            vertex_buffer: if g0.vertex_buffer != 0 {
                                g0.vertex_buffer
                            } else {
                                (m0.buffers + 1) as u32
                            },
                            ..g0
                        }));
                    }
                }
                Err(e)
            },
        }
    }
}

} // verus!
