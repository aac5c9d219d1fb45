//! The loaded function table, modelled as an explicit driver state.
//!
//! Every entry point that the rest of the library issues is a method on
//! [`Gles`].  The table keeps the driver-side objects (shader and program
//! objects with their sources, compile/link results and info logs) and a
//! trace of the calls issued, so contracts can speak about exactly which
//! calls a higher-level operation performs and about the balance between
//! object creation and deletion.

use vstd::prelude::*;

verus! {

use vstd::slice::slice_to_vec;
use vstd::string::*;

/// The stage a shader object belongs to.
#[derive(Clone, Copy, Debug, PartialEq, Eq, Structural)]
pub enum ShaderKind {
    Vertex,
    Fragment,
}

/// Whether the optional vertex-array-object entry points resolved at load
/// time.  Resolved once, when the table is loaded; the drawing code takes
/// one of two structurally distinct paths depending on it.
#[derive(Clone, Copy, Debug, PartialEq, Eq, Structural)]
pub enum Capability {
    VertexArrays,
    NoVertexArrays,
}

/// Compile or link state of a driver-side object.
#[derive(Clone, Copy, Debug, PartialEq, Eq, Structural)]
pub enum Status {
    Pending,
    Succeeded,
    Failed,
}

/// One call issued through the function table.  Queries (status flags,
/// info-log reads) do not appear here: the trace records the calls whose
/// side effects matter to the lifecycle.
#[derive(Clone, Copy, Debug, PartialEq, Eq, Structural)]
pub enum GlCall {
    /// `handle` is the handle the driver returned; 0 records a failed
    /// allocation.
    CreateShader { handle: u32 },
    ShaderSource { shader: u32 },
    CompileShader { shader: u32 },
    DeleteShader { shader: u32 },
    /// `handle` is the handle the driver returned; 0 records a failed
    /// allocation.
    CreateProgram { handle: u32 },
    AttachShader { program: u32, shader: u32 },
    LinkProgram { program: u32 },
    DetachShader { program: u32, shader: u32 },
    DeleteProgram { program: u32 },
    UseProgram { program: u32 },
    Viewport { width: i32, height: i32 },
    Clear,
    GenBuffer { handle: u32 },
    BindBuffer { buffer: u32 },
    BufferData { len: usize },
    GenVertexArray { handle: u32 },
    BindVertexArray { array: u32 },
    Uniform4 { location: usize },
    EnableVertexAttribArray { location: usize },
    VertexAttribPointer { location: usize },
    DrawArrays { first: i32, count: i32 },
}

/// Mathematical view of one shader object.
#[verifier::ext_equal]
pub struct ShaderModel {
    pub alive: bool,
    pub kind: ShaderKind,
    pub source: Seq<u8>,
    pub status: Status,
    pub log: Seq<char>,
}

/// Mathematical view of one program object.
#[verifier::ext_equal]
pub struct ProgramModel {
    pub alive: bool,
    pub attached: Seq<u32>,
    pub status: Status,
    pub log: Seq<char>,
    pub linked_source: Seq<u8>,
}

/// Mathematical view of the whole table: capability, driver objects and
/// the trace of issued calls.  Shader handle `h` names `shaders[h - 1]`,
/// program handle `p` names `programs[p - 1]`; handles are never reused,
/// deleted objects stay in the sequence with `alive == false`.
#[verifier::ext_equal]
pub struct GlesModel {
    pub caps: Capability,
    pub capacity: u32,
    pub version: Seq<char>,
    pub shaders: Seq<ShaderModel>,
    pub programs: Seq<ProgramModel>,
    pub buffers: u32,
    pub bound_buffer: u32,
    pub arrays: u32,
    pub bound_array: u32,
    pub current_program: u32,
    pub calls: Seq<GlCall>,
}

/// Longest info log the modelled driver ever reports.  A driver that
/// reported a negative or larger length would violate the table's
/// contract; keeping the bound here lets callers allocate `len + 1`
/// bytes without any overflow concern.
pub const MAX_INFO_LOG_LEN: usize = 4096;

/// Number of shader objects in `s` that are still alive.
pub open spec fn live_shaders(s: Seq<ShaderModel>) -> nat
    decreases s.len(),
{
    if s.len() == 0 {
        0
    } else {
        live_shaders(s.drop_last()) + if s.last().alive {
            1nat
        } else {
            0nat
        }
    }
}

/// Number of program objects in `s` that are still alive.
pub open spec fn live_programs(s: Seq<ProgramModel>) -> nat
    decreases s.len(),
{
    if s.len() == 0 {
        0
    } else {
        live_programs(s.drop_last()) + if s.last().alive {
            1nat
        } else {
            0nat
        }
    }
}

/// Number of successful shader allocations recorded in the trace.
pub open spec fn shader_creates(t: Seq<GlCall>) -> nat
    decreases t.len(),
{
    if t.len() == 0 {
        0
    } else {
        shader_creates(t.drop_last()) + match t.last() {
            GlCall::CreateShader { handle } => if handle != 0 {
                1nat
            } else {
                0nat
            },
            _ => 0nat,
        }
    }
}

/// Number of shader deletions recorded in the trace.
pub open spec fn shader_deletes(t: Seq<GlCall>) -> nat
    decreases t.len(),
{
    if t.len() == 0 {
        0
    } else {
        shader_deletes(t.drop_last()) + match t.last() {
            GlCall::DeleteShader { .. } => 1nat,
            _ => 0nat,
        }
    }
}

/// Number of successful program allocations recorded in the trace.
pub open spec fn program_creates(t: Seq<GlCall>) -> nat
    decreases t.len(),
{
    if t.len() == 0 {
        0
    } else {
        program_creates(t.drop_last()) + match t.last() {
            GlCall::CreateProgram { handle } => if handle != 0 {
                1nat
            } else {
                0nat
            },
            _ => 0nat,
        }
    }
}

/// Number of program deletions recorded in the trace.
pub open spec fn program_deletes(t: Seq<GlCall>) -> nat
    decreases t.len(),
{
    if t.len() == 0 {
        0
    } else {
        program_deletes(t.drop_last()) + match t.last() {
            GlCall::DeleteProgram { .. } => 1nat,
            _ => 0nat,
        }
    }
}

/// Creations and deletions recorded in a trace extended by one call.
pub proof fn lemma_counts_push(t: Seq<GlCall>, c: GlCall)
    ensures
        shader_creates(t.push(c)) == shader_creates(t) + (match c {
            GlCall::CreateShader { handle } => if handle != 0 {
                1nat
            } else {
                0nat
            },
            _ => 0nat,
        }),
        shader_deletes(t.push(c)) == shader_deletes(t) + (match c {
            GlCall::DeleteShader { .. } => 1nat,
            _ => 0nat,
        }),
        program_creates(t.push(c)) == program_creates(t) + (match c {
            GlCall::CreateProgram { handle } => if handle != 0 {
                1nat
            } else {
                0nat
            },
            _ => 0nat,
        }),
        program_deletes(t.push(c)) == program_deletes(t) + (match c {
            GlCall::DeleteProgram { .. } => 1nat,
            _ => 0nat,
        }),
{
    assert(t.push(c).drop_last() =~= t);
    assert(t.push(c).last() == c);
}

/// Live count of a shader sequence extended by one object.
pub proof fn lemma_live_shaders_push(s: Seq<ShaderModel>, x: ShaderModel)
    ensures
        live_shaders(s.push(x)) == live_shaders(s) + if x.alive {
            1nat
        } else {
            0nat
        },
{
    assert(s.push(x).drop_last() =~= s);
    assert(s.push(x).last() == x);
}

/// Live count of a program sequence extended by one object.
pub proof fn lemma_live_programs_push(s: Seq<ProgramModel>, x: ProgramModel)
    ensures
        live_programs(s.push(x)) == live_programs(s) + if x.alive {
            1nat
        } else {
            0nat
        },
{
    assert(s.push(x).drop_last() =~= s);
    assert(s.push(x).last() == x);
}

/// Live count of a shader sequence with one object replaced.
pub proof fn lemma_live_shaders_update(s: Seq<ShaderModel>, i: int, x: ShaderModel)
    requires
        0 <= i < s.len(),
    ensures
        live_shaders(s.update(i, x)) + (if s[i].alive {
            1nat
        } else {
            0nat
        }) == live_shaders(s) + (if x.alive {
            1nat
        } else {
            0nat
        }),
    decreases s.len(),
{
    let u = s.update(i, x);
    if i == s.len() - 1 {
        assert(u.drop_last() =~= s.drop_last());
        assert(u.last() == x);
        assert(s.last() == s[i]);
    } else {
        assert(u.drop_last() =~= s.drop_last().update(i, x));
        assert(u.last() == s.last());
        lemma_live_shaders_update(s.drop_last(), i, x);
        assert(s.drop_last()[i] == s[i]);
    }
}

/// Live count of a program sequence with one object replaced.
pub proof fn lemma_live_programs_update(s: Seq<ProgramModel>, i: int, x: ProgramModel)
    requires
        0 <= i < s.len(),
    ensures
        live_programs(s.update(i, x)) + (if s[i].alive {
            1nat
        } else {
            0nat
        }) == live_programs(s) + (if x.alive {
            1nat
        } else {
            0nat
        }),
    decreases s.len(),
{
    let u = s.update(i, x);
    if i == s.len() - 1 {
        assert(u.drop_last() =~= s.drop_last());
        assert(u.last() == x);
        assert(s.last() == s[i]);
    } else {
        assert(u.drop_last() =~= s.drop_last().update(i, x));
        assert(u.last() == s.last());
        lemma_live_programs_update(s.drop_last(), i, x);
        assert(s.drop_last()[i] == s[i]);
    }
}

/// Opening-brace byte (`{`) in shader source text.
pub const LEFT_BRACE: u8 = 123;

/// Closing-brace byte (`}`) in shader source text.
pub const RIGHT_BRACE: u8 = 125;

/// Brace depth of the first `n` bytes of `src`, or -1 once the depth has
/// gone negative.
pub open spec fn brace_scan(src: Seq<u8>, n: int) -> int
    decreases n,
{
    if n <= 0 {
        0
    } else {
        let d = brace_scan(src, n - 1);
        if d < 0 {
            -1
        } else if src[n - 1] == LEFT_BRACE {
            d + 1
        } else if src[n - 1] == RIGHT_BRACE {
            if d == 0 {
                -1
            } else {
                d - 1
            }
        } else {
            d
        }
    }
}

/// Every closing brace in `src` matches an earlier opening brace and none
/// stays open at the end.
pub open spec fn braces_balanced(src: Seq<u8>) -> bool {
    brace_scan(src, src.len() as int) == 0
}

/// Scan value of a source whose only braces are an opening one at `a`
/// and a closing one at `b`.
proof fn lemma_scan_single_pair(src: Seq<u8>, a: int, b: int, n: int)
    requires
        0 <= a < b < src.len(),
        src[a] == LEFT_BRACE,
        src[b] == RIGHT_BRACE,
        forall|i: int|
            0 <= i < src.len() && i != a && i != b ==> src[i] != LEFT_BRACE && src[i]
                != RIGHT_BRACE,
        0 <= n <= src.len(),
    ensures
        brace_scan(src, n) == if n <= a {
            0int
        } else if n <= b {
            1int
        } else {
            0int
        },
    decreases n,
{
    if n > 0 {
        lemma_scan_single_pair(src, a, b, n - 1);
    }
}

/// A source whose only braces are one opening brace at `a` and one
/// closing brace at a later position `b` is balanced.
pub proof fn lemma_single_brace_pair_balanced(src: Seq<u8>, a: int, b: int)
    requires
        0 <= a < b < src.len(),
        src[a] == LEFT_BRACE,
        src[b] == RIGHT_BRACE,
        forall|i: int|
            0 <= i < src.len() && i != a && i != b ==> src[i] != LEFT_BRACE && src[i]
                != RIGHT_BRACE,
    ensures
        braces_balanced(src),
{
    lemma_scan_single_pair(src, a, b, src.len() as int);
}

/// The rule by which the modelled driver compiles a shader: the source
/// must be non-empty and its braces balanced.
pub open spec fn source_accepted(src: Seq<u8>) -> bool {
    src.len() > 0 && braces_balanced(src)
}

/// The info log the modelled driver reports for a source it refused.
pub open spec fn compile_failure_log(src: Seq<u8>) -> Seq<char> {
    if src.len() == 0 {
        "shader source is empty"@
    } else {
        "shader source has unbalanced braces"@
    }
}

/// The info log of a failed compilation is never empty.
pub proof fn lemma_compile_failure_log_nonempty(src: Seq<u8>)
    ensures
        0 < compile_failure_log(src).len() <= MAX_INFO_LOG_LEN,
{
    reveal_strlit("shader source is empty");
    reveal_strlit("shader source has unbalanced braces");
}

/// The info log of a failed link is never empty.
pub proof fn lemma_link_failure_log_nonempty(m: GlesModel, p: u32)
    ensures
        0 < m.link_failure_log(p).len() <= MAX_INFO_LOG_LEN,
{
    reveal_strlit("program has no attached shaders");
    reveal_strlit("attached shader is not compiled");
    reveal_strlit("duplicate shader stage attached");
}

/// Index of the first occurrence of `s` in `att`, or -1 when absent.
pub open spec fn find_first(att: Seq<u32>, s: u32) -> int
    decreases att.len(),
{
    if att.len() == 0 {
        -1
    } else if att[0] == s {
        0
    } else {
        let r = find_first(att.drop_first(), s);
        if r < 0 {
            -1
        } else {
            r + 1
        }
    }
}

/// `find_first` names exactly the first index whose element is `s`.
pub proof fn lemma_find_first_at(att: Seq<u32>, s: u32, i: int)
    requires
        0 <= i < att.len(),
        att[i] == s,
        forall|j: int| 0 <= j < i ==> att[j] != s,
    ensures
        find_first(att, s) == i,
    decreases i,
{
    if i == 0 {
    } else {
        assert(att[0] != s);
        let d = att.drop_first();
        assert(d[i - 1] == att[i]);
        assert(forall|j: int| 0 <= j < i - 1 ==> d[j] == att[j + 1] && d[j] != s);
        lemma_find_first_at(d, s, i - 1);
    }
}

/// `needle` occurs in `hay` starting at byte `i`.
pub open spec fn is_substr_at(hay: Seq<u8>, needle: Seq<u8>, i: int) -> bool {
    0 <= i && i + needle.len() <= hay.len() && hay.subrange(i, i + needle.len()) == needle
}

/// `needle` occurs somewhere in `hay`.
pub open spec fn contains_substr(hay: Seq<u8>, needle: Seq<u8>) -> bool {
    exists|i: int| is_substr_at(hay, needle, i)
}

/// First position at which `needle` occurs in `hay`, if any.
fn find_substr(hay: &Vec<u8>, needle: &Vec<u8>) -> (r: Option<usize>)
    ensures
        (r is Some) <==> contains_substr(hay@, needle@),
        r matches Some(i) ==> is_substr_at(hay@, needle@, i as int) && (forall|j: int|
            0 <= j < i ==> !is_substr_at(hay@, needle@, j)),
{
    let n = hay.len();
    let m = needle.len();
    if m > n {
        proof {
            assert(forall|j: int| !is_substr_at(hay@, needle@, j));
        }
        return None;
    }
    let mut i: usize = 0;
    while i <= n - m
        invariant
            m <= n,
            n == hay@.len(),
            m == needle@.len(),
            i <= n - m + 1,
            forall|j: int| 0 <= j < i ==> !is_substr_at(hay@, needle@, j),
        decreases n - m + 1 - i,
    {
        let mut k: usize = 0;
        let mut matches_here = true;
        while k < m
            invariant
                k <= m,
                i + m <= n,
                n == hay@.len(),
                m == needle@.len(),
                matches_here == (forall|t: int| 0 <= t < k ==> hay@[i + t] == needle@[t]),
            decreases m - k,
        {
            if hay[i + k] != needle[k] {
                matches_here = false;
            }
            k = k + 1;
        }
        if matches_here {
            proof {
                assert(hay@.subrange(i as int, i + m) =~= needle@);
                assert(is_substr_at(hay@, needle@, i as int));
                assert(contains_substr(hay@, needle@));
            }
            return Some(i);
        }
        proof {
            let t = choose|t: int| 0 <= t < m && hay@[i + t] != needle@[t];
            assert(!is_substr_at(hay@, needle@, i as int)) by {
                if hay@.subrange(i as int, i + m) == needle@ {
                    assert(hay@.subrange(i as int, i + m)[t] == hay@[i + t]);
                }
            }
        }
        i = i + 1;
    }
    proof {
        assert forall|j: int| !is_substr_at(hay@, needle@, j) by {
            if j > n - m {
                assert(j + needle@.len() > hay@.len());
            }
        }
    }
    None
}


/// Concatenation of the sources of the shaders named by the first `n`
/// handles of `att`, handles resolved against `shaders`.
pub open spec fn sources_prefix(shaders: Seq<ShaderModel>, att: Seq<u32>, n: int) -> Seq<u8>
    decreases n,
{
    if n <= 0 {
        Seq::empty()
    } else {
        sources_prefix(shaders, att, n - 1) + shaders[att[n - 1] - 1].source
    }
}

/// Concatenation of the sources of all the shaders named by `att`.
pub open spec fn sources_concat(shaders: Seq<ShaderModel>, att: Seq<u32>) -> Seq<u8> {
    sources_prefix(shaders, att, att.len() as int)
}


impl GlesModel {
    /// `h` names a shader object the driver has handed out.
    pub open spec fn shader_valid(self, h: u32) -> bool {
        1 <= h && h <= self.shaders.len()
    }

    /// The shader object named by handle `h`.
    pub open spec fn shader(self, h: u32) -> ShaderModel {
        self.shaders[h - 1]
    }

    /// `h` names a shader object that has not been deleted.
    pub open spec fn shader_live(self, h: u32) -> bool {
        self.shader_valid(h) && self.shader(h).alive
    }

    /// `p` names a program object the driver has handed out.
    pub open spec fn program_valid(self, p: u32) -> bool {
        1 <= p && p <= self.programs.len()
    }

    /// The program object named by handle `p`.
    pub open spec fn program(self, p: u32) -> ProgramModel {
        self.programs[p - 1]
    }

    /// `p` names a program object that has not been deleted.
    pub open spec fn program_live(self, p: u32) -> bool {
        self.program_valid(p) && self.program(p).alive
    }

    /// The modelled driver's link rule: at least one shader attached,
    /// every attached shader still alive and successfully compiled, and
    /// no two attached shaders of the same stage.
    pub open spec fn link_ok(self, p: u32) -> bool {
        let att = self.program(p).attached;
        &&& att.len() > 0
        &&& (forall|i: int|
            0 <= i < att.len() ==> self.shader_live(#[trigger] att[i]) && self.shader(
                att[i],
            ).status is Succeeded)
        &&& (forall|i: int, j: int|
            #![trigger att[i], att[j]]
            0 <= i < j < att.len() ==> self.shader(att[i]).kind != self.shader(att[j]).kind)
    }

    /// Concatenation of the sources of the first `n` attached shaders.
    pub open spec fn attached_sources_prefix(self, att: Seq<u32>, n: int) -> Seq<u8> {
        sources_prefix(self.shaders, att, n)
    }

    /// The source text a linked program was built from: the attached
    /// shaders' sources, in attachment order.
    pub open spec fn attached_sources(self, att: Seq<u32>) -> Seq<u8> {
        sources_concat(self.shaders, att)
    }

    /// The info log the modelled driver reports for a link failure.
    pub open spec fn link_failure_log(self, p: u32) -> Seq<char> {
        let att = self.program(p).attached;
        if att.len() == 0 {
            "program has no attached shaders"@
        } else if !(forall|i: int|
            0 <= i < att.len() ==> self.shader_live(#[trigger] att[i]) && self.shader(
                att[i],
            ).status is Succeeded) {
            "attached shader is not compiled"@
        } else {
            "duplicate shader stage attached"@
        }
    }

    /// Internal consistency of the modelled driver state: handle
    /// assignment matches the object sequences, the live counts stay
    /// within the driver's capacity, every attached handle is one the
    /// driver handed out, info logs are bounded, and the call trace
    /// agrees with the objects (every object was created by exactly one
    /// successful create call, every dead object was deleted by exactly
    /// one delete call).
    pub open spec fn wf(self) -> bool {
        &&& self.shaders.len() <= u32::MAX
        &&& self.programs.len() <= u32::MAX
        &&& live_shaders(self.shaders) <= self.capacity
        &&& live_programs(self.programs) <= self.capacity
        &&& (forall|p: int, i: int|
            0 <= p < self.programs.len() && 0 <= i < self.programs[p].attached.len()
                ==> 1 <= #[trigger] self.programs[p].attached[i]
                && self.programs[p].attached[i] <= self.shaders.len())
        &&& (forall|s: int|
            0 <= s < self.shaders.len() ==> (#[trigger] self.shaders[s].log).len()
                <= MAX_INFO_LOG_LEN)
        &&& (forall|p: int|
            0 <= p < self.programs.len() ==> (#[trigger] self.programs[p].log).len()
                <= MAX_INFO_LOG_LEN)
        &&& shader_creates(self.calls) == self.shaders.len()
        &&& shader_deletes(self.calls) + live_shaders(self.shaders) == self.shaders.len()
        &&& program_creates(self.calls) == self.programs.len()
        &&& program_deletes(self.calls) + live_programs(self.programs) == self.programs.len()
        &&& (self.current_program == 0 || self.program_valid(self.current_program))
        &&& self.bound_buffer <= self.buffers
        &&& self.bound_array <= self.arrays
    }
}

/// The state of a table right after loading: no objects, no calls issued.
pub open spec fn fresh_table(caps: Capability, capacity: u32, version: Seq<char>) -> GlesModel {
    GlesModel {
        caps,
        capacity,
        version,
        shaders: Seq::empty(),
        programs: Seq::empty(),
        buffers: 0,
        bound_buffer: 0,
        arrays: 0,
        bound_array: 0,
        current_program: 0,
        calls: Seq::empty(),
    }
}

struct ShaderObj {
    alive: bool,
    kind: ShaderKind,
    source: Vec<u8>,
    status: Status,
    log: String,
}

impl View for ShaderObj {
    type V = ShaderModel;

    closed spec fn view(&self) -> ShaderModel {
        ShaderModel {
            alive: self.alive,
            kind: self.kind,
            source: self.source@,
            status: self.status,
            log: self.log@,
        }
    }
}

struct ProgramObj {
    alive: bool,
    attached: Vec<u32>,
    status: Status,
    log: String,
    linked_source: Vec<u8>,
}

impl View for ProgramObj {
    type V = ProgramModel;

    closed spec fn view(&self) -> ProgramModel {
        ProgramModel {
            alive: self.alive,
            attached: self.attached@,
            status: self.status,
            log: self.log@,
            linked_source: self.linked_source@,
        }
    }
}

/// The loaded function table together with the modelled driver state it
/// talks to.  Obtained once per context through [`Gles::load_with`]; every
/// shader, program and frame operation of the library goes through it.
pub struct Gles {
    caps: Capability,
    capacity: u32,
    version: String,
    shaders: Vec<ShaderObj>,
    live_shaders: u32,
    programs: Vec<ProgramObj>,
    live_programs: u32,
    buffers: u32,
    bound_buffer: u32,
    arrays: u32,
    bound_array: u32,
    current_program: u32,
    calls: Vec<GlCall>,
}

impl View for Gles {
    type V = GlesModel;

    closed spec fn view(&self) -> GlesModel {
        GlesModel {
            caps: self.caps,
            capacity: self.capacity,
            version: self.version@,
            shaders: self.shaders@.map_values(|o: ShaderObj| o@),
            programs: self.programs@.map_values(|o: ProgramObj| o@),
            buffers: self.buffers,
            bound_buffer: self.bound_buffer,
            arrays: self.arrays,
            bound_array: self.bound_array,
            current_program: self.current_program,
            calls: self.calls@,
        }
    }
}

impl Gles {
    /// The modelled state is consistent and the cached live counters
    /// agree with it.
    pub closed spec fn wf(self) -> bool {
        &&& self@.wf()
        &&& self.live_shaders == live_shaders(self@.shaders)
        &&& self.live_programs == live_programs(self@.programs)
    }

    /// A well-formed table has a well-formed model.
    pub proof fn lemma_wf_model(&self)
        requires
            self.wf(),
        ensures
            self@.wf(),
    {
    }

    /// Builds the table from the addresses a platform resolver returned:
    /// one address per required entry point, plus the address of the
    /// optional vertex-array-object entry point (0 when the driver does
    /// not offer it).  Fails exactly when a required entry point did not
    /// resolve.  `capacity` is the number of live shader objects (and,
    /// separately, live program objects) the driver can hold; `version`
    /// is the driver's version string, kept for diagnostics only.
    pub fn load_with(
        required_entries: &Vec<u64>,
        vertex_array_entry: u64,
        capacity: u32,
        version: String,
    ) -> (r: Option<Gles>)
        ensures
            (r is Some) <==> (forall|i: int|
                0 <= i < required_entries@.len() ==> required_entries@[i] != 0),
            r matches Some(g) ==> g.wf() && g@ == fresh_table(
                if vertex_array_entry != 0 {
                    Capability::VertexArrays
                } else {
                    Capability::NoVertexArrays
                },
                capacity,
                version@,
            ),
    {
        let mut i: usize = 0;
        while i < required_entries.len()
            invariant
                0 <= i <= required_entries@.len(),
                forall|j: int| 0 <= j < i ==> required_entries@[j] != 0,
            decreases required_entries@.len() - i,
        {
            if required_entries[i] == 0 {
                return None;
            }
            i = i + 1;
        }
        let caps = if vertex_array_entry != 0 {
            Capability::VertexArrays
        } else {
            Capability::NoVertexArrays
        };
        let g = Gles {
            caps,
            capacity,
            version,
            shaders: Vec::new(),
            live_shaders: 0,
            programs: Vec::new(),
            live_programs: 0,
            buffers: 0,
            bound_buffer: 0,
            arrays: 0,
            bound_array: 0,
            current_program: 0,
            calls: Vec::new(),
        };
        proof {
            assert(g@ =~= fresh_table(caps, capacity, g.version@));
        }
        Some(g)
    }

    /// Which optional entry points resolved at load time.
    pub fn capability(&self) -> (r: Capability)
        ensures
            r == self@.caps,
    {
        self.caps
    }

    /// The driver's version string, as reported at load time.
    pub fn version_string(&self) -> (r: &String)
        ensures
            r@ == self@.version,
    {
        &self.version
    }

    /// The calls issued through this table so far, oldest first.
    pub fn call_log(&self) -> (r: &Vec<GlCall>)
        ensures
            r@ == self@.calls,
    {
        &self.calls
    }

    /// How many shader objects are currently alive.
    pub fn live_shader_total(&self) -> (r: u32)
        requires
            self.wf(),
        ensures
            r == live_shaders(self@.shaders),
    {
        self.live_shaders
    }

    /// How many program objects are currently alive.
    pub fn live_program_total(&self) -> (r: u32)
        requires
            self.wf(),
        ensures
            r == live_programs(self@.programs),
    {
        self.live_programs
    }

    /// The driver's handle capacity this table was loaded with.
    pub fn capacity(&self) -> (r: u32)
        ensures
            r == self@.capacity,
    {
        self.capacity
    }

    /// How many shader handles the driver has handed out so far.
    pub fn shader_count(&self) -> (r: usize)
        ensures
            r == self@.shaders.len(),
    {
        self.shaders.len()
    }

    /// How many program handles the driver has handed out so far.
    pub fn program_count(&self) -> (r: usize)
        ensures
            r == self@.programs.len(),
    {
        self.programs.len()
    }

    /// `CreateShader`: allocates a shader object of the given kind and
    /// returns its handle, or 0 when the driver is out of handles.
    pub fn create_shader(&mut self, kind: ShaderKind) -> (h: u32)
        requires
            old(self).wf(),
        ensures
            final(self).wf(),
            (h != 0) <==> (live_shaders(old(self)@.shaders) < old(self)@.capacity
                && old(self)@.shaders.len() < u32::MAX),
            h != 0 ==> h == old(self)@.shaders.len() + 1 && final(self)@ == (GlesModel {
                shaders: old(self)@.shaders.push(
                    ShaderModel {
                        alive: true,
                        kind,
                        source: Seq::empty(),
                        status: Status::Pending,
                        log: Seq::empty(),
                    },
                ),
                calls: old(self)@.calls.push(GlCall::CreateShader { handle: h }),
                ..old(self)@
            }),
            h == 0 ==> final(self)@ == (GlesModel {
                calls: old(self)@.calls.push(GlCall::CreateShader { handle: 0 }),
                ..old(self)@
            }),
    {
        if self.live_shaders < self.capacity && self.shaders.len() < u32::MAX as usize {
            let h = (self.shaders.len() as u32) + 1;
            let ghost obj_model = ShaderModel {
                alive: true,
                kind,
                source: Seq::empty(),
                status: Status::Pending,
                log: Seq::empty(),
            };
            self.shaders.push(
                ShaderObj {
                    alive: true,
                    kind,
                    source: Vec::new(),
                    status: Status::Pending,
                    log: String::new(),
                },
            );
            self.live_shaders = self.live_shaders + 1;
            self.calls.push(GlCall::CreateShader { handle: h });
            proof {
                lemma_counts_push(old(self)@.calls, GlCall::CreateShader { handle: h });
                lemma_live_shaders_push(old(self)@.shaders, obj_model);
                assert(self@.shaders =~= old(self)@.shaders.push(obj_model));
                assert(self@ =~= (GlesModel {
                    shaders: old(self)@.shaders.push(obj_model),
                    calls: old(self)@.calls.push(GlCall::CreateShader { handle: h }),
                    ..old(self)@
                }));
            }
            h
        } else {
            self.calls.push(GlCall::CreateShader { handle: 0 });
            proof {
                lemma_counts_push(old(self)@.calls, GlCall::CreateShader { handle: 0 });
                assert(self@ =~= (GlesModel {
                    calls: old(self)@.calls.push(GlCall::CreateShader { handle: 0 }),
                    ..old(self)@
                }));
            }
            0
        }
    }

    /// `ShaderSource`: replaces the source of a live shader object and
    /// resets its compile state.
    pub fn shader_source(&mut self, shader: u32, source: &Vec<u8>)
        requires
            old(self).wf(),
            old(self)@.shader_live(shader),
        ensures
            final(self).wf(),
            final(self)@ == (GlesModel {
                shaders: old(self)@.shaders.update(
                    shader - 1,
                    (ShaderModel {
                        source: source@,
                        status: Status::Pending,
                        log: Seq::empty(),
                        ..old(self)@.shader(shader)
                    }),
                ),
                calls: old(self)@.calls.push(GlCall::ShaderSource { shader }),
                ..old(self)@
            }),
    {
        let idx = (shader - 1) as usize;
        let ghost old_model = self@.shader(shader);
        let src_copy = slice_to_vec(source.as_slice());
        let sh = &mut self.shaders[idx];
        sh.source = src_copy;
        sh.status = Status::Pending;
        sh.log = String::new();
        self.calls.push(GlCall::ShaderSource { shader });
        proof {
            let ghost new_model = ShaderModel {
                source: source@,
                status: Status::Pending,
                log: Seq::empty(),
                ..old_model
            };
            lemma_counts_push(old(self)@.calls, GlCall::ShaderSource { shader });
            lemma_live_shaders_update(old(self)@.shaders, shader - 1, new_model);
            assert(self@.shaders =~= old(self)@.shaders.update(shader - 1, new_model));
            assert(self@ =~= (GlesModel {
                shaders: old(self)@.shaders.update(shader - 1, new_model),
                calls: old(self)@.calls.push(GlCall::ShaderSource { shader }),
                ..old(self)@
            }));
        }
    }

    /// `CompileShader`: compiles a live shader object.  The modelled
    /// driver accepts exactly the sources [`source_accepted`] accepts and
    /// records [`compile_failure_log`] as the info log otherwise.
    pub fn compile_shader(&mut self, shader: u32)
        requires
            old(self).wf(),
            old(self)@.shader_live(shader),
        ensures
            final(self).wf(),
            final(self)@ == (GlesModel {
                shaders: old(self)@.shaders.update(
                    shader - 1,
                    (ShaderModel {
                        status: if source_accepted(old(self)@.shader(shader).source) {
                            Status::Succeeded
                        } else {
                            Status::Failed
                        },
                        log: if source_accepted(old(self)@.shader(shader).source) {
                            Seq::empty()
                        } else {
                            compile_failure_log(old(self)@.shader(shader).source)
                        },
                        ..old(self)@.shader(shader)
                    }),
                ),
                calls: old(self)@.calls.push(GlCall::CompileShader { shader }),
                ..old(self)@
            }),
    {
        let idx = (shader - 1) as usize;
        let ghost old_model = self@.shader(shader);
        let ghost src = old_model.source;
        let n = self.shaders[idx].source.len();
        let mut depth: usize = 0;
        let mut failed = false;
        let mut i: usize = 0;
        while i < n
            invariant
                i <= n,
                old(self)@.shader_valid(shader),
                idx == shader - 1,
                n == src.len(),
                idx < self.shaders@.len(),
                src == self.shaders@[idx as int]@.source,
                failed ==> brace_scan(src, i as int) == -1,
                !failed ==> depth == brace_scan(src, i as int) && depth <= i,
            decreases n - i,
        {
            let b = self.shaders[idx].source[i];
            if !failed {
                if b == LEFT_BRACE {
                    depth = depth + 1;
                } else if b == RIGHT_BRACE {
                    if depth == 0 {
                        failed = true;
                    } else {
                        depth = depth - 1;
                    }
                }
            }
            i = i + 1;
        }
        let accepted = !failed && depth == 0 && n > 0;
        proof {
            assert(accepted == source_accepted(src));
            lemma_compile_failure_log_nonempty(src);
        }
        let sh = &mut self.shaders[idx];
        if accepted {
            sh.status = Status::Succeeded;
            sh.log = String::new();
        } else {
            sh.status = Status::Failed;
            sh.log = if n == 0 {
                String::from_str("shader source is empty")
            } else {
                String::from_str("shader source has unbalanced braces")
            };
        }
        self.calls.push(GlCall::CompileShader { shader });
        proof {
            let ghost new_model = ShaderModel {
                status: if source_accepted(src) {
                    Status::Succeeded
                } else {
                    Status::Failed
                },
                log: if source_accepted(src) {
                    Seq::empty()
                } else {
                    compile_failure_log(src)
                },
                ..old_model
            };
            lemma_counts_push(old(self)@.calls, GlCall::CompileShader { shader });
            lemma_live_shaders_update(old(self)@.shaders, shader - 1, new_model);
            assert(self@.shaders =~= old(self)@.shaders.update(shader - 1, new_model));
            assert(self@ =~= (GlesModel {
                shaders: old(self)@.shaders.update(shader - 1, new_model),
                calls: old(self)@.calls.push(GlCall::CompileShader { shader }),
                ..old(self)@
            }));
        }
    }

    /// Compile-status query (`GetShaderiv` with the compile-status flag).
    pub fn get_shader_compile_status(&self, shader: u32) -> (r: bool)
        requires
            self.wf(),
            self@.shader_valid(shader),
        ensures
            r == (self@.shader(shader).status is Succeeded),
    {
        let idx = (shader - 1) as usize;
        self.shaders[idx].status == Status::Succeeded
    }

    /// Info-log-length query (`GetShaderiv` with the info-log-length
    /// flag).  The table guarantees a sane length, so a caller can
    /// allocate `r + 1` bytes without further checks.
    pub fn get_shader_info_log_len(&self, shader: u32) -> (r: usize)
        requires
            self.wf(),
            self@.shader_valid(shader),
        ensures
            r == self@.shader(shader).log.len(),
            r <= MAX_INFO_LOG_LEN,
    {
        let idx = (shader - 1) as usize;
        proof {
            assert(self@.shaders[shader - 1].log.len() <= MAX_INFO_LOG_LEN);
        }
        self.shaders[idx].log.as_str().unicode_len()
    }

    /// `GetShaderInfoLog`: returns at most `bufsize - 1` characters of the
    /// log, the driver's convention for a buffer that keeps one byte for
    /// the terminator.
    pub fn get_shader_info_log(&self, shader: u32, bufsize: usize) -> (r: String)
        requires
            self.wf(),
            self@.shader_valid(shader),
        ensures
            r@ == if bufsize == 0 {
                Seq::<char>::empty()
            } else if self@.shader(shader).log.len() > bufsize - 1 {
                self@.shader(shader).log.subrange(0, bufsize - 1)
            } else {
                self@.shader(shader).log
            },
    {
        let idx = (shader - 1) as usize;
        if bufsize == 0 {
            String::new()
        } else {
            let len = self.shaders[idx].log.as_str().unicode_len();
            let take = if len > bufsize - 1 {
                bufsize - 1
            } else {
                len
            };
            let r = String::from_str(self.shaders[idx].log.as_str().substring_char(0, take));
            proof {
                if take == len {
                    assert(r@ =~= self@.shader(shader).log);
                }
            }
            r
        }
    }

    /// `DeleteShader`: releases a live shader object.  The handle stays
    /// known to the model (it is never reused) but the object is gone.
    pub fn delete_shader(&mut self, shader: u32)
        requires
            old(self).wf(),
            old(self)@.shader_live(shader),
        ensures
            final(self).wf(),
            final(self)@ == (GlesModel {
                shaders: old(self)@.shaders.update(
                    shader - 1,
                    (ShaderModel { alive: false, ..old(self)@.shader(shader) }),
                ),
                calls: old(self)@.calls.push(GlCall::DeleteShader { shader }),
                ..old(self)@
            }),
            live_shaders(final(self)@.shaders) + 1 == live_shaders(old(self)@.shaders),
    {
        let idx = (shader - 1) as usize;
        let ghost old_model = self@.shader(shader);
        let ghost new_model = ShaderModel { alive: false, ..old_model };
        proof {
            lemma_live_shaders_update(old(self)@.shaders, shader - 1, new_model);
        }
        let sh = &mut self.shaders[idx];
        sh.alive = false;
        self.live_shaders = self.live_shaders - 1;
        self.calls.push(GlCall::DeleteShader { shader });
        proof {
            lemma_counts_push(old(self)@.calls, GlCall::DeleteShader { shader });
            assert(self@.shaders =~= old(self)@.shaders.update(shader - 1, new_model));
            assert(self@ =~= (GlesModel {
                shaders: old(self)@.shaders.update(shader - 1, new_model),
                calls: old(self)@.calls.push(GlCall::DeleteShader { shader }),
                ..old(self)@
            }));
        }
    }

    /// `CreateProgram`: allocates a program object and returns its
    /// handle, or 0 when the driver is out of handles.
    pub fn create_program(&mut self) -> (p: u32)
        requires
            old(self).wf(),
        ensures
            final(self).wf(),
            (p != 0) <==> (live_programs(old(self)@.programs) < old(self)@.capacity
                && old(self)@.programs.len() < u32::MAX),
            p != 0 ==> p == old(self)@.programs.len() + 1 && final(self)@ == (GlesModel {
                programs: old(self)@.programs.push(
                    ProgramModel {
                        alive: true,
                        attached: Seq::empty(),
                        status: Status::Pending,
                        log: Seq::empty(),
                        linked_source: Seq::empty(),
                    },
                ),
                calls: old(self)@.calls.push(GlCall::CreateProgram { handle: p }),
                ..old(self)@
            }),
            p == 0 ==> final(self)@ == (GlesModel {
                calls: old(self)@.calls.push(GlCall::CreateProgram { handle: 0 }),
                ..old(self)@
            }),
    {
        if self.live_programs < self.capacity && self.programs.len() < u32::MAX as usize {
            let p = (self.programs.len() as u32) + 1;
            let ghost obj_model = ProgramModel {
                alive: true,
                attached: Seq::empty(),
                status: Status::Pending,
                log: Seq::empty(),
                linked_source: Seq::empty(),
            };
            self.programs.push(
                ProgramObj {
                    alive: true,
                    attached: Vec::new(),
                    status: Status::Pending,
                    log: String::new(),
                    linked_source: Vec::new(),
                },
            );
            self.live_programs = self.live_programs + 1;
            self.calls.push(GlCall::CreateProgram { handle: p });
            proof {
                lemma_counts_push(old(self)@.calls, GlCall::CreateProgram { handle: p });
                lemma_live_programs_push(old(self)@.programs, obj_model);
                assert(self@.programs =~= old(self)@.programs.push(obj_model));
                assert(self@ =~= (GlesModel {
                    programs: old(self)@.programs.push(obj_model),
                    calls: old(self)@.calls.push(GlCall::CreateProgram { handle: p }),
                    ..old(self)@
                }));
            }
            p
        } else {
            self.calls.push(GlCall::CreateProgram { handle: 0 });
            proof {
                lemma_counts_push(old(self)@.calls, GlCall::CreateProgram { handle: 0 });
                assert(self@ =~= (GlesModel {
                    calls: old(self)@.calls.push(GlCall::CreateProgram { handle: 0 }),
                    ..old(self)@
                }));
            }
            0
        }
    }

    /// `AttachShader`: adds a live shader object to the attachment list
    /// of a live program object.  The driver refuses to attach the same
    /// shader twice, so that case is excluded up front.
    pub fn attach_shader(&mut self, program: u32, shader: u32)
        requires
            old(self).wf(),
            old(self)@.program_live(program),
            old(self)@.shader_live(shader),
            !old(self)@.program(program).attached.contains(shader),
        ensures
            final(self).wf(),
            final(self)@ == (GlesModel {
                programs: old(self)@.programs.update(
                    program - 1,
                    (ProgramModel {
                        attached: old(self)@.program(program).attached.push(shader),
                        ..old(self)@.program(program)
                    }),
                ),
                calls: old(self)@.calls.push(GlCall::AttachShader { program, shader }),
                ..old(self)@
            }),
    {
        let idx = (program - 1) as usize;
        let ghost old_model = self@.program(program);
        let ghost new_model = ProgramModel {
            attached: old_model.attached.push(shader),
            ..old_model
        };
        let pr = &mut self.programs[idx];
        pr.attached.push(shader);
        self.calls.push(GlCall::AttachShader { program, shader });
        proof {
            lemma_counts_push(old(self)@.calls, GlCall::AttachShader { program, shader });
            lemma_live_programs_update(old(self)@.programs, program - 1, new_model);
            assert(self@.programs =~= old(self)@.programs.update(program - 1, new_model));
            assert(self@ =~= (GlesModel {
                programs: old(self)@.programs.update(program - 1, new_model),
                calls: old(self)@.calls.push(GlCall::AttachShader { program, shader }),
                ..old(self)@
            }));
        }
    }

    /// `LinkProgram`: links a live program object.  The modelled driver
    /// succeeds exactly under [`GlesModel::link_ok`]; on success the
    /// program remembers the concatenated sources it was linked from, on
    /// failure it records [`GlesModel::link_failure_log`].
    pub fn link_program(&mut self, program: u32)
        requires
            old(self).wf(),
            old(self)@.program_live(program),
        ensures
            final(self).wf(),
            final(self)@ == (GlesModel {
                programs: old(self)@.programs.update(
                    program - 1,
                    (ProgramModel {
                        status: if old(self)@.link_ok(program) {
                            Status::Succeeded
                        } else {
                            Status::Failed
                        },
                        log: if old(self)@.link_ok(program) {
                            Seq::empty()
                        } else {
                            old(self)@.link_failure_log(program)
                        },
                        linked_source: if old(self)@.link_ok(program) {
                            old(self)@.attached_sources(old(self)@.program(program).attached)
                        } else {
                            Seq::empty()
                        },
                        ..old(self)@.program(program)
                    }),
                ),
                calls: old(self)@.calls.push(GlCall::LinkProgram { program }),
                ..old(self)@
            }),
    {
        let idx = (program - 1) as usize;
        let ghost att = self@.program(program).attached;
        let ghost m0 = self@;
        let m = self.programs[idx].attached.len();
        let mut all_ok = true;
        let mut seen_vertex = false;
        let mut seen_fragment = false;
        let mut dup = false;
        let mut i: usize = 0;
        while i < m
            invariant
                i <= m,
                self.wf(),
                idx < self.programs@.len(),
                self@ == m0,
                att == self.programs@[idx as int]@.attached,
                m == att.len(),
                forall|j: int|
                    0 <= j < att.len() ==> 1 <= #[trigger] att[j] && att[j]
                        <= self.shaders@.len(),
                all_ok == (forall|j: int|
                    0 <= j < i ==> self@.shader_live(#[trigger] att[j]) && self@.shader(
                        att[j],
                    ).status is Succeeded),
                seen_vertex == (exists|j: int|
                    0 <= j < i && self@.shader(#[trigger] att[j]).kind is Vertex),
                seen_fragment == (exists|j: int|
                    0 <= j < i && self@.shader(#[trigger] att[j]).kind is Fragment),
                dup == (exists|j: int, k: int|
                    #![trigger att[j], att[k]]
                    0 <= j < k < i && self@.shader(att[j]).kind == self@.shader(att[k]).kind),
            decreases m - i,
        {
            let h = self.programs[idx].attached[i];
            let sidx = (h - 1) as usize;
            let ghost shm = self@.shader(att[i as int]);
            proof {
                assert(self.shaders@[sidx as int]@ == shm);
            }
            let live_ok = self.shaders[sidx].alive && self.shaders[sidx].status
                == Status::Succeeded;
            let k = self.shaders[sidx].kind;
            let new_all_ok = all_ok && live_ok;
            let mut new_dup = dup;
            let mut new_seen_vertex = seen_vertex;
            let mut new_seen_fragment = seen_fragment;
            if k == ShaderKind::Vertex {
                if seen_vertex {
                    new_dup = true;
                }
                new_seen_vertex = true;
            } else {
                if seen_fragment {
                    new_dup = true;
                }
                new_seen_fragment = true;
            }
            proof {
                assert(shm.kind == k);
                if new_dup && !dup {
                    let j = choose|j: int|
                        0 <= j < i && self@.shader(#[trigger] att[j]).kind == shm.kind;
                    assert(self@.shader(att[j]).kind == self@.shader(att[i as int]).kind);
                }
                if !new_dup {
                    assert forall|j: int, k2: int|
                        #![trigger att[j], att[k2]]
                        0 <= j < k2 < i + 1 implies self@.shader(att[j]).kind != self@.shader(
                        att[k2],
                    ).kind by {
                        if k2 == i as int {
                            assert(self@.shader(att[j]).kind != shm.kind);
                        }
                    }
                }
            }
            all_ok = new_all_ok;
            dup = new_dup;
            seen_vertex = new_seen_vertex;
            seen_fragment = new_seen_fragment;
            i = i + 1;
        }
        let ok = all_ok && !dup && m > 0;
        proof {
            assert(ok == m0.link_ok(program));
            lemma_link_failure_log_nonempty(m0, program);
        }
        let mut linked: Vec<u8> = Vec::new();
        if ok {
            let mut i2: usize = 0;
            while i2 < m
                invariant
                    i2 <= m,
                    self.wf(),
                    idx < self.programs@.len(),
                    self@ == m0,
                    att == self.programs@[idx as int]@.attached,
                    m == att.len(),
                    forall|j: int|
                        0 <= j < att.len() ==> 1 <= #[trigger] att[j] && att[j]
                            <= self.shaders@.len(),
                    linked@ == m0.attached_sources_prefix(att, i2 as int),
                decreases m - i2,
            {
                let h = self.programs[idx].attached[i2];
                let sidx = (h - 1) as usize;
                proof {
                    assert(self.shaders@[sidx as int]@ == m0.shader(att[i2 as int]));
                }
                let mut piece = slice_to_vec(self.shaders[sidx].source.as_slice());
                linked.append(&mut piece);
                i2 = i2 + 1;
            }
        }
        let ghost new_model = ProgramModel {
            status: if m0.link_ok(program) {
                Status::Succeeded
            } else {
                Status::Failed
            },
            log: if m0.link_ok(program) {
                Seq::empty()
            } else {
                m0.link_failure_log(program)
            },
            linked_source: if m0.link_ok(program) {
                m0.attached_sources(att)
            } else {
                Seq::empty()
            },
            ..m0.program(program)
        };
        let pr = &mut self.programs[idx];
        if ok {
            pr.status = Status::Succeeded;
            pr.log = String::new();
            pr.linked_source = linked;
        } else {
            pr.status = Status::Failed;
            pr.linked_source = Vec::new();
            pr.log = if m == 0 {
                String::from_str("program has no attached shaders")
            } else if !all_ok {
                String::from_str("attached shader is not compiled")
            } else {
                String::from_str("duplicate shader stage attached")
            };
        }
        self.calls.push(GlCall::LinkProgram { program });
        proof {
            lemma_counts_push(m0.calls, GlCall::LinkProgram { program });
            lemma_live_programs_update(m0.programs, program - 1, new_model);
            assert(self@.programs =~= m0.programs.update(program - 1, new_model));
            assert(self@ =~= (GlesModel {
                programs: m0.programs.update(program - 1, new_model),
                calls: m0.calls.push(GlCall::LinkProgram { program }),
                ..m0
            }));
        }
    }

    /// Link-status query (`GetProgramiv` with the link-status flag).
    pub fn get_program_link_status(&self, program: u32) -> (r: bool)
        requires
            self.wf(),
            self@.program_valid(program),
        ensures
            r == (self@.program(program).status is Succeeded),
    {
        let idx = (program - 1) as usize;
        self.programs[idx].status == Status::Succeeded
    }

    /// Info-log-length query (`GetProgramiv` with the info-log-length
    /// flag); like its shader counterpart, the length is always sane.
    pub fn get_program_info_log_len(&self, program: u32) -> (r: usize)
        requires
            self.wf(),
            self@.program_valid(program),
        ensures
            r == self@.program(program).log.len(),
            r <= MAX_INFO_LOG_LEN,
    {
        let idx = (program - 1) as usize;
        proof {
            assert(self@.programs[program - 1].log.len() <= MAX_INFO_LOG_LEN);
        }
        self.programs[idx].log.as_str().unicode_len()
    }

    /// `GetProgramInfoLog`: returns at most `bufsize - 1` characters of
    /// the log.
    pub fn get_program_info_log(&self, program: u32, bufsize: usize) -> (r: String)
        requires
            self.wf(),
            self@.program_valid(program),
        ensures
            r@ == if bufsize == 0 {
                Seq::<char>::empty()
            } else if self@.program(program).log.len() > bufsize - 1 {
                self@.program(program).log.subrange(0, bufsize - 1)
            } else {
                self@.program(program).log
            },
    {
        let idx = (program - 1) as usize;
        if bufsize == 0 {
            String::new()
        } else {
            let len = self.programs[idx].log.as_str().unicode_len();
            let take = if len > bufsize - 1 {
                bufsize - 1
            } else {
                len
            };
            let r = String::from_str(self.programs[idx].log.as_str().substring_char(0, take));
            proof {
                if take == len {
                    assert(r@ =~= self@.program(program).log);
                }
            }
            r
        }
    }

    /// `DetachShader`: removes the first attachment of `shader` from a
    /// live program object.  Detaching does not delete the shader
    /// object; it only leaves the program's attachment list.
    pub fn detach_shader(&mut self, program: u32, shader: u32)
        requires
            old(self).wf(),
            old(self)@.program_live(program),
            old(self)@.program(program).attached.contains(shader),
        ensures
            final(self).wf(),
            final(self)@ == (GlesModel {
                programs: old(self)@.programs.update(
                    program - 1,
                    (ProgramModel {
                        attached: old(self)@.program(program).attached.remove(
                            find_first(old(self)@.program(program).attached, shader),
                        ),
                        ..old(self)@.program(program)
                    }),
                ),
                calls: old(self)@.calls.push(GlCall::DetachShader { program, shader }),
                ..old(self)@
            }),
    {
        let idx = (program - 1) as usize;
        let ghost att = self@.program(program).attached;
        let n = self.programs[idx].attached.len();
        let mut j: usize = 0;
        while j < n && self.programs[idx].attached[j] != shader
            invariant
                j <= n,
                idx < self.programs@.len(),
                att == self.programs@[idx as int]@.attached,
                n == att.len(),
                forall|k: int| 0 <= k < j ==> att[k] != shader,
            decreases n - j,
        {
            j = j + 1;
        }
        proof {
            if j == n {
                let w = choose|w: int| 0 <= w < att.len() && att[w] == shader;
                assert(att[w] != shader);
            }
            lemma_find_first_at(att, shader, j as int);
        }
        let ghost new_model = ProgramModel {
            attached: att.remove(find_first(att, shader)),
            ..self@.program(program)
        };
        let pr = &mut self.programs[idx];
        pr.attached.remove(j);
        self.calls.push(GlCall::DetachShader { program, shader });
        proof {
            lemma_counts_push(old(self)@.calls, GlCall::DetachShader { program, shader });
            lemma_live_programs_update(old(self)@.programs, program - 1, new_model);
            assert(self@.programs =~= old(self)@.programs.update(program - 1, new_model));
            assert forall|p: int, k: int|
                0 <= p < self@.programs.len() && 0 <= k < self@.programs[p].attached.len()
                    implies 1 <= #[trigger] self@.programs[p].attached[k]
                && self@.programs[p].attached[k] <= self@.shaders.len() by {
                if p == program - 1 {
                    assert(self@.programs[p].attached[k] == if k < j {
                        att[k]
                    } else {
                        att[k + 1]
                    });
                }
            }
            assert(self@ =~= (GlesModel {
                programs: old(self)@.programs.update(program - 1, new_model),
                calls: old(self)@.calls.push(GlCall::DetachShader { program, shader }),
                ..old(self)@
            }));
        }
    }

    /// `UseProgram`: makes a successfully linked program current, or
    /// unbinds the current program when called with 0.
    pub fn use_program(&mut self, program: u32)
        requires
            old(self).wf(),
            program == 0 || (old(self)@.program_live(program) && old(self)@.program(
                program,
            ).status is Succeeded),
        ensures
            final(self).wf(),
            final(self)@ == (GlesModel {
                current_program: program,
                calls: old(self)@.calls.push(GlCall::UseProgram { program }),
                ..old(self)@
            }),
    {
        self.current_program = program;
        self.calls.push(GlCall::UseProgram { program });
        proof {
            lemma_counts_push(old(self)@.calls, GlCall::UseProgram { program });
            assert(self@ =~= (GlesModel {
                current_program: program,
                calls: old(self)@.calls.push(GlCall::UseProgram { program }),
                ..old(self)@
            }));
        }
    }

    /// `DeleteProgram`: releases a live program object; if it was the
    /// current program, nothing is current afterwards.
    pub fn delete_program(&mut self, program: u32)
        requires
            old(self).wf(),
            old(self)@.program_live(program),
        ensures
            final(self).wf(),
            final(self)@ == (GlesModel {
                programs: old(self)@.programs.update(
                    program - 1,
                    (ProgramModel { alive: false, ..old(self)@.program(program) }),
                ),
                current_program: if old(self)@.current_program == program {
                    0
                } else {
                    old(self)@.current_program
                },
                calls: old(self)@.calls.push(GlCall::DeleteProgram { program }),
                ..old(self)@
            }),
            live_programs(final(self)@.programs) + 1 == live_programs(old(self)@.programs),
    {
        let idx = (program - 1) as usize;
        let ghost new_model = ProgramModel { alive: false, ..self@.program(program) };
        proof {
            lemma_live_programs_update(old(self)@.programs, program - 1, new_model);
        }
        let pr = &mut self.programs[idx];
        pr.alive = false;
        self.live_programs = self.live_programs - 1;
        if self.current_program == program {
            self.current_program = 0;
        }
        self.calls.push(GlCall::DeleteProgram { program });
        proof {
            lemma_counts_push(old(self)@.calls, GlCall::DeleteProgram { program });
            assert(self@.programs =~= old(self)@.programs.update(program - 1, new_model));
            assert(self@ =~= (GlesModel {
                programs: old(self)@.programs.update(program - 1, new_model),
                current_program: if old(self)@.current_program == program {
                    0u32
                } else {
                    old(self)@.current_program
                },
                calls: old(self)@.calls.push(GlCall::DeleteProgram { program }),
                ..old(self)@
            }));
        }
    }

    /// `GetAttribLocation`: resolves a named attribute against a linked
    /// program.  The modelled driver finds a name exactly when it occurs
    /// in the source text the program was linked from, and reports the
    /// byte position of its first occurrence as the location.
    pub fn get_attrib_location(&self, program: u32, name: &Vec<u8>) -> (r: Option<usize>)
        requires
            self.wf(),
            self@.program_live(program),
            self@.program(program).status is Succeeded,
        ensures
            (r is Some) <==> contains_substr(self@.program(program).linked_source, name@),
            r matches Some(i) ==> is_substr_at(
                self@.program(program).linked_source,
                name@,
                i as int,
            ) && (forall|j: int|
                0 <= j < i ==> !is_substr_at(self@.program(program).linked_source, name@, j)),
    {
        let idx = (program - 1) as usize;
        find_substr(&self.programs[idx].linked_source, name)
    }

    /// `GetUniformLocation`: resolves a named uniform; the modelled
    /// driver resolves uniforms and attributes by the same rule.
    pub fn get_uniform_location(&self, program: u32, name: &Vec<u8>) -> (r: Option<usize>)
        requires
            self.wf(),
            self@.program_live(program),
            self@.program(program).status is Succeeded,
        ensures
            (r is Some) <==> contains_substr(self@.program(program).linked_source, name@),
            r matches Some(i) ==> is_substr_at(
                self@.program(program).linked_source,
                name@,
                i as int,
            ) && (forall|j: int|
                0 <= j < i ==> !is_substr_at(self@.program(program).linked_source, name@, j)),
    {
        let idx = (program - 1) as usize;
        find_substr(&self.programs[idx].linked_source, name)
    }

    /// `Viewport`: sets the drawing rectangle.
    pub fn viewport(&mut self, width: i32, height: i32)
        requires
            old(self).wf(),
            0 <= width,
            0 <= height,
        ensures
            final(self).wf(),
            final(self)@ == (GlesModel {
                calls: old(self)@.calls.push(GlCall::Viewport { width, height }),
                ..old(self)@
            }),
    {
        self.calls.push(GlCall::Viewport { width, height });
        proof {
            lemma_counts_push(old(self)@.calls, GlCall::Viewport { width, height });
            assert(self@ =~= (GlesModel {
                calls: old(self)@.calls.push(GlCall::Viewport { width, height }),
                ..old(self)@
            }));
        }
    }

    /// `Clear`: clears the colour buffer.
    pub fn clear(&mut self)
        requires
            old(self).wf(),
        ensures
            final(self).wf(),
            final(self)@ == (GlesModel {
                calls: old(self)@.calls.push(GlCall::Clear),
                ..old(self)@
            }),
    {
        self.calls.push(GlCall::Clear);
        proof {
            lemma_counts_push(old(self)@.calls, GlCall::Clear);
            assert(self@ =~= (GlesModel { calls: old(self)@.calls.push(GlCall::Clear), ..old(self)@ }));
        }
    }

    /// `GenBuffers` for a single buffer: returns a fresh buffer handle,
    /// or 0 when the driver is out of handles.
    pub fn gen_buffer(&mut self) -> (b: u32)
        requires
            old(self).wf(),
        ensures
            final(self).wf(),
            (b != 0) <==> old(self)@.buffers < u32::MAX,
            b != 0 ==> b == old(self)@.buffers + 1 && final(self)@ == (GlesModel {
                buffers: b,
                calls: old(self)@.calls.push(GlCall::GenBuffer { handle: b }),
                ..old(self)@
            }),
            b == 0 ==> final(self)@ == (GlesModel {
                calls: old(self)@.calls.push(GlCall::GenBuffer { handle: 0 }),
                ..old(self)@
            }),
    {
        if self.buffers < u32::MAX {
            let b = self.buffers + 1;
            self.buffers = b;
            self.calls.push(GlCall::GenBuffer { handle: b });
            proof {
                lemma_counts_push(old(self)@.calls, GlCall::GenBuffer { handle: b });
                assert(self@ =~= (GlesModel {
                    buffers: b,
                    calls: old(self)@.calls.push(GlCall::GenBuffer { handle: b }),
                    ..old(self)@
                }));
            }
            b
        } else {
            self.calls.push(GlCall::GenBuffer { handle: 0 });
            proof {
                lemma_counts_push(old(self)@.calls, GlCall::GenBuffer { handle: 0 });
                assert(self@ =~= (GlesModel {
                    calls: old(self)@.calls.push(GlCall::GenBuffer { handle: 0 }),
                    ..old(self)@
                }));
            }
            0
        }
    }

    /// `BindBuffer`: makes a generated buffer (or 0, meaning none)
    /// current for vertex data.
    pub fn bind_buffer(&mut self, buffer: u32)
        requires
            old(self).wf(),
            buffer == 0 || buffer <= old(self)@.buffers,
        ensures
            final(self).wf(),
            final(self)@ == (GlesModel {
                bound_buffer: buffer,
                calls: old(self)@.calls.push(GlCall::BindBuffer { buffer }),
                ..old(self)@
            }),
    {
        self.bound_buffer = buffer;
        self.calls.push(GlCall::BindBuffer { buffer });
        proof {
            lemma_counts_push(old(self)@.calls, GlCall::BindBuffer { buffer });
            assert(self@ =~= (GlesModel {
                bound_buffer: buffer,
                calls: old(self)@.calls.push(GlCall::BindBuffer { buffer }),
                ..old(self)@
            }));
        }
    }

    /// `BufferData`: uploads `len` bytes of vertex data to the buffer
    /// currently bound.
    pub fn buffer_data(&mut self, len: usize)
        requires
            old(self).wf(),
            old(self)@.bound_buffer != 0,
        ensures
            final(self).wf(),
            final(self)@ == (GlesModel {
                calls: old(self)@.calls.push(GlCall::BufferData { len }),
                ..old(self)@
            }),
    {
        self.calls.push(GlCall::BufferData { len });
        proof {
            lemma_counts_push(old(self)@.calls, GlCall::BufferData { len });
            assert(self@ =~= (GlesModel {
                calls: old(self)@.calls.push(GlCall::BufferData { len }),
                ..old(self)@
            }));
        }
    }

    /// `GenVertexArrays` for a single array object.  Only available when
    /// the optional entry points resolved at load time: calling an
    /// unresolved entry point would be undefined behaviour, so the
    /// capability is a precondition, never a runtime branch here.
    pub fn gen_vertex_array(&mut self) -> (a: u32)
        requires
            old(self).wf(),
            old(self)@.caps is VertexArrays,
        ensures
            final(self).wf(),
            (a != 0) <==> old(self)@.arrays < u32::MAX,
            a != 0 ==> a == old(self)@.arrays + 1 && final(self)@ == (GlesModel {
                arrays: a,
                calls: old(self)@.calls.push(GlCall::GenVertexArray { handle: a }),
                ..old(self)@
            }),
            a == 0 ==> final(self)@ == (GlesModel {
                calls: old(self)@.calls.push(GlCall::GenVertexArray { handle: 0 }),
                ..old(self)@
            }),
    {
        if self.arrays < u32::MAX {
            let a = self.arrays + 1;
            self.arrays = a;
            self.calls.push(GlCall::GenVertexArray { handle: a });
            proof {
                lemma_counts_push(old(self)@.calls, GlCall::GenVertexArray { handle: a });
                assert(self@ =~= (GlesModel {
                    arrays: a,
                    calls: old(self)@.calls.push(GlCall::GenVertexArray { handle: a }),
                    ..old(self)@
                }));
            }
            a
        } else {
            self.calls.push(GlCall::GenVertexArray { handle: 0 });
            proof {
                lemma_counts_push(old(self)@.calls, GlCall::GenVertexArray { handle: 0 });
                assert(self@ =~= (GlesModel {
                    calls: old(self)@.calls.push(GlCall::GenVertexArray { handle: 0 }),
                    ..old(self)@
                }));
            }
            0
        }
    }

    /// `BindVertexArray`; like [`Gles::gen_vertex_array`], only available
    /// when the capability resolved.
    pub fn bind_vertex_array(&mut self, array: u32)
        requires
            old(self).wf(),
            old(self)@.caps is VertexArrays,
            array == 0 || array <= old(self)@.arrays,
        ensures
            final(self).wf(),
            final(self)@ == (GlesModel {
                bound_array: array,
                calls: old(self)@.calls.push(GlCall::BindVertexArray { array }),
                ..old(self)@
            }),
    {
        self.bound_array = array;
        self.calls.push(GlCall::BindVertexArray { array });
        proof {
            lemma_counts_push(old(self)@.calls, GlCall::BindVertexArray { array });
            assert(self@ =~= (GlesModel {
                bound_array: array,
                calls: old(self)@.calls.push(GlCall::BindVertexArray { array }),
                ..old(self)@
            }));
        }
    }

    /// `Uniform4fv` for one four-component uniform at a resolved
    /// location.
    pub fn uniform4(&mut self, location: usize)
        requires
            old(self).wf(),
        ensures
            final(self).wf(),
            final(self)@ == (GlesModel {
                calls: old(self)@.calls.push(GlCall::Uniform4 { location }),
                ..old(self)@
            }),
    {
        self.calls.push(GlCall::Uniform4 { location });
        proof {
            lemma_counts_push(old(self)@.calls, GlCall::Uniform4 { location });
            assert(self@ =~= (GlesModel {
                calls: old(self)@.calls.push(GlCall::Uniform4 { location }),
                ..old(self)@
            }));
        }
    }

    /// `EnableVertexAttribArray` at a resolved location.
    pub fn enable_vertex_attrib_array(&mut self, location: usize)
        requires
            old(self).wf(),
        ensures
            final(self).wf(),
            final(self)@ == (GlesModel {
                calls: old(self)@.calls.push(GlCall::EnableVertexAttribArray { location }),
                ..old(self)@
            }),
    {
        self.calls.push(GlCall::EnableVertexAttribArray { location });
        proof {
            lemma_counts_push(old(self)@.calls, GlCall::EnableVertexAttribArray { location });
            assert(self@ =~= (GlesModel {
                calls: old(self)@.calls.push(GlCall::EnableVertexAttribArray { location }),
                ..old(self)@
            }));
        }
    }

    /// `VertexAttribPointer`: describes the vertex layout at a resolved
    /// location, taken from the buffer currently bound.
    pub fn vertex_attrib_pointer(&mut self, location: usize)
        requires
            old(self).wf(),
            old(self)@.bound_buffer != 0,
        ensures
            final(self).wf(),
            final(self)@ == (GlesModel {
                calls: old(self)@.calls.push(GlCall::VertexAttribPointer { location }),
                ..old(self)@
            }),
    {
        self.calls.push(GlCall::VertexAttribPointer { location });
        proof {
            lemma_counts_push(old(self)@.calls, GlCall::VertexAttribPointer { location });
            assert(self@ =~= (GlesModel {
                calls: old(self)@.calls.push(GlCall::VertexAttribPointer { location }),
                ..old(self)@
            }));
        }
    }

    /// `DrawArrays`: issues the draw call for `count` vertices starting
    /// at `first`.
    pub fn draw_arrays(&mut self, first: i32, count: i32)
        requires
            old(self).wf(),
            0 <= first,
            0 <= count,
        ensures
            final(self).wf(),
            final(self)@ == (GlesModel {
                calls: old(self)@.calls.push(GlCall::DrawArrays { first, count }),
                ..old(self)@
            }),
    {
        self.calls.push(GlCall::DrawArrays { first, count });
        proof {
            lemma_counts_push(old(self)@.calls, GlCall::DrawArrays { first, count });
            assert(self@ =~= (GlesModel {
                calls: old(self)@.calls.push(GlCall::DrawArrays { first, count }),
                ..old(self)@
            }));
        }
    }
}


/// A handle the driver handed out is released at most once and never
/// silently lost: at any well-formed table state the create and delete
/// counts in the call trace balance against the objects still alive.  In
/// particular, once nothing is left alive, every create call is matched
/// by exactly one delete call.
pub proof fn lemma_handle_balance(g: &Gles)
    requires
        g.wf(),
    ensures
        shader_creates(g@.calls) == shader_deletes(g@.calls) + live_shaders(g@.shaders),
        program_creates(g@.calls) == program_deletes(g@.calls) + live_programs(g@.programs),
        live_shaders(g@.shaders) == 0 ==> shader_creates(g@.calls) == shader_deletes(g@.calls),
        live_programs(g@.programs) == 0 ==> program_creates(g@.calls) == program_deletes(
            g@.calls,
        ),
{
    g.lemma_wf_model();
}

} // verus!
