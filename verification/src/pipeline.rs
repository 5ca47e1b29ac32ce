//! Planning the descriptor wiring of a pipeline.
//!
//! A pipeline of `n` commands needs `n - 1` anonymous pipes: stage `i`
//! reads the previous pipe on descriptor 0 and writes the next pipe on
//! descriptor 1, the first and last stages inheriting the shell's own
//! standard input and output.  On top of that wiring each command's
//! explicit redirections are applied in declaration order, so a later
//! redirection of a descriptor supersedes an earlier one, and any
//! explicit redirection wins over the pipe-derived assignment.
//!
//! The plan is purely descriptive: opening paths, allocating pipes and
//! duplicating descriptors happen outside the library, which is also
//! where an open failure is confined to its own stage while the sibling
//! stages still run with their pipe ends.

use vstd::prelude::*;

verus! {

/// One explicit redirection of a command, in declaration order.  The
/// optional first field is an explicit target descriptor; without it the
/// operator's usual descriptor applies (0 for input, 1 for output).
#[derive(Clone, PartialEq, Eq, Debug)]
pub enum Redirect {
    /// `[n]< path` — read from a path.
    ReadFile(Option<u32>, String),
    /// `[n]> path` — write to a path, truncating or creating it.
    WriteFile(Option<u32>, String),
    /// `[n]>> path` — append to a path, creating it if needed.
    AppendFile(Option<u32>, String),
    /// `[n]<& m` — duplicate descriptor `m` for input.
    DupRead(Option<u32>, u32),
    /// `[n]>& m` — duplicate descriptor `m` for output.
    DupWrite(Option<u32>, u32),
    /// `[n]<< body` — feed a collected here-document body.
    HereDoc(Option<u32>, String),
}

/// One pipeline stage: a program name, its arguments, and its explicit
/// redirections in declaration order.
#[derive(Clone, PartialEq, Eq, Debug)]
pub struct Command {
    pub prog: String,
    pub args: Vec<String>,
    pub redirects: Vec<Redirect>,
}

/// An ordered, non-empty chain of commands connected by pipes.
#[derive(Clone, PartialEq, Eq, Debug)]
pub struct Pipeline {
    pub stages: Vec<Command>,
}

/// Where a stage's descriptor gets its bytes: inherited from the shell,
/// an end of a numbered inter-stage pipe, an opened path, a duplicate of
/// another of the stage's descriptors, or a pipe fed a here-document body.
#[derive(Clone, PartialEq, Eq, Debug)]
pub enum FdSource {
    /// Inherited from the shell unchanged.
    Inherit,
    /// The read end of inter-stage pipe `i`.
    PipeRead(usize),
    /// The write end of inter-stage pipe `i`.
    PipeWrite(usize),
    /// A path opened read-only.
    ReadFile(String),
    /// A path opened for writing, truncated or created.
    WriteFile(String),
    /// A path opened for appending, created if needed.
    AppendFile(String),
    /// A duplicate of the stage's descriptor `m`.
    Dup(u32),
    /// The read end of a fresh pipe whose write end is fed this body.
    HereDoc(String),
}

/// One descriptor assignment of a stage's plan.
#[derive(Clone, PartialEq, Eq, Debug)]
pub struct FdBinding {
    pub fd: u32,
    pub src: FdSource,
}

/// The plan of one stage: the program, its arguments, and the descriptor
/// bindings in order of application — a later binding supersedes an
/// earlier one for the same descriptor.
#[derive(Clone, PartialEq, Eq, Debug)]
pub struct StagePlan {
    pub prog: String,
    pub args: Vec<String>,
    pub fds: Vec<FdBinding>,
}

/// The plan of a whole pipeline: how many pipes to allocate and one plan
/// per stage.
#[derive(Clone, PartialEq, Eq, Debug)]
pub struct PipelinePlan {
    pub n_pipes: usize,
    pub stages: Vec<StagePlan>,
}

/// The descriptor a redirection targets: the explicit number if given,
/// otherwise 0 for the input-like operators and 1 for the output-like.
pub open spec fn target_fd_spec(r: Redirect) -> u32 {
    match r {
        Redirect::ReadFile(fd, _) => fd.unwrap_or(0),
        Redirect::WriteFile(fd, _) => fd.unwrap_or(1),
        Redirect::AppendFile(fd, _) => fd.unwrap_or(1),
        Redirect::DupRead(fd, _) => fd.unwrap_or(0),
        Redirect::DupWrite(fd, _) => fd.unwrap_or(1),
        Redirect::HereDoc(fd, _) => fd.unwrap_or(0),
    }
}

/// The source a redirection assigns to its target descriptor.
pub open spec fn redirect_source_spec(r: Redirect) -> FdSource {
    match r {
        Redirect::ReadFile(_, path) => FdSource::ReadFile(path),
        Redirect::WriteFile(_, path) => FdSource::WriteFile(path),
        Redirect::AppendFile(_, path) => FdSource::AppendFile(path),
        Redirect::DupRead(_, m) => FdSource::Dup(m),
        Redirect::DupWrite(_, m) => FdSource::Dup(m),
        Redirect::HereDoc(_, body) => FdSource::HereDoc(body),
    }
}

/// The binding a redirection contributes to a stage's plan.
pub open spec fn binding_of(r: Redirect) -> FdBinding {
    FdBinding { fd: target_fd_spec(r), src: redirect_source_spec(r) }
}

/// The source that governs descriptor `fd` under a run of bindings: the
/// last binding that targets it, or inheritance if none does.
pub open spec fn bound_source(fds: Seq<FdBinding>, fd: u32) -> FdSource
    decreases fds.len(),
{
    if fds.len() == 0 {
        FdSource::Inherit
    } else if fds.last().fd == fd {
        fds.last().src
    } else {
        bound_source(fds.drop_last(), fd)
    }
}

/// The last explicit redirection of `rs` that targets `fd`, if any.
pub open spec fn last_redirect(rs: Seq<Redirect>, fd: u32) -> Option<Redirect>
    decreases rs.len(),
{
    if rs.len() == 0 {
        None
    } else if target_fd_spec(rs.last()) == fd {
        Some(rs.last())
    } else {
        last_redirect(rs.drop_last(), fd)
    }
}

/// The pipe-derived assignment of descriptor `fd` for stage `i` of `n`:
/// descriptor 0 reads pipe `i - 1` unless the stage is first, descriptor
/// 1 writes pipe `i` unless the stage is last, and every other
/// descriptor is inherited.
pub open spec fn pipe_wiring(i: int, n: int, fd: u32) -> FdSource {
    if fd == 0 && i > 0 {
        FdSource::PipeRead((i - 1) as usize)
    } else if fd == 1 && i < n - 1 {
        FdSource::PipeWrite(i as usize)
    } else {
        FdSource::Inherit
    }
}

/// What stage `i` of `n` must assign to descriptor `fd`: the last
/// explicit redirection of that descriptor if there is one — explicit
/// redirection always wins — and the pipe-derived assignment otherwise.
pub open spec fn planned_source(c: Command, i: int, n: int, fd: u32) -> FdSource {
    match last_redirect(c.redirects@, fd) {
        Some(r) => redirect_source_spec(r),
        None => pipe_wiring(i, n, fd),
    }
}

/// Exec counterpart of [`target_fd_spec`].
pub fn target_fd(r: &Redirect) -> (fd: u32)
    ensures
        fd == target_fd_spec(*r),
{
    match r {
        Redirect::ReadFile(fd, _) => (*fd).unwrap_or(0),
        Redirect::WriteFile(fd, _) => (*fd).unwrap_or(1),
        Redirect::AppendFile(fd, _) => (*fd).unwrap_or(1),
        Redirect::DupRead(fd, _) => (*fd).unwrap_or(0),
        Redirect::DupWrite(fd, _) => (*fd).unwrap_or(1),
        Redirect::HereDoc(fd, _) => (*fd).unwrap_or(0),
    }
}

/// Exec counterpart of [`redirect_source_spec`].
pub fn redirect_source(r: &Redirect) -> (src: FdSource)
    ensures
        src == redirect_source_spec(*r),
{
    match r {
        Redirect::ReadFile(_, path) => FdSource::ReadFile(path.clone()),
        Redirect::WriteFile(_, path) => FdSource::WriteFile(path.clone()),
        Redirect::AppendFile(_, path) => FdSource::AppendFile(path.clone()),
        Redirect::DupRead(_, m) => FdSource::Dup(*m),
        Redirect::DupWrite(_, m) => FdSource::Dup(*m),
        Redirect::HereDoc(_, body) => FdSource::HereDoc(body.clone()),
    }
}

/// Appending the bindings of a run of redirections to a prefix of
/// bindings: the last redirection of a descriptor governs it, and a
/// descriptor no redirection targets keeps whatever the prefix gave it.
pub proof fn lemma_bound_after_redirects(prefix: Seq<FdBinding>, rs: Seq<Redirect>, fd: u32)
    ensures
        bound_source(prefix + rs.map_values(|r: Redirect| binding_of(r)), fd) == (
        match last_redirect(rs, fd) {
            Some(r) => redirect_source_spec(r),
            None => bound_source(prefix, fd),
        }),
    decreases rs.len(),
{
    let all = prefix + rs.map_values(|r: Redirect| binding_of(r));
    if rs.len() == 0 {
        assert(all =~= prefix);
    } else {
        assert(all.last() == binding_of(rs.last()));
        if target_fd_spec(rs.last()) == fd {
        } else {
            lemma_bound_after_redirects(prefix, rs.drop_last(), fd);
            assert(all.drop_last() =~= prefix + rs.drop_last().map_values(
                |r: Redirect| binding_of(r),
            ));
        }
    }
}

/// Appending one binding: it governs its own descriptor and leaves every
/// other descriptor to the bindings before it.
pub proof fn lemma_bound_push(fds: Seq<FdBinding>, b: FdBinding, fd: u32)
    ensures
        bound_source(fds.push(b), fd) == (if b.fd == fd {
            b.src
        } else {
            bound_source(fds, fd)
        }),
{
    assert(fds.push(b).drop_last() =~= fds);
}

/// A later redirection supersedes an earlier one of the same descriptor
/// and leaves every other descriptor untouched: redirections compose in
/// declaration order.
pub proof fn lemma_declaration_order(rs: Seq<Redirect>, r: Redirect, fd: u32)
    ensures
        last_redirect(rs.push(r), fd) == (if target_fd_spec(r) == fd {
            Some(r)
        } else {
            last_redirect(rs, fd)
        }),
{
    assert(rs.push(r).drop_last() =~= rs);
}

/// An explicitly redirected descriptor never keeps its pipe-derived
/// assignment: the redirection wins.
pub proof fn lemma_redirect_overrides_pipe(c: Command, i: int, n: int, fd: u32)
    requires
        last_redirect(c.redirects@, fd) is Some,
    ensures
        planned_source(c, i, n, fd) == redirect_source_spec(last_redirect(c.redirects@, fd)->0),
{
}

/// A descriptor with no explicit redirection keeps its pipe-derived
/// assignment.
pub proof fn lemma_pipe_wiring_by_default(c: Command, i: int, n: int, fd: u32)
    requires
        last_redirect(c.redirects@, fd) is None,
    ensures
        planned_source(c, i, n, fd) == pipe_wiring(i, n, fd),
{
}

fn clone_strings(v: &Vec<String>) -> (r: Vec<String>)
    ensures
        r@ == v@,
{
    let mut r: Vec<String> = Vec::new();
    let mut i: usize = 0;
    while i < v.len()
        invariant
            i <= v@.len(),
            r@ =~= v@.subrange(0, i as int),
        decreases v@.len() - i,
    {
        r.push(v[i].clone());
        i = i + 1;
    }
    proof {
        assert(v@.subrange(0, v@.len() as int) =~= v@);
    }
    r
}

fn plan_stage(c: &Command, i: usize, n: usize) -> (plan: StagePlan)
    requires
        i < n,
    ensures
        plan.prog == c.prog,
        plan.args@ == c.args@,
        forall|fd: u32| bound_source(plan.fds@, fd) == planned_source(*c, i as int, n as int, fd),
{
    let mut fds: Vec<FdBinding> = Vec::new();
    if i > 0 {
        fds.push(FdBinding { fd: 0, src: FdSource::PipeRead(i - 1) });
    }
    if i < n - 1 {
        fds.push(FdBinding { fd: 1, src: FdSource::PipeWrite(i) });
    }
    let ghost wiring = fds@;
    let ghost b_in = FdBinding { fd: 0u32, src: FdSource::PipeRead((i - 1) as usize) };
    let ghost b_out = FdBinding { fd: 1u32, src: FdSource::PipeWrite(i as usize) };
    proof {
        let e = Seq::<FdBinding>::empty();
        assert forall|fd: u32| bound_source(wiring, fd) == pipe_wiring(
            i as int,
            n as int,
            fd,
        ) by {
            assert(bound_source(e, fd) == FdSource::Inherit);
            if i > 0 && i + 1 < n {
                assert(wiring =~= e.push(b_in).push(b_out));
                lemma_bound_push(e.push(b_in), b_out, fd);
                lemma_bound_push(e, b_in, fd);
            } else if i > 0 {
                assert(wiring =~= e.push(b_in));
                lemma_bound_push(e, b_in, fd);
            } else if i + 1 < n {
                assert(wiring =~= e.push(b_out));
                lemma_bound_push(e, b_out, fd);
            } else {
                assert(wiring =~= e);
            }
        }
    }
    let mut j: usize = 0;
    while j < c.redirects.len()
        invariant
            j <= c.redirects@.len(),
            fds@ =~= wiring + c.redirects@.subrange(0, j as int).map_values(
                |r: Redirect| binding_of(r),
            ),
        decreases c.redirects@.len() - j,
    {
        let r = &c.redirects[j];
        let fd = target_fd(r);
        let src = redirect_source(r);
        fds.push(FdBinding { fd, src });
        proof {
            assert(c.redirects@.subrange(0, j + 1).drop_last() =~= c.redirects@.subrange(
                0,
                j as int,
            ));
            assert(fds@ =~= wiring + c.redirects@.subrange(0, j + 1).map_values(
                |r: Redirect| binding_of(r),
            ));
        }
        j = j + 1;
    }
    proof {
        assert(c.redirects@.subrange(0, c.redirects@.len() as int) =~= c.redirects@);
        assert forall|fd: u32|
            bound_source(fds@, fd) == planned_source(*c, i as int, n as int, fd) by {
            lemma_bound_after_redirects(wiring, c.redirects@, fd);
        }
    }
    StagePlan { prog: c.prog.clone(), args: clone_strings(&c.args), fds }
}

/// Builds the execution plan of a pipeline of `n` commands: `n - 1`
/// pipes, and per stage the pipe-derived wiring with the stage's explicit
/// redirections applied on top in declaration order.
pub fn build_plan(p: &Pipeline) -> (plan: PipelinePlan)
    requires
        p.stages@.len() >= 1,
    ensures
        plan.n_pipes == p.stages@.len() - 1,
        plan.stages@.len() == p.stages@.len(),
        forall|i: int| #![trigger plan.stages@[i]]
            0 <= i < p.stages@.len() ==> {
                &&& plan.stages@[i].prog == p.stages@[i].prog
                &&& plan.stages@[i].args@ == p.stages@[i].args@
                &&& forall|fd: u32|
                    bound_source(plan.stages@[i].fds@, fd) == planned_source(
                        p.stages@[i],
                        i,
                        p.stages@.len() as int,
                        fd,
                    )
            },
{
    let n = p.stages.len();
    let mut stages: Vec<StagePlan> = Vec::new();
    let mut i: usize = 0;
    while i < n
        invariant
            i <= n,
            n == p.stages@.len(),
            stages@.len() == i,
            forall|k: int| #![trigger stages@[k]]
                0 <= k < i ==> {
                    &&& stages@[k].prog == p.stages@[k].prog
                    &&& stages@[k].args@ == p.stages@[k].args@
                    &&& forall|fd: u32|
                        bound_source(stages@[k].fds@, fd) == planned_source(
                            p.stages@[k],
                            k,
                            n as int,
                            fd,
                        )
                },
        decreases n - i,
    {
        let sp = plan_stage(&p.stages[i], i, n);
        stages.push(sp);
        i = i + 1;
    }
    PipelinePlan { n_pipes: n - 1, stages }
}

/// Copies a descriptor source.
pub fn copy_source(s: &FdSource) -> (r: FdSource)
    ensures
        r == *s,
{
    match s {
        FdSource::Inherit => FdSource::Inherit,
        FdSource::PipeRead(i) => FdSource::PipeRead(*i),
        FdSource::PipeWrite(i) => FdSource::PipeWrite(*i),
        FdSource::ReadFile(path) => FdSource::ReadFile(path.clone()),
        FdSource::WriteFile(path) => FdSource::WriteFile(path.clone()),
        FdSource::AppendFile(path) => FdSource::AppendFile(path.clone()),
        FdSource::Dup(m) => FdSource::Dup(*m),
        FdSource::HereDoc(body) => FdSource::HereDoc(body.clone()),
    }
}

/// Looks a descriptor up in a stage's plan, later bindings superseding
/// earlier ones — the executable counterpart of [`bound_source`].
pub fn resolved_source(plan: &StagePlan, fd: u32) -> (src: FdSource)
    ensures
        src == bound_source(plan.fds@, fd),
{
    let mut k: usize = plan.fds.len();
    proof {
        assert(plan.fds@.subrange(0, plan.fds@.len() as int) =~= plan.fds@);
    }
    while k > 0
        invariant
            k <= plan.fds@.len(),
            bound_source(plan.fds@, fd) == bound_source(plan.fds@.subrange(0, k as int), fd),
        decreases k,
    {
        let b = &plan.fds[k - 1];
        if b.fd == fd {
            proof {
                assert(plan.fds@.subrange(0, k as int).last() == plan.fds@[k - 1]);
            }
            return copy_source(&b.src);
        }
        proof {
            assert(plan.fds@.subrange(0, k as int).drop_last() =~= plan.fds@.subrange(
                0,
                k - 1,
            ));
        }
        k = k - 1;
    }
    proof {
        assert(plan.fds@.subrange(0, 0) =~= Seq::<FdBinding>::empty());
    }
    FdSource::Inherit
}

} // verus!
