//! Shell runtime hooks: callbacks that the shell runs on events, one table of
//! callbacks for each kind of event.

use crate::line::LineModeSwitchCtx;
use std::path::PathBuf;
use std::time::Duration;
use vstd::prelude::*;

verus! {

/// `std::path::PathBuf`, taken as opaque: hooks are handed paths and the
/// tables never look into them.
#[verifier::external_type_specification]
#[verifier::external_body]
pub struct ExPathBuf(std::path::PathBuf);

/// Why a hook failed.
#[derive(Debug)]
pub struct HookError {
    pub message: String,
}

/// How a job ended.
#[derive(Clone, Copy, Debug, PartialEq, Eq, Structural)]
pub struct ExitStatus {
    pub code: i32,
}

impl ExitStatus {
    /// The exit code.
    pub fn code(&self) -> (c: i32)
        ensures
            c == self.code,
    {
        self.code
    }
}

/// What the hooks run at startup are told.
#[derive(Debug)]
pub struct StartupCtx {
    /// How long the shell took to start.
    pub startup_time: Duration,
}

/// What the hooks run before a command are told.
#[derive(Clone, Debug)]
pub struct BeforeCommandCtx {
    /// The command as the user typed it.
    pub raw_command: String,
    /// The command to be executed, all substitutions made.
    pub command: String,
}

/// What the hooks run on a change of directory are told.
#[derive(Debug)]
pub struct ChangeDirCtx {
    pub old_dir: PathBuf,
    pub new_dir: PathBuf,
}

/// What the hooks run at the end of a job are told.
#[derive(Clone, Debug)]
pub struct JobExitCtx {
    pub status: ExitStatus,
}

/// A callback for events that come with a context of type `C`, run on a
/// shell state of type `S`.
pub trait Hook<S, C> {
    /// What one call may do: it takes the state from `before` to `after` and
    /// returns `r`. A callback that says nothing may do anything.
    open spec fn effect(&self, before: S, ctx: C, after: S, r: Result<(), HookError>) -> bool {
        true
    }

    /// Runs the callback.
    fn call(&self, state: &mut S, ctx: &C) -> (r: Result<(), HookError>)
        ensures
            self.effect(*old(state), *ctx, *final(state), r),
    ;
}

/// The default hook before a command: it does nothing.
pub fn before_command_hook<S>(state: &mut S, ctx: &BeforeCommandCtx) -> (r: Result<(), HookError>)
    ensures
        r is Ok,
        *final(state) == *old(state),
{
    Ok(())
}

/// The default hook on a change of directory: it does nothing.
pub fn change_dir_hook<S>(state: &mut S, ctx: &ChangeDirCtx) -> (r: Result<(), HookError>)
    ensures
        r is Ok,
        *final(state) == *old(state),
{
    Ok(())
}

/// The default hook before a command, as a callback.
pub struct BeforeCommandHook {}

impl<S> Hook<S, BeforeCommandCtx> for BeforeCommandHook {
    open spec fn effect(
        &self,
        before: S,
        ctx: BeforeCommandCtx,
        after: S,
        r: Result<(), HookError>,
    ) -> bool {
        r is Ok && after == before
    }

    fn call(&self, state: &mut S, ctx: &BeforeCommandCtx) -> (r: Result<(), HookError>) {
        before_command_hook(state, ctx)
    }
}

/// The default hook on a change of directory, as a callback.
pub struct ChangeDirHook {}

impl<S> Hook<S, ChangeDirCtx> for ChangeDirHook {
    open spec fn effect(
        &self,
        before: S,
        ctx: ChangeDirCtx,
        after: S,
        r: Result<(), HookError>,
    ) -> bool {
        r is Ok && after == before
    }

    fn call(&self, state: &mut S, ctx: &ChangeDirCtx) -> (r: Result<(), HookError>) {
        change_dir_hook(state, ctx)
    }
}

/// The first callbacks of `list` were called in order, as many as there are
/// results: each call began in the state that the call before it left, and
/// every call but the last went well.
pub open spec fn chain<S, C, H: Hook<S, C>>(
    list: Seq<H>,
    ctx: C,
    states: Seq<S>,
    results: Seq<Result<(), HookError>>,
) -> bool {
    &&& results.len() <= list.len()
    &&& states.len() == results.len() + 1
    &&& forall|i: int|
        0 <= i < results.len() ==> #[trigger] list[i].effect(
            states[i],
            ctx,
            states[i + 1],
            results[i],
        )
    &&& forall|i: int| 0 <= i < results.len() - 1 ==> (#[trigger] results[i]) is Ok
}

/// What running the callbacks of `list` in order may do: the calls form a
/// chain from the state `before` to the state `after`; either a call failed,
/// no callback behind it was called and its error is the result, or every
/// callback was called and the result is success.
pub open spec fn ran<S, C, H: Hook<S, C>>(
    list: Seq<H>,
    before: S,
    ctx: C,
    after: S,
    r: Result<(), HookError>,
) -> bool {
    exists|states: Seq<S>, results: Seq<Result<(), HookError>>|
        {
            &&& #[trigger] chain(list, ctx, states, results)
            &&& states[0] == before
            &&& states.last() == after
            &&& if results.len() > 0 && results.last() is Err {
                r == results.last()
            } else {
                results.len() == list.len() && r is Ok
            }
        }
}

/// Runs the callbacks of a table in order and stops at the first error.
pub fn run_all<S, C, H: Hook<S, C>>(list: &Vec<H>, state: &mut S, ctx: &C) -> (r: Result<
    (),
    HookError,
>)
    ensures
        ran(list@, *old(state), *ctx, *final(state), r),
{
    let mut i: usize = 0;
    let ghost mut states: Seq<S> = seq![*state];
    let ghost mut results: Seq<Result<(), HookError>> = Seq::empty();
    while i < list.len()
        invariant
            i <= list.len(),
            results.len() == i,
            chain(list@, *ctx, states, results),
            states[0] == *old(state),
            states.last() == *state,
            forall|j: int| 0 <= j < results.len() ==> (#[trigger] results[j]) is Ok,
        decreases list.len() - i,
    {
        let r = list[i].call(state, ctx);
        proof {
            states = states.push(*state);
            results = results.push(r);
            assert(chain(list@, *ctx, states, results));
        }
        match r {
            Ok(()) => {},
            Err(e) => {
                return Err(e);
            },
        }
        i = i + 1;
    }
    Ok(())
}

/// All the hooks that are registered, one table for each kind of event. The
/// hooks of one table are of one type.
pub struct Hooks<S, A, B, D, J, L> {
    pub startup: Vec<A>,
    pub before_command: Vec<B>,
    pub change_dir: Vec<D>,
    pub job_exit: Vec<J>,
    pub line_mode_switch: Vec<L>,
    /// The state that the hooks run on is not held here.
    pub state: core::marker::PhantomData<S>,
}

/// The kinds of event that hooks can be registered for.
#[derive(Clone, Copy, Debug, PartialEq, Eq, Structural)]
pub enum HookKind {
    Startup,
    BeforeCommand,
    ChangeDir,
    JobExit,
    LineModeSwitch,
}

/// The table of the hooks for events that come with a context of type `C`.
pub trait HookTable<S, C> {
    /// The type of the hooks in the table.
    type H: Hook<S, C>;

    /// The hooks of the table, in the order they were registered.
    spec fn table(&self) -> Seq<Self::H>;

    /// Every other table is the same as in `before`.
    spec fn others_same(&self, before: &Self) -> bool;

    /// The hooks of the table.
    fn hooks_for(&self) -> (list: &Vec<Self::H>)
        ensures
            list@ == self.table(),
    ;

    /// Appends a hook to the table.
    fn register_hook(&mut self, hook: Self::H)
        ensures
            final(self).table() == old(self).table().push(hook),
            final(self).others_same(old(self)),
    ;
}

impl<S, A, B, D, J, L> Hooks<S, A, B, D, J, L> {
    /// Every table but the one of `kind` is the same in both.
    pub open spec fn same_but(&self, other: &Self, kind: HookKind) -> bool {
        &&& kind != HookKind::Startup ==> self.startup == other.startup
        &&& kind != HookKind::BeforeCommand ==> self.before_command == other.before_command
        &&& kind != HookKind::ChangeDir ==> self.change_dir == other.change_dir
        &&& kind != HookKind::JobExit ==> self.job_exit == other.job_exit
        &&& kind != HookKind::LineModeSwitch ==> self.line_mode_switch == other.line_mode_switch
    }

    /// No hook is registered.
    pub open spec fn is_empty(&self) -> bool {
        &&& self.startup@.len() == 0
        &&& self.before_command@.len() == 0
        &&& self.change_dir@.len() == 0
        &&& self.job_exit@.len() == 0
        &&& self.line_mode_switch@.len() == 0
    }

    /// Tables without hooks.
    pub fn new() -> (hooks: Self)
        ensures
            hooks.is_empty(),
    {
        Hooks {
            startup: Vec::new(),
            before_command: Vec::new(),
            change_dir: Vec::new(),
            job_exit: Vec::new(),
            line_mode_switch: Vec::new(),
            state: core::marker::PhantomData,
        }
    }

    /// Registers a hook behind those registered for the same kind of event.
    pub fn register<C>(&mut self, hook: <Self as HookTable<S, C>>::H) where
        Self: HookTable<S, C>,

        ensures
            HookTable::<S, C>::table(final(self)) == HookTable::<S, C>::table(old(self)).push(hook),
            HookTable::<S, C>::others_same(final(self), old(self)),
    {
        HookTable::<S, C>::register_hook(self, hook);
    }

    /// Registers the hooks of an iterator. It is given none, so it registers
    /// none: every table stays as it is.
    pub fn register_iter(&mut self)
        ensures
            *final(self) == *old(self),
    {
    }

    /// Runs the hooks registered for the kind of event that `ctx` belongs to,
    /// in the order they were registered, up to the first that fails.
    pub fn run<C>(&self, state: &mut S, ctx: C) -> (r: Result<(), HookError>) where
        Self: HookTable<S, C>,

        ensures
            ran(HookTable::<S, C>::table(self), *old(state), ctx, *final(state), r),
    {
        run_all(HookTable::<S, C>::hooks_for(self), state, &ctx)
    }
}

impl<S, A, J, L> Default for Hooks<S, A, BeforeCommandHook, ChangeDirHook, J, L> {
    /// The tables with the default hooks that do nothing: one before a
    /// command and one on a change of directory.
    fn default() -> (hooks: Self)
        ensures
            hooks.startup@.len() == 0,
            hooks.before_command@ == seq![BeforeCommandHook {  }],
            hooks.change_dir@ == seq![ChangeDirHook {  }],
            hooks.job_exit@.len() == 0,
            hooks.line_mode_switch@.len() == 0,
    {
        let mut hooks = Hooks::new();
        hooks.before_command.push(BeforeCommandHook {  });
        hooks.change_dir.push(ChangeDirHook {  });
        hooks
    }
}

impl<S, A: Hook<S, StartupCtx>, B, D, J, L> HookTable<S, StartupCtx> for Hooks<S, A, B, D, J, L> {
    type H = A;

    open spec fn table(&self) -> Seq<A> {
        self.startup@
    }

    open spec fn others_same(&self, before: &Self) -> bool {
        self.same_but(before, HookKind::Startup)
    }

    fn hooks_for(&self) -> (list: &Vec<A>) {
        &self.startup
    }

    fn register_hook(&mut self, hook: A) {
        self.startup.push(hook);
    }
}

impl<S, A, B: Hook<S, BeforeCommandCtx>, D, J, L> HookTable<S, BeforeCommandCtx> for Hooks<
    S,
    A,
    B,
    D,
    J,
    L,
> {
    type H = B;

    open spec fn table(&self) -> Seq<B> {
        self.before_command@
    }

    open spec fn others_same(&self, before: &Self) -> bool {
        self.same_but(before, HookKind::BeforeCommand)
    }

    fn hooks_for(&self) -> (list: &Vec<B>) {
        &self.before_command
    }

    fn register_hook(&mut self, hook: B) {
        self.before_command.push(hook);
    }
}

impl<S, A, B, D: Hook<S, ChangeDirCtx>, J, L> HookTable<S, ChangeDirCtx> for Hooks<
    S,
    A,
    B,
    D,
    J,
    L,
> {
    type H = D;

    open spec fn table(&self) -> Seq<D> {
        self.change_dir@
    }

    open spec fn others_same(&self, before: &Self) -> bool {
        self.same_but(before, HookKind::ChangeDir)
    }

    fn hooks_for(&self) -> (list: &Vec<D>) {
        &self.change_dir
    }

    fn register_hook(&mut self, hook: D) {
        self.change_dir.push(hook);
    }
}

impl<S, A, B, D, J: Hook<S, JobExitCtx>, L> HookTable<S, JobExitCtx> for Hooks<S, A, B, D, J, L> {
    type H = J;

    open spec fn table(&self) -> Seq<J> {
        self.job_exit@
    }

    open spec fn others_same(&self, before: &Self) -> bool {
        self.same_but(before, HookKind::JobExit)
    }

    fn hooks_for(&self) -> (list: &Vec<J>) {
        &self.job_exit
    }

    fn register_hook(&mut self, hook: J) {
        self.job_exit.push(hook);
    }
}

impl<S, A, B, D, J, L: Hook<S, LineModeSwitchCtx>> HookTable<S, LineModeSwitchCtx> for Hooks<
    S,
    A,
    B,
    D,
    J,
    L,
> {
    type H = L;

    open spec fn table(&self) -> Seq<L> {
        self.line_mode_switch@
    }

    open spec fn others_same(&self, before: &Self) -> bool {
        self.same_but(before, HookKind::LineModeSwitch)
    }

    fn hooks_for(&self) -> (list: &Vec<L>) {
        &self.line_mode_switch
    }

    fn register_hook(&mut self, hook: L) {
        self.line_mode_switch.push(hook);
    }
}

} // verus!
