//! The current execution mode: a value that is bound for the length of one
//! call and that readers further down observe.
//!
//! The binding is kept as an explicit stack. Entering a call pushes its mode,
//! leaving it pops, and a reader sees the innermost entry. Where nothing is
//! bound a reader assumes a query.

use vstd::prelude::*;
use crate::types::ExecMode;

verus! {

/// The mode that a reader sees on a stack of bindings: the innermost one.
pub open spec fn current_mode(bindings: Seq<ExecMode>) -> Option<ExecMode> {
    if bindings.len() == 0 {
        None
    } else {
        Some(bindings.last())
    }
}

/// The mode that a host call runs under: the bound one, a query where none
/// is bound.
pub open spec fn mode_or_query(current: Option<ExecMode>) -> ExecMode {
    match current {
        Some(mode) => mode,
        None => ExecMode::Query,
    }
}

/// The mode that a host call runs under, given what was read of the scope.
pub fn effective_mode(current: Option<ExecMode>) -> (r: ExecMode)
    ensures
        r == mode_or_query(current),
{
    match current {
        Some(mode) => mode,
        None => ExecMode::Query,
    }
}

/// The stack of mode bindings of one thread of execution.
pub struct ModeScope {
    stack: Vec<ExecMode>,
}

impl View for ModeScope {
    type V = Seq<ExecMode>;

    closed spec fn view(&self) -> Seq<ExecMode> {
        self.stack@
    }
}

impl ModeScope {
    /// A scope in which no mode is bound.
    pub fn new() -> (r: ModeScope)
        ensures
            r@ == Seq::<ExecMode>::empty(),
    {
        ModeScope { stack: Vec::new() }
    }

    /// How many bindings are in force.
    pub fn depth(&self) -> (r: usize)
        ensures
            r == self@.len(),
    {
        self.stack.len()
    }

    /// The innermost binding, if there is one.
    pub fn current(&self) -> (r: Option<ExecMode>)
        ensures
            r == current_mode(self@),
    {
        let n: usize = self.stack.len();
        if n == 0 {
            None
        } else {
            Some(self.stack[n - 1])
        }
    }

    /// The mode that a host call made now runs under.
    pub fn effective(&self) -> (r: ExecMode)
        ensures
            r == mode_or_query(current_mode(self@)),
    {
        effective_mode(self.current())
    }

    /// Whether a host call made now has transaction semantics.
    pub fn is_in_transaction(&self) -> (r: bool)
        ensures
            r == (mode_or_query(current_mode(self@)) == ExecMode::Transaction),
    {
        !self.effective().is_query()
    }

    /// Binds `mode` on top of what is bound.
    pub fn enter(&mut self, mode: ExecMode)
        ensures
            final(self)@ == old(self)@.push(mode),
    {
        self.stack.push(mode);
    }

    /// Drops the innermost binding and returns it; does nothing where none
    /// is bound.
    pub fn leave(&mut self) -> (r: Option<ExecMode>)
        ensures
            r == current_mode(old(self)@),
            old(self)@.len() == 0 ==> final(self)@ == old(self)@,
            old(self)@.len() > 0 ==> final(self)@ == old(self)@.drop_last(),
    {
        self.stack.pop()
    }

    /// The bindings in force, outermost first.
    pub fn bindings(&self) -> (r: Vec<ExecMode>)
        ensures
            r@ == self@,
    {
        let mut copy: Vec<ExecMode> = Vec::new();
        let mut i: usize = 0;
        while i < self.stack.len()
            invariant
                i <= self.stack@.len(),
                copy@ == self.stack@.take(i as int),
            decreases self.stack@.len() - i,
        {
            copy.push(self.stack[i]);
            assert(self.stack@.take(i + 1) =~= self.stack@.take(i as int).push(self.stack@[i as int]));
            i += 1;
        }
        assert(self.stack@.take(i as int) =~= self.stack@);
        copy
    }
}

/// Runs `f` with `mode` bound, and puts back what was bound before.
///
/// While `f` runs, a reader of the scope sees `mode`. When it has returned
/// the scope is exactly what it was on entry, whatever `f` did to it.
pub fn exec_in_mode<T, F: FnOnce(&mut ModeScope) -> T>(
    scope: &mut ModeScope,
    mode: ExecMode,
    f: F,
) -> (r: T)
    requires
        forall|s: &mut ModeScope| s@ == old(scope)@.push(mode) ==> f.requires((s,)),
    ensures
        final(scope)@ == old(scope)@,
        exists|s: &mut ModeScope| s@ == old(scope)@.push(mode) && f.ensures((s,), r),
{
    let saved: Vec<ExecMode> = scope.bindings();
    scope.enter(mode);
    let r = f(scope);
    scope.stack = saved;
    r
}

/// A binding that was just made is the one that readers see, whatever was
/// bound before, and dropping it brings back what was bound before.
pub proof fn lemma_innermost_binding_rules(bindings: Seq<ExecMode>, mode: ExecMode)
    ensures
        current_mode(bindings.push(mode)) == Some(mode),
        mode_or_query(current_mode(bindings.push(mode))) == mode,
        bindings.push(mode).drop_last() == bindings,
{
    assert(bindings.push(mode).drop_last() =~= bindings);
}

/// Where nothing is bound a host call runs as a query.
pub proof fn lemma_unbound_scope_is_query()
    ensures
        current_mode(Seq::<ExecMode>::empty()) is None,
        mode_or_query(current_mode(Seq::<ExecMode>::empty())) == ExecMode::Query,
{
}

} // verus!
