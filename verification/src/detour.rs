//! Inline-hook installation.
//!
//! The underlying patch engine redirects one function address to a
//! replacement. Its effect on the process is modeled as the set of
//! currently installed redirects; every mutation happens between a
//! transaction begin and commit, and a failure aborts the transaction,
//! restoring the state it began from — multiple redirects batched into one
//! transaction either all take effect or none do. Registering the executing
//! thread's instruction pointer with the transaction, so in-flight execution
//! is relocated safely, is the platform layer's concern and is not part of
//! this model.

use vstd::prelude::*;

verus! {

/// One installed redirect: calls to `source` land at `target`.
#[derive(Clone, Copy, PartialEq, Eq, Structural, Debug)]
pub struct Redirect {
    pub source: u64,
    pub target: u64,
}

/// Distinct status for each way a patch operation can fail.
#[derive(Clone, Copy, PartialEq, Eq, Structural, Debug)]
pub enum HookError {
    /// The address to patch is not a valid function address.
    InvalidSource(u64),
    /// The address is already redirected; it cannot be patched twice.
    AlreadyAttached(u64),
    /// No such redirect is installed, so there is nothing to release.
    NotAttached(u64),
}

/// Whether some installed redirect patches `source`.
pub open spec fn spec_source_bound(rs: Seq<Redirect>, source: u64) -> bool {
    exists|i: int| 0 <= i < rs.len() && rs[i].source == source
}

/// Why an attach of `source` would fail against the installed set, if it
/// would: a null address is invalid, and an address may carry only one
/// redirect at a time.
pub open spec fn spec_attach_error(rs: Seq<Redirect>, source: u64) -> Option<HookError> {
    if source == 0 {
        Option::Some(HookError::InvalidSource(source))
    } else if spec_source_bound(rs, source) {
        Option::Some(HookError::AlreadyAttached(source))
    } else {
        Option::None
    }
}

/// Index of the first installed redirect equal to `(source, target)`.
pub open spec fn spec_find_redirect(rs: Seq<Redirect>, start: int, source: u64, target: u64) -> Option<
    int,
>
    decreases rs.len() - start,
{
    if start < 0 || start >= rs.len() {
        Option::None
    } else if rs[start].source == source && rs[start].target == target {
        Option::Some(start)
    } else {
        spec_find_redirect(rs, start + 1, source, target)
    }
}

/// The installed set after attaching each pair in order, or the first
/// failure. A failure anywhere leaves no trace: the caller restores the
/// state the transaction began from.
pub open spec fn spec_attach_all(rs: Seq<Redirect>, pairs: Seq<Redirect>) -> Result<
    Seq<Redirect>,
    HookError,
>
    decreases pairs.len(),
{
    if pairs.len() == 0 {
        Result::Ok(rs)
    } else {
        match spec_attach_error(rs, pairs[0].source) {
            Option::Some(e) => Result::Err(e),
            Option::None => spec_attach_all(rs.push(pairs[0]), pairs.skip(1)),
        }
    }
}

/// The patch engine's view of the process: every redirect currently
/// installed.
pub struct HookEngine {
    redirects: Vec<Redirect>,
}

/// A begun patch transaction: it remembers the installed set at begin time
/// so an abort can roll every operation since then back.
pub struct HookTransaction {
    snapshot: Vec<Redirect>,
}

impl HookTransaction {
    /// The installed set at the time the transaction began.
    pub closed spec fn spec_snapshot(&self) -> Seq<Redirect> {
        self.snapshot@
    }
}

impl HookEngine {
    /// The redirects currently installed.
    pub closed spec fn spec_redirects(&self) -> Seq<Redirect> {
        self.redirects@
    }

    /// An engine with nothing patched yet.
    pub fn new() -> (r: HookEngine)
        ensures
            r.spec_redirects() == Seq::<Redirect>::empty(),
    {
        HookEngine { redirects: Vec::new() }
    }

    /// How many redirects are installed.
    pub fn count(&self) -> (r: usize)
        ensures
            r == self.spec_redirects().len(),
    {
        self.redirects.len()
    }

    /// Whether some installed redirect patches `source`.
    pub fn is_attached(&self, source: u64) -> (r: bool)
        ensures
            r == spec_source_bound(self.spec_redirects(), source),
    {
        let mut i: usize = 0;
        while i < self.redirects.len()
            invariant
                0 <= i <= self.redirects@.len(),
                forall|j: int| 0 <= j < i ==> (#[trigger] self.redirects@[j]).source != source,
            decreases self.redirects@.len() - i,
        {
            if self.redirects[i].source == source {
                proof {
                    assert(spec_source_bound(self.spec_redirects(), source));
                }
                return true;
            }
            i = i + 1;
        }
        proof {
            assert(!spec_source_bound(self.spec_redirects(), source));
        }
        false
    }

    /// Begins a transaction, capturing the state an abort would restore.
    pub fn begin(&self) -> (t: HookTransaction)
        ensures
            t.spec_snapshot() == self.spec_redirects(),
    {
        HookTransaction { snapshot: clone_redirects(&self.redirects) }
    }

    /// Commits a transaction: everything applied since begin stays.
    pub fn commit(&mut self, transaction: HookTransaction)
        ensures
            *final(self) == *old(self),
    {
        let _ = transaction;
    }

    /// Aborts a transaction, rolling the installed set back to what it was
    /// when the transaction began.
    pub fn abort(&mut self, transaction: HookTransaction)
        ensures
            final(self).spec_redirects() == transaction.spec_snapshot(),
    {
        self.redirects = transaction.snapshot;
    }

    /// Applies one redirect. Patching a null address or an address already
    /// carrying a redirect is refused with the matching status and changes
    /// nothing.
    pub fn attach(&mut self, source: u64, target: u64) -> (r: Result<(), HookError>)
        ensures
            match spec_attach_error(old(self).spec_redirects(), source) {
                Option::Some(e) => r == Result::<(), HookError>::Err(e) && final(self).spec_redirects() == old(self).spec_redirects(),
                Option::None => r is Ok && final(self).spec_redirects() == old(
                    self,
                ).spec_redirects().push(Redirect { source, target }),
            },
    {
        if source == 0 {
            return Result::Err(HookError::InvalidSource(source));
        }
        let mut i: usize = 0;
        while i < self.redirects.len()
            invariant
                0 <= i <= self.redirects@.len(),
                source != 0,
                self.redirects@ == old(self).spec_redirects(),
                forall|j: int| 0 <= j < i ==> (#[trigger] self.redirects@[j]).source != source,
            decreases self.redirects@.len() - i,
        {
            if self.redirects[i].source == source {
                proof {
                    assert(spec_source_bound(old(self).spec_redirects(), source));
                    assert(source != 0);
                    assert(spec_attach_error(old(self).spec_redirects(), source) == Option::Some(
                        HookError::AlreadyAttached(source),
                    ));
                }
                return Result::Err(HookError::AlreadyAttached(source));
            }
            i = i + 1;
        }
        proof {
            assert(!spec_source_bound(old(self).spec_redirects(), source));
        }
        self.redirects.push(Redirect { source, target });
        Result::Ok(())
    }

    /// Releases one redirect. Releasing a redirect that is not installed is
    /// refused with the matching status and changes nothing.
    pub fn detach(&mut self, source: u64, target: u64) -> (r: Result<(), HookError>)
        ensures
            match spec_find_redirect(old(self).spec_redirects(), 0, source, target) {
                Option::Some(i) => r is Ok && final(self).spec_redirects() == old(
                    self,
                ).spec_redirects().remove(i),
                Option::None => r == Result::<(), HookError>::Err(HookError::NotAttached(source))
                    && final(self).spec_redirects() == old(self).spec_redirects(),
            },
    {
        let mut i: usize = 0;
        while i < self.redirects.len()
            invariant
                0 <= i <= self.redirects@.len(),
                self.redirects@ == old(self).spec_redirects(),
                spec_find_redirect(old(self).spec_redirects(), 0, source, target)
                    == spec_find_redirect(self.redirects@, i as int, source, target),
            decreases self.redirects@.len() - i,
        {
            if self.redirects[i].source == source && self.redirects[i].target == target {
                self.redirects.remove(i);
                return Result::Ok(());
            }
            i = i + 1;
        }
        Result::Err(HookError::NotAttached(source))
    }

    /// Applies a batch of redirects inside one transaction: either every
    /// pair takes effect, in order, or the first failure aborts the
    /// transaction and the installed set is exactly what it was before the
    /// call.
    pub fn attach_all(&mut self, pairs: &Vec<Redirect>) -> (r: Result<(), HookError>)
        ensures
            match spec_attach_all(old(self).spec_redirects(), pairs@) {
                Result::Ok(rs) => r is Ok && final(self).spec_redirects() == rs,
                Result::Err(e) => r == Result::<(), HookError>::Err(e) && final(self).spec_redirects() == old(self).spec_redirects(),
            },
    {
        let transaction = self.begin();
        let ghost original = self.spec_redirects();
        proof {
            assert(pairs@.skip(0) =~= pairs@);
        }
        let mut i: usize = 0;
        while i < pairs.len()
            invariant
                0 <= i <= pairs@.len(),
                original == old(self).spec_redirects(),
                transaction.spec_snapshot() == original,
                spec_attach_all(original, pairs@) == spec_attach_all(
                    self.spec_redirects(),
                    pairs@.skip(i as int),
                ),
            decreases pairs@.len() - i,
        {
            let pair = pairs[i];
            let outcome = self.attach(pair.source, pair.target);
            match outcome {
                Result::Ok(()) => {
                    proof {
                        assert(pairs@.skip(i as int)[0] == pairs@[i as int]);
                        assert(pairs@.skip(i as int).skip(1) =~= pairs@.skip(i as int + 1));
                    }
                },
                Result::Err(e) => {
                    proof {
                        assert(pairs@.skip(i as int)[0] == pairs@[i as int]);
                    }
                    self.abort(transaction);
                    proof {
                        assert(self.spec_redirects() =~= original);
                    }
                    return Result::Err(e);
                },
            }
            i = i + 1;
        }
        proof {
            assert(pairs@.skip(pairs@.len() as int) =~= Seq::<Redirect>::empty());
        }
        self.commit(transaction);
        Result::Ok(())
    }
}

/// Copies the installed set so a transaction can remember it.
fn clone_redirects(redirects: &Vec<Redirect>) -> (r: Vec<Redirect>)
    ensures
        r@ == redirects@,
{
    let mut out: Vec<Redirect> = Vec::new();
    let mut i: usize = 0;
    while i < redirects.len()
        invariant
            0 <= i <= redirects@.len(),
            out@ == redirects@.take(i as int),
        decreases redirects@.len() - i,
    {
        out.push(redirects[i]);
        proof {
            assert(out@ =~= redirects@.take(i as int + 1));
        }
        i = i + 1;
    }
    proof {
        assert(out@ =~= redirects@);
    }
    out
}

/// An established redirect from one function address to a replacement,
/// applied through its own all-or-nothing transaction.
pub struct Detour {
    source: u64,
    target: u64,
}

impl Detour {
    /// The patched address.
    pub closed spec fn spec_source(&self) -> u64 {
        self.source
    }

    /// The replacement address.
    pub closed spec fn spec_target(&self) -> u64 {
        self.target
    }

    /// Establishes a redirect inside one transaction. A failed attach
    /// aborts the transaction and surfaces the failure; nothing is left
    /// patched.
    pub fn new(engine: &mut HookEngine, source: u64, target: u64) -> (r: Result<Detour, HookError>)
        ensures
            match spec_attach_error(old(engine).spec_redirects(), source) {
                Option::Some(e) => r == Result::<Detour, HookError>::Err(e) && final(engine).spec_redirects() == old(engine).spec_redirects(),
                Option::None => {
                    &&& r is Ok
                    &&& r->Ok_0.spec_source() == source
                    &&& r->Ok_0.spec_target() == target
                    &&& final(engine).spec_redirects() == old(engine).spec_redirects().push(
                        Redirect { source, target },
                    )
                },
            },
    {
        let transaction = engine.begin();
        let outcome = engine.attach(source, target);
        match outcome {
            Result::Ok(()) => {
                engine.commit(transaction);
                Result::Ok(Detour { source, target })
            },
            Result::Err(e) => {
                engine.abort(transaction);
                Result::Err(e)
            },
        }
    }

    /// The patched address.
    pub fn source(&self) -> (r: u64)
        ensures
            r == self.spec_source(),
    {
        self.source
    }

    /// The replacement address.
    pub fn target(&self) -> (r: u64)
        ensures
            r == self.spec_target(),
    {
        self.target
    }

    /// Releases the redirect inside its own transaction, mirroring how it
    /// was established.
    pub fn detach(self, engine: &mut HookEngine) -> (r: Result<(), HookError>)
        ensures
            match spec_find_redirect(
                old(engine).spec_redirects(),
                0,
                self.spec_source(),
                self.spec_target(),
            ) {
                Option::Some(i) => r is Ok && final(engine).spec_redirects() == old(
                    engine,
                ).spec_redirects().remove(i),
                Option::None => r == Result::<(), HookError>::Err(
                    HookError::NotAttached(self.spec_source()),
                ) && final(engine).spec_redirects() == old(engine).spec_redirects(),
            },
    {
        let transaction = engine.begin();
        let outcome = engine.detach(self.source, self.target);
        match outcome {
            Result::Ok(()) => {
                engine.commit(transaction);
                Result::Ok(())
            },
            Result::Err(e) => {
                engine.abort(transaction);
                Result::Err(e)
            },
        }
    }
}

/// The transaction abort path rolls every earlier attach back: when a first
/// attach succeeds and a second attach inside the same transaction fails,
/// the batch as a whole reports the second failure, and the engine contract
/// then guarantees the installed set is exactly what it was before the
/// transaction — the first address ends up un-redirected.
pub proof fn lemma_abort_rolls_back_first_attach(
    rs: Seq<Redirect>,
    first: Redirect,
    second: Redirect,
)
    requires
        spec_attach_error(rs, first.source) is None,
        spec_attach_error(rs.push(first), second.source) is Some,
    ensures
        spec_attach_all(rs, seq![first, second]) == Result::<Seq<Redirect>, HookError>::Err(
            spec_attach_error(rs.push(first), second.source)->0,
        ),
{
    let pairs = seq![first, second];
    assert(pairs.skip(1) =~= seq![second]);
    assert(spec_attach_all(rs.push(first), seq![second]) == Result::<Seq<Redirect>, HookError>::Err(
        spec_attach_error(rs.push(first), second.source)->0,
    ));
}

} // verus!
