use vstd::prelude::*;
use crate::error::GenError;

verus! {

/// Owns the installed model state (`M`: backend, model and the default
/// context settings together), replaced only as a whole.
pub struct ModelManager<M> {
    state: Option<M>,
    loads: u64,
}

impl<M> ModelManager<M> {
    /// The installed model state, if any.
    pub closed spec fn installed(&self) -> Option<M> {
        self.state
    }

    /// How many loads have been installed so far.
    pub closed spec fn load_count(&self) -> nat {
        self.loads as nat
    }

    pub fn new() -> (r: Self)
        ensures
            r.installed() is None,
            r.load_count() == 0,
    {
        ModelManager { state: None, loads: 0 }
    }

    pub fn is_loaded(&self) -> (r: bool)
        ensures
            r == self.installed() is Some,
    {
        self.state.is_some()
    }

    /// Installs a freshly loaded model state, replacing any earlier one whole.
    pub fn install(&mut self, m: M)
        ensures
            final(self).installed() == Some(m),
            final(self).load_count() == if old(self).load_count() < u64::MAX {
                old(self).load_count() + 1
            } else {
                old(self).load_count()
            },
    {
        self.state = Some(m);
        if self.loads < u64::MAX {
            self.loads = self.loads + 1;
        }
    }

    /// Takes the outcome of a load: a success is installed, a failure is
    /// handed back and leaves the earlier state (or its absence) untouched.
    pub fn finish_load(&mut self, outcome: Result<M, GenError>) -> (r: Result<(), GenError>)
        ensures
            final(self).installed() == after_load(old(self).installed(), outcome),
            match outcome {
                Ok(_) => r is Ok && final(self).load_count() == if old(self).load_count()
                    < u64::MAX {
                    old(self).load_count() + 1
                } else {
                    old(self).load_count()
                },
                Err(e) => r == Err::<(), GenError>(e) && final(self).load_count() == old(
                    self,
                ).load_count(),
            },
    {
        match outcome {
            Ok(m) => {
                self.install(m);
                Ok(())
            },
            Err(e) => Err(e),
        }
    }

    /// The installed model state for a session, or `NotLoaded`.
    pub fn current(&self) -> (r: Result<&M, GenError>)
        ensures
            match self.installed() {
                Some(m) => r == Ok::<&M, GenError>(&m),
                None => r == Err::<&M, GenError>(GenError::NotLoaded),
            },
    {
        match &self.state {
            Some(m) => Ok(m),
            None => Err(GenError::NotLoaded),
        }
    }
}

/// What is installed after a load with `outcome`, given what was before.
pub open spec fn after_load<M>(prev: Option<M>, outcome: Result<M, GenError>) -> Option<M> {
    match outcome {
        Ok(m) => Some(m),
        Err(_) => prev,
    }
}

/// Loading twice with two valid models installs the second: whatever was
/// there before, only the second model is seen afterwards; a later failed
/// load keeps it.
pub proof fn lemma_load_replaces<M>(prev: Option<M>, a: M, b: M, e: GenError)
    ensures
        after_load(after_load(prev, Ok(a)), Ok(b)) == Some(b),
        after_load(after_load(after_load(prev, Ok(a)), Ok(b)), Err(e)) == Some(b),
{
}

} // verus!
