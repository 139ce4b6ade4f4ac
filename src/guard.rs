use vstd::prelude::*;

verus! {

/// An open handle bound to the location it was created at.
///
/// While *active* the guard holds the handle and claims the file: tearing it
/// down must remove the file at its location. Once *persisted* the handle is
/// gone and the file belongs to the caller; nothing is removed any more.
pub struct AutoRemoved<H, P> {
    inner: Option<H>,
    path: P,
}

impl<H, P> AutoRemoved<H, P> {
    /// The guard still owns its file.
    pub open spec fn owns_file(&self) -> bool {
        self.handle() is Some
    }

    /// The handle held while active.
    pub closed spec fn handle(&self) -> Option<H> {
        self.inner
    }

    /// The location the handle was opened at; fixed for the guard's lifetime.
    pub closed spec fn location(&self) -> P {
        self.path
    }

    /// The guard after persisting: the handle is released, the location kept.
    pub closed spec fn persisted(self) -> Self {
        AutoRemoved { inner: None, path: self.path }
    }

    /// What tearing the guard down removes: its location while it owns the
    /// file, nothing once persisted.
    pub open spec fn removal(&self) -> Option<P> {
        if self.owns_file() {
            Some(self.location())
        } else {
            None
        }
    }

    /// Wraps a handle that was just created exclusively at `path`.
    pub fn new(handle: H, path: P) -> (r: Self)
        ensures
            r.owns_file(),
            r.handle() == Some(handle),
            r.location() == path,
    {
        AutoRemoved { inner: Some(handle), path }
    }

    /// Takes the outcome of an exclusive create at `path`: a guard over the
    /// new handle on success, the creation error unchanged otherwise. No guard
    /// exists after a failed create, so nothing is ever removed on its account.
    pub fn from_opened<E>(opened: Result<H, E>, path: P) -> (r: Result<Self, E>)
        ensures
            match opened {
                Ok(h) => r matches Ok(g) && g.owns_file() && g.handle() == Some(h)
                    && g.location() == path,
                Err(e) => r == Err::<Self, E>(e),
            },
    {
        match opened {
            Ok(handle) => Ok(AutoRemoved::new(handle, path)),
            Err(e) => Err(e),
        }
    }

    /// Whether the guard still owns its file.
    pub fn is_active(&self) -> (r: bool)
        ensures
            r == self.owns_file(),
    {
        self.inner.is_some()
    }

    /// The open handle, for callers that write into the file.
    pub fn as_inner(&self) -> (r: &H)
        requires
            self.owns_file(),
        ensures
            self.handle() == Some(*r),
    {
        self.inner.as_ref().unwrap()
    }

    /// Hands the file over to the caller: the handle is closed and no later
    /// teardown removes anything. Touches no filesystem and cannot fail.
    pub fn persist(&mut self)
        ensures
            *final(self) == old(self).persisted(),
            !final(self).owns_file(),
            final(self).removal() is None,
            final(self).location() == old(self).location(),
    {
        self.inner = None;
    }

    /// The location that teardown has to remove, if any.
    ///
    /// Called once when the guard goes away; `None` means the file, if still
    /// there, is left alone.
    pub fn cleanup_target(&self) -> (r: Option<&P>)
        ensures
            match r {
                Some(p) => self.removal() == Some(*p),
                None => self.removal() is None,
            },
    {
        if self.inner.is_some() {
            Some(&self.path)
        } else {
            None
        }
    }
}

/// Dropping a guard that still owns its file removes exactly the file at the
/// location the guard was created for.
pub proof fn lemma_active_guard_removes_its_file<H, P>(g: AutoRemoved<H, P>)
    requires
        g.owns_file(),
    ensures
        g.removal() == Some(g.location()),
{
}

/// After persisting, the file stays where it is: teardown removes nothing,
/// the location is unchanged, and persisting again changes nothing. There is
/// no way back to owning the file.
pub proof fn lemma_persisted_guard_removes_nothing<H, P>(g: AutoRemoved<H, P>)
    ensures
        !g.persisted().owns_file(),
        g.persisted().removal() is None,
        g.persisted().location() == g.location(),
        g.persisted().persisted() == g.persisted(),
{
}

} // verus!
