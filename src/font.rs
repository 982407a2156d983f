use vstd::prelude::*;

verus! {

/// A loaded native font.
///
/// It holds the handle that the native library gave, whether this value is
/// responsible for closing that handle, whether it has been released, and the
/// data source that the native font reads from. The source is held for as
/// long as the font is, so it cannot go away while the native side reads it.
pub struct Font<S> {
    handle: usize,
    owned: bool,
    released: bool,
    source: Option<S>,
}

/// Whether releasing a font closes its native handle: only a handle this value
/// owns, only the first time, and only while the native library is still
/// initialized (shutting the library down frees every font with it).
pub open spec fn release_closes(owned: bool, released: bool, library_initialized: bool) -> bool {
    owned && !released && library_initialized
}

/// How many times the native handle is closed when a font is released once
/// for each entry of `inits`, each entry saying whether the native library
/// was initialized at that release.
pub open spec fn closes_over(owned: bool, released: bool, inits: Seq<bool>) -> nat
    decreases inits.len(),
{
    if inits.len() == 0 {
        0
    } else {
        (if release_closes(owned, released, inits[0]) {
            1nat
        } else {
            0nat
        }) + closes_over(owned, true, inits.drop_first())
    }
}

impl<S> Font<S> {
    /// The native handle.
    pub closed spec fn spec_handle(&self) -> usize {
        self.handle
    }

    /// Whether this value is responsible for closing the handle.
    pub closed spec fn spec_owned(&self) -> bool {
        self.owned
    }

    /// Whether the font has been released.
    pub closed spec fn spec_released(&self) -> bool {
        self.released
    }

    /// The data source the native font reads from, if it was loaded from one.
    pub closed spec fn spec_source(&self) -> Option<S> {
        self.source
    }

    /// Wraps a native handle that was not loaded from a data source.
    pub fn from_ll(handle: usize, owned: bool) -> (r: Font<S>)
        ensures
            r.spec_handle() == handle,
            r.spec_owned() == owned,
            !r.spec_released(),
            r.spec_source() is None,
    {
        Font { handle, owned, released: false, source: None }
    }

    /// The font that a native open call produced: `None` when the call gave the
    /// null handle (zero); otherwise an owned font that keeps `source` alive.
    pub fn opened(handle: usize, source: Option<S>) -> (r: Option<Font<S>>)
        ensures
            handle == 0 <==> r is None,
            r matches Some(f) ==> {
                &&& f.spec_handle() == handle
                &&& f.spec_owned()
                &&& !f.spec_released()
                &&& f.spec_source() == source
            },
    {
        if handle == 0 {
            None
        } else {
            Some(Font { handle, owned: true, released: false, source })
        }
    }

    /// The native handle.
    pub fn handle(&self) -> (r: usize)
        ensures
            r == self.spec_handle(),
    {
        self.handle
    }

    /// Whether this value is responsible for closing the handle.
    pub fn is_owned(&self) -> (r: bool)
        ensures
            r == self.spec_owned(),
    {
        self.owned
    }

    /// Whether the font has been released.
    pub fn is_released(&self) -> (r: bool)
        ensures
            r == self.spec_released(),
    {
        self.released
    }

    /// The data source the native font reads from.
    pub fn source(&self) -> (r: &Option<S>)
        ensures
            *r == self.spec_source(),
    {
        &self.source
    }

    /// Releases the font and says whether its native handle must be closed now.
    /// The font counts as released afterwards whatever the answer; its handle,
    /// ownership and source are kept, so the source outlives the close.
    pub fn release(&mut self, library_initialized: bool) -> (close: bool)
        ensures
            close == release_closes(old(self).spec_owned(), old(self).spec_released(), library_initialized),
            final(self).spec_released(),
            final(self).spec_handle() == old(self).spec_handle(),
            final(self).spec_owned() == old(self).spec_owned(),
            final(self).spec_source() == old(self).spec_source(),
    {
        let close = self.owned && !self.released && library_initialized;
        self.released = true;
        close
    }
}

/// However often a font is released, its native handle is closed at most
/// once: at the first release, if the font owns it and the native library is
/// initialized then, and never afterwards.
pub proof fn lemma_closed_at_most_once(owned: bool, released: bool, inits: Seq<bool>)
    ensures
        closes_over(owned, released, inits) <= 1,
        closes_over(owned, released, inits) == (if inits.len() > 0 && release_closes(
            owned,
            released,
            inits[0],
        ) {
            1nat
        } else {
            0nat
        }),
    decreases inits.len(),
{
    if inits.len() > 0 {
        lemma_never_closed_after_release(owned, inits.drop_first());
    }
}

/// A font that has been released never closes its native handle again.
pub proof fn lemma_never_closed_after_release(owned: bool, inits: Seq<bool>)
    ensures
        closes_over(owned, true, inits) == 0,
    decreases inits.len(),
{
    if inits.len() > 0 {
        lemma_never_closed_after_release(owned, inits.drop_first());
    }
}

/// A font that does not own its native handle never closes it.
pub proof fn lemma_borrowed_never_closed(released: bool, inits: Seq<bool>)
    ensures
        closes_over(false, released, inits) == 0,
    decreases inits.len(),
{
    if inits.len() > 0 {
        lemma_borrowed_never_closed(true, inits.drop_first());
    }
}

} // verus!
