use vstd::prelude::*;
use crate::host::Host;
use crate::mem::{Handle, Managed};
use crate::raw::RawReference;

verus! {

/// The stack of scopes of one execution context, with the host it runs in.
///
/// Every scope that was ever opened has a number of its own. The numbers of the
/// scopes that are open now form the stack, outermost first; the last one is
/// the active scope.
pub struct Scope {
    pub(crate) host: Host,
    pub(crate) open: Vec<u64>,
    pub(crate) issued: u64,
}

impl Scope {
    /// Every open scope has a number that was issued.
    pub open spec fn wf(&self) -> bool {
        &&& self.open_ids().len() > 0
        &&& forall|i: int| 0 <= i < self.open_ids().len() ==> self.open_ids()[i] < self.issued()
    }

    /// The number of the active scope, the innermost open one.
    pub open spec fn active(&self) -> u64
        recommends
            self.wf(),
    {
        self.open_ids().last()
    }

    /// Whether the scope that minted `handle` is still open.
    pub open spec fn is_live<T>(&self, handle: Handle<T>) -> bool {
        self.is_open(handle.home())
    }

    /// The numbers of the open scopes, outermost first.
    pub open(crate) spec fn open_ids(&self) -> Seq<u64> {
        self.open@
    }

    /// How many scopes were opened so far; the next one gets this number.
    pub open(crate) spec fn issued(&self) -> u64 {
        self.issued
    }

    /// The host that this context runs in.
    pub open(crate) spec fn host(&self) -> Host {
        self.host
    }

    /// Whether the scope with number `id` is open.
    pub open spec fn is_open(&self, id: u64) -> bool {
        self.open_ids().contains(id)
    }

    /// A context on `host` with one scope open, the root.
    pub fn new(host: Host) -> (scope: Scope)
        ensures
            scope.wf(),
            scope.host() == host,
            scope.open_ids() == seq![0u64],
            scope.issued() == 1,
    {
        let mut open: Vec<u64> = Vec::new();
        open.push(0);
        Scope { host, open, issued: 1 }
    }

    /// The host that this context runs in.
    pub fn host_ref(&self) -> (host: &Host)
        ensures
            *host == self.host(),
    {
        &self.host
    }

    /// Ends the context and hands the host back.
    pub fn into_host(self) -> (host: Host)
        ensures
            host == self.host(),
    {
        self.host
    }

    /// A handle on `raw` that lives as long as the active scope.
    pub fn mint<T: Managed>(&self, raw: RawReference) -> (handle: Handle<T>)
        requires
            self.wf(),
        ensures
            handle == Handle::minted(T::of_raw(raw), self.active()),
            handle.raw() == raw,
            self.is_live(handle),
    {
        proof {
            T::round_trip(raw, T::of_raw(raw));
        }
        Handle { value: T::from_raw(raw), scope: self.open[self.open.len() - 1] }
    }

    /// Whether the scope that minted `handle` is still open.
    pub fn check_live<T: Managed>(&self, handle: Handle<T>) -> (live: bool)
        ensures
            live == self.is_live(handle),
    {
        let mut i: usize = 0;
        while i < self.open.len()
            invariant
                i <= self.open@.len(),
                forall|j: int| 0 <= j < i ==> self.open@[j] != handle.scope,
            decreases self.open@.len() - i,
        {
            if self.open[i] == handle.scope {
                return true;
            }
            i += 1;
        }
        false
    }

    /// The raw reference behind `handle`, or nothing where the scope that
    /// minted the handle has been closed: a handle kept too long is found out
    /// here and never yields a stale reference.
    pub fn resolve<T: Managed>(&self, handle: Handle<T>) -> (raw: Option<RawReference>)
        ensures
            raw == (if self.is_live(handle) {
                Some(handle.raw())
            } else {
                None
            }),
    {
        if self.check_live(handle) {
            Some(handle.value.to_raw())
        } else {
            None
        }
    }

    /// Runs `f` in a child scope and closes that scope before it returns: the
    /// stack of open scopes is then what it was before, so every handle that
    /// was minted in the child, or in a scope below it, is dead. What `f` did to
    /// the host stays.
    pub fn nested<R, F: FnOnce(&mut Scope) -> R>(&mut self, f: F) -> (r: R)
        requires
            old(self).wf(),
            old(self).issued() < u64::MAX,
            forall|c: &mut Scope|
                {
                    &&& c.wf()
                    &&& c.open_ids() == old(self).open_ids().push(old(self).issued())
                    &&& c.issued() == old(self).issued() + 1
                    &&& c.host() == old(self).host()
                } ==> f.requires((c,)),
        ensures
            final(self).wf(),
            final(self).open_ids() == old(self).open_ids(),
            final(self).issued() > old(self).issued(),
            forall|id: u64| id >= old(self).issued() ==> !final(self).is_open(id),
            exists|c: &mut Scope|
                {
                    &&& c.wf()
                    &&& c.open_ids() == old(self).open_ids().push(old(self).issued())
                    &&& c.issued() == old(self).issued() + 1
                    &&& c.host() == old(self).host()
                    &&& f.ensures((c,), r)
                    &&& final(self).host() == final(c).host()
                    &&& final(self).issued() == if final(c).issued() > old(self).issued() {
                        final(c).issued()
                    } else {
                        (old(self).issued() + 1) as u64
                    }
                },
    {
        let id: u64 = self.issued;
        let saved = copy_ids(&self.open);
        self.open.push(id);
        self.issued = id + 1;
        assert(self.wf());
        assert(self.open_ids() == old(self).open_ids().push(id));
        assert(self.host() == old(self).host());
        let r = f(self);
        self.open = saved;
        if self.issued <= id {
            self.issued = id + 1;
        }
        r
    }
}

/// A handle that was minted in a child scope is live in that scope and dead
/// once the child is closed and the parent's stack stands again.
pub proof fn lemma_handle_dies_with_scope<T>(
    parent: Scope,
    child: Scope,
    after: Scope,
    handle: Handle<T>,
)
    requires
        parent.wf(),
        child.open_ids() == parent.open_ids().push(parent.issued()),
        handle.home() == child.active(),
        after.open_ids() == parent.open_ids(),
    ensures
        child.is_live(handle),
        !after.is_live(handle),
{
    let ids = parent.open_ids();
    assert(child.open_ids().last() == parent.issued());
    assert(child.open_ids()[ids.len() as int] == handle.scope);
    if ids.contains(handle.scope) {
        let i = choose|i: int| 0 <= i < ids.len() && ids[i] == handle.scope;
        assert(ids[i] < parent.issued());
    }
}

/// A handle whose scope was closed stays dead when a new scope is opened:
/// no number is issued twice.
pub proof fn lemma_dead_handle_stays_dead<T>(now: Scope, child: Scope, handle: Handle<T>)
    requires
        now.wf(),
        handle.home() < now.issued(),
        !now.is_live(handle),
        child.open_ids() == now.open_ids().push(now.issued()),
    ensures
        !child.is_live(handle),
{
    if child.open_ids().contains(handle.scope) {
        let i = choose|i: int| 0 <= i < child.open_ids().len() && child.open_ids()[i] == handle.scope;
        if i < now.open_ids().len() {
            assert(now.open_ids()[i] == handle.scope);
        }
    }
}

fn copy_ids(ids: &Vec<u64>) -> (copy: Vec<u64>)
    ensures
        copy@ == ids@,
{
    let mut copy: Vec<u64> = Vec::new();
    let mut i: usize = 0;
    while i < ids.len()
        invariant
            i <= ids@.len(),
            copy@ == ids@.subrange(0, i as int),
        decreases ids@.len() - i,
    {
        copy.push(ids[i]);
        i += 1;
        assert(copy@ == ids@.subrange(0, i as int));
    }
    assert(ids@.subrange(0, ids@.len() as int) == ids@);
    copy
}

} // verus!
