use vstd::prelude::*;

use crate::engine::Instance;
use crate::model::HookError;

verus! {

/// An ambient value provided by an ancestor in the component tree, together
/// with the instances subscribed to changes of it. Reading the value from a
/// render pass subscribes the reading instance; publishing a new value hands
/// the scheduler the subscribers to re-render. This is the only
/// cross-instance sharing the engine permits: many readers, one providing
/// ancestor.
pub struct ContextProvider {
    pub value: u64,
    pub subscribers: Vec<u64>,
}

impl ContextProvider {
    /// No instance is subscribed twice.
    pub open spec fn wf(self) -> bool {
        forall|i: int, j: int|
            0 <= i < j < self.subscribers@.len() ==> self.subscribers@[i] != self.subscribers@[j]
    }

    /// A provider holding `value` with no subscribers yet.
    pub fn new(value: u64) -> (r: ContextProvider)
        ensures
            r.wf(),
            r.value == value,
            r.subscribers@ == Seq::<u64>::empty(),
    {
        let r = ContextProvider { value, subscribers: Vec::new() };
        proof {
            assert(r.subscribers@ =~= Seq::<u64>::empty());
        }
        r
    }

    /// Publish a new ambient value; returns the instances to re-render, in
    /// subscription order.
    pub fn provide(&mut self, value: u64) -> (r: Vec<u64>)
        requires
            old(self).wf(),
        ensures
            final(self).wf(),
            final(self).value == value,
            final(self).subscribers@ == old(self).subscribers@,
            r@ == old(self).subscribers@,
    {
        self.value = value;
        crate::engine::copy_ids(&self.subscribers)
    }

    /// Drop an instance's subscription at its teardown: every entry under
    /// its id leaves, and the order of the remaining subscribers is kept.
    pub fn unsubscribe(&mut self, id: u64)
        requires
            old(self).wf(),
        ensures
            final(self).wf(),
            final(self).value == old(self).value,
            final(self).subscribers@ == removed(old(self).subscribers@, id),
    {
        let ghost s0 = self.subscribers@;
        let n = self.subscribers.len();
        let mut kept: Vec<u64> = Vec::new();
        let mut i: usize = 0;
        proof {
            assert(s0.skip(0) =~= s0);
            assert(kept@ =~= Seq::<u64>::empty());
            assert(kept@ + removed(s0, id) =~= removed(s0, id));
        }
        while i < n
            invariant
                i <= n,
                n == s0.len(),
                self.subscribers@ == s0,
                removed(s0, id) == kept@ + removed(s0.skip(i as int), id),
            decreases n - i,
        {
            let ghost old_kept = kept@;
            proof {
                assert(s0.skip(i as int)[0] == s0[i as int]);
                assert(s0.skip(i as int).drop_first() =~= s0.skip(i as int + 1));
            }
            let x = self.subscribers[i];
            if x != id {
                kept.push(x);
                proof {
                    assert(kept@ =~= old_kept + seq![s0[i as int]]);
                }
            } else {
                proof {
                    assert(kept@ =~= old_kept + Seq::<u64>::empty());
                }
            }
            i += 1;
        }
        proof {
            assert(s0.skip(n as int) =~= Seq::<u64>::empty());
            assert(kept@ =~= removed(s0, id));
            lemma_removed_keeps_distinct(s0, id);
        }
        self.subscribers = kept;
    }
}

/// `subs` with every occurrence of `id` taken out, order kept.
pub open spec fn removed(subs: Seq<u64>, id: u64) -> Seq<u64>
    decreases subs.len(),
{
    if subs.len() == 0 {
        Seq::empty()
    } else {
        (if subs[0] == id {
            Seq::empty()
        } else {
            seq![subs[0]]
        }) + removed(subs.drop_first(), id)
    }
}

/// Taking an id out keeps the remaining subscribers distinct and leaves no
/// occurrence of the id behind.
pub proof fn lemma_removed_keeps_distinct(subs: Seq<u64>, id: u64)
    requires
        forall|i: int, j: int| 0 <= i < j < subs.len() ==> subs[i] != subs[j],
    ensures
        forall|i: int, j: int|
            0 <= i < j < removed(subs, id).len() ==> removed(subs, id)[i] != removed(subs, id)[j],
        !removed(subs, id).contains(id),
        forall|x: u64| removed(subs, id).contains(x) ==> subs.contains(x),
    decreases subs.len(),
{
    if subs.len() == 0 {
    } else {
        let rest = subs.drop_first();
        assert(forall|i: int, j: int| 0 <= i < j < rest.len() ==> rest[i] != rest[j]);
        lemma_removed_keeps_distinct(rest, id);
        let r = removed(subs, id);
        let rr = removed(rest, id);
        assert(forall|k: int| 0 <= k < rest.len() ==> rest[k] == subs[k + 1]);
        assert forall|x: u64| rr.contains(x) implies subs.contains(x) by {
            assert(rest.contains(x));
            let m = choose|m: int| 0 <= m < rest.len() && rest[m] == x;
            assert(subs[m + 1] == x);
        }
        if subs[0] == id {
            assert(r =~= rr);
        } else {
            assert(r =~= seq![subs[0]] + rr);
            assert(forall|x: u64| rr.contains(x) ==> rest.contains(x));
            assert(forall|k: int| 0 <= k < rest.len() ==> rest[k] == subs[k + 1]);
            assert(!rr.contains(subs[0])) by {
                if rr.contains(subs[0]) {
                    assert(rest.contains(subs[0]));
                    let k = choose|k: int| 0 <= k < rest.len() && rest[k] == subs[0];
                    assert(subs[k + 1] == subs[0]);
                }
            }
            assert(forall|i: int, j: int| 0 <= i < j < r.len() ==> r[i] != r[j]) by {
                assert(forall|k: int| 0 <= k < rr.len() ==> r[k + 1] == rr[k]);
            }
        }
    }
}

/// Context hook: read the ambient value from within a bound render pass and
/// subscribe the reading instance to future changes. Subscribing twice is
/// the same as subscribing once. The value is not slot-local: the hook
/// consumes no slot position.
pub fn use_context(provider: &mut ContextProvider, inst: &Instance) -> (r: Result<u64, HookError>)
    requires
        old(provider).wf(),
        inst@.wf(),
    ensures
        final(provider).wf(),
        final(provider).value == old(provider).value,
        r is Ok <==> !inst@.destroyed && inst@.cursor is Some,
        match r {
            Result::Ok(v) => {
                &&& !inst@.destroyed
                &&& inst@.cursor is Some
                &&& v == old(provider).value
                &&& final(provider).subscribers@ == (if old(provider).subscribers@.contains(
                    inst@.id,
                ) {
                    old(provider).subscribers@
                } else {
                    old(provider).subscribers@.push(inst@.id)
                })
            },
            Result::Err(e) => {
                &&& *final(provider) == *old(provider)
                &&& (e == HookError::Destroyed <==> inst@.destroyed)
                &&& (e == HookError::NotBound <==> !inst@.destroyed && inst@.cursor is None)
            },
        },
{
    if inst.destroyed {
        return Result::Err(HookError::Destroyed);
    }
    if inst.cursor.is_none() {
        return Result::Err(HookError::NotBound);
    }
    let n = provider.subscribers.len();
    let mut i: usize = 0;
    let mut found = false;
    while i < n
        invariant
            i <= n,
            n == provider.subscribers@.len(),
            found <==> exists|j: int| 0 <= j < i && provider.subscribers@[j] == inst@.id,
            inst@.id == inst.id,
        decreases n - i,
    {
        if provider.subscribers[i] == inst.id {
            found = true;
        }
        i += 1;
    }
    proof {
        assert(found <==> provider.subscribers@.contains(inst@.id));
    }
    if !found {
        provider.subscribers.push(inst.id);
        proof {
            assert(!old(provider).subscribers@.contains(inst@.id));
            assert(forall|j: int|
                0 <= j < old(provider).subscribers@.len()
                    ==> old(provider).subscribers@[j] != inst@.id);
        }
    }
    Result::Ok(provider.value)
}

} // verus!
