//! What holds of the permits that are out and of the count of running downloads,
//! however the tasks that hold them take turns.
//!
//! The semaphore appears here by what is promised of each single request: one is
//! granted only while fewer permits are out than the semaphore was made with, and
//! refused only while all of them are.

use crate::context::{one_less, one_more, Context, DownloadID};
use crate::external::runtime::semaphore_size;
use vstd::prelude::*;

verus! {

/// One thing that happens to a permit or to the count of running downloads.
pub enum Act {
    /// The scheduler takes a permit for this download.
    Taken(DownloadID),
    /// The scheduler is refused a permit.
    Refused,
    /// The task of this download begins, with `Context::enter`.
    Entered(DownloadID),
    /// The task of this download ends, with `Context::leave`.
    Left(DownloadID),
    /// The permit of this download goes back.
    Returned(DownloadID),
}

/// The permits that are out and the guards that are out under them.
#[verifier::ext_equal]
pub struct Slots {
    /// The downloads that hold a permit.
    pub holding: Set<DownloadID>,
    /// The downloads that hold a guard, which owns their permit.
    pub guarded: Set<DownloadID>,
    /// The count of running downloads that the context keeps.
    pub active: usize,
}

impl Slots {
    /// No permit is out.
    pub open spec fn initial() -> Self {
        Slots { holding: Set::empty(), guarded: Set::empty(), active: 0 }
    }

    /// This can happen now, under a semaphore of this size.
    pub open spec fn allows(self, size: nat, act: Act) -> bool {
        match act {
            Act::Taken(_) => self.holding.len() < size,
            Act::Refused => self.holding.len() >= size,
            Act::Entered(id) => self.holding.contains(id) && !self.guarded.contains(id),
            Act::Left(id) => self.guarded.contains(id),
            Act::Returned(id) => self.holding.contains(id) && !self.guarded.contains(id),
        }
    }

    /// This has happened.
    pub open spec fn after(self, act: Act) -> Self {
        match act {
            Act::Taken(id) => Slots { holding: self.holding.insert(id), ..self },
            Act::Refused => self,
            Act::Entered(id) => Slots {
                guarded: self.guarded.insert(id),
                active: one_more(self.active),
                ..self
            },
            Act::Left(id) => Slots {
                guarded: self.guarded.remove(id),
                active: one_less(self.active),
                ..self
            },
            Act::Returned(id) => Slots { holding: self.holding.remove(id), ..self },
        }
    }

    /// All of this has happened, in this order.
    pub open spec fn played(self, acts: Seq<Act>) -> Self
        decreases acts.len(),
    {
        if acts.len() == 0 {
            self
        } else {
            self.played(acts.drop_last()).after(acts.last())
        }
    }

    /// All of this can happen, in this order.
    pub open spec fn permits(self, size: nat, acts: Seq<Act>) -> bool
        decreases acts.len(),
    {
        acts.len() == 0 || {
            &&& self.permits(size, acts.drop_last())
            &&& self.played(acts.drop_last()).allows(size, acts.last())
        }
    }

    /// No more permits are out than the semaphore was made with, each guard has
    /// its permit, and the count of running downloads is the number of guards.
    pub open spec fn is_sound(self, size: nat) -> bool {
        &&& self.holding.finite()
        &&& self.holding.len() <= size
        &&& self.guarded.subset_of(self.holding)
        &&& size <= usize::MAX ==> self.active == self.guarded.len()
    }
}

/// The downloads that permits are taken for, in order.
pub open spec fn taken_for(acts: Seq<Act>) -> Seq<DownloadID>
    decreases acts.len(),
{
    if acts.len() == 0 {
        Seq::empty()
    } else {
        match acts.last() {
            Act::Taken(id) => taken_for(acts.drop_last()).push(id),
            _ => taken_for(acts.drop_last()),
        }
    }
}

/// Whatever happens one by one keeps the permits within the size of the
/// semaphore and the count of running downloads at the number of guards.
pub proof fn law_act_keeps_permits(slots: Slots, size: nat, act: Act)
    requires
        slots.is_sound(size),
        slots.allows(size, act),
    ensures
        slots.after(act).is_sound(size),
{
    assert(slots.guarded.finite()) by {
        vstd::set_lib::lemma_set_subset_finite(slots.holding, slots.guarded);
    }
    if let Act::Entered(id) = act {
        let guarded = slots.guarded.insert(id);
        assert(guarded.subset_of(slots.holding));
        vstd::set_lib::lemma_len_subset(guarded, slots.holding);
    }
}

/// Whatever happens, in any order, no more permits are out than the semaphore was
/// made with, and the count of running downloads is the number of guards.
pub proof fn law_permits_stay_within_size(slots: Slots, size: nat, acts: Seq<Act>)
    requires
        slots.is_sound(size),
        slots.permits(size, acts),
    ensures
        slots.played(acts).is_sound(size),
    decreases acts.len(),
{
    if acts.len() > 0 {
        law_permits_stay_within_size(slots, size, acts.drop_last());
        law_act_keeps_permits(slots.played(acts.drop_last()), size, acts.last());
    }
}

/// `Context::active_downloads` is right and bounded: it is the number of guards
/// that are out, at most the limit of the context at all times, and zero before
/// any download runs and again when all have ended.
pub proof fn law_active_is_bounded(ctx: Context, acts: Seq<Act>)
    requires
        ctx.enforces_limit(),
        Slots::initial().permits(semaphore_size(ctx.gate()), acts),
    ensures
        ({
            let slots = Slots::initial().played(acts);
            &&& slots.active == slots.guarded.len()
            &&& slots.active <= slots.holding.len() <= ctx.max_concurrent
            &&& slots.guarded == Set::<DownloadID>::empty() <==> slots.active == 0
        }),
{
    law_permits_stay_within_size(Slots::initial(), semaphore_size(ctx.gate()), acts);
    let slots = Slots::initial().played(acts);
    vstd::set_lib::lemma_len_subset(slots.guarded, slots.holding);
    if slots.guarded.len() == 0 {
        assert(slots.guarded =~= Set::empty());
    }
}

/// What can happen in some order can happen up to any point of it.
pub(crate) proof fn lemma_permits_prefix(slots: Slots, size: nat, acts: Seq<Act>, n: int)
    requires
        slots.permits(size, acts),
        0 <= n <= acts.len(),
    ensures
        slots.permits(size, acts.take(n)),
        n < acts.len() ==> slots.played(acts.take(n)).allows(size, acts[n]),
    decreases acts.len(),
{
    if n == acts.len() {
        assert(acts.take(n) =~= acts);
    } else {
        let earlier = acts.drop_last();
        assert(acts.take(n) =~= earlier.take(n));
        lemma_permits_prefix(slots, size, earlier, n);
        if n == acts.len() - 1 {
            assert(earlier.take(n) =~= earlier);
        }
    }
}

/// Who holds a permit held one before or has taken one since.
pub(crate) proof fn lemma_holders(slots: Slots, acts: Seq<Act>, id: DownloadID)
    requires
        slots.played(acts).holding.contains(id),
    ensures
        slots.holding.contains(id) || taken_for(acts).contains(id),
    decreases acts.len(),
{
    if acts.len() > 0 {
        let earlier = acts.drop_last();
        if slots.played(earlier).holding.contains(id) {
            lemma_holders(slots, earlier, id);
            if taken_for(earlier).contains(id) {
                let sofar = taken_for(earlier);
                let n = choose|i: int| 0 <= i < sofar.len() && sofar[i] == id;
                assert(taken_for(acts)[n] == id);
            }
        } else {
            assert(taken_for(acts)[taken_for(earlier).len() as int] == id);
        }
    }
}

/// What permits were taken for up to some point comes first among all of it.
pub(crate) proof fn lemma_taken_prefix(acts: Seq<Act>, n: int)
    requires
        0 <= n <= acts.len(),
    ensures
        taken_for(acts.take(n)).len() <= taken_for(acts).len(),
        taken_for(acts).take(taken_for(acts.take(n)).len() as int) == taken_for(acts.take(n)),
    decreases acts.len(),
{
    if n == acts.len() {
        assert(acts.take(n) =~= acts);
        assert(taken_for(acts).take(taken_for(acts).len() as int) =~= taken_for(acts));
    } else {
        let earlier = acts.drop_last();
        assert(acts.take(n) =~= earlier.take(n));
        lemma_taken_prefix(earlier, n);
        assert(taken_for(acts).take(taken_for(acts.take(n)).len() as int) =~= taken_for(
            earlier,
        ).take(taken_for(earlier.take(n)).len() as int));
    }
}

} // verus!
