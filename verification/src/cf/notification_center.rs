//! The notification center: long-lived observer registrations and the
//! delivery of posted notifications.
//!
//! A registration captures its observer token for as long as it stands: it
//! is released either by explicit deregistration or when every registration
//! of the observer is removed — the owner must do one of the two before the
//! observer itself goes away.

use vstd::prelude::*;

verus! {

/// A notification name; names are process-wide constants compared by
/// identity, so a plain token stands for one.
#[derive(Clone, Copy, Debug, PartialEq, Eq, Structural)]
pub struct NotificationName(pub u64);

/// How a registration treats notifications posted while its observer's
/// process is suspended.
#[derive(Clone, Copy, Debug, PartialEq, Eq, Structural)]
pub enum NotificationSuspensionBehavior {
    Drop,
    Coalesce,
    Hold,
    DeliverImmediately,
}

/// One observer registration: the observer's token, the name it listens
/// for, the posting object it is limited to (none means any object), and
/// its suspension behavior.
#[derive(Clone, Copy, Debug, PartialEq, Eq, Structural)]
pub struct Registration {
    pub observer: u64,
    pub name: NotificationName,
    pub object: Option<u64>,
    pub suspension_behavior: NotificationSuspensionBehavior,
}

/// Whether a registration receives a notification of the given name posted
/// by the given object: the name must match, and the registration must
/// either observe every object or name the posting one.
pub open spec fn receives(reg: Registration, name: NotificationName, object: Option<u64>) -> bool {
    reg.name == name && (reg.object is None || reg.object == object)
}

/// The registrations of a list that survive removing one (observer, name,
/// object) triple.
pub open spec fn without_observer_for(
    regs: Seq<Registration>,
    observer: u64,
    name: NotificationName,
    object: Option<u64>,
) -> Seq<Registration>
    decreases regs.len(),
{
    if regs.len() == 0 {
        Seq::empty()
    } else {
        let init = without_observer_for(regs.drop_last(), observer, name, object);
        if regs.last().observer == observer && regs.last().name == name && regs.last().object
            == object {
            init
        } else {
            init.push(regs.last())
        }
    }
}

/// The registrations of a list that survive removing an observer entirely.
pub open spec fn without_observer(regs: Seq<Registration>, observer: u64) -> Seq<Registration>
    decreases regs.len(),
{
    if regs.len() == 0 {
        Seq::empty()
    } else {
        let init = without_observer(regs.drop_last(), observer);
        if regs.last().observer == observer {
            init
        } else {
            init.push(regs.last())
        }
    }
}

/// The observers a post of one name by one object reaches, in registration
/// order.
pub open spec fn observers_of(
    regs: Seq<Registration>,
    name: NotificationName,
    object: Option<u64>,
) -> Seq<u64>
    decreases regs.len(),
{
    if regs.len() == 0 {
        Seq::empty()
    } else {
        let init = observers_of(regs.drop_last(), name, object);
        if receives(regs.last(), name, object) {
            init.push(regs.last().observer)
        } else {
            init
        }
    }
}

/// A notification center: the registrations standing on it, in the order
/// they were added.
#[derive(Debug)]
pub struct NotificationCenter {
    registrations: Vec<Registration>,
}

impl NotificationCenter {
    /// The standing registrations, in registration order.
    pub closed spec fn registrations_spec(&self) -> Seq<Registration> {
        self.registrations@
    }

    /// The process-local center. Each value models the local center's state
    /// from one observation on; the native singleton itself is owned by the
    /// operating system.
    pub fn local_center() -> (c: NotificationCenter)
        ensures
            c.registrations_spec() =~= Seq::<Registration>::empty(),
    {
        NotificationCenter { registrations: Vec::new() }
    }

    /// Register an observer for a name, limited to one posting object or
    /// observing them all. The registration captures the observer token
    /// until it is removed.
    pub fn add_observer(
        &mut self,
        observer: u64,
        name: NotificationName,
        object: Option<u64>,
        suspension_behavior: NotificationSuspensionBehavior,
    )
        requires
            old(self).registrations_spec().len() < usize::MAX,
        ensures
            final(self).registrations_spec() == old(self).registrations_spec().push(
                Registration { observer, name, object, suspension_behavior },
            ),
    {
        self.registrations.push(Registration { observer, name, object, suspension_behavior });
    }

    /// Remove the registrations of one observer for one name and object;
    /// its other registrations stand.
    #[verifier::loop_isolation(false)]
    pub fn remove_observer(&mut self, observer: u64, name: NotificationName, object: Option<u64>)
        ensures
            final(self).registrations_spec() == without_observer_for(
                old(self).registrations_spec(),
                observer,
                name,
                object,
            ),
    {
        let ghost orig = self.registrations@;
        let mut kept: Vec<Registration> = Vec::new();
        let mut i: usize = 0;
        while i < self.registrations.len()
            invariant
                0 <= i <= self.registrations@.len(),
                self.registrations@ == orig,
                kept@ == without_observer_for(orig.take(i as int), observer, name, object),
            decreases self.registrations@.len() - i,
        {
            let r = self.registrations[i];
            proof {
                assert(orig.take(i as int + 1).drop_last() =~= orig.take(i as int));
                assert(orig.take(i as int + 1).last() == orig[i as int]);
            }
            if !(r.observer == observer && r.name == name && r.object == object) {
                kept.push(r);
            }
            i = i + 1;
        }
        proof {
            assert(orig.take(orig.len() as int) =~= orig);
        }
        self.registrations = kept;
    }

    /// Remove every registration of an observer, releasing its token: the
    /// call to make before the observer is destroyed.
    #[verifier::loop_isolation(false)]
    pub fn remove_every_observer(&mut self, observer: u64)
        ensures
            final(self).registrations_spec() == without_observer(
                old(self).registrations_spec(),
                observer,
            ),
    {
        let ghost orig = self.registrations@;
        let mut kept: Vec<Registration> = Vec::new();
        let mut i: usize = 0;
        while i < self.registrations.len()
            invariant
                0 <= i <= self.registrations@.len(),
                self.registrations@ == orig,
                kept@ == without_observer(orig.take(i as int), observer),
            decreases self.registrations@.len() - i,
        {
            let r = self.registrations[i];
            proof {
                assert(orig.take(i as int + 1).drop_last() =~= orig.take(i as int));
                assert(orig.take(i as int + 1).last() == orig[i as int]);
            }
            if r.observer != observer {
                kept.push(r);
            }
            i = i + 1;
        }
        proof {
            assert(orig.take(orig.len() as int) =~= orig);
        }
        self.registrations = kept;
    }

    /// Post a notification by one object: every observer whose registration
    /// receives it is notified, in registration order, and the returned
    /// list says which. Immediate delivery affects timing on suspended
    /// processes, not who is reached.
    #[verifier::loop_isolation(false)]
    pub fn post_notification(
        &self,
        name: NotificationName,
        object: Option<u64>,
        deliver_immediately: bool,
    ) -> (r: Vec<u64>)
        ensures
            r@ == observers_of(self.registrations_spec(), name, object),
    {
        let _ = deliver_immediately;
        let ghost orig = self.registrations@;
        let mut delivered: Vec<u64> = Vec::new();
        let mut i: usize = 0;
        while i < self.registrations.len()
            invariant
                0 <= i <= self.registrations@.len(),
                self.registrations@ == orig,
                delivered@ == observers_of(orig.take(i as int), name, object),
            decreases self.registrations@.len() - i,
        {
            let r = self.registrations[i];
            proof {
                assert(orig.take(i as int + 1).drop_last() =~= orig.take(i as int));
                assert(orig.take(i as int + 1).last() == orig[i as int]);
            }
            let object_ok = match r.object {
                Some(o) => object == Some(o),
                None => true,
            };
            if r.name == name && object_ok {
                proof {
                    assert(receives(r, name, object));
                }
                delivered.push(r.observer);
            } else {
                proof {
                    assert(!receives(r, name, object));
                }
            }
            i = i + 1;
        }
        proof {
            assert(orig.take(orig.len() as int) =~= orig);
        }
        delivered
    }
}

} // verus!
