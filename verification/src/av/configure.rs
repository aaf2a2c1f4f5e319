//! Guarded configuration batches: lock once, write in order, unlock on
//! every path.
//!
//! The native frameworks guarantee that a failed configuration change leaves
//! the device in its prior observable state. The batch application here
//! keeps that shape: each write is atomic, a raise aborts the writes after
//! it and never the ones before, and the unlock that the acquisition owes
//! runs whether the batch completes or not.

use vstd::prelude::*;

use crate::av::capture_device::{
    ColorSpace, ConfigurationLockGuard, Device, ExposureMode, FocusMode,
};
use crate::cg::{Point, Rect};
use crate::ns::{Exception, ExceptionName};

verus! {


/// One configuration write that a guarded batch may carry.
#[derive(Clone, Copy, Debug, PartialEq, Eq, Structural)]
pub enum ConfigUpdate {
    ActiveColorSpace(ColorSpace),
    FocusMode(FocusMode),
    ExposureMode(ExposureMode),
    FocusPointOfInterest(Point),
    CenterStageRectOfInterest(Rect),
}

/// Whether one update raises on a locked device.
pub open spec fn update_raises(d: Device, u: ConfigUpdate) -> bool {
    match u {
        ConfigUpdate::ActiveColorSpace(_) => false,
        ConfigUpdate::FocusMode(m) => !d.supported_focus_modes@.contains(m),
        ConfigUpdate::ExposureMode(m) => !d.supported_exposure_modes@.contains(m),
        ConfigUpdate::FocusPointOfInterest(p) => !(d.is_focus_point_of_interest_supported_field
            && p.is_normalized_spec()),
        ConfigUpdate::CenterStageRectOfInterest(r) => !(r.is_normalized_spec()
            && d.supports_center_stage()),
    }
}

/// The device after one update that does not raise; a raising update leaves
/// the device as it was.
pub open spec fn update_effect(d: Device, u: ConfigUpdate) -> Device {
    if update_raises(d, u) {
        d
    } else {
        match u {
            ConfigUpdate::ActiveColorSpace(c) => Device { active_color_space_field: c, ..d },
            ConfigUpdate::FocusMode(m) => Device { focus_mode_field: m, ..d },
            ConfigUpdate::ExposureMode(m) => Device { exposure_mode_field: m, ..d },
            ConfigUpdate::FocusPointOfInterest(p) => Device {
                focus_point_of_interest_field: p,
                ..d
            },
            ConfigUpdate::CenterStageRectOfInterest(r) => Device {
                center_stage_rect_of_interest_field: r,
                ..d
            },
        }
    }
}

/// Apply updates in order until the first raise: the resulting device and
/// whether every update applied. Each write is atomic — a raise aborts the
/// rest of the batch but never undoes or half-applies an earlier write.
pub open spec fn apply_updates(d: Device, us: Seq<ConfigUpdate>) -> (Device, bool)
    decreases us.len(),
{
    if us.len() == 0 {
        (d, true)
    } else if update_raises(d, us[0]) {
        (d, false)
    } else {
        apply_updates(update_effect(d, us[0]), us.drop_first())
    }
}

/// Applying updates never touches the lock state or its counters: only the
/// lock and unlock calls themselves do.
pub proof fn lemma_updates_preserve_lock_state(d: Device, us: Seq<ConfigUpdate>)
    ensures
        apply_updates(d, us).0.config_locked == d.config_locked,
        apply_updates(d, us).0.lock_count == d.lock_count,
        apply_updates(d, us).0.unlock_count == d.unlock_count,
    decreases us.len(),
{
    if us.len() > 0 && !update_raises(d, us[0]) {
        lemma_updates_preserve_lock_state(update_effect(d, us[0]), us.drop_first());
    }
}

/// Appending one update to a batch: the longer batch first runs the shorter
/// one, then — if that completed — the appended update.
pub proof fn lemma_apply_updates_push(d: Device, us: Seq<ConfigUpdate>, u: ConfigUpdate)
    ensures
        ({
            let (d1, ok1) = apply_updates(d, us);
            apply_updates(d, us.push(u)) == if ok1 {
                if update_raises(d1, u) {
                    (d1, false)
                } else {
                    (update_effect(d1, u), true)
                }
            } else {
                (d1, false)
            }
        }),
    decreases us.len(),
{
    if us.len() == 0 {
        assert(us.push(u).drop_first() =~= us);
        assert(us.push(u)[0] == u);
        if !update_raises(d, u) {
            assert(apply_updates(update_effect(d, u), us) == (update_effect(d, u), true));
        }
    } else {
        assert(us.push(u)[0] == us[0]);
        assert(us.push(u).drop_first() =~= us.drop_first().push(u));
        if !update_raises(d, us[0]) {
            lemma_apply_updates_push(update_effect(d, us[0]), us.drop_first(), u);
        }
    }
}

/// A batch whose prefix completes and whose next update raises stops there:
/// the whole batch yields the prefix's device and reports the failure.
pub proof fn lemma_apply_updates_raise_at(d: Device, us: Seq<ConfigUpdate>, i: int)
    requires
        0 <= i < us.len(),
        apply_updates(d, us.take(i)).1,
        update_raises(apply_updates(d, us.take(i)).0, us[i]),
    ensures
        apply_updates(d, us) == (apply_updates(d, us.take(i)).0, false),
    decreases i,
{
    if i == 0 {
        assert(us.take(0) =~= Seq::<ConfigUpdate>::empty());
    } else {
        assert(us.take(i)[0] == us[0]);
        assert(!update_raises(d, us[0])) by {
            if update_raises(d, us[0]) {
                assert(apply_updates(d, us.take(i)) == (d, false));
            }
        }
        assert(us.take(i).drop_first() =~= us.drop_first().take(i - 1));
        assert(us.drop_first()[i - 1] == us[i]);
        lemma_apply_updates_raise_at(update_effect(d, us[0]), us.drop_first(), i - 1);
    }
}

/// The device `apply_configuration` leaves behind: unchanged when the lock
/// is refused; otherwise locked once, written up to the first raise, and
/// unlocked exactly once.
pub open spec fn configured(d: Device, us: Seq<ConfigUpdate>) -> Device {
    if !d.is_connected_field {
        d
    } else {
        let locked = Device { config_locked: true, lock_count: (d.lock_count + 1) as u64, ..d };
        let applied = apply_updates(locked, us).0;
        Device { config_locked: false, unlock_count: (applied.unlock_count + 1) as u64, ..applied }
    }
}

/// For every acquisition of the exclusive-configuration guard, exactly one
/// unlock call occurs — whether the guarded batch completes or a write
/// raises partway through.
pub proof fn lemma_unlock_exactly_once(d: Device, us: Seq<ConfigUpdate>)
    requires
        d.wf(),
        !d.config_locked,
        d.lock_count < u64::MAX,
        d.is_connected_field,
    ensures
        configured(d, us).lock_count == d.lock_count + 1,
        configured(d, us).unlock_count == d.unlock_count + 1,
        !configured(d, us).config_locked,
        configured(d, us).wf(),
{
    let locked = Device { config_locked: true, lock_count: (d.lock_count + 1) as u64, ..d };
    lemma_updates_preserve_lock_state(locked, us);
}

impl ConfigurationLockGuard {
    /// Apply one update through the guard: the write lands exactly when the
    /// update does not raise on the current device.
    #[verifier::rlimit(100)]
    #[verifier::spinoff_prover]
    pub fn apply_update(&mut self, update: ConfigUpdate) -> (r: Result<(), Exception>)
        requires
            old(self).wf(),
        ensures
            final(self).wf(),
            final(self).device_spec() == update_effect(old(self).device_spec(), update),
            match r {
                Ok(u) => !update_raises(old(self).device_spec(), update),
                Err(e) => update_raises(old(self).device_spec(), update) && e.name
                    == ExceptionName::InvalidArgument,
            },
    {
        match update {
            ConfigUpdate::ActiveColorSpace(c) => self.apply_active_color_space(c),
            ConfigUpdate::FocusMode(m) => self.apply_focus_mode(m),
            ConfigUpdate::ExposureMode(m) => self.apply_exposure_mode(m),
            ConfigUpdate::FocusPointOfInterest(p) => self.apply_focus_point_of_interest(p),
            ConfigUpdate::CenterStageRectOfInterest(rect) => self.apply_center_stage_rect(rect),
        }
    }

    fn apply_active_color_space(&mut self, c: ColorSpace) -> (r: Result<(), Exception>)
        requires
            old(self).wf(),
        ensures
            final(self).wf(),
            final(self).device_spec() == update_effect(
                old(self).device_spec(),
                ConfigUpdate::ActiveColorSpace(c),
            ),
            r is Ok,
            !update_raises(old(self).device_spec(), ConfigUpdate::ActiveColorSpace(c)),
    {
        self.set_active_color_space(c);
        Ok(())
    }

    fn apply_focus_mode(&mut self, m: FocusMode) -> (r: Result<(), Exception>)
        requires
            old(self).wf(),
        ensures
            final(self).wf(),
            final(self).device_spec() == update_effect(
                old(self).device_spec(),
                ConfigUpdate::FocusMode(m),
            ),
            match r {
                Ok(u) => !update_raises(old(self).device_spec(), ConfigUpdate::FocusMode(m)),
                Err(e) => update_raises(old(self).device_spec(), ConfigUpdate::FocusMode(m))
                    && e.name == ExceptionName::InvalidArgument,
            },
    {
        self.set_focus_mode(m)
    }

    fn apply_exposure_mode(&mut self, m: ExposureMode) -> (r: Result<(), Exception>)
        requires
            old(self).wf(),
        ensures
            final(self).wf(),
            final(self).device_spec() == update_effect(
                old(self).device_spec(),
                ConfigUpdate::ExposureMode(m),
            ),
            match r {
                Ok(u) => !update_raises(old(self).device_spec(), ConfigUpdate::ExposureMode(m)),
                Err(e) => update_raises(old(self).device_spec(), ConfigUpdate::ExposureMode(m))
                    && e.name == ExceptionName::InvalidArgument,
            },
    {
        self.set_exposure_mode(m)
    }

    fn apply_focus_point_of_interest(&mut self, p: Point) -> (r: Result<(), Exception>)
        requires
            old(self).wf(),
        ensures
            final(self).wf(),
            final(self).device_spec() == update_effect(
                old(self).device_spec(),
                ConfigUpdate::FocusPointOfInterest(p),
            ),
            match r {
                Ok(u) => !update_raises(
                    old(self).device_spec(),
                    ConfigUpdate::FocusPointOfInterest(p),
                ),
                Err(e) => update_raises(
                    old(self).device_spec(),
                    ConfigUpdate::FocusPointOfInterest(p),
                ) && e.name == ExceptionName::InvalidArgument,
            },
    {
        self.set_focus_point_of_interest(p)
    }

    fn apply_center_stage_rect(&mut self, rect: Rect) -> (r: Result<(), Exception>)
        requires
            old(self).wf(),
        ensures
            final(self).wf(),
            final(self).device_spec() == update_effect(
                old(self).device_spec(),
                ConfigUpdate::CenterStageRectOfInterest(rect),
            ),
            match r {
                Ok(u) => !update_raises(
                    old(self).device_spec(),
                    ConfigUpdate::CenterStageRectOfInterest(rect),
                ),
                Err(e) => update_raises(
                    old(self).device_spec(),
                    ConfigUpdate::CenterStageRectOfInterest(rect),
                ) && e.name == ExceptionName::InvalidArgument,
            },
    {
        self.set_center_stage_rect_of_interest(rect)
    }

    /// Apply a batch of updates through the guard, in order, stopping at the
    /// first raise. The writes made before a raise stand — each write is
    /// atomic — and the guard survives either way, so the caller's unlock
    /// still runs.
    #[verifier::loop_isolation(false)]
    pub fn apply_updates(&mut self, updates: &Vec<ConfigUpdate>) -> (failure: Option<Exception>)
        requires
            old(self).wf(),
        ensures
            final(self).wf(),
            final(self).device_spec() == apply_updates(old(self).device_spec(), updates@).0,
            match failure {
                Some(e) => !apply_updates(old(self).device_spec(), updates@).1 && e.name
                    == ExceptionName::InvalidArgument,
                None => apply_updates(old(self).device_spec(), updates@).1,
            },
    {
        let ghost locked = self.device_spec();
        let mut failure: Option<Exception> = None;
        let mut raised = false;
        let mut i: usize = 0;
        while i < updates.len() && !raised
            invariant
                0 <= i <= updates@.len(),
                self.wf(),
                !raised ==> failure is None && apply_updates(locked, updates@.take(i as int)) == (
                    self.device_spec(),
                    true,
                ),
                raised ==> apply_updates(locked, updates@) == (self.device_spec(), false) && match failure {
                    Some(e) => e.name == ExceptionName::InvalidArgument,
                    None => false,
                },
            decreases updates@.len() - i,
        {
            let outcome = self.apply_update(updates[i]);
            proof {
                lemma_apply_updates_push(locked, updates@.take(i as int), updates@[i as int]);
                assert(updates@.take(i as int).push(updates@[i as int]) =~= updates@.take(
                    i as int + 1,
                ));
            }
            match outcome {
                Ok(_) => {},
                Err(e) => {
                    proof {
                        lemma_apply_updates_raise_at(locked, updates@, i as int);
                    }
                    failure = Some(e);
                    raised = true;
                },
            }
            i = i + 1;
        }
        proof {
            if !raised {
                assert(updates@.take(updates@.len() as int) =~= updates@);
            }
        }
        failure
    }
}

} // verus!
