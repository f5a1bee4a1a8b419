//! The aggregate state of one product and its three transitions.
//!
//! Each transition is described twice over: by a pair of spec functions, one
//! for the answer and one for the state that is left, and by the executable
//! method whose contract equates it with that pair. The spec functions work on
//! unbounded integers, so a sum in them is the true sum.

use crate::error::ErrorCode;
use vstd::prelude::*;

verus! {

/// What is locked in one product.
///
/// `locked` is the balance as of epoch `last_update_at`. `delta_locked` is the
/// net of the locks (positive) and unlocks (negative) requested since then;
/// it becomes part of `locked` when a later epoch is first observed. `bump`
/// belongs to the account's address: no transition reads or writes it.
#[derive(Clone, Copy, Debug, PartialEq, Eq, Structural)]
pub struct ProductMetadata {
    pub bump: u8,
    pub last_update_at: u64,
    pub locked: u64,
    pub delta_locked: i64,
}

/// Whether `value` can be held in a signed 64-bit integer.
pub open spec fn fits_signed(value: int) -> bool {
    i64::MIN <= value <= i64::MAX
}

/// `value` as a signed integer, or `None` where it exceeds `i64::MAX`.
fn to_signed(value: u64) -> (signed: Option<i64>)
    ensures
        fits_signed(value as int) ==> signed == Some(value as i64),
        !fits_signed(value as int) ==> signed.is_none(),
{
    if value <= i64::MAX as u64 {
        Some(value as i64)
    } else {
        None
    }
}

impl Default for ProductMetadata {
    /// A product in which nothing was ever locked.
    fn default() -> (product: Self)
        ensures
            product == (ProductMetadata { bump: 0, last_update_at: 0, locked: 0, delta_locked: 0 }),
    {
        ProductMetadata { bump: 0, last_update_at: 0, locked: 0, delta_locked: 0 }
    }
}

impl ProductMetadata {
    /// The balance that the next fold would settle: `locked + delta_locked`,
    /// as an unbounded integer.
    pub open spec fn projected(self) -> int {
        self.locked + self.delta_locked
    }

    /// The projected balance is not negative. The all-zero state is solvent,
    /// and every transition that succeeds from a solvent state ends in one.
    pub open spec fn solvent(self) -> bool {
        self.projected() >= 0
    }

    /// `self` with the pending delta replaced.
    pub open spec fn with_delta(self, delta_locked: i64) -> ProductMetadata {
        ProductMetadata {
            bump: self.bump,
            last_update_at: self.last_update_at,
            locked: self.locked,
            delta_locked,
        }
    }

    /// What `update` answers at `current_epoch`.
    ///
    /// An epoch before the last settled one is refused as an overflow. In the
    /// last settled epoch there is nothing to do. In any later epoch the
    /// pending delta is folded in, however many epochs went by. The fold is
    /// refused as an overflow where the balance or the sum does not fit a
    /// signed 64-bit integer, and as a negative balance where the sum is
    /// below zero.
    pub open spec fn update_result(self, current_epoch: u64) -> Result<(), ErrorCode> {
        if current_epoch < self.last_update_at {
            Err(ErrorCode::GenericOverflow)
        } else if current_epoch == self.last_update_at {
            Ok(())
        } else if !fits_signed(self.locked as int) || !fits_signed(self.projected()) {
            Err(ErrorCode::GenericOverflow)
        } else if self.projected() < 0 {
            Err(ErrorCode::NegativeBalance)
        } else {
            Ok(())
        }
    }

    /// The state that `update` leaves at `current_epoch`, refused or not.
    ///
    /// A refused epoch leaves the state as it was. A refused fold has already
    /// moved `last_update_at`, and nothing else.
    pub open spec fn after_update(self, current_epoch: u64) -> ProductMetadata {
        if current_epoch <= self.last_update_at {
            self
        } else if self.update_result(current_epoch) is Ok {
            ProductMetadata {
                bump: self.bump,
                last_update_at: current_epoch,
                locked: self.projected() as u64,
                delta_locked: 0,
            }
        } else {
            ProductMetadata {
                bump: self.bump,
                last_update_at: current_epoch,
                locked: self.locked,
                delta_locked: self.delta_locked,
            }
        }
    }

    /// What `add_locking` answers for `amount` at `current_epoch`.
    ///
    /// A refusal of the settlement comes first. After it, the amount must fit
    /// a signed 64-bit integer, and so must the pending delta with the amount
    /// added.
    pub open spec fn add_locking_result(self, amount: u64, current_epoch: u64) -> Result<
        (),
        ErrorCode,
    > {
        let settled = self.after_update(current_epoch);
        if self.update_result(current_epoch) is Err {
            self.update_result(current_epoch)
        } else if !fits_signed(amount as int) || !fits_signed(settled.delta_locked + amount) {
            Err(ErrorCode::GenericOverflow)
        } else {
            Ok(())
        }
    }

    /// The state that `add_locking` leaves, refused or not: the settled state,
    /// with the amount added to the pending delta where the call succeeds.
    pub open spec fn after_add_locking(self, amount: u64, current_epoch: u64) -> ProductMetadata {
        let settled = self.after_update(current_epoch);
        if self.add_locking_result(amount, current_epoch) is Ok {
            settled.with_delta((settled.delta_locked + amount) as i64)
        } else {
            settled
        }
    }

    /// Whether `add_unlocking` gets as far as writing the pending delta: the
    /// settlement succeeds, and the amount and the pending delta with the
    /// amount taken off both fit a signed 64-bit integer.
    pub open spec fn unlocking_is_recorded(self, amount: u64, current_epoch: u64) -> bool {
        let settled = self.after_update(current_epoch);
        &&& self.update_result(current_epoch) is Ok
        &&& fits_signed(amount as int)
        &&& fits_signed(settled.delta_locked - amount)
    }

    /// What `add_unlocking` answers for `amount` at `current_epoch`.
    ///
    /// A refusal of the settlement comes first. After it, the amount must fit
    /// a signed 64-bit integer, and so must the pending delta with the amount
    /// taken off. Then the balance that this leaves projected is tested: the
    /// settled balance and the projection must fit a signed 64-bit integer,
    /// and the projection must not be negative.
    pub open spec fn add_unlocking_result(self, amount: u64, current_epoch: u64) -> Result<
        (),
        ErrorCode,
    > {
        let settled = self.after_update(current_epoch);
        if self.update_result(current_epoch) is Err {
            self.update_result(current_epoch)
        } else if !self.unlocking_is_recorded(amount, current_epoch) {
            Err(ErrorCode::GenericOverflow)
        } else if !fits_signed(settled.locked as int) || !fits_signed(
            settled.projected() - amount,
        ) {
            Err(ErrorCode::GenericOverflow)
        } else if settled.projected() - amount < 0 {
            Err(ErrorCode::NegativeBalance)
        } else {
            Ok(())
        }
    }

    /// The state that `add_unlocking` leaves, refused or not.
    ///
    /// Once the pending delta with the amount taken off is known to fit, it is
    /// written, and it stays written where the projected balance is then
    /// refused. Before that point only the settlement has had its effect.
    pub open spec fn after_add_unlocking(self, amount: u64, current_epoch: u64) -> ProductMetadata {
        let settled = self.after_update(current_epoch);
        if self.unlocking_is_recorded(amount, current_epoch) {
            settled.with_delta((settled.delta_locked - amount) as i64)
        } else {
            settled
        }
    }

    /// Brings the settled balance up to date as of `current_epoch`.
    ///
    /// The first two clauses say all there is to say. The others spell out
    /// what follows for the epoch, for the balance and for overflow.
    pub fn update(&mut self, current_epoch: u64) -> (res: Result<(), ErrorCode>)
        ensures
            res == old(self).update_result(current_epoch),
            *final(self) == old(self).after_update(current_epoch),
            // An epoch that lies behind is always refused, and nothing is touched.
            current_epoch < old(self).last_update_at ==> res == Err::<(), ErrorCode>(
                ErrorCode::GenericOverflow,
            ) && *final(self) == *old(self),
            // Within the settled epoch the call does nothing.
            current_epoch == old(self).last_update_at ==> res is Ok && *final(self) == *old(self),
            // The epoch never goes back, whatever the answer.
            final(self).last_update_at >= old(self).last_update_at,
            final(self).bump == old(self).bump,
            res is Ok ==> final(self).last_update_at == current_epoch,
            // A fold moves the whole projected balance into `locked`, exactly.
            res is Ok && current_epoch > old(self).last_update_at ==> final(self).locked == old(
                self,
            ).projected() && final(self).delta_locked == 0,
            res is Ok ==> final(self).projected() == old(self).projected(),
            res is Ok && (current_epoch > old(self).last_update_at || old(self).solvent())
                ==> final(self).solvent(),
            // What does not fit is refused, never wrapped.
            current_epoch > old(self).last_update_at && (!fits_signed(old(self).locked as int)
                || !fits_signed(old(self).projected())) ==> res == Err::<(), ErrorCode>(
                ErrorCode::GenericOverflow,
            ),
    {
        let elapsed: u64 = match current_epoch.checked_sub(self.last_update_at) {
            Some(n) => n,
            None => return Err(ErrorCode::GenericOverflow),
        };
        self.last_update_at = current_epoch;
        if elapsed == 0 {
            return Ok(());
        }
        let locked: i64 = match to_signed(self.locked) {
            Some(v) => v,
            None => return Err(ErrorCode::GenericOverflow),
        };
        let folded: i64 = match locked.checked_add(self.delta_locked) {
            Some(v) => v,
            None => return Err(ErrorCode::GenericOverflow),
        };
        match u64::try_from(folded) {
            Ok(v) => {
                self.locked = v;
            },
            Err(_) => return Err(ErrorCode::NegativeBalance),
        }
        self.delta_locked = 0;
        Ok(())
    }

    /// Settles as of `current_epoch`, then records that `amount` more will be
    /// locked from the next epoch on.
    ///
    /// No bound is put on the amount but that of the arithmetic: whether the
    /// caller has that much to lock is not this type's concern.
    pub fn add_locking(&mut self, amount: u64, current_epoch: u64) -> (res: Result<(), ErrorCode>)
        ensures
            res == old(self).add_locking_result(amount, current_epoch),
            *final(self) == old(self).after_add_locking(amount, current_epoch),
            // A refused settlement is reported as it is.
            old(self).update_result(current_epoch) is Err ==> res == old(self).update_result(
                current_epoch,
            ) && *final(self) == old(self).after_update(current_epoch),
            current_epoch < old(self).last_update_at ==> res == Err::<(), ErrorCode>(
                ErrorCode::GenericOverflow,
            ) && *final(self) == *old(self),
            final(self).last_update_at >= old(self).last_update_at,
            final(self).bump == old(self).bump,
            res is Ok ==> final(self).last_update_at == current_epoch,
            // Only the pending delta takes the amount, and it takes it exactly.
            res is Ok ==> final(self).locked == old(self).after_update(current_epoch).locked,
            res is Ok ==> final(self).delta_locked == old(self).after_update(
                current_epoch,
            ).delta_locked + amount,
            res is Ok ==> final(self).projected() == old(self).projected() + amount,
            res is Ok && old(self).solvent() ==> final(self).solvent(),
            // What does not fit is refused, never wrapped.
            old(self).update_result(current_epoch) is Ok && (!fits_signed(amount as int)
                || !fits_signed(old(self).after_update(current_epoch).delta_locked + amount))
                ==> res == Err::<(), ErrorCode>(ErrorCode::GenericOverflow),
    {
        match self.update(current_epoch) {
            Ok(()) => {},
            Err(e) => return Err(e),
        }
        let signed_amount: i64 = match to_signed(amount) {
            Some(v) => v,
            None => return Err(ErrorCode::GenericOverflow),
        };
        self.delta_locked = match self.delta_locked.checked_add(signed_amount) {
            Some(v) => v,
            None => return Err(ErrorCode::GenericOverflow),
        };
        Ok(())
    }

    /// Settles as of `current_epoch`, then records that `amount` less will be
    /// locked from the next epoch on, unless that takes out more than is
    /// locked and pending.
    ///
    /// A call refused for its projected balance has written the pending delta
    /// all the same: the caller discards the state.
    pub fn add_unlocking(&mut self, amount: u64, current_epoch: u64) -> (res: Result<
        (),
        ErrorCode,
    >)
        ensures
            res == old(self).add_unlocking_result(amount, current_epoch),
            *final(self) == old(self).after_add_unlocking(amount, current_epoch),
            // A refused settlement is reported as it is.
            old(self).update_result(current_epoch) is Err ==> res == old(self).update_result(
                current_epoch,
            ) && *final(self) == old(self).after_update(current_epoch),
            current_epoch < old(self).last_update_at ==> res == Err::<(), ErrorCode>(
                ErrorCode::GenericOverflow,
            ) && *final(self) == *old(self),
            final(self).last_update_at >= old(self).last_update_at,
            final(self).bump == old(self).bump,
            final(self).locked == old(self).after_update(current_epoch).locked,
            res is Ok ==> final(self).last_update_at == current_epoch,
            // Only the pending delta gives the amount, and it gives it exactly.
            res is Ok ==> final(self).delta_locked == old(self).after_update(
                current_epoch,
            ).delta_locked - amount,
            res is Ok ==> final(self).projected() == old(self).projected() - amount,
            // No more leaves than is locked and pending.
            res is Ok ==> amount <= old(self).projected() && final(self).solvent(),
            res == Err::<(), ErrorCode>(ErrorCode::NegativeBalance) && old(self).update_result(
                current_epoch,
            ) is Ok ==> amount > old(self).projected(),
            // What does not fit is refused, never wrapped.
            old(self).update_result(current_epoch) is Ok && (!fits_signed(amount as int)
                || !fits_signed(old(self).after_update(current_epoch).delta_locked - amount)
                || !fits_signed(old(self).after_update(current_epoch).locked as int)
                || !fits_signed(old(self).projected() - amount)) ==> res == Err::<(), ErrorCode>(
                ErrorCode::GenericOverflow,
            ),
    {
        match self.update(current_epoch) {
            Ok(()) => {},
            Err(e) => return Err(e),
        }
        let signed_amount: i64 = match to_signed(amount) {
            Some(v) => v,
            None => return Err(ErrorCode::GenericOverflow),
        };
        self.delta_locked = match self.delta_locked.checked_sub(signed_amount) {
            Some(v) => v,
            None => return Err(ErrorCode::GenericOverflow),
        };
        let locked: i64 = match to_signed(self.locked) {
            Some(v) => v,
            None => return Err(ErrorCode::GenericOverflow),
        };
        let projected: i64 = match locked.checked_add(self.delta_locked) {
            Some(v) => v,
            None => return Err(ErrorCode::GenericOverflow),
        };
        if projected < 0 {
            return Err(ErrorCode::NegativeBalance);
        }
        Ok(())
    }
}

/// Settling twice at one epoch is settling once: after a first call at an
/// epoch that is not behind the state, a second call at the same epoch
/// succeeds and leaves every field as the first call left it, with
/// `last_update_at` at that epoch.
pub proof fn lemma_update_again_changes_nothing(state: ProductMetadata, epoch: u64)
    requires
        state.last_update_at <= epoch,
    ensures
        state.after_update(epoch).last_update_at == epoch,
        state.after_update(epoch).update_result(epoch) == Ok::<(), ErrorCode>(()),
        state.after_update(epoch).after_update(epoch) == state.after_update(epoch),
{
}

/// Epochs that went by unobserved count for nothing: settling at `epoch`
/// answers the same and ends in the same state whether or not the state was
/// settled at an earlier epoch `between` on the way.
pub proof fn lemma_update_skipping_epochs(state: ProductMetadata, between: u64, epoch: u64)
    requires
        between < epoch,
    ensures
        state.after_update(between).update_result(epoch) == state.update_result(epoch),
        state.after_update(between).after_update(epoch) == state.after_update(epoch),
{
}

/// No transition wraps. Where one succeeds, the projected balance has moved
/// by exactly the amount, as unbounded integers. Where a value that the
/// transition computes does not fit a signed 64-bit integer, the answer is an
/// overflow: no call succeeds on it, and none reports it as a negative
/// balance.
///
/// A lock computes the pending delta and not the projected balance, so it
/// may leave a projection beyond the signed range: the fold of that state is
/// then the call that answers with the overflow.
pub proof fn lemma_transitions_never_wrap(state: ProductMetadata, amount: u64, epoch: u64)
    ensures
        state.update_result(epoch) is Ok ==> state.after_update(epoch).projected()
            == state.projected(),
        state.add_locking_result(amount, epoch) is Ok ==> state.after_add_locking(
            amount,
            epoch,
        ).projected() == state.projected() + amount,
        state.add_unlocking_result(amount, epoch) is Ok ==> state.after_add_unlocking(
            amount,
            epoch,
        ).projected() == state.projected() - amount,
        epoch > state.last_update_at && !fits_signed(state.projected()) ==> state.update_result(
            epoch,
        ) == Err::<(), ErrorCode>(ErrorCode::GenericOverflow),
        state.update_result(epoch) is Ok && (!fits_signed(amount as int) || !fits_signed(
            state.after_update(epoch).delta_locked + amount,
        )) ==> state.add_locking_result(amount, epoch) == Err::<(), ErrorCode>(
            ErrorCode::GenericOverflow,
        ),
        state.update_result(epoch) is Ok && !fits_signed(state.projected() - amount)
            ==> state.add_unlocking_result(amount, epoch) == Err::<(), ErrorCode>(
            ErrorCode::GenericOverflow,
        ),
{
}

} // verus!
