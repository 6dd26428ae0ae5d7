//! The three operations on a parking area: registering it, amending it,
//! and extending or taking over its lease.
//!
//! Each operation is first stated as a function on [`Record`]s; the
//! handlers below carry it out on a working copy and are proved to agree
//! with that statement.
//!
//! Extending a lease needs the ledger in the middle of it: the fee has to
//! be moved before the lease changes hands. The library therefore does the
//! operation in two steps. [`hide_parking_area_handler`] decides whether the
//! request is granted and what it comes to; the surrounding program asks the
//! ledger to move the fee; [`settle_parking_area_handler`] is told how that
//! went and, if it went well, changes the lease.

use vstd::prelude::*;
use crate::bytes::bytes_equal;
use crate::error::LeaseError;
use crate::identity::Identity;
use crate::record::{Coordinates, LoadedParkingArea, Record};

verus! {

/// The ledger's clock, as far as the operations read it.
#[derive(Clone, Copy, Debug, PartialEq, Eq, Structural)]
pub struct Clock {
    /// Seconds since the Unix epoch.
    pub unix_timestamp: i64,
}

/// An account that is being created, with the bump seed its address was
/// derived with, if it was derived.
#[derive(Debug)]
pub struct Empty<T> {
    pub account: T,
    pub bump: Option<u8>,
}

/// A granted request for a lease, before the fee has been moved.
#[derive(Clone, Copy, Debug, PartialEq, Eq)]
pub struct PendingLease {
    /// The fee that the caller owes the parking area, in the ledger's
    /// smallest unit.
    pub payment: u64,
    /// Who will hold the lease.
    pub user: Identity,
    /// When the lease will end.
    pub expired_time: i64,
}

/// What a [`PendingLease`] says.
pub struct Pending {
    pub payment: u64,
    pub holder: Seq<u8>,
    pub expiry: i64,
}

impl View for PendingLease {
    type V = Pending;

    open spec fn view(&self) -> Pending {
        Pending { payment: self.payment, holder: self.user@, expiry: self.expired_time }
    }
}

/// What the ledger answered when asked to move a fee.
#[derive(Clone, Copy, Debug, PartialEq, Eq, Structural)]
pub enum TransferOutcome {
    /// The fee has been moved from the caller to the parking area.
    Completed,
    /// The ledger refused; nothing has been moved.
    Rejected,
}

/// The record that registering makes of a freshly allocated one: every
/// field is taken from the request but the holder, which stays as it was
/// allocated, and the lease ends at the moment of registration.
pub open spec fn registered(
    allocated: Record,
    owner: Seq<u8>,
    coordinates: (u64, u64),
    name: Seq<u16>,
    address: Seq<u16>,
    info: Seq<u16>,
    price: u32,
    secret: Seq<u8>,
    now: i64,
) -> Record {
    Record {
        owner,
        holder: allocated.holder,
        coordinates,
        name,
        address,
        info,
        price,
        expiry: now,
        secret,
    }
}

/// What amending does: only the owner may, and then address, description,
/// price and secret are replaced and the lease ends now. Name and
/// coordinates cannot be amended.
pub open spec fn amended(
    record: Record,
    caller: Seq<u8>,
    address: Seq<u16>,
    info: Seq<u16>,
    price: u32,
    secret: Seq<u8>,
    now: i64,
) -> Result<Record, LeaseError> {
    if caller == record.owner {
        Ok(Record { address, info, price, expiry: now, secret, ..record })
    } else {
        Err(LeaseError::Authorization)
    }
}

/// The fee for `duration` units of time at `price` per unit.
pub open spec fn fee(price: u32, duration: u32) -> int {
    price * duration
}

/// The largest fee that is granted.
pub open spec fn max_fee() -> int {
    u32::MAX as int
}

/// When a lease ends after `duration` more units of time: a lease that
/// still runs is prolonged, one that has lapsed starts anew at `now`.
pub open spec fn extended_expiry(expiry: i64, now: i64, duration: u32) -> int {
    if expiry > now {
        expiry + duration
    } else {
        now + duration
    }
}

/// Whether `caller` may ask for the lease at `now`: the holder always may,
/// anybody else only once the lease has lapsed.
pub open spec fn may_lease(record: Record, caller: Seq<u8>, now: i64) -> bool {
    caller == record.holder || record.expiry <= now
}

/// The decision on a request to extend or take over a lease. The checks
/// are made in this order, and the first that fails decides the error:
/// the time asked for, the caller's standing, the secret, the sizes.
pub open spec fn extension(
    record: Record,
    caller: Seq<u8>,
    secret: Seq<u8>,
    duration: u32,
    now: i64,
) -> Result<Pending, LeaseError> {
    if duration == 0 {
        Err(LeaseError::Validation)
    } else if !may_lease(record, caller, now) {
        Err(LeaseError::LeaseNotExpired)
    } else if secret != record.secret {
        Err(LeaseError::SecretMismatch)
    } else if fee(record.price, duration) > max_fee() {
        Err(LeaseError::Overflow)
    } else if extended_expiry(record.expiry, now, duration) > i64::MAX {
        Err(LeaseError::Overflow)
    } else {
        Ok(
            Pending {
                payment: fee(record.price, duration) as u64,
                holder: caller,
                expiry: extended_expiry(record.expiry, now, duration) as i64,
            },
        )
    }
}

/// What becomes of a record once the ledger has answered: if the fee was
/// moved, the lease passes to the pending holder until the pending end;
/// if not, the operation fails.
pub open spec fn settled(record: Record, pending: Pending, transfer: TransferOutcome) -> Result<
    Record,
    LeaseError,
> {
    match transfer {
        TransferOutcome::Completed => Ok(
            Record { holder: pending.holder, expiry: pending.expiry, ..record },
        ),
        TransferOutcome::Rejected => Err(LeaseError::Transfer),
    }
}

/// The whole of extending or taking over a lease, the ledger's answer
/// included: the record as it stands afterwards, or why the request
/// failed.
pub open spec fn extended(
    record: Record,
    caller: Seq<u8>,
    secret: Seq<u8>,
    duration: u32,
    now: i64,
    transfer: TransferOutcome,
) -> Result<Record, LeaseError> {
    match extension(record, caller, secret, duration, now) {
        Ok(pending) => settled(record, pending, transfer),
        Err(error) => Err(error),
    }
}

/// The fee for `duration` units of time at `price` per unit, or `None`
/// where it would exceed the largest fee that is granted.
pub fn payment_due(price: u32, duration: u32) -> (payment: Option<u64>)
    ensures
        payment == if fee(price, duration) > max_fee() {
            None
        } else {
            Some(fee(price, duration) as u64)
        },
{
    match price.checked_mul(duration) {
        Some(product) => Some(product as u64),
        None => None,
    }
}

/// When a lease ends after `duration` more units of time, or `None` where
/// that moment cannot be represented.
pub fn extend_expiry(expiry: i64, now: i64, duration: u32) -> (end: Option<i64>)
    ensures
        end == if extended_expiry(expiry, now, duration) > i64::MAX {
            None
        } else {
            Some(extended_expiry(expiry, now, duration) as i64)
        },
{
    let start: i64 = if expiry > now {
        expiry
    } else {
        now
    };
    start.checked_add(duration as i64)
}

/// Registers a parking area: fills the freshly allocated working copy from
/// the request. The holder is left as allocated, and the lease ends at the
/// clock's time. Neither `payer` nor `seed_random` plays a part: the one
/// pays the ledger for the storage, the other only serves to derive the
/// record's address.
#[allow(unused_variables)]
pub fn init_parking_area_handler(
    clock: &Clock,
    payer: &Identity,
    owner: &Identity,
    parking_area: &mut Empty<LoadedParkingArea>,
    coordinates_class: Coordinates,
    name_array: [u16; 32],
    address_array: [u16; 64],
    info_array: [u16; 256],
    price: u32,
    secret_key_array: [u8; 32],
    seed_random: u64,
)
    ensures
        final(parking_area).account@ == registered(
            old(parking_area).account@,
            owner@,
            coordinates_class@,
            name_array@,
            address_array@,
            info_array@,
            price,
            secret_key_array@,
            clock.unix_timestamp,
        ),
        final(parking_area).bump == old(parking_area).bump,
{
    let time: i64 = clock.unix_timestamp;
    parking_area.account.owner = *owner;
    parking_area.account.coordinates_class = coordinates_class;
    parking_area.account.name_array = name_array;
    parking_area.account.address_array = address_array;
    parking_area.account.info_array = info_array;
    parking_area.account.price = price;
    parking_area.account.expired_time = time;
    parking_area.account.secret_key_array = secret_key_array;
}

/// Amends a parking area on behalf of `owner`. If `owner` is not the
/// parking area's owner the request fails and the working copy stays as it
/// was. `payer` plays no part.
#[allow(unused_variables)]
pub fn update_parking_area_handler(
    clock: &Clock,
    payer: &Identity,
    owner: &Identity,
    parking_area: &mut LoadedParkingArea,
    address_array: [u16; 64],
    info_array: [u16; 256],
    price: u32,
    secret_key_array: [u8; 32],
) -> (result: Result<(), LeaseError>)
    ensures
        match amended(
            old(parking_area)@,
            owner@,
            address_array@,
            info_array@,
            price,
            secret_key_array@,
            clock.unix_timestamp,
        ) {
            Ok(record) => result is Ok && final(parking_area)@ == record,
            Err(error) => result == Err::<(), LeaseError>(error) && *final(parking_area) == *old(
                parking_area,
            ),
        },
{
    let time: i64 = clock.unix_timestamp;
    if !(parking_area.owner == *owner) {
        return Err(LeaseError::Authorization);
    }
    parking_area.address_array = address_array;
    parking_area.info_array = info_array;
    parking_area.price = price;
    parking_area.expired_time = time;
    parking_area.secret_key_array = secret_key_array;
    Ok(())
}

/// Decides on `user`'s request to hold the parking area for `time_to_hide`
/// more units of time. Nothing is changed and nothing is paid here: a
/// granted request comes back as the fee to be moved and the lease as it
/// will stand once [`settle_parking_area_handler`] has been told that the
/// fee was moved. `payer` plays no part.
#[allow(unused_variables)]
pub fn hide_parking_area_handler(
    clock: &Clock,
    payer: &Identity,
    user: &Identity,
    parking_area: &LoadedParkingArea,
    secret_key_array: [u8; 32],
    time_to_hide: u32,
) -> (result: Result<PendingLease, LeaseError>)
    ensures
        match extension(
            parking_area@,
            user@,
            secret_key_array@,
            time_to_hide,
            clock.unix_timestamp,
        ) {
            Ok(pending) => result is Ok && result->Ok_0@ == pending,
            Err(error) => result == Err::<PendingLease, LeaseError>(error),
        },
{
    let time: i64 = clock.unix_timestamp;
    if !(time_to_hide > 0) {
        return Err(LeaseError::Validation);
    }
    if parking_area.user != *user {
        if !(parking_area.expired_time <= time) {
            return Err(LeaseError::LeaseNotExpired);
        }
    }
    if !bytes_equal(&secret_key_array, &parking_area.secret_key_array) {
        return Err(LeaseError::SecretMismatch);
    }
    let payment: u64 = match payment_due(parking_area.price, time_to_hide) {
        Some(payment) => payment,
        None => {
            return Err(LeaseError::Overflow);
        },
    };
    let expired_time: i64 = match extend_expiry(parking_area.expired_time, time, time_to_hide) {
        Some(end) => end,
        None => {
            return Err(LeaseError::Overflow);
        },
    };
    Ok(PendingLease { payment, user: *user, expired_time })
}

/// Finishes a granted request once the ledger has answered. If the fee was
/// moved, the lease passes to the pending holder (the working copy's holder
/// is rewritten only if it is somebody else) and ends at the pending time.
/// If the ledger refused, the request fails and the working copy stays as
/// it was.
pub fn settle_parking_area_handler(
    parking_area: &mut LoadedParkingArea,
    pending: &PendingLease,
    transfer: TransferOutcome,
) -> (result: Result<(), LeaseError>)
    ensures
        match settled(old(parking_area)@, pending@, transfer) {
            Ok(record) => result is Ok && final(parking_area)@ == record,
            Err(error) => result == Err::<(), LeaseError>(error) && *final(parking_area) == *old(
                parking_area,
            ),
        },
{
    match transfer {
        TransferOutcome::Rejected => {
            return Err(LeaseError::Transfer);
        },
        TransferOutcome::Completed => {},
    }
    if parking_area.user != pending.user {
        parking_area.user = pending.user;
    }
    parking_area.expired_time = pending.expired_time;
    Ok(())
}

} // verus!
