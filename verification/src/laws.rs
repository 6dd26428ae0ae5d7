//! What holds of the operations on a parking area, whatever the request.

use vstd::prelude::*;
use crate::error::LeaseError;
use crate::identity::{unset_identity, Identity};
use crate::lease::{
    amended, extended, extended_expiry, extension, fee, max_fee, may_lease, registered, settled,
    Pending, TransferOutcome,
};
use crate::record::{blank_record, LoadedParkingArea, ParkingArea, Record};

verus! {

/// Two identities with the same bytes are the same identity.
pub proof fn law_identity_determined_by_bytes(a: Identity, b: Identity)
    requires
        a@ == b@,
    ensures
        a == b,
{
    assert(a.bytes =~= b.bytes);
}

/// A parking area, on the ledger or as a working copy, always has the
/// widths that the ledger's layout gives its fields.
pub proof fn law_parking_areas_are_well_formed(account: ParkingArea, loaded: LoadedParkingArea)
    ensures
        account@.well_formed(),
        loaded@.well_formed(),
        blank_record().well_formed(),
{
}

/// A parking area on the ledger is determined by the record it stands
/// for, and so is a working copy: to say what record a function leaves is
/// to say what every field holds.
pub proof fn law_parking_area_determined_by_record(
    a: ParkingArea,
    b: ParkingArea,
    c: LoadedParkingArea,
    d: LoadedParkingArea,
)
    ensures
        a@ == b@ ==> a == b,
        c@ == d@ ==> c == d,
{
    if a@ == b@ {
        assert(a.owner.bytes =~= b.owner.bytes);
        assert(a.user.bytes =~= b.user.bytes);
        assert(a.name_array =~= b.name_array);
        assert(a.address_array =~= b.address_array);
        assert(a.info_array =~= b.info_array);
        assert(a.secret_key_array =~= b.secret_key_array);
    }
    if c@ == d@ {
        assert(c.owner.bytes =~= d.owner.bytes);
        assert(c.user.bytes =~= d.user.bytes);
        assert(c.name_array =~= d.name_array);
        assert(c.address_array =~= d.address_array);
        assert(c.info_array =~= d.info_array);
        assert(c.secret_key_array =~= d.secret_key_array);
    }
}

/// A registered parking area has the price asked for, its lease ends at
/// the moment of registration, and it belongs to whoever registered it;
/// its holder is the one it was allocated with, which for a blank record
/// is nobody.
pub proof fn law_registration_sets_price_and_expiry(
    allocated: Record,
    owner: Seq<u8>,
    coordinates: (u64, u64),
    name: Seq<u16>,
    address: Seq<u16>,
    info: Seq<u16>,
    price: u32,
    secret: Seq<u8>,
    now: i64,
)
    ensures
        registered(allocated, owner, coordinates, name, address, info, price, secret, now).price
            == price,
        registered(allocated, owner, coordinates, name, address, info, price, secret, now).expiry
            == now,
        registered(allocated, owner, coordinates, name, address, info, price, secret, now).owner
            == owner,
        registered(allocated, owner, coordinates, name, address, info, price, secret, now).holder
            == allocated.holder,
        registered(
            blank_record(),
            owner,
            coordinates,
            name,
            address,
            info,
            price,
            secret,
            now,
        ).holder == unset_identity(),
{
}

/// Nobody but the owner can amend a parking area.
pub proof fn law_only_owner_amends(
    record: Record,
    caller: Seq<u8>,
    address: Seq<u16>,
    info: Seq<u16>,
    price: u32,
    secret: Seq<u8>,
    now: i64,
)
    requires
        caller != record.owner,
    ensures
        amended(record, caller, address, info, price, secret, now) == Err::<Record, LeaseError>(
            LeaseError::Authorization,
        ),
{
}

/// The owner's amendment replaces address, description, price and secret,
/// ends the lease at the moment of the amendment, and leaves owner, holder,
/// name and coordinates as they were.
pub proof fn law_amendment_replaces_four_fields(
    record: Record,
    address: Seq<u16>,
    info: Seq<u16>,
    price: u32,
    secret: Seq<u8>,
    now: i64,
)
    ensures
        amended(record, record.owner, address, info, price, secret, now) == Ok::<
            Record,
            LeaseError,
        >(
            Record {
                owner: record.owner,
                holder: record.holder,
                coordinates: record.coordinates,
                name: record.name,
                address,
                info,
                price,
                expiry: now,
                secret,
            },
        ),
{
}

/// A lease for no time at all is never granted, whoever asks and whatever
/// secret is presented.
pub proof fn law_zero_duration_rejected(
    record: Record,
    caller: Seq<u8>,
    secret: Seq<u8>,
    now: i64,
    transfer: TransferOutcome,
)
    ensures
        extension(record, caller, secret, 0, now) == Err::<Pending, LeaseError>(
            LeaseError::Validation,
        ),
        extended(record, caller, secret, 0, now, transfer) == Err::<Record, LeaseError>(
            LeaseError::Validation,
        ),
{
}

/// While a lease runs, nobody but its holder is granted time on it.
pub proof fn law_running_lease_protected(
    record: Record,
    caller: Seq<u8>,
    secret: Seq<u8>,
    duration: u32,
    now: i64,
    transfer: TransferOutcome,
)
    requires
        duration > 0,
        caller != record.holder,
        record.expiry > now,
    ensures
        extension(record, caller, secret, duration, now) == Err::<Pending, LeaseError>(
            LeaseError::LeaseNotExpired,
        ),
        extended(record, caller, secret, duration, now, transfer) == Err::<Record, LeaseError>(
            LeaseError::LeaseNotExpired,
        ),
{
}

/// A secret that differs from the parking area's in the byte at `position`
/// is turned down, for a caller who could otherwise have asked: no fee
/// becomes due and the record stays as it was.
pub proof fn law_wrong_secret_rejected(
    record: Record,
    caller: Seq<u8>,
    secret: Seq<u8>,
    duration: u32,
    now: i64,
    transfer: TransferOutcome,
    position: int,
)
    requires
        record.well_formed(),
        secret.len() == 32,
        0 <= position < 32,
        secret[position] != record.secret[position],
        duration > 0,
        may_lease(record, caller, now),
    ensures
        extension(record, caller, secret, duration, now) == Err::<Pending, LeaseError>(
            LeaseError::SecretMismatch,
        ),
        extended(record, caller, secret, duration, now, transfer) == Err::<Record, LeaseError>(
            LeaseError::SecretMismatch,
        ),
{
}

/// A fee that exceeds the largest fee is never granted; where nothing else
/// is wrong with the request, the error says so.
pub proof fn law_overflowing_fee_rejected(
    record: Record,
    caller: Seq<u8>,
    secret: Seq<u8>,
    duration: u32,
    now: i64,
)
    requires
        fee(record.price, duration) > max_fee(),
    ensures
        extension(record, caller, secret, duration, now) is Err,
        may_lease(record, caller, now) && secret == record.secret ==> extension(
            record,
            caller,
            secret,
            duration,
            now,
        ) == Err::<Pending, LeaseError>(LeaseError::Overflow),
{
}

/// A request is granted exactly when time is asked for, the caller is the
/// holder or the lease has lapsed, the secret is the parking area's, and
/// fee and new end of the lease can be represented.
pub proof fn law_granted_exactly_when(
    record: Record,
    caller: Seq<u8>,
    secret: Seq<u8>,
    duration: u32,
    now: i64,
)
    ensures
        extension(record, caller, secret, duration, now) is Ok <==> {
            &&& duration > 0
            &&& may_lease(record, caller, now)
            &&& secret == record.secret
            &&& fee(record.price, duration) <= max_fee()
            &&& extended_expiry(record.expiry, now, duration) <= i64::MAX
        },
{
}

/// A granted request costs the price times the time asked for, not a
/// unit more or less; it names the caller as holder, and it ends the lease
/// later than it ended before and later than now.
pub proof fn law_granted_lease(
    record: Record,
    caller: Seq<u8>,
    secret: Seq<u8>,
    duration: u32,
    now: i64,
)
    requires
        extension(record, caller, secret, duration, now) is Ok,
    ensures
        extension(record, caller, secret, duration, now)->Ok_0.payment == record.price * duration,
        extension(record, caller, secret, duration, now)->Ok_0.holder == caller,
        extension(record, caller, secret, duration, now)->Ok_0.expiry == extended_expiry(
            record.expiry,
            now,
            duration,
        ),
        extension(record, caller, secret, duration, now)->Ok_0.expiry > record.expiry,
        extension(record, caller, secret, duration, now)->Ok_0.expiry > now,
{
}

/// Where the ledger refuses to move the fee the operation fails; where it
/// moves it, only holder and end of the lease change.
pub proof fn law_settlement(record: Record, pending: Pending)
    ensures
        settled(record, pending, TransferOutcome::Rejected) == Err::<Record, LeaseError>(
            LeaseError::Transfer,
        ),
        settled(record, pending, TransferOutcome::Completed) == Ok::<Record, LeaseError>(
            Record { holder: pending.holder, expiry: pending.expiry, ..record },
        ),
{
}

/// Extending or taking over a lease never changes owner, coordinates,
/// name, address, description, price or secret; the lease never ends
/// earlier than before; and the holder changes only to the caller.
pub proof fn law_extension_preserves_record(
    record: Record,
    caller: Seq<u8>,
    secret: Seq<u8>,
    duration: u32,
    now: i64,
    transfer: TransferOutcome,
)
    requires
        extended(record, caller, secret, duration, now, transfer) is Ok,
    ensures
        extended(record, caller, secret, duration, now, transfer)->Ok_0 == (Record {
            holder: caller,
            expiry: extended_expiry(record.expiry, now, duration) as i64,
            ..record
        }),
        extended(record, caller, secret, duration, now, transfer)->Ok_0.expiry > record.expiry,
        caller == record.holder ==> extended(
            record,
            caller,
            secret,
            duration,
            now,
            transfer,
        )->Ok_0.holder == record.holder,
{
}

} // verus!
