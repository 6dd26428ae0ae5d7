//! The three instructions that the ledger dispatches to, each on the
//! accounts that come with it.
//!
//! An instruction either goes through, and then the parking area's record
//! is replaced as a whole, or it fails, and then the accounts are exactly
//! as they were.

use vstd::prelude::*;
use crate::error::LeaseError;
use crate::identity::{unset_identity, Identity};
use crate::lease::{
    amended, extension, hide_parking_area_handler, init_parking_area_handler, registered,
    settle_parking_area_handler, settled, update_parking_area_handler, Clock, Empty,
    PendingLease, TransferOutcome,
};
use crate::record::{blank_record, Coordinates, ParkingArea};

verus! {

/// The accounts of the instruction that registers a parking area.
#[derive(Clone, Copy, Debug, PartialEq, Eq)]
pub struct InitParkingArea {
    pub clock: Clock,
    /// Who pays for the record's storage.
    pub payer: Identity,
    /// Who registers the parking area.
    pub owner: Identity,
    /// Where the new record is put.
    pub parking_area: ParkingArea,
    /// The bump seed that the record's address was derived with.
    pub bump: u8,
}

/// The accounts of the instruction that amends a parking area.
#[derive(Clone, Copy, Debug, PartialEq, Eq)]
pub struct UpdateParkingArea {
    pub clock: Clock,
    pub payer: Identity,
    /// Who asks for the amendment.
    pub owner: Identity,
    pub parking_area: ParkingArea,
}

/// The accounts of the instruction that extends or takes over a lease.
#[derive(Clone, Copy, Debug, PartialEq, Eq)]
pub struct HideParkingArea {
    pub clock: Clock,
    pub payer: Identity,
    /// Who asks for the lease.
    pub user: Identity,
    pub parking_area: ParkingArea,
}

/// Registers a parking area: allocates a blank record and fills it from the
/// request. The record's price is the price asked for, its lease ends at
/// the clock's time, and nobody holds it yet. Always succeeds.
pub fn init_parking_area(
    ctx: &mut InitParkingArea,
    coordinates_class: Coordinates,
    name_array: [u16; 32],
    address_array: [u16; 64],
    info_array: [u16; 256],
    price: u32,
    secret_key_array: [u8; 32],
    seed_random: u64,
) -> (result: Result<(), LeaseError>)
    ensures
        result is Ok,
        final(ctx).parking_area@ == registered(
            blank_record(),
            old(ctx).owner@,
            coordinates_class@,
            name_array@,
            address_array@,
            info_array@,
            price,
            secret_key_array@,
            old(ctx).clock.unix_timestamp,
        ),
        final(ctx).parking_area@.price == price,
        final(ctx).parking_area@.expiry == old(ctx).clock.unix_timestamp,
        final(ctx).parking_area@.holder == unset_identity(),
        final(ctx).clock == old(ctx).clock,
        final(ctx).payer == old(ctx).payer,
        final(ctx).owner == old(ctx).owner,
        final(ctx).bump == old(ctx).bump,
{
    let allocated = ParkingArea::blank();
    let mut parking_area = Empty {
        account: ParkingArea::load(&allocated),
        bump: Some(ctx.bump),
    };
    init_parking_area_handler(
        &ctx.clock,
        &ctx.payer,
        &ctx.owner,
        &mut parking_area,
        coordinates_class,
        name_array,
        address_array,
        info_array,
        price,
        secret_key_array,
        seed_random,
    );
    ParkingArea::store(parking_area.account, &mut ctx.parking_area);
    Ok(())
}

/// Amends a parking area. Only its owner may: for anybody else the
/// instruction fails and the accounts stay as they were.
pub fn update_parking_area(
    ctx: &mut UpdateParkingArea,
    address_array: [u16; 64],
    info_array: [u16; 256],
    price: u32,
    secret_key_array: [u8; 32],
) -> (result: Result<(), LeaseError>)
    ensures
        match amended(
            old(ctx).parking_area@,
            old(ctx).owner@,
            address_array@,
            info_array@,
            price,
            secret_key_array@,
            old(ctx).clock.unix_timestamp,
        ) {
            Ok(record) => {
                &&& result is Ok
                &&& final(ctx).parking_area@ == record
                &&& final(ctx).clock == old(ctx).clock
                &&& final(ctx).payer == old(ctx).payer
                &&& final(ctx).owner == old(ctx).owner
            },
            Err(error) => result == Err::<(), LeaseError>(error) && *final(ctx) == *old(ctx),
        },
{
    let mut parking_area = ParkingArea::load(&ctx.parking_area);
    match update_parking_area_handler(
        &ctx.clock,
        &ctx.payer,
        &ctx.owner,
        &mut parking_area,
        address_array,
        info_array,
        price,
        secret_key_array,
    ) {
        Ok(()) => {
            ParkingArea::store(parking_area, &mut ctx.parking_area);
            Ok(())
        },
        Err(error) => Err(error),
    }
}

/// First step of extending or taking over a lease: decides on the request
/// and, if it is granted, says what fee the ledger has to move from the
/// caller to the parking area. The accounts are not changed.
pub fn hide_parking_area(ctx: &HideParkingArea, secret_key_array: [u8; 32], time_to_hide: u32) -> (result:
    Result<PendingLease, LeaseError>)
    ensures
        match extension(
            ctx.parking_area@,
            ctx.user@,
            secret_key_array@,
            time_to_hide,
            ctx.clock.unix_timestamp,
        ) {
            Ok(pending) => result is Ok && result->Ok_0@ == pending,
            Err(error) => result == Err::<PendingLease, LeaseError>(error),
        },
{
    let parking_area = ParkingArea::load(&ctx.parking_area);
    hide_parking_area_handler(
        &ctx.clock,
        &ctx.payer,
        &ctx.user,
        &parking_area,
        secret_key_array,
        time_to_hide,
    )
}

/// Second step of extending or taking over a lease: told whether the
/// ledger moved the fee, either gives the lease to the pending holder or
/// fails and leaves the accounts as they were.
pub fn settle_parking_area(
    ctx: &mut HideParkingArea,
    pending: &PendingLease,
    transfer: TransferOutcome,
) -> (result: Result<(), LeaseError>)
    ensures
        match settled(old(ctx).parking_area@, pending@, transfer) {
            Ok(record) => {
                &&& result is Ok
                &&& final(ctx).parking_area@ == record
                &&& final(ctx).clock == old(ctx).clock
                &&& final(ctx).payer == old(ctx).payer
                &&& final(ctx).user == old(ctx).user
            },
            Err(error) => result == Err::<(), LeaseError>(error) && *final(ctx) == *old(ctx),
        },
{
    let mut parking_area = ParkingArea::load(&ctx.parking_area);
    match settle_parking_area_handler(&mut parking_area, pending, transfer) {
        Ok(()) => {
            ParkingArea::store(parking_area, &mut ctx.parking_area);
            Ok(())
        },
        Err(error) => Err(error),
    }
}

} // verus!
