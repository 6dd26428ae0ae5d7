use electra_chain::error::LeaseError;
use electra_chain::identity::Identity;
use electra_chain::lease::{
    extend_expiry, hide_parking_area_handler, init_parking_area_handler, payment_due,
    settle_parking_area_handler, update_parking_area_handler, Clock, Empty, PendingLease,
    TransferOutcome,
};
use electra_chain::record::{Coordinates, LoadedParkingArea, ParkingArea};

fn identity(tag: u8) -> Identity {
    let mut bytes = [0u8; 32];
    bytes[0] = tag;
    bytes[31] = tag;
    Identity::new(bytes)
}

fn secret() -> [u8; 32] {
    let mut bytes = [0u8; 32];
    for (i, byte) in bytes.iter_mut().enumerate() {
        *byte = (i as u8).wrapping_mul(7).wrapping_add(3);
    }
    bytes
}

fn leased(holder: Identity, price: u32, expired_time: i64) -> LoadedParkingArea {
    let mut name_array = [0u16; 32];
    name_array[0] = 80;
    let mut address_array = [0u16; 64];
    address_array[0] = 65;
    let mut info_array = [0u16; 256];
    info_array[255] = 73;
    LoadedParkingArea {
        owner: identity(1),
        user: holder,
        coordinates_class: Coordinates { lat: 45.5f64.to_bits(), long: 9.25f64.to_bits() },
        name_array,
        address_array,
        info_array,
        price,
        expired_time,
        secret_key_array: secret(),
    }
}

fn at(unix_timestamp: i64) -> Clock {
    Clock { unix_timestamp }
}

#[test]
fn holder_extends_running_lease() {
    let holder = identity(2);
    let mut area = leased(holder, 7, 1000);
    let before = area;
    let pending =
        hide_parking_area_handler(&at(500), &holder, &holder, &area, secret(), 20).unwrap();
    assert_eq!(pending, PendingLease { payment: 140, user: holder, expired_time: 1020 });
    assert_eq!(area, before);
    assert_eq!(
        settle_parking_area_handler(&mut area, &pending, TransferOutcome::Completed),
        Ok(())
    );
    assert_eq!(area.expired_time, 1020);
    assert_eq!(area.user, holder);
    assert_eq!(area, LoadedParkingArea { expired_time: 1020, ..before });
}

#[test]
fn stranger_takes_over_lapsed_lease() {
    let holder = identity(2);
    let caller = identity(3);
    let mut area = leased(holder, 11, 1000);
    let before = area;
    let pending =
        hide_parking_area_handler(&at(1500), &caller, &caller, &area, secret(), 5).unwrap();
    assert_eq!(pending, PendingLease { payment: 55, user: caller, expired_time: 1505 });
    assert_eq!(
        settle_parking_area_handler(&mut area, &pending, TransferOutcome::Completed),
        Ok(())
    );
    assert_eq!(area, LoadedParkingArea { user: caller, expired_time: 1505, ..before });
}

#[test]
fn holder_renews_lapsed_lease_from_now() {
    let holder = identity(2);
    let area = leased(holder, 3, 1000);
    let pending =
        hide_parking_area_handler(&at(1500), &holder, &holder, &area, secret(), 5).unwrap();
    assert_eq!(pending, PendingLease { payment: 15, user: holder, expired_time: 1505 });
}

#[test]
fn lease_that_ends_now_has_lapsed() {
    let holder = identity(2);
    let caller = identity(3);
    let area = leased(holder, 1, 1000);
    let pending =
        hide_parking_area_handler(&at(1000), &caller, &caller, &area, secret(), 1).unwrap();
    assert_eq!(pending, PendingLease { payment: 1, user: caller, expired_time: 1001 });
}

#[test]
fn unleased_area_can_be_taken_at_registration_time() {
    let caller = identity(3);
    let area = leased(Identity::unset(), 2, 700);
    let pending =
        hide_parking_area_handler(&at(700), &caller, &caller, &area, secret(), 60).unwrap();
    assert_eq!(pending, PendingLease { payment: 120, user: caller, expired_time: 760 });
}

#[test]
fn zero_duration_is_rejected() {
    let holder = identity(2);
    let area = leased(holder, 7, 1000);
    assert_eq!(
        hide_parking_area_handler(&at(500), &holder, &holder, &area, secret(), 0),
        Err(LeaseError::Validation)
    );
}

#[test]
fn zero_duration_is_rejected_before_anything_else() {
    let holder = identity(2);
    let caller = identity(3);
    let area = leased(holder, 7, 1000);
    assert_eq!(
        hide_parking_area_handler(&at(500), &caller, &caller, &area, [0u8; 32], 0),
        Err(LeaseError::Validation)
    );
}

#[test]
fn stranger_cannot_take_running_lease() {
    let holder = identity(2);
    let caller = identity(3);
    let area = leased(holder, 7, 1000);
    assert_eq!(
        hide_parking_area_handler(&at(999), &caller, &caller, &area, secret(), 5),
        Err(LeaseError::LeaseNotExpired)
    );
}

#[test]
fn running_lease_is_checked_before_secret() {
    let holder = identity(2);
    let caller = identity(3);
    let area = leased(holder, 7, 1000);
    assert_eq!(
        hide_parking_area_handler(&at(999), &caller, &caller, &area, [9u8; 32], 5),
        Err(LeaseError::LeaseNotExpired)
    );
}

#[test]
fn identities_differing_in_one_byte_are_different_callers() {
    let holder = identity(2);
    let mut bytes = holder.to_bytes();
    bytes[17] ^= 1;
    let caller = Identity::new(bytes);
    let area = leased(holder, 7, 1000);
    assert_eq!(
        hide_parking_area_handler(&at(500), &caller, &caller, &area, secret(), 5),
        Err(LeaseError::LeaseNotExpired)
    );
}

#[test]
fn wrong_secret_is_rejected_in_every_position() {
    let holder = identity(2);
    let area = leased(holder, 7, 1000);
    for position in 0..32 {
        let mut candidate = secret();
        candidate[position] ^= 0x80;
        assert_eq!(
            hide_parking_area_handler(&at(500), &holder, &holder, &area, candidate, 5),
            Err(LeaseError::SecretMismatch)
        );
    }
}

#[test]
fn wrong_secret_is_rejected_for_stranger_on_lapsed_lease() {
    let holder = identity(2);
    let caller = identity(3);
    let area = leased(holder, 7, 1000);
    let mut candidate = secret();
    candidate[31] = candidate[31].wrapping_add(1);
    assert_eq!(
        hide_parking_area_handler(&at(2000), &caller, &caller, &area, candidate, 5),
        Err(LeaseError::SecretMismatch)
    );
}

#[test]
fn overflowing_fee_is_rejected() {
    let holder = identity(2);
    let area = leased(holder, 65_536, 1000);
    assert_eq!(
        hide_parking_area_handler(&at(500), &holder, &holder, &area, secret(), 65_536),
        Err(LeaseError::Overflow)
    );
    assert_eq!(
        hide_parking_area_handler(&at(500), &holder, &holder, &area, secret(), u32::MAX),
        Err(LeaseError::Overflow)
    );
}

#[test]
fn largest_fee_is_granted() {
    let holder = identity(2);
    let area = leased(holder, 65_537, 1000);
    let pending =
        hide_parking_area_handler(&at(500), &holder, &holder, &area, secret(), 65_535).unwrap();
    assert_eq!(pending.payment, 4_294_967_295);
    assert_eq!(pending.expired_time, 1000 + 65_535);
}

#[test]
fn free_parking_costs_nothing() {
    let holder = identity(2);
    let area = leased(holder, 0, 1000);
    let pending =
        hide_parking_area_handler(&at(500), &holder, &holder, &area, secret(), u32::MAX).unwrap();
    assert_eq!(pending.payment, 0);
    assert_eq!(pending.expired_time, 1000 + 4_294_967_295);
}

#[test]
fn unrepresentable_expiry_is_rejected() {
    let holder = identity(2);
    let area = leased(holder, 1, i64::MAX - 4);
    assert_eq!(
        hide_parking_area_handler(&at(500), &holder, &holder, &area, secret(), 5),
        Err(LeaseError::Overflow)
    );
    let pending =
        hide_parking_area_handler(&at(500), &holder, &holder, &area, secret(), 4).unwrap();
    assert_eq!(pending.expired_time, i64::MAX);
    let lapsed = leased(holder, 1, 0);
    assert_eq!(
        hide_parking_area_handler(&at(i64::MAX), &holder, &holder, &lapsed, secret(), 1),
        Err(LeaseError::Overflow)
    );
}

#[test]
fn negative_times_are_ordinary_times() {
    let holder = identity(2);
    let area = leased(holder, 1, -1000);
    let pending =
        hide_parking_area_handler(&at(-2000), &holder, &holder, &area, secret(), 10).unwrap();
    assert_eq!(pending.expired_time, -990);
    let pending =
        hide_parking_area_handler(&at(-500), &holder, &holder, &area, secret(), 10).unwrap();
    assert_eq!(pending.expired_time, -490);
}

#[test]
fn rejected_transfer_fails_and_changes_nothing() {
    let holder = identity(2);
    let caller = identity(3);
    let mut area = leased(holder, 11, 1000);
    let before = area;
    let pending =
        hide_parking_area_handler(&at(1500), &caller, &caller, &area, secret(), 5).unwrap();
    assert_eq!(
        settle_parking_area_handler(&mut area, &pending, TransferOutcome::Rejected),
        Err(LeaseError::Transfer)
    );
    assert_eq!(area, before);
}

#[test]
fn payment_due_is_price_times_duration() {
    assert_eq!(payment_due(7, 20), Some(140));
    assert_eq!(payment_due(0, 0), Some(0));
    assert_eq!(payment_due(1, u32::MAX), Some(4_294_967_295));
    assert_eq!(payment_due(2, 2_147_483_647), Some(4_294_967_294));
    assert_eq!(payment_due(2, 2_147_483_648), None);
    assert_eq!(payment_due(u32::MAX, u32::MAX), None);
}

#[test]
fn extend_expiry_prolongs_or_restarts() {
    assert_eq!(extend_expiry(1000, 500, 20), Some(1020));
    assert_eq!(extend_expiry(1000, 1500, 5), Some(1505));
    assert_eq!(extend_expiry(1000, 1000, 5), Some(1005));
    assert_eq!(extend_expiry(i64::MAX, 0, 0), Some(i64::MAX));
    assert_eq!(extend_expiry(i64::MAX, 0, 1), None);
    assert_eq!(extend_expiry(i64::MIN, i64::MIN, 1), Some(i64::MIN + 1));
}

#[test]
fn registration_fills_the_working_copy() {
    let owner = identity(1);
    let payer = identity(9);
    let allocated = ParkingArea::load(&ParkingArea::blank());
    let mut area = Empty { account: allocated, bump: Some(254) };
    let wanted = leased(Identity::unset(), 12, 4242);
    init_parking_area_handler(
        &at(4242),
        &payer,
        &owner,
        &mut area,
        wanted.coordinates_class,
        wanted.name_array,
        wanted.address_array,
        wanted.info_array,
        12,
        secret(),
        77,
    );
    assert_eq!(area.account, wanted);
    assert_eq!(area.account.price, 12);
    assert_eq!(area.account.expired_time, 4242);
    assert!(area.account.user.is_unset());
    assert_eq!(area.bump, Some(254));
}

#[test]
fn owner_amends_four_fields_and_resets_expiry() {
    let owner = identity(1);
    let holder = identity(2);
    let mut area = leased(holder, 7, 1000);
    let before = area;
    let mut address_array = [0u16; 64];
    address_array[63] = 90;
    let info_array = [33u16; 256];
    let secret_key_array = [0xabu8; 32];
    assert_eq!(
        update_parking_area_handler(
            &at(300),
            &owner,
            &owner,
            &mut area,
            address_array,
            info_array,
            99,
            secret_key_array
        ),
        Ok(())
    );
    assert_eq!(
        area,
        LoadedParkingArea {
            address_array,
            info_array,
            price: 99,
            expired_time: 300,
            secret_key_array,
            ..before
        }
    );
    assert_eq!(area.name_array, before.name_array);
    assert_eq!(area.coordinates_class, before.coordinates_class);
    assert_eq!(area.user, holder);
}

#[test]
fn stranger_cannot_amend() {
    let holder = identity(2);
    let mut area = leased(holder, 7, 1000);
    let before = area;
    assert_eq!(
        update_parking_area_handler(
            &at(300),
            &holder,
            &holder,
            &mut area,
            [1u16; 64],
            [2u16; 256],
            99,
            [3u8; 32]
        ),
        Err(LeaseError::Authorization)
    );
    assert_eq!(area, before);
}

#[test]
fn amended_secret_replaces_the_old_one() {
    let owner = identity(1);
    let holder = identity(2);
    let mut area = leased(holder, 7, 1000);
    let old_secret = secret();
    let new_secret = [0x5au8; 32];
    update_parking_area_handler(
        &at(300),
        &owner,
        &owner,
        &mut area,
        [0u16; 64],
        [0u16; 256],
        4,
        new_secret,
    )
    .unwrap();
    assert_eq!(
        hide_parking_area_handler(&at(400), &holder, &holder, &area, old_secret, 5),
        Err(LeaseError::SecretMismatch)
    );
    let pending =
        hide_parking_area_handler(&at(400), &holder, &holder, &area, new_secret, 5).unwrap();
    assert_eq!(pending, PendingLease { payment: 20, user: holder, expired_time: 405 });
}

#[test]
fn error_messages() {
    assert_eq!(LeaseError::Validation.message(), "The time to hide is not valid");
    assert_eq!(LeaseError::Authorization.message(), "The owner is not the same");
    assert_eq!(LeaseError::LeaseNotExpired.message(), "The parking area is not expired");
    assert_eq!(LeaseError::SecretMismatch.message(), "The secret key is not valid");
    assert_eq!(LeaseError::Transfer.message(), "The payment was not transferred");
    assert_eq!(LeaseError::Overflow.message(), "The amount is out of range");
}
