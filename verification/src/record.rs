//! The parking area: its record on the ledger and the working copy that an
//! operation changes.

use vstd::prelude::*;
use crate::identity::{unset_identity, Identity};

verus! {

/// Length of a parking area's name, in 16-bit code units.
pub const NAME_UNITS: usize = 32;

/// Length of a parking area's postal address, in 16-bit code units.
pub const ADDRESS_UNITS: usize = 64;

/// Length of a parking area's free-form description, in 16-bit code units.
pub const INFO_UNITS: usize = 256;

/// Length of a parking area's secret key, in bytes.
pub const SECRET_BYTES: usize = 32;

/// What a parking area is, whatever form it is held in.
pub struct Record {
    /// Who registered the parking area; nobody else may amend it.
    pub owner: Seq<u8>,
    /// Who controls the lease at present.
    pub holder: Seq<u8>,
    /// Latitude and longitude, each as the bits of a 64-bit float.
    pub coordinates: (u64, u64),
    /// Display name.
    pub name: Seq<u16>,
    /// Postal address.
    pub address: Seq<u16>,
    /// Free-form description.
    pub info: Seq<u16>,
    /// Fee for one unit of time.
    pub price: u32,
    /// When the lease ends.
    pub expiry: i64,
    /// The key that whoever extends or takes over the lease must present.
    pub secret: Seq<u8>,
}

impl Record {
    /// Every field has the width that the ledger's layout gives it.
    pub open spec fn well_formed(self) -> bool {
        &&& self.owner.len() == 32
        &&& self.holder.len() == 32
        &&& self.name.len() == 32
        &&& self.address.len() == 64
        &&& self.info.len() == 256
        &&& self.secret.len() == 32
    }
}

/// A geographic position. Each coordinate is kept as the bit pattern of a
/// 64-bit IEEE 754 number: the library stores and hands back positions and
/// never computes with them.
#[derive(Clone, Copy, Debug, PartialEq, Eq, Structural)]
pub struct Coordinates {
    pub lat: u64,
    pub long: u64,
}

impl View for Coordinates {
    type V = (u64, u64);

    open spec fn view(&self) -> (u64, u64) {
        (self.lat, self.long)
    }
}

/// A parking area as the ledger keeps it.
#[derive(Clone, Copy, Debug, PartialEq, Eq)]
pub struct ParkingArea {
    pub owner: Identity,
    pub user: Identity,
    pub coordinates_class: Coordinates,
    pub name_array: [u16; 32],
    pub address_array: [u16; 64],
    pub info_array: [u16; 256],
    pub price: u32,
    pub expired_time: i64,
    pub secret_key_array: [u8; 32],
}

/// The working copy of a parking area that one operation reads and
/// changes. It is written back to the ledger only when the operation has
/// gone through.
#[derive(Clone, Copy, Debug, PartialEq, Eq)]
pub struct LoadedParkingArea {
    pub owner: Identity,
    pub user: Identity,
    pub coordinates_class: Coordinates,
    pub name_array: [u16; 32],
    pub address_array: [u16; 64],
    pub info_array: [u16; 256],
    pub price: u32,
    pub expired_time: i64,
    pub secret_key_array: [u8; 32],
}

impl View for ParkingArea {
    type V = Record;

    open spec fn view(&self) -> Record {
        Record {
            owner: self.owner@,
            holder: self.user@,
            coordinates: self.coordinates_class@,
            name: self.name_array@,
            address: self.address_array@,
            info: self.info_array@,
            price: self.price,
            expiry: self.expired_time,
            secret: self.secret_key_array@,
        }
    }
}

impl View for LoadedParkingArea {
    type V = Record;

    open spec fn view(&self) -> Record {
        Record {
            owner: self.owner@,
            holder: self.user@,
            coordinates: self.coordinates_class@,
            name: self.name_array@,
            address: self.address_array@,
            info: self.info_array@,
            price: self.price,
            expiry: self.expired_time,
            secret: self.secret_key_array@,
        }
    }
}

/// The record of a parking area that nobody has registered yet: every byte
/// of it is zero.
pub open spec fn blank_record() -> Record {
    Record {
        owner: unset_identity(),
        holder: unset_identity(),
        coordinates: (0u64, 0u64),
        name: Seq::new(32, |i: int| 0u16),
        address: Seq::new(64, |i: int| 0u16),
        info: Seq::new(256, |i: int| 0u16),
        price: 0u32,
        expiry: 0i64,
        secret: Seq::new(32, |i: int| 0u8),
    }
}

impl ParkingArea {
    /// A parking area as the ledger allocates it, before anybody has
    /// registered it: all zero.
    pub fn blank() -> (account: ParkingArea)
        ensures
            account@ == blank_record(),
    {
        let account = ParkingArea {
            owner: Identity::unset(),
            user: Identity::unset(),
            coordinates_class: Coordinates { lat: 0, long: 0 },
            name_array: [0u16; 32],
            address_array: [0u16; 64],
            info_array: [0u16; 256],
            price: 0,
            expired_time: 0,
            secret_key_array: [0u8; 32],
        };
        proof {
            let r = account@;
            let b = blank_record();
            assert(r.owner =~= b.owner);
            assert(r.holder =~= b.holder);
            assert(r.name =~= b.name);
            assert(r.address =~= b.address);
            assert(r.info =~= b.info);
            assert(r.secret =~= b.secret);
        }
        account
    }

    /// Takes the working copy of a parking area from its record on the
    /// ledger.
    pub fn load(account: &ParkingArea) -> (loaded: LoadedParkingArea)
        ensures
            loaded@ == account@,
    {
        LoadedParkingArea {
            owner: account.owner,
            user: account.user,
            coordinates_class: account.coordinates_class,
            name_array: account.name_array,
            address_array: account.address_array,
            info_array: account.info_array,
            price: account.price,
            expired_time: account.expired_time,
            secret_key_array: account.secret_key_array,
        }
    }

    /// Writes a working copy back over the record on the ledger.
    pub fn store(loaded: LoadedParkingArea, account: &mut ParkingArea)
        ensures
            final(account)@ == loaded@,
    {
        account.owner = loaded.owner;
        account.user = loaded.user;
        account.coordinates_class = loaded.coordinates_class;
        account.name_array = loaded.name_array;
        account.address_array = loaded.address_array;
        account.info_array = loaded.info_array;
        account.price = loaded.price;
        account.expired_time = loaded.expired_time;
        account.secret_key_array = loaded.secret_key_array;
    }
}

} // verus!
