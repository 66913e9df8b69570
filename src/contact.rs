//! Public keys and contacts.

use vstd::prelude::*;

use crate::error::Error;
use crate::scaled::Scaled;
use crate::text::{hex_decode, hex_encode, hex_lower, is_hex, unhex};
use vstd::string::StringSliceAdditionalSpecFns;

verus! {

/// Length of a public key in bytes.
pub const PUBLIC_KEY_LEN: usize = 32;

/// Length of the key prefix that addresses peers in messages.
pub const PUBLIC_KEY_PREFIX_LEN: usize = 6;

/// Largest outbound path in bytes.
pub const MAX_PATH_LEN: usize = 64;

/// Largest name in bytes.
pub const MAX_NAME_LEN: usize = 32;

/// A 32-byte public key identifying a device or contact.
#[derive(Debug, Clone, Copy, Eq, Hash)]
pub struct PublicKey([u8; 32]);

impl PartialEq for PublicKey {
    fn eq(&self, other: &PublicKey) -> (r: bool) {
        let mut i: usize = 0;
        while i < PUBLIC_KEY_LEN
            invariant
                i <= PUBLIC_KEY_LEN,
                forall|j: int| 0 <= j < i ==> self@[j] == other@[j],
            decreases PUBLIC_KEY_LEN - i,
        {
            if self.0[i] != other.0[i] {
                return false;
            }
            i = i + 1;
        }
        assert(self@ =~= other@);
        true
    }
}

impl vstd::std_specs::cmp::PartialEqSpecImpl for PublicKey {
    open spec fn obeys_eq_spec() -> bool {
        true
    }

    open spec fn eq_spec(&self, other: &PublicKey) -> bool {
        self@ == other@
    }
}

impl PublicKey {
    /// The key's bytes.
    pub closed spec fn view(&self) -> Seq<u8> {
        self.0@
    }

    /// Creates a key from exactly 32 bytes.
    pub fn from_bytes(bytes: &[u8]) -> (r: Self)
        requires
            bytes@.len() == PUBLIC_KEY_LEN,
        ensures
            r@ == bytes@,
    {
        let mut key = [0u8; 32];
        let mut i: usize = 0;
        while i < PUBLIC_KEY_LEN
            invariant
                bytes@.len() == PUBLIC_KEY_LEN,
                i <= PUBLIC_KEY_LEN,
                forall|j: int| 0 <= j < i ==> key@[j] == bytes@[j],
            decreases PUBLIC_KEY_LEN - i,
        {
            key[i] = bytes[i];
            i = i + 1;
        }
        assert(key@ =~= bytes@);
        PublicKey(key)
    }

    /// Creates a key from a slice, or `None` unless it holds exactly 32 bytes.
    pub fn try_from_bytes(bytes: &[u8]) -> (r: Option<Self>)
        ensures
            r is Some <==> bytes@.len() == PUBLIC_KEY_LEN,
            r matches Some(k) ==> k@ == bytes@,
    {
        if bytes.len() != PUBLIC_KEY_LEN {
            return None;
        }
        Some(Self::from_bytes(bytes))
    }

    /// The 6-byte prefix that addresses this key in messages.
    pub fn prefix(&self) -> (r: [u8; 6])
        ensures
            r@ == self@.take(6),
    {
        let r: [u8; 6] = [self.0[0], self.0[1], self.0[2], self.0[3], self.0[4], self.0[5]];
        assert(r@ =~= self@.take(6));
        r
    }

    /// The key's bytes.
    pub fn as_bytes(&self) -> (r: &[u8])
        ensures
            r@ == self@,
    {
        self.0.as_slice()
    }

    /// The key as 64 lower-case hex digits.
    pub fn to_hex(&self) -> (r: String)
        ensures
            r@ == hex_lower(self@),
    {
        hex_encode(self.0.as_slice())
    }

    /// Parses a key from 64 hex digits of either case.
    pub fn from_hex(s: &str) -> (r: Result<Self, Error>)
        ensures
            r is Ok <==> is_hex(s.spec_bytes()) && s.spec_bytes().len() == 2 * PUBLIC_KEY_LEN,
            r matches Ok(k) ==> k@ == unhex(s.spec_bytes()),
            r matches Err(e) ==> e is InvalidPublicKey,
    {
        match hex_decode(s) {
            None => Err(Error::InvalidPublicKey { reason: "not an even run of hex digits".to_owned() }),
            Some(bytes) => {
                if bytes.len() != PUBLIC_KEY_LEN {
                    Err(Error::InvalidPublicKey { reason: "not 32 bytes long".to_owned() })
                } else {
                    Ok(Self::from_bytes(bytes.as_slice()))
                }
            },
        }
    }
}

/// Flag bits of a contact.
#[derive(Debug, Clone, Copy, Default, PartialEq, Eq, Structural)]
pub struct ContactFlags(u8);

impl ContactFlags {
    /// No flag set.
    pub fn none() -> (r: Self)
        ensures
            r@ == 0,
    {
        ContactFlags(0)
    }

    /// The contact is trusted.
    pub fn trusted() -> (r: Self)
        ensures
            r@ == 1,
    {
        ContactFlags(1)
    }

    /// The contact is hidden.
    pub fn hidden() -> (r: Self)
        ensures
            r@ == 2,
    {
        ContactFlags(2)
    }

    /// The raw flag byte.
    pub closed spec fn view(&self) -> u8 {
        self.0
    }

    /// Flags from their raw byte.
    pub fn from_byte(byte: u8) -> (r: Self)
        ensures
            r@ == byte,
    {
        ContactFlags(byte)
    }

    /// The raw flag byte.
    pub fn as_byte(self) -> (r: u8)
        ensures
            r == self@,
    {
        self.0
    }

    /// Whether every bit of `flag` is set.
    pub fn contains(self, flag: Self) -> (r: bool)
        ensures
            r == (self@ & flag@ == flag@),
    {
        (self.0 & flag.0) == flag.0
    }
}

/// Class of a device or contact.
#[derive(Debug, Clone, Copy, PartialEq, Eq, Default, Structural)]
pub enum ContactType {
    /// Unknown class.
    #[default]
    Unknown,
    /// Standard node.
    Node,
    /// Repeater.
    Repeater,
    /// Room (chat) server.
    Room,
}

/// The class that a type byte names; unknown bytes give `Unknown`.
pub open spec fn contact_type_of(byte: u8) -> ContactType {
    if byte == 1 {
        ContactType::Node
    } else if byte == 2 {
        ContactType::Repeater
    } else if byte == 3 {
        ContactType::Room
    } else {
        ContactType::Unknown
    }
}

impl ContactType {
    /// The class that a type byte names.
    pub fn from_byte(byte: u8) -> (r: Self)
        ensures
            r == contact_type_of(byte),
    {
        match byte {
            1 => ContactType::Node,
            2 => ContactType::Repeater,
            3 => ContactType::Room,
            _ => ContactType::Unknown,
        }
    }
}

/// A known peer, as listed in the device's contact directory.
#[derive(Debug, Clone)]
pub struct Contact {
    /// The contact's public key.
    pub public_key: PublicKey,
    /// Device class.
    pub device_type: ContactType,
    /// Flag bits.
    pub flags: ContactFlags,
    /// Outbound path length; negative means flood routing.
    pub out_path_len: i8,
    /// Outbound path: the meaningful bytes of the path buffer.
    pub out_path: Vec<u8>,
    /// Advertised name.
    pub name: String,
    /// Last advertisement (Unix seconds).
    pub last_advert: u32,
    /// Advertised latitude in degrees, if set.
    pub latitude: Option<Scaled>,
    /// Advertised longitude in degrees, if set.
    pub longitude: Option<Scaled>,
    /// Last modification (Unix seconds).
    pub last_modified: u32,
}

/// A contact's values, with its path and name as sequences.
pub struct ContactView {
    pub public_key: PublicKey,
    pub device_type: ContactType,
    pub flags: ContactFlags,
    pub out_path_len: i8,
    pub out_path: Seq<u8>,
    pub name: Seq<char>,
    pub last_advert: u32,
    pub latitude: Option<Scaled>,
    pub longitude: Option<Scaled>,
    pub last_modified: u32,
}

impl Contact {
    /// The contact's values.
    pub open spec fn view(&self) -> ContactView {
        ContactView {
            public_key: self.public_key,
            device_type: self.device_type,
            flags: self.flags,
            out_path_len: self.out_path_len,
            out_path: self.out_path@,
            name: self.name@,
            last_advert: self.last_advert,
            latitude: self.latitude,
            longitude: self.longitude,
            last_modified: self.last_modified,
        }
    }

    /// Whether this contact has no fixed route and is reached by flooding.
    pub fn is_flood(&self) -> (r: bool)
        ensures
            r == (self.out_path_len < 0),
    {
        self.out_path_len < 0
    }

    /// A copy holding the same values.
    pub fn duplicate(&self) -> (r: Contact)
        ensures
            r@ == self@,
    {
        Contact {
            public_key: self.public_key,
            device_type: self.device_type,
            flags: self.flags,
            out_path_len: self.out_path_len,
            out_path: self.out_path.clone(),
            name: self.name.clone(),
            last_advert: self.last_advert,
            latitude: self.latitude,
            longitude: self.longitude,
            last_modified: self.last_modified,
        }
    }
}

} // verus!
