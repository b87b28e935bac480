//! Packed composite identifiers.
//!
//! An [`ID`] names a definition or record by five fields. Packed, the fields are
//! laid end to end in one 128-bit key, the class in the highest bits, then the
//! system, the domain, the segment and, lowest, the serial.

use vstd::prelude::*;

verus! {

/// A packed identifier.
pub type UID = u128;

/// The publisher, system, suite, product or API that issued an identifier: its
/// authority. 0 means local (unregistered).
pub type SystemID = u32;

/// The object class. Unique for a system.
pub type ClassID = u16;

/// The organisation or unit that an object belongs to. Unique for an authority.
/// 0 means local.
pub type DomainID = u32;

/// A shard or page within a domain, counted from zero.
pub type SegmentID = u16;

/// The object's number within its segment. 0 is invalid.
pub type SerialID = u32;

pub const UID_BITS: usize = 128;

pub const CLASS_BITS: usize = 16;

pub const SYSTEM_BITS: usize = 32;

pub const DOMAIN_BITS: usize = 32;

pub const SEGMENT_BITS: usize = 16;

pub const SERIAL_BITS: usize = 32;

pub const CLASS_SHIFT: usize = 112;

pub const SYSTEM_SHIFT: usize = 80;

pub const DOMAIN_SHIFT: usize = 48;

pub const SEGMENT_SHIFT: usize = 32;

pub const SERIAL_SHIFT: usize = 0;

/// A composite identifier. The fields stand in the order in which they are packed,
/// so the derived order is the order of the packed keys.
#[derive(Debug, Copy, Clone, PartialEq, Eq, Structural, PartialOrd, Ord, Hash)]
pub struct ID {
    pub class: ClassID,
    pub system: SystemID,
    pub domain: DomainID,
    pub segment: SegmentID,
    pub serial: SerialID,
}

/// The packed key of five fields, as a number: each field scaled by the weight of
/// its lowest bit.
pub open spec fn pack_fields(class: int, system: int, domain: int, segment: int, serial: int) -> int {
    class * 0x1_0000_0000_0000_0000_0000_0000_0000 + system * 0x1_0000_0000_0000_0000_0000
        + domain * 0x1_0000_0000_0000 + segment * 0x1_0000_0000 + serial
}

impl ID {
    pub const SYSTEM_LOCAL: SystemID = 0;

    pub const DOMAIN_LOCAL: DomainID = 0;

    pub const SEGMENT_PRIMARY: SegmentID = 0;

    /// The packed key of this identifier.
    pub open spec fn packed(self) -> int {
        pack_fields(
            self.class as int,
            self.system as int,
            self.domain as int,
            self.segment as int,
            self.serial as int,
        )
    }

    /// The identifier that a packed key stands for.
    pub open spec fn unpacked(value: int) -> ID {
        ID {
            class: (value / 0x1_0000_0000_0000_0000_0000_0000_0000 % 0x1_0000) as u16,
            system: (value / 0x1_0000_0000_0000_0000_0000 % 0x1_0000_0000) as u32,
            domain: (value / 0x1_0000_0000_0000 % 0x1_0000_0000) as u32,
            segment: (value / 0x1_0000_0000 % 0x1_0000) as u16,
            serial: (value % 0x1_0000_0000) as u32,
        }
    }

    /// Whether the identifier may name anything: it has a class and a serial, and
    /// one issued by a registered system also names a domain.
    pub open spec fn is_valid(self) -> bool {
        &&& self.serial != 0
        &&& self.class != 0
        &&& (self.system != 0 ==> self.domain != 0)
    }

    /// The identifier with every field zero. It is not valid.
    pub fn zero() -> (id: ID)
        ensures
            id == (ID { class: 0, system: 0, domain: 0, segment: 0, serial: 0 }),
            id.packed() == 0,
    {
        ID { class: 0, system: 0, domain: 0, segment: 0, serial: 0 }
    }

    /// An identifier from all five fields.
    pub fn v1(
        system: SystemID,
        class: ClassID,
        domain: DomainID,
        segment: SegmentID,
        serial: SerialID,
    ) -> (id: ID)
        ensures
            id == (ID { class, system, domain, segment, serial }),
    {
        ID { class, system, domain, segment, serial }
    }

    /// An identifier for a value fixed in a system's code: local domain, primary
    /// segment.
    pub fn v1_system(system: SystemID, class: ClassID, serial: SerialID) -> (id: ID)
        ensures
            id == (ID { class, system, domain: 0, segment: 0, serial }),
    {
        ID { class, system, domain: Self::DOMAIN_LOCAL, segment: Self::SEGMENT_PRIMARY, serial }
    }

    /// An identifier whose system and domain are local.
    pub fn v1_local(class: ClassID, segment: SegmentID, serial: SerialID) -> (id: ID)
        ensures
            id == (ID { class, system: 0, domain: 0, segment, serial }),
    {
        ID { class, system: Self::SYSTEM_LOCAL, domain: Self::DOMAIN_LOCAL, segment, serial }
    }

    /// Whether the identifier is valid.
    pub fn valid(&self) -> (ok: bool)
        ensures
            ok == self.is_valid(),
    {
        self.class != 0 && self.serial != 0 && (self.system == 0 || self.domain != 0)
    }

    /// Unpacks a key into its fields.
    pub fn from_uid(value: UID) -> (id: ID)
        ensures
            id == ID::unpacked(value as int),
            id.packed() == value,
    {
        proof {
            lemma_unpack_bits(value);
            lemma_pack_unpacked(value as int);
        }
        ID {
            class: ((value >> 112) & 0xffff) as u16,
            system: ((value >> 80) & 0xffff_ffff) as u32,
            domain: ((value >> 48) & 0xffff_ffff) as u32,
            segment: ((value >> 32) & 0xffff) as u16,
            serial: (value & 0xffff_ffff) as u32,
        }
    }

    /// Packs the fields into one key.
    pub fn into_uid(self) -> (uid: UID)
        ensures
            uid == self.packed(),
            ID::unpacked(uid as int) == self,
    {
        let uid = ((self.class as u128) << 112) | ((self.system as u128) << 80) | ((self.domain as u128)
            << 48) | ((self.segment as u128) << 32) | (self.serial as u128);
        proof {
            lemma_pack_bits(self.class, self.system, self.domain, self.segment, self.serial);
            lemma_unpack_packed(self);
        }
        uid
    }
}

impl From<UID> for ID {
    fn from(value: UID) -> (id: ID) {
        ID::from_uid(value)
    }
}

impl vstd::std_specs::convert::FromSpecImpl<UID> for ID {
    open spec fn obeys_from_spec() -> bool {
        true
    }

    open spec fn from_spec(value: UID) -> ID {
        ID::unpacked(value as int)
    }
}

impl From<ID> for UID {
    fn from(id: ID) -> (uid: UID) {
        id.into_uid()
    }
}

impl vstd::std_specs::convert::FromSpecImpl<ID> for UID {
    open spec fn obeys_from_spec() -> bool {
        true
    }

    open spec fn from_spec(id: ID) -> UID {
        id.packed() as u128
    }
}

/// Ties a type to the class that its identifiers carry.
pub trait ClassIdentity<E> {
    fn class_identity(&self) -> E;
}

/// The classes reserved for the ledger's own types. The numbers are written into
/// stored identifiers and never change once given out.
#[derive(Debug, Clone, Copy, PartialEq, Eq, Structural)]
pub enum AccountClassIdentity {
    Unknown,
    StandardAccountDefinition,
    CustomAccountDefinition,
}

impl AccountClassIdentity {
    /// The number reserved for a class.
    pub open spec fn class_id(self) -> ClassID {
        match self {
            AccountClassIdentity::Unknown => 0,
            AccountClassIdentity::StandardAccountDefinition => 1,
            AccountClassIdentity::CustomAccountDefinition => 2,
        }
    }

    /// The class that a number is reserved for; any other number is unknown.
    pub open spec fn of_class_id(value: ClassID) -> AccountClassIdentity {
        if value == 1 {
            AccountClassIdentity::StandardAccountDefinition
        } else if value == 2 {
            AccountClassIdentity::CustomAccountDefinition
        } else {
            AccountClassIdentity::Unknown
        }
    }

    /// The class that a number is reserved for.
    pub fn from_class_id(value: ClassID) -> (class: AccountClassIdentity)
        ensures
            class == Self::of_class_id(value),
    {
        match value {
            0 => Self::Unknown,
            1 => Self::StandardAccountDefinition,
            2 => Self::CustomAccountDefinition,
            _ => Self::Unknown,
        }
    }

    /// The number reserved for this class.
    pub fn into_class_id(self) -> (value: ClassID)
        ensures
            value == self.class_id(),
            Self::of_class_id(value) == self,
    {
        match self {
            Self::Unknown => 0,
            Self::StandardAccountDefinition => 1,
            Self::CustomAccountDefinition => 2,
        }
    }
}

impl From<ClassID> for AccountClassIdentity {
    fn from(value: ClassID) -> (class: AccountClassIdentity) {
        AccountClassIdentity::from_class_id(value)
    }
}

impl vstd::std_specs::convert::FromSpecImpl<ClassID> for AccountClassIdentity {
    open spec fn obeys_from_spec() -> bool {
        true
    }

    open spec fn from_spec(value: ClassID) -> AccountClassIdentity {
        AccountClassIdentity::of_class_id(value)
    }
}

impl From<AccountClassIdentity> for ClassID {
    fn from(class: AccountClassIdentity) -> (value: ClassID) {
        class.into_class_id()
    }
}

impl vstd::std_specs::convert::FromSpecImpl<AccountClassIdentity> for ClassID {
    open spec fn obeys_from_spec() -> bool {
        true
    }

    open spec fn from_spec(class: AccountClassIdentity) -> ClassID {
        class.class_id()
    }
}

/// The systems registered as authorities.
#[derive(Debug, Clone, Copy, PartialEq, Eq, Structural)]
pub enum RegisteredSystemID {
    Local,
    Asmov,
    AsmovGames,
}

impl RegisteredSystemID {
    /// The number under which a system is registered.
    pub fn system_id(self) -> (system: SystemID)
        ensures
            system == match self {
                RegisteredSystemID::Local => 0u32,
                RegisteredSystemID::Asmov => 1u32,
                RegisteredSystemID::AsmovGames => 2u32,
            },
    {
        match self {
            Self::Local => 0,
            Self::Asmov => 1,
            Self::AsmovGames => 2,
        }
    }
}

/// The classes that the Asmov system has reserved; the first hundred belong to
/// its accounting types.
#[allow(non_camel_case_types)]
#[derive(Debug, Clone, Copy, PartialEq, Eq, Structural)]
pub enum AsmovClassID {
    Invalid,
    Account_CustomAccountDefinition,
    Account_StandardDefinition,
}

impl AsmovClassID {
    /// The number reserved for a class.
    pub fn class_id(self) -> (class: ClassID)
        ensures
            class == match self {
                AsmovClassID::Invalid => 0u16,
                AsmovClassID::Account_CustomAccountDefinition => 1u16,
                AsmovClassID::Account_StandardDefinition => 2u16,
            },
    {
        match self {
            Self::Invalid => 0,
            Self::Account_CustomAccountDefinition => 1,
            Self::Account_StandardDefinition => 2,
        }
    }
}

/// Shifting and masking a key reads off the same fields as dividing it.
proof fn lemma_unpack_bits(value: u128)
    by (bit_vector)
    ensures
        (value >> 112) & 0xffff == value / 0x1_0000_0000_0000_0000_0000_0000_0000 % 0x1_0000,
        (value >> 80) & 0xffff_ffff == value / 0x1_0000_0000_0000_0000_0000 % 0x1_0000_0000,
        (value >> 48) & 0xffff_ffff == value / 0x1_0000_0000_0000 % 0x1_0000_0000,
        (value >> 32) & 0xffff == value / 0x1_0000_0000 % 0x1_0000,
        value & 0xffff_ffff == value % 0x1_0000_0000,
        (value >> 112) & 0xffff <= 0xffff,
        (value >> 80) & 0xffff_ffff <= 0xffff_ffff,
        (value >> 48) & 0xffff_ffff <= 0xffff_ffff,
        (value >> 32) & 0xffff <= 0xffff,
        value & 0xffff_ffff <= 0xffff_ffff,
{
}

/// Shifting the fields into place and joining them adds up their weighted values.
proof fn lemma_pack_bits(class: u16, system: u32, domain: u32, segment: u16, serial: u32)
    by (bit_vector)
    ensures
        ((class as u128) << 112) | ((system as u128) << 80) | ((domain as u128) << 48) | ((
        segment as u128) << 32) | (serial as u128) == (class as u128)
            * 0x1_0000_0000_0000_0000_0000_0000_0000 + (system as u128)
            * 0x1_0000_0000_0000_0000_0000 + (domain as u128) * 0x1_0000_0000_0000 + (
        segment as u128) * 0x1_0000_0000 + (serial as u128),
{
}

/// Dividing the weighted sum of five fields gives each field back.
proof fn lemma_fields_of_sum(class: u16, system: u32, domain: u32, segment: u16, serial: u32)
    by (bit_vector)
    ensures
        (class as u128) * 0x1_0000_0000_0000_0000_0000_0000_0000 + (system as u128)
            * 0x1_0000_0000_0000_0000_0000 + (domain as u128) * 0x1_0000_0000_0000 + (
        segment as u128) * 0x1_0000_0000 + (serial as u128)
            <= 0xffff_ffff_ffff_ffff_ffff_ffff_ffff_ffff,
        ((class as u128) * 0x1_0000_0000_0000_0000_0000_0000_0000 + (system as u128)
            * 0x1_0000_0000_0000_0000_0000 + (domain as u128) * 0x1_0000_0000_0000 + (
        segment as u128) * 0x1_0000_0000 + (serial as u128))
            / 0x1_0000_0000_0000_0000_0000_0000_0000 % 0x1_0000 == class,
        ((class as u128) * 0x1_0000_0000_0000_0000_0000_0000_0000 + (system as u128)
            * 0x1_0000_0000_0000_0000_0000 + (domain as u128) * 0x1_0000_0000_0000 + (
        segment as u128) * 0x1_0000_0000 + (serial as u128)) / 0x1_0000_0000_0000_0000_0000
            % 0x1_0000_0000 == system,
        ((class as u128) * 0x1_0000_0000_0000_0000_0000_0000_0000 + (system as u128)
            * 0x1_0000_0000_0000_0000_0000 + (domain as u128) * 0x1_0000_0000_0000 + (
        segment as u128) * 0x1_0000_0000 + (serial as u128)) / 0x1_0000_0000_0000 % 0x1_0000_0000
            == domain,
        ((class as u128) * 0x1_0000_0000_0000_0000_0000_0000_0000 + (system as u128)
            * 0x1_0000_0000_0000_0000_0000 + (domain as u128) * 0x1_0000_0000_0000 + (
        segment as u128) * 0x1_0000_0000 + (serial as u128)) / 0x1_0000_0000 % 0x1_0000
            == segment,
        ((class as u128) * 0x1_0000_0000_0000_0000_0000_0000_0000 + (system as u128)
            * 0x1_0000_0000_0000_0000_0000 + (domain as u128) * 0x1_0000_0000_0000 + (
        segment as u128) * 0x1_0000_0000 + (serial as u128)) % 0x1_0000_0000 == serial,
{
}

/// The five fields read off a key add up to the key.
proof fn lemma_sum_of_fields(value: u128)
    by (bit_vector)
    ensures
        (value / 0x1_0000_0000_0000_0000_0000_0000_0000 % 0x1_0000)
            * 0x1_0000_0000_0000_0000_0000_0000_0000 + (value / 0x1_0000_0000_0000_0000_0000
            % 0x1_0000_0000) * 0x1_0000_0000_0000_0000_0000 + (value / 0x1_0000_0000_0000
            % 0x1_0000_0000) * 0x1_0000_0000_0000 + (value / 0x1_0000_0000 % 0x1_0000)
            * 0x1_0000_0000 + value % 0x1_0000_0000 == value,
{
}

/// Unpacking undoes packing: every identifier comes back from its key, whatever
/// its fields hold.
pub proof fn lemma_unpack_packed(id: ID)
    ensures
        0 <= id.packed() <= u128::MAX,
        ID::unpacked(id.packed()) == id,
{
    lemma_fields_of_sum(id.class, id.system, id.domain, id.segment, id.serial);
}

/// Packing undoes unpacking: every 128-bit key comes back from its fields.
pub proof fn lemma_pack_unpacked(value: int)
    requires
        0 <= value <= u128::MAX,
    ensures
        ID::unpacked(value).packed() == value,
{
    lemma_sum_of_fields(value as u128);
}

/// Whether one identifier stands before another when the fields are compared in
/// the order in which they are packed: class, system, domain, segment, serial.
pub open spec fn fields_before(a: ID, b: ID) -> bool {
    a.class < b.class || (a.class == b.class && (a.system < b.system || (a.system == b.system && (
    a.domain < b.domain || (a.domain == b.domain && (a.segment < b.segment || (a.segment
        == b.segment && a.serial < b.serial)))))))
}

/// The packed keys are ordered as the identifiers are: a key is smaller than
/// another exactly if its identifier stands before the other's, field by field.
pub proof fn lemma_packed_order(a: ID, b: ID)
    ensures
        a.packed() < b.packed() <==> fields_before(a, b),
{
    lemma_unpack_packed(a);
    lemma_unpack_packed(b);
}

/// Two identifiers with the same key are the same identifier.
pub proof fn lemma_packed_injective(a: ID, b: ID)
    requires
        a.packed() == b.packed(),
    ensures
        a == b,
{
    lemma_unpack_packed(a);
    lemma_unpack_packed(b);
}

} // verus!
