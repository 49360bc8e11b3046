//! The bit layout of a Steam identifier.
//!
//! Four fields share the 64 bits, from the low bit upwards: the account id
//! (32 bits), the instance (20 bits), the account type (4 bits) and the
//! universe (8 bits).

use vstd::prelude::*;

verus! {

/// Bit offset of the account id.
pub const ACCOUNT_ID_OFFSET: u8 = 0;

/// Largest account id that fits its field.
pub const ACCOUNT_ID_MASK: u64 = 0xFFFF_FFFF;

/// Bit offset of the instance.
pub const INSTANCE_OFFSET: u8 = 32;

/// Largest instance that fits its field.
pub const INSTANCE_MASK: u64 = 0xF_FFFF;

/// Bit offset of the account type.
pub const TYPE_OFFSET: u8 = 52;

/// Largest account type that fits its field.
pub const TYPE_MASK: u64 = 0xF;

/// Bit offset of the universe.
pub const UNIVERSE_OFFSET: u8 = 56;

/// Largest universe that fits its field.
pub const UNIVERSE_MASK: u64 = 0xFF;

/// The field of `value` that lies `offset` bits up and is as wide as `mask`.
pub open spec fn field_get(value: u64, offset: u64, mask: u64) -> u64 {
    (value >> offset) & mask
}

/// `value` with the field at `offset` cleared and then filled with the bits
/// of `field` that `mask` lets through.
pub open spec fn field_set(value: u64, offset: u64, mask: u64, field: u64) -> u64 {
    (value & !(mask << offset)) | ((field & mask) << offset)
}

/// The identifier made of the four fields, each at its place.
pub open spec fn pack(universe: u64, account_type: u64, instance: u64, account_id: u64) -> u64 {
    (universe << 56) | (account_type << 52) | (instance << 32) | account_id
}

/// Whether the four values fit the widths of their fields.
pub open spec fn fields_fit(universe: u64, account_type: u64, instance: u64, account_id: u64) -> bool {
    &&& universe <= UNIVERSE_MASK
    &&& account_type <= TYPE_MASK
    &&& instance <= INSTANCE_MASK
    &&& account_id <= ACCOUNT_ID_MASK
}

/// The account id held in `value`.
pub open spec fn account_id_of(value: u64) -> u64 {
    field_get(value, 0, ACCOUNT_ID_MASK)
}

/// The instance held in `value`.
pub open spec fn instance_of(value: u64) -> u64 {
    field_get(value, 32, INSTANCE_MASK)
}

/// The account type held in `value`.
pub open spec fn type_of(value: u64) -> u64 {
    field_get(value, 52, TYPE_MASK)
}

/// The universe held in `value`.
pub open spec fn universe_of(value: u64) -> u64 {
    field_get(value, 56, UNIVERSE_MASK)
}

/// Every field read from an identifier fits its width.
pub proof fn lemma_fields_in_range(value: u64)
    ensures
        fields_fit(universe_of(value), type_of(value), instance_of(value), account_id_of(value)),
{
    assert((value >> 56) & 0xFF <= 0xFF) by (bit_vector);
    assert((value >> 52) & 0xF <= 0xF) by (bit_vector);
    assert((value >> 32) & 0xF_FFFF <= 0xF_FFFF) by (bit_vector);
    assert((value >> 0) & 0xFFFF_FFFF <= 0xFFFF_FFFF) by (bit_vector);
}

/// Unpacking what was packed gives the four fields back.
pub proof fn lemma_unpack_pack(universe: u64, account_type: u64, instance: u64, account_id: u64)
    requires
        fields_fit(universe, account_type, instance, account_id),
    ensures
        universe_of(pack(universe, account_type, instance, account_id)) == universe,
        type_of(pack(universe, account_type, instance, account_id)) == account_type,
        instance_of(pack(universe, account_type, instance, account_id)) == instance,
        account_id_of(pack(universe, account_type, instance, account_id)) == account_id,
{
    let u = universe;
    let t = account_type;
    let i = instance;
    let a = account_id;
    assert(u <= 0xFF && t <= 0xF && i <= 0xF_FFFF && a <= 0xFFFF_FFFF ==> ((((u << 56) | (t << 52)
        | (i << 32) | a) >> 56) & 0xFF) == u) by (bit_vector);
    assert(u <= 0xFF && t <= 0xF && i <= 0xF_FFFF && a <= 0xFFFF_FFFF ==> ((((u << 56) | (t << 52)
        | (i << 32) | a) >> 52) & 0xF) == t) by (bit_vector);
    assert(u <= 0xFF && t <= 0xF && i <= 0xF_FFFF && a <= 0xFFFF_FFFF ==> ((((u << 56) | (t << 52)
        | (i << 32) | a) >> 32) & 0xF_FFFF) == i) by (bit_vector);
    assert(u <= 0xFF && t <= 0xF && i <= 0xF_FFFF && a <= 0xFFFF_FFFF ==> ((((u << 56) | (t << 52)
        | (i << 32) | a) >> 0) & 0xFFFF_FFFF) == a) by (bit_vector);
}

/// Packing the four fields of an identifier gives the identifier back.
pub proof fn lemma_pack_unpack(value: u64)
    ensures
        pack(universe_of(value), type_of(value), instance_of(value), account_id_of(value)) == value,
{
    assert(((((value >> 56) & 0xFF) << 56) | (((value >> 52) & 0xF) << 52) | (((value >> 32)
        & 0xF_FFFF) << 32) | ((value >> 0) & 0xFFFF_FFFF)) == value) by (bit_vector);
}

/// Writing an account id that fits changes that field and no other.
pub proof fn lemma_set_account_id(value: u64, field: u64)
    requires
        field <= ACCOUNT_ID_MASK,
    ensures
        field_set(value, 0, ACCOUNT_ID_MASK, field) == pack(
            universe_of(value),
            type_of(value),
            instance_of(value),
            field,
        ),
{
    assert(field <= 0xFFFF_FFFF ==> ((value & !(0xFFFF_FFFFu64 << 0)) | ((field & 0xFFFF_FFFF)
        << 0)) == ((((value >> 56) & 0xFF) << 56) | (((value >> 52) & 0xF) << 52) | (((value
        >> 32) & 0xF_FFFF) << 32) | field)) by (bit_vector);
}

/// Writing an instance that fits changes that field and no other.
pub proof fn lemma_set_instance(value: u64, field: u64)
    requires
        field <= INSTANCE_MASK,
    ensures
        field_set(value, 32, INSTANCE_MASK, field) == pack(
            universe_of(value),
            type_of(value),
            field,
            account_id_of(value),
        ),
{
    assert(field <= 0xF_FFFF ==> ((value & !(0xF_FFFFu64 << 32)) | ((field & 0xF_FFFF) << 32))
        == ((((value >> 56) & 0xFF) << 56) | (((value >> 52) & 0xF) << 52) | (field << 32) | ((
    value >> 0) & 0xFFFF_FFFF))) by (bit_vector);
}

/// Writing an account type that fits changes that field and no other.
pub proof fn lemma_set_type(value: u64, field: u64)
    requires
        field <= TYPE_MASK,
    ensures
        field_set(value, 52, TYPE_MASK, field) == pack(
            universe_of(value),
            field,
            instance_of(value),
            account_id_of(value),
        ),
{
    assert(field <= 0xF ==> ((value & !(0xFu64 << 52)) | ((field & 0xF) << 52)) == ((((value
        >> 56) & 0xFF) << 56) | (field << 52) | (((value >> 32) & 0xF_FFFF) << 32) | ((value
        >> 0) & 0xFFFF_FFFF))) by (bit_vector);
}

/// Writing a universe that fits changes that field and no other.
pub proof fn lemma_set_universe(value: u64, field: u64)
    requires
        field <= UNIVERSE_MASK,
    ensures
        field_set(value, 56, UNIVERSE_MASK, field) == pack(
            field,
            type_of(value),
            instance_of(value),
            account_id_of(value),
        ),
{
    assert(field <= 0xFF ==> ((value & !(0xFFu64 << 56)) | ((field & 0xFF) << 56)) == ((field
        << 56) | (((value >> 52) & 0xF) << 52) | (((value >> 32) & 0xF_FFFF) << 32) | ((value
        >> 0) & 0xFFFF_FFFF))) by (bit_vector);
}

} // verus!
