//! What is reported about the bits and fields on which a compatibility check failed.
use crate::bits::{bit_range_mask, for_each_bitpos, range_mask, set_bit_positions};
use crate::definitions::ValueDefinition;
use vstd::prelude::*;

verus! {

/// Bit `bit` lies in the bit range of `def`.
pub open spec fn def_contains(def: ValueDefinition, bit: u8) -> bool {
    def.bits_range.0 <= bit <= def.bits_range.1
}

/// `found` is the first definition of `definitions` whose bit range contains `bit`, or `None`
/// when no range contains it.
pub open spec fn first_containing(definitions: Seq<ValueDefinition>, bit: u8, found: Option<ValueDefinition>) -> bool {
    match found {
        Some(def) => exists|j: int|
            0 <= j < definitions.len() && definitions[j] == def && def_contains(definitions[j], bit)
                && forall|k: int| 0 <= k < j ==> !def_contains(#[trigger] definitions[k], bit),
        None => forall|k: int| 0 <= k < definitions.len() ==> !def_contains(#[trigger] definitions[k], bit),
    }
}

/// The first definition whose bit range contains `bit`, if any.
fn find_definition(definitions: &[ValueDefinition], bit: u8) -> (r: Option<ValueDefinition>)
    ensures
        first_containing(definitions@, bit, r),
{
    let mut j: usize = 0;
    while j < definitions.len()
        invariant
            j <= definitions.len(),
            forall|k: int| 0 <= k < j ==> !def_contains(#[trigger] definitions@[k], bit),
        decreases definitions.len() - j,
    {
        let def = definitions[j];
        if def.bits_range.0 <= bit && bit <= def.bits_range.1 {
            assert(definitions@[j as int] == def);
            return Some(def);
        }
        j += 1;
    }
    None
}

/// The entries that are logged when a subset check fails: for each bit that is only set on the
/// source, in ascending order, the bit position and the first definition whose range contains
/// it (`None`: no definition describes the bit).
pub fn log_features_only_in_src(only_in_src: u64, definitions: &[ValueDefinition]) -> (r: Vec<
    (u8, Option<ValueDefinition>),
>)
    ensures
        set_bit_positions(only_in_src, r@.map_values(|e: (u8, Option<ValueDefinition>)| e.0)),
        forall|k: int| 0 <= k < r.len() ==> first_containing(definitions@, (#[trigger] r[k]).0, r[k].1),
{
    let positions = for_each_bitpos(only_in_src);
    let mut entries: Vec<(u8, Option<ValueDefinition>)> = Vec::new();
    let mut i: usize = 0;
    while i < positions.len()
        invariant
            i <= positions.len(),
            entries.len() == i,
            forall|k: int| 0 <= k < i ==> (#[trigger] entries[k]).0 == positions[k],
            forall|k: int| 0 <= k < i ==> first_containing(definitions@, (#[trigger] entries[k]).0, entries[k].1),
        decreases positions.len() - i,
    {
        let bit_pos = positions[i];
        let def = find_definition(definitions, bit_pos);
        entries.push((bit_pos, def));
        i += 1;
    }
    assert(entries@.map_values(|e: (u8, Option<ValueDefinition>)| e.0) =~= positions@);
    entries
}

/// The entries that are logged when fields that must be equal differ: for every definition, in
/// order, the definition and the masked source and destination values of its field; no entry at
/// all when `src_val` equals `dest_val`.
pub fn log_inequalities(src_val: u64, dest_val: u64, definitions: &[ValueDefinition]) -> (r: Vec<
    (ValueDefinition, u64, u64),
>)
    requires
        forall|k: int| 0 <= k < definitions.len() ==> (#[trigger] definitions[k]).bits_range.1 < 64,
    ensures
        src_val == dest_val ==> r.len() == 0,
        src_val != dest_val ==> r.len() == definitions.len(),
        forall|k: int|
            0 <= k < r.len() ==> #[trigger] r[k] == ({
                let def = definitions[k];
                let mask = range_mask(def.bits_range.0 as u64, def.bits_range.1 as u64);
                (def, mask & src_val, mask & dest_val)
            }),
{
    let mut entries: Vec<(ValueDefinition, u64, u64)> = Vec::new();
    let mut i: usize = 0;
    while i < definitions.len()
        invariant
            i <= definitions.len(),
            forall|k: int| 0 <= k < definitions.len() ==> (#[trigger] definitions[k]).bits_range.1 < 64,
            src_val == dest_val ==> entries.len() == 0,
            src_val != dest_val ==> entries.len() == i,
            forall|k: int|
                0 <= k < entries.len() ==> #[trigger] entries[k] == ({
                    let def = definitions[k];
                    let mask = range_mask(def.bits_range.0 as u64, def.bits_range.1 as u64);
                    (def, mask & src_val, mask & dest_val)
                }),
        decreases definitions.len() - i,
    {
        let def = definitions[i];
        let mask = bit_range_mask(def.bits_range.0, def.bits_range.1);
        let val_src = mask & src_val;
        let val_dest = mask & dest_val;
        if src_val != dest_val {
            entries.push((def, val_src, val_dest));
        }
        i += 1;
    }
    entries
}

} // verus!
