//! Interface screens as the packages store them.

use vstd::prelude::*;

use crate::bytes::{get_le_u64, le_u64};
use crate::channels::Vec4Bits;

verus! {

#[derive(Debug)]
pub struct SCuiScreen {
    pub file_size: u64,
    pub object_parents: Vec<SCuiObjectParent>,
    pub unk18: u16,
    pub unk1a: u16,
    pub unk1c: u32,
    pub unk20: u32,
}

#[derive(Clone, Copy, Debug, PartialEq, Eq, Structural)]
pub struct SCuiObjectParent {
    pub parent: i16,
    pub object: i16,
}

/// A part of a screen, with the pools of values that its properties point into.
#[derive(Debug)]
pub struct S80803C6F {
    pub file_size: u64,
    pub unk8: Vec<S80803A29>,
    pub objects: Vec<u32>,
    pub unk28: Vec<()>,
    pub components: Vec<SCuiComponent>,
    pub overlays: Vec<SCuiOverlay>,
    pub binding_set: Vec<S80803B10>,
    pub unk68: Vec<()>,
    pub unk78: Vec<S80803D8B>,
    pub bool_values: VecPointer<bool>,
    pub int32_values: VecPointer<i32>,
    pub uint64_values: VecPointer<u64>,
    pub real32_values: VecPointer<S80803ABB>,
    pub prop_values_float2: VecPointer<S80803ABB>,
    pub vector4_values: VecPointer<Vec4Bits>,
    pub string_hash_values: VecPointer<S80803AB9>,
    pub string_reference_values: VecPointer<()>,
    pub handle_values: VecPointer<S8080AF04>,
    pub component_values: VecPointer<S80803AB2>,
    pub object_values: Vec<()>,
    pub unk138_unlock_expression_values: Vec<()>,
    pub owner_pointer_values: Vec<S80803AAF>,
    pub unk158: Vec<()>,
}

#[derive(Clone, Copy, Debug, PartialEq, Eq, Structural)]
pub struct S80803A29 {
    pub sub_component: u32,
    pub unk4: u16,
    pub unk6: u16,
    pub unk8: u16,
    pub unka: u16,
}

#[derive(Clone, Copy, Debug, PartialEq, Eq, Structural)]
pub struct SCuiComponent {
    pub unk0: u32,
    pub unk4: u32,
    pub unk8: u16,
    pub unka: u16,
    pub unkc: u32,
}

#[derive(Clone, Copy, Debug, PartialEq, Eq, Structural)]
pub struct S80803B33 {
    pub unk0: u64,
    pub unk8: u32,
    pub unkc: u32,
}

#[derive(Debug)]
pub struct S80803B2F {
    pub unk: [u32; 8],
    pub unk0: Vec<S80803B33>,
}

#[derive(Debug)]
pub struct S80803B2D {
    pub unk0: u32,
    pub properties: Vec<S80803B2F>,
    pub unk8: u64,
}

#[derive(Debug)]
pub struct S80803B2B {
    pub hash: u32,
    pub components: Vec<S80803B2D>,
}

#[derive(Debug)]
pub struct SCuiOverlay {
    pub unk0: [u32; 8],
    pub unk20: Vec<S80803B0C>,
    pub animations: Vec<S80803B2B>,
}

#[derive(Debug)]
pub struct S80803B0C {
    pub unk0: u64,
    pub property_value_entries: Vec<S80803CA3>,
}

/// A property and the address of its value in one of the pools.
#[derive(Debug)]
pub struct S80803CA3 {
    pub unk0: S80803D8B,
    pub unk8: u64,
    pub unk10: u64,
}

#[derive(Debug)]
pub struct S80803B10 {
    pub unk0: u16,
    pub unk2: u16,
    pub unk4: u32,
    pub unk8: S80803D8B,
    pub unk10: u32,
    pub unk14: u32,
    pub unk18: u16,
    pub unk1a: u16,
    pub unk1c: u32,
    pub unk20: S80803D8B,
    pub unk28: u32,
    pub unk2c: u32,
    pub conversion: u64,
}

/// A single-precision float as its pattern.
#[derive(Clone, Copy, Debug, PartialEq, Eq, Structural)]
pub struct S80803ABB {
    pub value: u32,
}

#[derive(Clone, Copy, Debug, PartialEq, Eq, Structural)]
pub struct S80803AB2 {
    pub unk0: u16,
}

#[derive(Clone, Copy, Debug, PartialEq, Eq, Structural)]
pub struct S80803AB9 {
    pub unk0: u32,
}

#[derive(Clone, Copy, Debug, PartialEq, Eq, Structural)]
pub struct S80803D91 {
    pub unk0: u32,
}

#[derive(Debug)]
pub struct S80803D8B {
    pub elements: Vec<S80803D91>,
}

/// A bitmap, a technique or a table of strings.
#[derive(Clone, Copy, Debug, PartialEq, Eq, Structural)]
pub struct S8080AF04 {
    pub h: u64,
}

#[derive(Clone, Copy, Debug, PartialEq, Eq, Structural)]
pub struct S8080468D {}

#[derive(Debug)]
pub struct S80804834 {
    pub columns: Vec<S80804837>,
    pub rows: Vec<S808048D1>,
}

#[derive(Debug)]
pub struct S8080490D {
    pub unk0: u64,
    pub steps: Vec<S8080490F>,
}

#[derive(Clone, Copy, Debug, PartialEq, Eq, Structural)]
pub struct S8080490F {
    pub unk0: u16,
    pub unk2: u16,
    pub unk4: u32,
    pub unk8: u32,
}

/// A visual component by the class of its resource.
#[derive(Clone, Copy, Debug, PartialEq, Eq, Structural)]
pub enum VisualComponentVariant {
    Unknown { class: u32 },
}

#[derive(Clone, Copy, Debug, PartialEq, Eq, Structural)]
pub struct S80803AAF {
    pub unk0: u64,
    pub value: Option<VisualComponentVariant>,
}

#[derive(Clone, Copy, Debug)]
pub struct S80804837 {
    pub unk0: [u32; 6],
}

#[derive(Clone, Copy, Debug, PartialEq, Eq, Structural)]
pub struct S808048DF {}

#[derive(Clone, Copy, Debug)]
pub struct S808048D9 {
    pub unk0: [u32; 4],
    pub unk10: [u32; 4],
    pub color: Vec4Bits,
}

#[derive(Clone, Copy, Debug, PartialEq, Eq, Structural)]
pub struct S808048D7 {}

#[derive(Debug)]
pub struct S808048D1 {
    pub unk0: Vec<S808048DF>,
    pub unk10: [u32; 4],
    pub unk20: [u32; 4],
    pub unk30: Vec<S808048D9>,
    pub unk40: Vec<S808048D7>,
    pub unk50: [u32; 4],
    pub unk60: [u32; 4],
}

/// A list together with the address at which the packages store it.
#[derive(Debug)]
pub struct VecPointer<T> {
    pub vec: Vec<T>,
    pub addr: u64,
}

/// The bytes of a stored list header: a count and a relative address.
pub const VEC_POINTER_SIZE: usize = 16;

/// Where a list header at `position` points: its relative address counts from itself, behind
/// the count. A header that does not fit, or that points beyond all addresses, points nowhere.
pub open spec fn pointed_address(bytes: Seq<u8>, position: int) -> Option<u64> {
    if position + VEC_POINTER_SIZE > bytes.len() {
        None
    } else {
        let address = position + 8 + le_u64(bytes, position + 8);
        if address > u64::MAX {
            None
        } else {
            Some(address as u64)
        }
    }
}

impl<T> VecPointer<T> {
    /// A list that was read from a header at `position`.
    pub fn read(bytes: &[u8], position: usize, vec: Vec<T>) -> (result: Option<VecPointer<T>>)
        ensures
            match pointed_address(bytes@, position as int) {
                Some(addr) => result == Some(VecPointer { vec, addr }),
                None => result is None,
            },
    {
        if position > bytes.len() || bytes.len() - position < VEC_POINTER_SIZE {
            return None;
        }
        let offset: u64 = get_le_u64(bytes, position + 8);
        match (position as u64 + 8).checked_add(offset) {
            Some(addr) => Some(VecPointer { vec, addr }),
            None => None,
        }
    }

    pub fn addr(&self) -> (addr: u64)
        ensures
            addr == self.addr,
    {
        self.addr
    }

    pub fn len(&self) -> (len: usize)
        ensures
            len == self.vec@.len(),
    {
        self.vec.len()
    }

    pub fn is_empty(&self) -> (empty: bool)
        ensures
            empty == (self.vec@.len() == 0),
    {
        self.vec.len() == 0
    }
}

} // verus!
