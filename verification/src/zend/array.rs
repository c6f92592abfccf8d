//! The runtime's array cells and the borrowed view that iterates them.
//!
//! One logical array has two physical encodings.  A *packed* array is a
//! flat run of value cells with implicit ascending integer keys; a
//! *bucketed* array is a run of bucket records, each a value cell plus an
//! optional explicit key.  A flag bit on the array says which encoding is
//! in use, and the reader must be chosen by that bit: reading one encoding
//! through the other's reader is excluded by contract here, since in the
//! runtime it reads the wrong memory.  Iteration follows physical storage
//! order, which by construction is insertion order.

use vstd::prelude::*;

use vstd::slice::slice_index_get;

use crate::zend::string::{ZStr, ZendString};
use crate::zend::{decoded_form, Value, ZendRefCounted, Zval, HASH_FLAG_PACKED};

verus! {

/// One record of a bucketed array: the value cell, the key's hash slot,
/// and the key itself — absent for an implicit integer key.
#[derive(Debug)]
pub struct ZendBucket {
    pub val: Zval,
    pub h: u32,
    pub key: Option<ZendString>,
}

/// The array's element storage, one arm per physical encoding.  In the
/// runtime this is an untagged union of two pointers; keeping the arms
/// apart makes a read through the wrong arm impossible to express.
#[derive(Debug)]
pub enum ZendArrayData {
    Packed(Vec<Zval>),
    Bucketed(Vec<ZendBucket>),
}

/// An array object of the runtime: bookkeeping words as laid out by the
/// runtime, plus the element storage.
#[derive(Debug)]
pub struct ZendArray {
    pub gc: ZendRefCounted,
    pub flags: u32,
    pub n_table_mask: u32,
    pub array_data: ZendArrayData,
    pub n_num_used: u32,
    pub n_num_of_elements: u32,
    pub n_table_size: u32,
}

impl ZendArray {
    /// The packed-encoding flag bit is set.
    pub open spec fn is_packed_spec(self) -> bool {
        self.flags & HASH_FLAG_PACKED != 0
    }

    /// The value cells in storage order, whichever encoding holds them.
    pub open spec fn values_seq(self) -> Seq<Zval> {
        match self.array_data {
            ZendArrayData::Packed(v) => v@,
            ZendArrayData::Bucketed(b) => b@.map_values(|bk: ZendBucket| bk.val),
        }
    }

    /// The explicit key bytes in storage order; `None` where the key is an
    /// implicit integer, as it is at every position of a packed array.
    pub open spec fn logical_keys(self) -> Seq<Option<Seq<u8>>> {
        match self.array_data {
            ZendArrayData::Packed(v) => Seq::new(v@.len(), |i| None),
            ZendArrayData::Bucketed(b) => b@.map_values(
                |bk: ZendBucket|
                    match bk.key {
                        Some(k) => Some(k.bytes@),
                        None => None,
                    },
            ),
        }
    }

    /// The array is as the runtime hands it out: the flag bit agrees with
    /// the encoding actually in storage, and the element count agrees with
    /// the storage length.
    pub open spec fn wf(self) -> bool {
        &&& (self.is_packed_spec() <==> self.array_data is Packed)
        &&& self.n_num_of_elements == self.values_seq().len()
    }
}

/// A borrowed view over one array object, valid only while the phase that
/// produced the array is live.
#[derive(Copy, Clone, Debug)]
pub struct ZArray<'a> {
    pub raw: &'a ZendArray,
}

impl<'a> ZArray<'a> {
    /// Views an array object.
    pub fn over(raw: &'a ZendArray) -> (a: ZArray<'a>)
        ensures
            a.raw == raw,
    {
        ZArray { raw }
    }

    /// The element count recorded on the array.
    pub fn len(&self) -> (n: usize)
        ensures
            n == self.raw.n_num_of_elements as usize,
    {
        self.raw.n_num_of_elements as usize
    }

    /// Reads the encoding flag: set means packed, clear means bucketed.
    /// The right reader must be chosen by this bit before iterating.
    pub fn is_packed(&self) -> (p: bool)
        ensures
            p == self.raw.is_packed_spec(),
    {
        self.raw.flags & HASH_FLAG_PACKED != 0
    }

    /// The bucket run of a bucketed array.  Reading a packed array this
    /// way would read the wrong memory in the runtime, so the bucketed
    /// encoding is required.
    pub fn as_raw_slice(&self) -> (s: &'a [ZendBucket])
        requires
            self.raw.array_data is Bucketed,
        ensures
            s@ == self.raw.array_data->Bucketed_0@,
    {
        match &self.raw.array_data {
            ZendArrayData::Bucketed(b) => b.as_slice(),
            ZendArrayData::Packed(_) => unreached(),
        }
    }

    /// The flat cell run of a packed array; the packed encoding is
    /// required for the same reason as in `as_raw_slice`.
    pub fn as_raw_slice_packed(&self) -> (s: &'a [Zval])
        requires
            self.raw.array_data is Packed,
        ensures
            s@ == self.raw.array_data->Packed_0@,
    {
        match &self.raw.array_data {
            ZendArrayData::Packed(v) => v.as_slice(),
            ZendArrayData::Bucketed(_) => unreached(),
        }
    }

    /// A fresh forward-only iterator over this view, starting at the first
    /// element.  Iterating again takes a fresh iterator re-borrowing the
    /// same array.
    pub fn iter(&self) -> (it: ZArrayIter<'a>)
        ensures
            it.inner == *self,
            it.cursor == 0,
    {
        ZArrayIter { inner: *self, cursor: 0 }
    }
}

#[derive(Copy, Clone, Debug)]
pub enum ZArrayElementRaw<'a> {
    Packed(&'a Zval),
    Normal(&'a ZendBucket),
}

/// One element met during iteration: a value cell and, in the bucketed
/// encoding, possibly an explicit key.
#[derive(Copy, Clone, Debug)]
pub struct ZArrayElement<'a> {
    pub raw: ZArrayElementRaw<'a>,
}

impl<'a> ZArrayElement<'a> {
    /// The element's value cell.
    pub open spec fn val_cell(self) -> Zval {
        match self.raw {
            ZArrayElementRaw::Packed(z) => *z,
            ZArrayElementRaw::Normal(b) => b.val,
        }
    }

    /// The element's explicit key bytes, if it has an explicit key.
    pub open spec fn key_bytes(self) -> Option<Seq<u8>> {
        match self.raw {
            ZArrayElementRaw::Packed(_) => None,
            ZArrayElementRaw::Normal(b) => match b.key {
                Some(k) => Some(k.bytes@),
                None => None,
            },
        }
    }

    /// The element's explicit key, or `None` for an implicit integer key.
    /// Packed elements never carry one.
    pub fn key(&self) -> (k: Option<ZStr<'a>>)
        ensures
            match k {
                Some(s) => self.key_bytes() matches Some(bs) && s.buf@ == bs,
                None => self.key_bytes() is None,
            },
    {
        match &self.raw {
            ZArrayElementRaw::Packed(_) => None,
            ZArrayElementRaw::Normal(b) => match &b.key {
                Some(k) => Some(k.as_zstr()),
                None => None,
            },
        }
    }

    /// Decodes the element's value cell, exactly as `Value::decode` reads
    /// a free-standing cell.
    pub fn value(&self) -> (v: Value<'a>)
        ensures
            decoded_form(self.val_cell(), v),
    {
        match &self.raw {
            ZArrayElementRaw::Packed(z) => Value::decode(z),
            ZArrayElementRaw::Normal(b) => Value::decode(&b.val),
        }
    }
}

/// A forward-only, single-pass cursor over one array view.  Each element is
/// decoded on demand when the caller asks for it, never eagerly.
pub struct ZArrayIter<'a> {
    pub inner: ZArray<'a>,
    pub cursor: usize,
}

impl<'a> ZArrayIter<'a> {
    /// Yields the element at the cursor and moves past it, or reports the
    /// end.  Position `i` of the iteration carries the array's value cell
    /// and key at storage position `i`, in either encoding.
    pub fn next(&mut self) -> (e: Option<ZArrayElement<'a>>)
        requires
            old(self).inner.raw.wf(),
        ensures
            final(self).inner == old(self).inner,
            old(self).cursor >= old(self).inner.raw.values_seq().len() ==> e is None
                && final(self).cursor == old(self).cursor,
            old(self).cursor < old(self).inner.raw.values_seq().len() ==> {
                &&& final(self).cursor == old(self).cursor + 1
                &&& e matches Some(el) && el.val_cell() == old(self).inner.raw.values_seq()[old(
                    self,
                ).cursor as int] && el.key_bytes() == old(self).inner.raw.logical_keys()[old(
                    self,
                ).cursor as int]
            },
    {
        let inner = self.inner;
        if self.cursor >= inner.len() {
            return None;
        }
        let element = if inner.is_packed() {
            ZArrayElement {
                raw: ZArrayElementRaw::Packed(
                    slice_index_get(inner.as_raw_slice_packed(), self.cursor),
                ),
            }
        } else {
            ZArrayElement {
                raw: ZArrayElementRaw::Normal(slice_index_get(inner.as_raw_slice(), self.cursor)),
            }
        };
        self.cursor = self.cursor + 1;
        Some(element)
    }
}

/// Iteration does not depend on the physical encoding: a packed array and a
/// bucketed array holding the same logical value cells decode to the same
/// value at every position of the iteration.
pub proof fn lemma_encoding_irrelevant<'a>(
    packed: ZendArray,
    bucketed: ZendArray,
    i: int,
    v: Value<'a>,
)
    requires
        packed.wf(),
        bucketed.wf(),
        packed.is_packed_spec(),
        !bucketed.is_packed_spec(),
        packed.values_seq() == bucketed.values_seq(),
        0 <= i < packed.values_seq().len(),
    ensures
        decoded_form(packed.values_seq()[i], v) <==> decoded_form(bucketed.values_seq()[i], v),
{
}

} // verus!
