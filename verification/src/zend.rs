//! Host-side model of the runtime's value cells.
//!
//! A cell carries a small integer type tag and a payload selected by that
//! tag.  Decoding reads the tag and views the payload as one of a closed set
//! of variants; every tag outside that set is reported as unsupported rather
//! than misread.  The numeric tag values are a fixed, versioned contract of
//! the runtime.

use vstd::prelude::*;

use crate::zend::array::{ZArray, ZendArray};
use crate::zend::string::{ZStr, ZendString};

pub mod array;
pub mod file;
pub mod llist;
pub mod string;

verus! {

pub const IS_UNDEF: u32 = 0;

pub const IS_NULL: u32 = 1;

pub const IS_FALSE: u32 = 2;

pub const IS_TRUE: u32 = 3;

pub const IS_LONG: u32 = 4;

pub const IS_DOUBLE: u32 = 5;

pub const IS_STRING: u32 = 6;

pub const IS_ARRAY: u32 = 7;

pub const IS_OBJECT: u32 = 8;

pub const IS_RESOURCE: u32 = 9;

pub const IS_REFERENCE: u32 = 10;

pub const IS_CONSTANT_AST: u32 = 11;

pub const HASH_FLAG_PACKED: u32 = 4;

/// Result code used by the runtime's entry points: `Success` is the zero
/// code, `Failure` the nonzero one.
#[derive(Copy, Clone, Debug, PartialEq, Eq, Structural)]
pub enum ZendResultCode {
    Success,
    Failure,
}

impl ZendResultCode {
    /// The integer value this code has in the runtime's calling convention.
    pub fn code(&self) -> (c: i32)
        ensures
            *self is Success ==> c == 0,
            *self is Failure ==> c == -1,
    {
        match self {
            ZendResultCode::Success => 0,
            ZendResultCode::Failure => -1,
        }
    }

    /// Reads a raw result integer: zero is success, everything else failure.
    pub fn from_code(c: i32) -> (r: ZendResultCode)
        ensures
            r is Success <==> c == 0,
    {
        if c == 0 {
            ZendResultCode::Success
        } else {
            ZendResultCode::Failure
        }
    }
}

/// Header shared by every reference-counted runtime object: the count and a
/// word of type information.
#[derive(Copy, Clone, Debug, PartialEq, Eq)]
pub struct ZendRefCountedH {
    pub ref_count: u32,
    pub type_info: u32,
}

/// A bare reference-counted object, nothing but its header.
#[derive(Copy, Clone, Debug, PartialEq, Eq)]
pub struct ZendRefCounted {
    pub gc: ZendRefCountedH,
}

/// The two-word view of a cell payload, used by the runtime for bookkeeping.
#[derive(Copy, Clone, Debug, PartialEq, Eq)]
pub struct ZendValueWw {
    pub w1: u32,
    pub w2: u32,
}

/// An array cell seen without element access: a marker carrying no data,
/// for hosts that only need to know that a cell held an array.  The view
/// that iterates an array's elements is `ZArray`.
#[derive(Debug, PartialEq, Eq)]
pub struct ZSlice {}

/// A file-status record as the runtime expects it from the stat hook: the
/// plain fields of the platform's stat result that the runtime reads.
#[derive(Copy, Clone, Debug, PartialEq, Eq)]
pub struct ZendStat {
    pub st_dev: u64,
    pub st_ino: u64,
    pub st_mode: u32,
    pub st_uid: u32,
    pub st_gid: u32,
    pub st_size: i64,
    pub st_atime: i64,
    pub st_mtime: i64,
    pub st_ctime: i64,
}

/// Payload of one cell.  In the runtime this is an untagged union; the model
/// keeps the arms apart so a read through the wrong arm cannot happen, and
/// the well-formedness predicate ties the arm to the cell's tag.
#[derive(Debug)]
pub enum ZendValue {
    Long(i64),
    Double(u64),
    Str(ZendString),
    Arr(Box<ZendArray>),
    Undef,
}

/// One value cell: a type tag plus the payload it selects.
#[derive(Debug)]
pub struct Zval {
    pub value: ZendValue,
    pub type_info: u32,
    pub u2: u32,
}

/// The low four bits of a cell's type word: the value's type tag.
pub open spec fn type_tag(type_info: u32) -> u32 {
    type_info % 16
}

impl Zval {
    /// The payload arm agrees with the type tag, as the runtime guarantees
    /// for every cell it hands out.
    pub open spec fn wf(self) -> bool {
        match self.value {
            ZendValue::Long(_) => type_tag(self.type_info) == IS_LONG,
            ZendValue::Double(_) => type_tag(self.type_info) == IS_DOUBLE,
            ZendValue::Str(_) => type_tag(self.type_info) == IS_STRING,
            ZendValue::Arr(arr) => type_tag(self.type_info) == IS_ARRAY && arr.wf(),
            ZendValue::Undef => type_tag(self.type_info) != IS_LONG
                && type_tag(self.type_info) != IS_DOUBLE && type_tag(self.type_info) != IS_STRING
                && type_tag(self.type_info) != IS_ARRAY,
        }
    }
}

/// A decoded cell: the host-visible reading of one tagged value.  The double
/// variant carries the raw bit pattern of the runtime's eight-byte float,
/// which the embedding front end reinterprets as its native float type.
#[derive(Debug)]
pub enum Value<'a> {
    Long(i64),
    Double(u64),
    Str(ZStr<'a>),
    Array(ZArray<'a>),
    Unsupported,
}

/// True when the cell's tag selects one of the decoded variants and its
/// payload arm agrees with the tag.
pub open spec fn supported_cell(zv: Zval) -> bool {
    ||| (type_tag(zv.type_info) == IS_LONG && zv.value is Long)
    ||| (type_tag(zv.type_info) == IS_DOUBLE && zv.value is Double)
    ||| (type_tag(zv.type_info) == IS_STRING && zv.value is Str)
    ||| (type_tag(zv.type_info) == IS_ARRAY && zv.value is Arr)
}

/// Exactly how a cell reads as a decoded value: integers and float bits are
/// taken from the payload, strings are viewed byte for byte, arrays are
/// borrowed whole, and every other cell is reported as unsupported.
pub open spec fn decoded_form<'a>(zv: Zval, v: Value<'a>) -> bool {
    match v {
        Value::Long(l) => {
            &&& type_tag(zv.type_info) == IS_LONG
            &&& zv.value matches ZendValue::Long(x) && l == x
        },
        Value::Double(bits) => {
            &&& type_tag(zv.type_info) == IS_DOUBLE
            &&& zv.value matches ZendValue::Double(b) && bits == b
        },
        Value::Str(s) => {
            &&& type_tag(zv.type_info) == IS_STRING
            &&& zv.value matches ZendValue::Str(zs) && s.buf@ == zs.bytes@
        },
        Value::Array(a) => {
            &&& type_tag(zv.type_info) == IS_ARRAY
            &&& zv.value matches ZendValue::Arr(arr) && *a.raw == arr
        },
        Value::Unsupported => !supported_cell(zv),
    }
}

/// On the cells the runtime hands out — payload arm agreeing with the tag
/// — decoding is complete: it reports a value unsupported exactly when the
/// tag lies outside the decoded set, never for a cell of the four decoded
/// kinds.
pub proof fn lemma_wf_decode_complete<'a>(zv: Zval, v: Value<'a>)
    requires
        zv.wf(),
        decoded_form(zv, v),
    ensures
        v is Unsupported <==> {
            &&& type_tag(zv.type_info) != IS_LONG
            &&& type_tag(zv.type_info) != IS_DOUBLE
            &&& type_tag(zv.type_info) != IS_STRING
            &&& type_tag(zv.type_info) != IS_ARRAY
        },
{
}

impl<'a> Value<'a> {
    /// Decodes one cell.  The tag selects the variant; a tag outside the
    /// decoded set, or a payload that does not agree with its tag, yields
    /// `Unsupported` instead of a misread.
    pub fn decode(zv: &'a Zval) -> (v: Value<'a>)
        ensures
            decoded_form(*zv, v),
    {
        let tag = zv.type_info & 0xf;
        proof {
            let t = zv.type_info;
            assert(t & 0xf == t % 16) by (bit_vector);
        }
        if tag == IS_LONG {
            if let ZendValue::Long(l) = &zv.value {
                return Value::Long(*l);
            }
        } else if tag == IS_DOUBLE {
            if let ZendValue::Double(bits) = &zv.value {
                return Value::Double(*bits);
            }
        } else if tag == IS_STRING {
            if let ZendValue::Str(zs) = &zv.value {
                return Value::Str(zs.as_zstr());
            }
        } else if tag == IS_ARRAY {
            if let ZendValue::Arr(arr) = &zv.value {
                return Value::Array(ZArray::over(&**arr));
            }
        }
        Value::Unsupported
    }
}

} // verus!
