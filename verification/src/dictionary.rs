//! Key-value dictionaries of app messages: the values, how a value is
//! written (which C write call and which width), and how a stored tuple is
//! read back.
use vstd::prelude::*;
use vstd::std_specs::convert::FromSpecImpl;

verus! {

/// `DictionaryResult`: all fine.
pub const DICT_OK: u8 = 0;
/// `DictionaryResult`: not enough storage.
pub const DICT_NOT_ENOUGH_STORAGE: u8 = 2;
/// `DictionaryResult`: invalid arguments.
pub const DICT_INVALID_ARGS: u8 = 4;

/// `TupleType`: byte array.
pub const TUPLE_BYTE_ARRAY: u8 = 0;
/// `TupleType`: nul-terminated C string.
pub const TUPLE_CSTRING: u8 = 1;
/// `TupleType`: unsigned little-endian integer.
pub const TUPLE_UINT: u8 = 2;
/// `TupleType`: signed little-endian integer.
pub const TUPLE_INT: u8 = 3;

/// Errors that can happen when writing to a dictionary.
#[derive(Debug, Clone, Copy, PartialEq, Eq, Structural)]
pub enum DictionaryWriteError {
    /// Other error.
    Unknown,
    /// Not enough storage in the dictionary.
    NotEnoughStorage,
    /// Invalid arguments supplied.
    InvalidArgs,
}

/// Result type for writing to a dictionary.
pub type DictionaryWriteResult = Result<(), DictionaryWriteError>;

/// What a C `DictionaryResult` means.
pub open spec fn spec_write_result(v: u8) -> DictionaryWriteResult {
    if v == DICT_OK {
        Ok(())
    } else if v == DICT_NOT_ENOUGH_STORAGE {
        Err(DictionaryWriteError::NotEnoughStorage)
    } else if v == DICT_INVALID_ARGS {
        Err(DictionaryWriteError::InvalidArgs)
    } else {
        Err(DictionaryWriteError::Unknown)
    }
}

/// Maps a C `DictionaryResult` to `Ok(())` or the matching error.
pub fn to_write_result(v: u8) -> (r: DictionaryWriteResult)
    ensures
        r == spec_write_result(v),
{
    match v {
        DICT_OK => Ok(()),
        DICT_NOT_ENOUGH_STORAGE => Err(DictionaryWriteError::NotEnoughStorage),
        DICT_INVALID_ARGS => Err(DictionaryWriteError::InvalidArgs),
        _ => Err(DictionaryWriteError::Unknown),
    }
}

/// Values stored in a dictionary.
pub enum Value<'a> {
    /// Byte array.
    Bytes(&'a [u8]),
    /// C string, given by its bytes without the terminating nul.
    CStr(&'a [u8]),
    /// Unsigned integer.
    Uint(u32),
    /// Integer.
    Int(i32),
}

impl<'a> Value<'a> {
    /// The unsigned integer in this value, if it holds one: an unsigned value,
    /// or a non-negative signed value.
    pub open spec fn spec_as_u32(&self) -> Option<u32> {
        match *self {
            Value::Uint(v) => Some(v),
            Value::Int(v) => if v >= 0 { Some(v as u32) } else { None },
            _ => None,
        }
    }

    /// Returns the unsigned integer in this value if possible.
    pub fn as_u32(&self) -> (r: Option<u32>)
        ensures
            r == self.spec_as_u32(),
    {
        match self {
            Value::Bytes(_) => None,
            Value::CStr(_) => None,
            Value::Uint(v) => Some(*v),
            Value::Int(v) => if *v >= 0i32 {
                Some(*v as u32)
            } else {
                None
            },
        }
    }
}

impl<'a, 'b> From<&'a Value<'b>> for Option<u32> {
    fn from(val: &'a Value<'b>) -> (r: Self) {
        val.as_u32()
    }
}

impl<'a, 'b> FromSpecImpl<&'a Value<'b>> for Option<u32> {
    open spec fn obeys_from_spec() -> bool {
        true
    }

    open spec fn from_spec(v: &'a Value<'b>) -> Self {
        v.spec_as_u32()
    }
}

impl<'a> From<u32> for Value<'a> {
    fn from(value: u32) -> (r: Self) {
        Value::Uint(value)
    }
}

impl<'a> FromSpecImpl<u32> for Value<'a> {
    open spec fn obeys_from_spec() -> bool {
        true
    }

    open spec fn from_spec(v: u32) -> Self {
        Value::Uint(v)
    }
}

impl<'a> From<u16> for Value<'a> {
    fn from(value: u16) -> (r: Self) {
        Value::Uint(value as u32)
    }
}

impl<'a> FromSpecImpl<u16> for Value<'a> {
    open spec fn obeys_from_spec() -> bool {
        true
    }

    open spec fn from_spec(v: u16) -> Self {
        Value::Uint(v as u32)
    }
}

impl<'a> From<u8> for Value<'a> {
    fn from(value: u8) -> (r: Self) {
        Value::Uint(value as u32)
    }
}

impl<'a> FromSpecImpl<u8> for Value<'a> {
    open spec fn obeys_from_spec() -> bool {
        true
    }

    open spec fn from_spec(v: u8) -> Self {
        Value::Uint(v as u32)
    }
}

impl<'a> From<i32> for Value<'a> {
    fn from(value: i32) -> (r: Self) {
        Value::Int(value)
    }
}

impl<'a> FromSpecImpl<i32> for Value<'a> {
    open spec fn obeys_from_spec() -> bool {
        true
    }

    open spec fn from_spec(v: i32) -> Self {
        Value::Int(v)
    }
}

impl<'a> From<i16> for Value<'a> {
    fn from(value: i16) -> (r: Self) {
        Value::Int(value as i32)
    }
}

impl<'a> FromSpecImpl<i16> for Value<'a> {
    open spec fn obeys_from_spec() -> bool {
        true
    }

    open spec fn from_spec(v: i16) -> Self {
        Value::Int(v as i32)
    }
}

impl<'a> From<i8> for Value<'a> {
    fn from(value: i8) -> (r: Self) {
        Value::Int(value as i32)
    }
}

impl<'a> FromSpecImpl<i8> for Value<'a> {
    open spec fn obeys_from_spec() -> bool {
        true
    }

    open spec fn from_spec(v: i8) -> Self {
        Value::Int(v as i32)
    }
}

impl<'a> From<&'a [u8]> for Value<'a> {
    fn from(value: &'a [u8]) -> (r: Self) {
        Value::Bytes(value)
    }
}

impl<'a> FromSpecImpl<&'a [u8]> for Value<'a> {
    open spec fn obeys_from_spec() -> bool {
        true
    }

    open spec fn from_spec(v: &'a [u8]) -> Self {
        Value::Bytes(v)
    }
}

/// One C dictionary write call, with its argument in the width it is written.
pub enum DictionaryWrite<'a> {
    /// `dict_write_data` with the bytes (at most `u16::MAX` of them).
    Bytes(&'a [u8]),
    /// `dict_write_cstring` with the string bytes (the C string adds the nul).
    CStr(&'a [u8]),
    /// `dict_write_uint8`.
    Uint8(u8),
    /// `dict_write_uint16`.
    Uint16(u16),
    /// `dict_write_uint32`.
    Uint32(u32),
    /// `dict_write_int8`.
    Int8(i8),
    /// `dict_write_int16`.
    Int16(i16),
    /// `dict_write_int32`.
    Int32(i32),
}

/// The write call for a value: integers in the smallest width that holds
/// them, byte arrays only up to `u16::MAX` bytes.
pub open spec fn spec_write_for<'a>(value: Value<'a>) -> Result<DictionaryWrite<'a>, DictionaryWriteError> {
    match value {
        Value::Bytes(b) => if b@.len() <= u16::MAX {
            Ok(DictionaryWrite::Bytes(b))
        } else {
            Err(DictionaryWriteError::InvalidArgs)
        },
        Value::CStr(s) => Ok(DictionaryWrite::CStr(s)),
        Value::Uint(u) => if u <= u8::MAX {
            Ok(DictionaryWrite::Uint8(u as u8))
        } else if u <= u16::MAX {
            Ok(DictionaryWrite::Uint16(u as u16))
        } else {
            Ok(DictionaryWrite::Uint32(u))
        },
        Value::Int(i) => if i8::MIN <= i <= i8::MAX {
            Ok(DictionaryWrite::Int8(i as i8))
        } else if i16::MIN <= i <= i16::MAX {
            Ok(DictionaryWrite::Int16(i as i16))
        } else {
            Ok(DictionaryWrite::Int32(i))
        },
    }
}

impl<'a> DictionaryWrite<'a> {
    /// Chooses the C write call for a value, as `DictionaryBuilder::set` does.
    pub fn for_value(value: Value<'a>) -> (r: Result<DictionaryWrite<'a>, DictionaryWriteError>)
        ensures
            r == spec_write_for(value),
    {
        match value {
            Value::Bytes(items) => if items.len() <= 65535 {
                Ok(DictionaryWrite::Bytes(items))
            } else {
                Err(DictionaryWriteError::InvalidArgs)
            },
            Value::CStr(s) => Ok(DictionaryWrite::CStr(s)),
            Value::Uint(unsigned) => if unsigned <= 255 {
                Ok(DictionaryWrite::Uint8(unsigned as u8))
            } else if unsigned <= 65535 {
                Ok(DictionaryWrite::Uint16(unsigned as u16))
            } else {
                Ok(DictionaryWrite::Uint32(unsigned))
            },
            Value::Int(signed) => if -128 <= signed && signed <= 127 {
                Ok(DictionaryWrite::Int8(signed as i8))
            } else if -32768 <= signed && signed <= 32767 {
                Ok(DictionaryWrite::Int16(signed as i16))
            } else {
                Ok(DictionaryWrite::Int32(signed))
            },
        }
    }

    /// The tuple type and payload bytes that the C write call stores:
    /// integers little-endian in two's complement, C strings with their nul.
    pub open spec fn spec_stored(self) -> (u8, Seq<u8>) {
        match self {
            DictionaryWrite::Bytes(b) => (TUPLE_BYTE_ARRAY, b@),
            DictionaryWrite::CStr(s) => (TUPLE_CSTRING, s@.push(0u8)),
            DictionaryWrite::Uint8(v) => (TUPLE_UINT, le_bytes(v as nat, 1)),
            DictionaryWrite::Uint16(v) => (TUPLE_UINT, le_bytes(v as nat, 2)),
            DictionaryWrite::Uint32(v) => (TUPLE_UINT, le_bytes(v as nat, 4)),
            DictionaryWrite::Int8(v) => (TUPLE_INT, le_bytes(((v + 0x100) % 0x100) as nat, 1)),
            DictionaryWrite::Int16(v) => (TUPLE_INT, le_bytes(((v + 0x10000) % 0x10000) as nat, 2)),
            DictionaryWrite::Int32(v) => (
                TUPLE_INT,
                le_bytes(((v + 0x1_0000_0000) % 0x1_0000_0000) as nat, 4),
            ),
        }
    }
}

/// The `n` little-endian bytes of `v` (taken modulo `256^n`).
pub open spec fn le_bytes(v: nat, n: nat) -> Seq<u8>
    decreases n,
{
    if n == 0 {
        Seq::empty()
    } else {
        seq![(v % 256) as u8] + le_bytes(v / 256, (n - 1) as nat)
    }
}

/// The unsigned value of little-endian bytes.
pub open spec fn le_value(s: Seq<u8>) -> nat
    decreases s.len(),
{
    if s.len() == 0 {
        0
    } else {
        s[0] as nat + 256 * le_value(s.drop_first())
    }
}

/// The signed (two's complement) value of little-endian bytes.
pub open spec fn le_signed_value(s: Seq<u8>) -> int {
    let u = le_value(s);
    let half = if s.len() == 1 {
        0x80int
    } else if s.len() == 2 {
        0x8000int
    } else {
        0x8000_0000int
    };
    if u >= half {
        u - 2 * half
    } else {
        u as int
    }
}

/// Whether `s` is a nul-terminated string with no nul before the end.
pub open spec fn is_c_string(s: Seq<u8>) -> bool {
    &&& s.len() >= 1
    &&& s.last() == 0
    &&& forall|i: int| 0 <= i < s.len() - 1 ==> s[i] != 0
}

/// A key-value dictionary tuple as stored by the C API: the key, the tuple
/// type and the payload bytes.
pub struct Tuple<'a> {
    pub key: u32,
    pub tuple_type: u8,
    pub data: &'a [u8],
}

/// The value that a tuple of this type and payload holds, for payloads that
/// the C API can store.
pub open spec fn spec_decode(tuple_type: u8, data: Seq<u8>) -> Option<ValueView> {
    if tuple_type == TUPLE_BYTE_ARRAY {
        Some(ValueView::Bytes(data))
    } else if tuple_type == TUPLE_CSTRING && is_c_string(data) {
        Some(ValueView::CStr(data.drop_last()))
    } else if tuple_type == TUPLE_UINT && (data.len() == 1 || data.len() == 2 || data.len() == 4) {
        Some(ValueView::Uint(le_value(data)))
    } else if tuple_type == TUPLE_INT && (data.len() == 1 || data.len() == 2 || data.len() == 4) {
        Some(ValueView::Int(le_signed_value(data)))
    } else {
        None
    }
}

/// The mathematical content of a [`Value`].
pub enum ValueView {
    Bytes(Seq<u8>),
    CStr(Seq<u8>),
    Uint(nat),
    Int(int),
}

impl<'a> Value<'a> {
    /// The mathematical content of this value.
    pub open spec fn view_value(self) -> ValueView {
        match self {
            Value::Bytes(b) => ValueView::Bytes(b@),
            Value::CStr(s) => ValueView::CStr(s@),
            Value::Uint(u) => ValueView::Uint(u as nat),
            Value::Int(i) => ValueView::Int(i as int),
        }
    }
}

/// `le_value` of one, two and four bytes, written out.
pub proof fn lemma_le_value_small(s: Seq<u8>)
    ensures
        s.len() == 1 ==> le_value(s) == s[0] as nat,
        s.len() == 2 ==> le_value(s) == s[0] as nat + 256 * (s[1] as nat),
        s.len() == 4 ==> le_value(s) == s[0] as nat + 256 * (s[1] as nat) + 65536 * (s[2] as nat)
            + 16777216 * (s[3] as nat),
{
    if s.len() == 1 || s.len() == 2 || s.len() == 4 {
        let t = s.drop_first();
        let u = t.drop_first();
        let w = u.drop_first();
        let x = w.drop_first();
        if s.len() == 1 {
            assert(le_value(t) == 0);
        } else if s.len() == 2 {
            assert(le_value(u) == 0);
            assert(le_value(t) == t[0] as nat + 256 * le_value(u));
        } else {
            assert(le_value(x) == 0);
            assert(le_value(w) == w[0] as nat + 256 * le_value(x));
            assert(le_value(u) == u[0] as nat + 256 * le_value(w));
            assert(le_value(t) == t[0] as nat + 256 * le_value(u));
        }
    }
}

impl<'a> Tuple<'a> {
    /// Whether the payload is one that the C API stores for the tuple type.
    pub open spec fn wf(&self) -> bool {
        spec_decode(self.tuple_type, self.data@) is Some
    }

    /// Whether the payload is one that the C API stores for the tuple type:
    /// a C string ends in its only nul, an integer has 1, 2 or 4 bytes.
    pub fn is_well_formed(&self) -> (r: bool)
        ensures
            r == self.wf(),
    {
        let t = self.tuple_type;
        let n = self.data.len();
        if t == TUPLE_BYTE_ARRAY {
            true
        } else if t == TUPLE_CSTRING {
            if n == 0 || self.data[n - 1] != 0 {
                return false;
            }
            let mut i: usize = 0;
            while i < n - 1
                invariant
                    n == self.data@.len(),
                    n >= 1,
                    self.tuple_type == TUPLE_CSTRING,
                    i <= n - 1,
                    forall|j: int| 0 <= j < i ==> self.data@[j] != 0,
                decreases n - 1 - i,
            {
                if self.data[i] == 0 {
                    assert(!is_c_string(self.data@)) by {
                        assert(self.data@[i as int] == 0);
                    }
                    return false;
                }
                i = i + 1;
            }
            true
        } else if t == TUPLE_UINT || t == TUPLE_INT {
            n == 1 || n == 2 || n == 4
        } else {
            false
        }
    }

    /// Returns the key of this tuple.
    pub fn key(&self) -> (r: u32)
        ensures
            r == self.key,
    {
        self.key
    }

    /// The payload as an unsigned little-endian integer of 1, 2 or 4 bytes.
    fn extract_uint(&self) -> (r: u32)
        requires
            self.data@.len() == 1 || self.data@.len() == 2 || self.data@.len() == 4,
        ensures
            r as nat == le_value(self.data@),
    {
        proof {
            lemma_le_value_small(self.data@);
        }
        let d = self.data;
        if d.len() == 1 {
            d[0] as u32
        } else if d.len() == 2 {
            d[0] as u32 + 256 * (d[1] as u32)
        } else {
            d[0] as u32 + 256 * (d[1] as u32) + 65536 * (d[2] as u32) + 16777216 * (d[3] as u32)
        }
    }

    /// The payload as a signed little-endian integer of 1, 2 or 4 bytes.
    fn extract_int(&self) -> (r: i32)
        requires
            self.data@.len() == 1 || self.data@.len() == 2 || self.data@.len() == 4,
        ensures
            r as int == le_signed_value(self.data@),
    {
        proof {
            lemma_le_value_small(self.data@);
        }
        let u = self.extract_uint();
        let n = self.data.len();
        if n == 1 {
            if u >= 0x80 {
                (u as i32) - 0x100
            } else {
                u as i32
            }
        } else if n == 2 {
            if u >= 0x8000 {
                (u as i32) - 0x10000
            } else {
                u as i32
            }
        } else {
            if u >= 0x8000_0000 {
                ((u as i64) - 0x1_0000_0000) as i32
            } else {
                u as i32
            }
        }
    }

    /// Returns the value of this tuple.
    pub fn value(&self) -> (r: Value<'a>)
        requires
            self.wf(),
        ensures
            Some(r.view_value()) == spec_decode(self.tuple_type, self.data@),
    {
        let t = self.tuple_type;
        if t == TUPLE_BYTE_ARRAY {
            Value::Bytes(self.data)
        } else if t == TUPLE_CSTRING {
            let n = self.data.len();
            let s = &self.data[0..n - 1];
            proof {
                assert(s@ =~= self.data@.drop_last());
            }
            Value::CStr(s)
        } else if t == TUPLE_UINT {
            Value::Uint(self.extract_uint())
        } else {
            Value::Int(self.extract_int())
        }
    }
}

/// What a read gives back of a write: a value that the writer accepts is
/// stored under a tuple type and payload that decode to the same value.
pub proof fn lemma_write_then_read<'a>(value: Value<'a>)
    requires
        value matches Value::CStr(s) ==> forall|i: int| 0 <= i < s@.len() ==> s@[i] != 0,
    ensures
        spec_write_for(value) matches Ok(w) ==> spec_decode(w.spec_stored().0, w.spec_stored().1)
            == Some(value.view_value()),
{
    match spec_write_for(value) {
        Ok(w) => {
            let (t, d) = w.spec_stored();
            lemma_le_value_small(d);
            match w {
                DictionaryWrite::Bytes(_) => {},
                DictionaryWrite::CStr(s) => {
                    assert(d.drop_last() =~= s@);
                },
                DictionaryWrite::Uint8(v) => {
                    reveal_with_fuel(le_bytes, 2);
                },
                DictionaryWrite::Uint16(v) => {
                    reveal_with_fuel(le_bytes, 3);
                    assert(v as nat % 256 + 256 * ((v as nat / 256) % 256) == v) by (nonlinear_arith)
                        requires
                            v < 65536,
                    ;
                },
                DictionaryWrite::Uint32(v) => {
                    reveal_with_fuel(le_bytes, 5);
                    lemma_four_bytes(v as nat);
                },
                DictionaryWrite::Int8(v) => {
                    reveal_with_fuel(le_bytes, 2);
                },
                DictionaryWrite::Int16(v) => {
                    reveal_with_fuel(le_bytes, 3);
                    let u = ((v + 0x10000) % 0x10000) as nat;
                    assert(u % 256 + 256 * ((u / 256) % 256) == u) by (nonlinear_arith)
                        requires
                            u < 65536,
                    ;
                },
                DictionaryWrite::Int32(v) => {
                    reveal_with_fuel(le_bytes, 5);
                    let u = ((v + 0x1_0000_0000) % 0x1_0000_0000) as nat;
                    lemma_four_bytes(u);
                },
            }
        },
        Err(_) => {},
    }
}

/// A value is its low byte plus 256 times the rest.
pub proof fn lemma_split_byte(v: nat)
    ensures
        v == v % 256 + 256 * (v / 256),
        v / 256 <= v,
{
}

/// Four little-endian bytes of a 32-bit value reassemble to the value.
pub proof fn lemma_four_bytes(v: nat)
    requires
        v < 0x1_0000_0000,
    ensures
        v % 256 + 256 * ((v / 256) % 256) + 65536 * ((v / 256 / 256) % 256) + 16777216 * ((v / 256
            / 256 / 256) % 256) == v,
{
    let a = v / 256;
    let b = a / 256;
    let c = b / 256;
    lemma_split_byte(v);
    lemma_split_byte(a);
    lemma_split_byte(b);
    assert(c < 256);
    assert(c % 256 == c);
}

} // verus!
