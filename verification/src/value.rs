//! The MessagePack value model that messages are built from.
//!
//! A `Value` holds, as plain data, everything that a MessagePack value can carry. Floating-point
//! values are held by their IEEE-754 bit patterns, so that two values have the same view exactly
//! when their encodings are the same; `==` on values compares floats as numbers, as IEEE-754 does
//! (a NaN equals nothing, and the two zeros are equal).
use vstd::prelude::*;

verus! {

/// The two ways MessagePack stores an integer: non-negative ones as `u64`, negative ones as `i64`.
#[derive(Clone, Copy, Debug, PartialEq, Eq, Structural)]
pub(crate) enum IntPriv {
    /// A non-negative integer.
    PosInt(u64),
    /// A negative integer: always less than zero.
    NegInt(i64),
}

/// A MessagePack integer.
#[derive(Clone, Copy, Debug, PartialEq, Eq, Structural)]
pub struct Integer {
    pub(crate) n: IntPriv,
}

impl View for Integer {
    type V = int;

    /// The mathematical integer that this value stands for.
    closed spec fn view(&self) -> int {
        match self.n {
            IntPriv::PosInt(n) => n as int,
            IntPriv::NegInt(n) => n as int,
        }
    }
}

impl Integer {
    /// A negative integer is always stored as `NegInt`, any other as `PosInt`: so an integer is
    /// determined by the number it stands for.
    #[verifier::type_invariant]
    spec fn inv(self) -> bool {
        match self.n {
            IntPriv::PosInt(_) => true,
            IntPriv::NegInt(n) => n < 0,
        }
    }

    /// An integer from a `u64`.
    pub fn from_u64(n: u64) -> (r: Integer)
        ensures
            r@ == n as int,
    {
        Integer { n: IntPriv::PosInt(n) }
    }

    /// An integer from a `u32`.
    pub fn from_u32(n: u32) -> (r: Integer)
        ensures
            r@ == n as int,
    {
        Integer { n: IntPriv::PosInt(n as u64) }
    }

    /// An integer from an `i64`: a negative one is stored as `NegInt`, any other as `PosInt`.
    pub fn from_i64(n: i64) -> (r: Integer)
        ensures
            r@ == n as int,
    {
        if n < 0 {
            Integer { n: IntPriv::NegInt(n) }
        } else {
            Integer { n: IntPriv::PosInt(n as u64) }
        }
    }

    /// The integer as a `u64`, if it is in that type's range.
    pub fn as_u64(&self) -> (r: Option<u64>)
        ensures
            r == (if 0 <= self@ <= u64::MAX { Some(self@ as u64) } else { None::<u64> }),
    {
        proof {
            use_type_invariant(self);
        }
        match self.n {
            IntPriv::PosInt(n) => Some(n),
            IntPriv::NegInt(_) => None,
        }
    }

    /// The integer as an `i64`, if it is in that type's range.
    pub fn as_i64(&self) -> (r: Option<i64>)
        ensures
            r == (if i64::MIN <= self@ <= i64::MAX { Some(self@ as i64) } else { None::<i64> }),
    {
        match self.n {
            IntPriv::PosInt(n) => if n <= i64::MAX as u64 {
                Some(n as i64)
            } else {
                None
            },
            IntPriv::NegInt(n) => Some(n),
        }
    }
}

/// A MessagePack string: text that is valid UTF-8, or the raw bytes of one that is not.
#[derive(Debug, PartialEq)]
pub struct Utf8String {
    pub s: Result<String, Vec<u8>>,
}

impl View for Utf8String {
    type V = Result<Seq<char>, Seq<u8>>;

    open spec fn view(&self) -> Result<Seq<char>, Seq<u8>> {
        match self.s {
            Ok(s) => Ok(s@),
            Err(b) => Err(b@),
        }
    }
}

impl Utf8String {
    /// A valid string holding the characters of `s`.
    pub fn from_str(s: &str) -> (r: Utf8String)
        ensures
            r@ == Ok::<Seq<char>, Seq<u8>>(s@),
    {
        Utf8String { s: Ok(s.to_string()) }
    }

    /// The text, where it is valid UTF-8.
    pub fn as_str(&self) -> (r: Option<&str>)
        ensures
            match self@ {
                Ok(s) => r is Some && r->0@ == s,
                Err(_) => r is None,
            },
    {
        match &self.s {
            Ok(s) => Some(s.as_str()),
            Err(_) => None,
        }
    }

    /// Whether the string is valid UTF-8.
    pub fn is_str(&self) -> (r: bool)
        ensures
            r == self@ is Ok,
    {
        self.s.is_ok()
    }

    /// A copy of the string.
    pub fn duplicate(&self) -> (r: Utf8String)
        ensures
            r@ == self@,
    {
        match &self.s {
            Ok(s) => Utf8String { s: Ok(s.clone()) },
            Err(b) => Utf8String { s: Err(copy_bytes(b)) },
        }
    }
}

impl Clone for Utf8String {
    fn clone(&self) -> (r: Self)
        ensures
            r@ == self@,
    {
        self.duplicate()
    }
}

/// A MessagePack value.
#[derive(Debug)]
pub enum Value {
    Nil,
    Boolean(bool),
    Integer(Integer),
    /// A 32-bit float, by its bit pattern.
    F32(u32),
    /// A 64-bit float, by its bit pattern.
    F64(u64),
    String(Utf8String),
    Binary(Vec<u8>),
    Array(Vec<Value>),
    Mapping(Vec<(Value, Value)>),
    Ext(i8, Vec<u8>),
}

/// The mathematical form of a [`Value`]: the same tree, with sequences in place of vectors.
pub enum SpecValue {
    Nil,
    Boolean(bool),
    Integer(int),
    F32(u32),
    F64(u64),
    String(Result<Seq<char>, Seq<u8>>),
    Binary(Seq<u8>),
    Array(Seq<SpecValue>),
    Mapping(Seq<(SpecValue, SpecValue)>),
    Ext(i8, Seq<u8>),
}

/// The mathematical form of a value.
pub open spec fn value_view(v: Value) -> SpecValue
    decreases v,
{
    match v {
        Value::Nil => SpecValue::Nil,
        Value::Boolean(b) => SpecValue::Boolean(b),
        Value::Integer(i) => SpecValue::Integer(i@),
        Value::F32(b) => SpecValue::F32(b),
        Value::F64(b) => SpecValue::F64(b),
        Value::String(s) => SpecValue::String(s@),
        Value::Binary(b) => SpecValue::Binary(b@),
        Value::Array(a) => SpecValue::Array(
            Seq::new(
                a@.len(),
                |i: int|
                    if 0 <= i < a@.len() {
                        value_view(a@[i])
                    } else {
                        SpecValue::Nil
                    },
            ),
        ),
        Value::Mapping(m) => SpecValue::Mapping(
            Seq::new(
                m@.len(),
                |i: int|
                    if 0 <= i < m@.len() {
                        (value_view(m@[i].0), value_view(m@[i].1))
                    } else {
                        (SpecValue::Nil, SpecValue::Nil)
                    },
            ),
        ),
        Value::Ext(t, d) => SpecValue::Ext(t, d@),
    }
}

impl View for Value {
    type V = SpecValue;

    open spec fn view(&self) -> SpecValue {
        value_view(*self)
    }
}

/// The mathematical form of a sequence of values.
pub open spec fn values_view(s: Seq<Value>) -> Seq<SpecValue> {
    Seq::new(s.len(), |i: int| s[i]@)
}

/// The view of an array value is the sequence of the views of its items.
pub proof fn lemma_array_view(a: Vec<Value>)
    ensures
        Value::Array(a)@ == SpecValue::Array(values_view(a@)),
{
    assert(value_view(Value::Array(a))->Array_0 =~= values_view(a@));
}

/// The mathematical form of a sequence of key-value pairs.
pub open spec fn pairs_view(s: Seq<(Value, Value)>) -> Seq<(SpecValue, SpecValue)> {
    Seq::new(s.len(), |i: int| (s[i].0@, s[i].1@))
}

/// The view of a map value is the sequence of the views of its pairs.
pub proof fn lemma_mapping_view(m: Vec<(Value, Value)>)
    ensures
        Value::Mapping(m)@ == SpecValue::Mapping(pairs_view(m@)),
{
    assert(value_view(Value::Mapping(m))->Mapping_0 =~= pairs_view(m@));
}

/// A deep copy of a vector of values.
pub fn duplicate_values(a: &Vec<Value>) -> (r: Vec<Value>)
    ensures
        values_view(r@) == values_view(a@),
{
    let mut r: Vec<Value> = Vec::new();
    let mut i: usize = 0;
    while i < a.len()
        invariant
            i <= a@.len(),
            r@.len() == i,
            forall|j: int| 0 <= j < i ==> (#[trigger] r@[j])@ == a@[j]@,
        decreases a@.len() - i,
    {
        let x = a[i].duplicate();
        r.push(x);
        i = i + 1;
    }
    assert(values_view(r@) =~= values_view(a@));
    r
}

/// A copy of a byte vector.
pub fn copy_bytes(b: &Vec<u8>) -> (r: Vec<u8>)
    ensures
        r@ == b@,
{
    let mut r: Vec<u8> = Vec::new();
    let mut i: usize = 0;
    while i < b.len()
        invariant
            i <= b@.len(),
            r@ == b@.subrange(0, i as int),
        decreases b@.len() - i,
    {
        r.push(b[i]);
        i = i + 1;
    }
    r
}

impl Value {
    /// A deep copy of the value.
    pub fn duplicate(&self) -> (r: Value)
        ensures
            r@ == self@,
        decreases self,
    {
        match self {
            Value::Nil => Value::Nil,
            Value::Boolean(b) => Value::Boolean(*b),
            Value::Integer(i) => Value::Integer(*i),
            Value::F32(b) => Value::F32(*b),
            Value::F64(b) => Value::F64(*b),
            Value::String(s) => Value::String(s.duplicate()),
            Value::Binary(b) => Value::Binary(copy_bytes(b)),
            Value::Array(a) => {
                let mut r: Vec<Value> = Vec::new();
                let mut i: usize = 0;
                while i < a.len()
                    invariant
                        i <= a@.len(),
                        *self == Value::Array(*a),
                        r@.len() == i,
                        forall|j: int| 0 <= j < i ==> (#[trigger] r@[j])@ == a@[j]@,
                    decreases a@.len() - i,
                {
                    proof {
                        assert(decreases_to!(*self => self->Array_0));
                        assert(decreases_to!(*a => a@[i as int]));
                    }
                    let x = a[i].duplicate();
                    r.push(x);
                    i = i + 1;
                }
                let out = Value::Array(r);
                proof {
                    lemma_array_view(r);
                    lemma_array_view(*a);
                    assert(values_view(r@) =~= values_view(a@));
                }
                out
            },
            Value::Mapping(m) => {
                let mut r: Vec<(Value, Value)> = Vec::new();
                let mut i: usize = 0;
                while i < m.len()
                    invariant
                        i <= m@.len(),
                        *self == Value::Mapping(*m),
                        r@.len() == i,
                        forall|j: int|
                            0 <= j < i ==> (#[trigger] r@[j]).0@ == m@[j].0@ && r@[j].1@ == m@[j].1@,
                    decreases m@.len() - i,
                {
                    proof {
                        assert(decreases_to!(*self => self->Mapping_0));
                        assert(decreases_to!(*m => m@[i as int]));
                        assert(decreases_to!(m@[i as int] => m@[i as int].0));
                        assert(decreases_to!(m@[i as int] => m@[i as int].1));
                    }
                    let k = m[i].0.duplicate();
                    let v = m[i].1.duplicate();
                    r.push((k, v));
                    i = i + 1;
                }
                let out = Value::Mapping(r);
                proof {
                    lemma_mapping_view(r);
                    lemma_mapping_view(*m);
                    assert(pairs_view(r@) =~= pairs_view(m@));
                }
                out
            },
            Value::Ext(t, d) => Value::Ext(*t, copy_bytes(d)),
        }
    }
}

/// Whether the bits of a 32-bit float are those of a NaN: all exponent bits set, and a mantissa
/// that is not zero.
pub open spec fn f32_bits_nan(b: u32) -> bool {
    (b & 0x7f80_0000) == 0x7f80_0000 && (b & 0x007f_ffff) != 0
}

/// Whether two 32-bit floats, by their bits, are equal as IEEE-754 compares them: neither is a
/// NaN, and their bits are the same or both are zeros.
pub open spec fn f32_bits_eq(a: u32, b: u32) -> bool {
    !f32_bits_nan(a) && !f32_bits_nan(b) && (a == b || (a | b) & 0x7fff_ffff == 0)
}

/// Whether the bits of a 64-bit float are those of a NaN.
pub open spec fn f64_bits_nan(b: u64) -> bool {
    (b & 0x7ff0_0000_0000_0000) == 0x7ff0_0000_0000_0000 && (b & 0x000f_ffff_ffff_ffff) != 0
}

/// Whether two 64-bit floats, by their bits, are equal as IEEE-754 compares them.
pub open spec fn f64_bits_eq(a: u64, b: u64) -> bool {
    !f64_bits_nan(a) && !f64_bits_nan(b) && (a == b || (a | b) & 0x7fff_ffff_ffff_ffff == 0)
}

/// Whether two values are equal: the same kind of value with equal contents, where floats are
/// compared as numbers.
pub open spec fn spec_value_eq(a: SpecValue, b: SpecValue) -> bool
    decreases a,
{
    match a {
        SpecValue::Nil => b is Nil,
        SpecValue::Boolean(x) => b matches SpecValue::Boolean(y) && x == y,
        SpecValue::Integer(x) => b matches SpecValue::Integer(y) && x == y,
        SpecValue::F32(x) => b matches SpecValue::F32(y) && f32_bits_eq(x, y),
        SpecValue::F64(x) => b matches SpecValue::F64(y) && f64_bits_eq(x, y),
        SpecValue::String(x) => b matches SpecValue::String(y) && x == y,
        SpecValue::Binary(x) => b matches SpecValue::Binary(y) && x == y,
        SpecValue::Array(x) => match b {
            SpecValue::Array(y) => x.len() == y.len() && forall|i: int|
                0 <= i < x.len() ==> spec_value_eq(#[trigger] x[i], y[i]),
            _ => false,
        },
        SpecValue::Mapping(x) => match b {
            SpecValue::Mapping(y) => x.len() == y.len() && forall|i: int|
                0 <= i < x.len() ==> spec_value_eq(#[trigger] x[i].0, y[i].0) && spec_value_eq(
                    x[i].1,
                    y[i].1,
                ),
            _ => false,
        },
        SpecValue::Ext(t, d) => b matches SpecValue::Ext(u, e) && t == u && d == e,
    }
}

/// Whether a value holds no float anywhere inside it.
pub open spec fn float_free(v: SpecValue) -> bool
    decreases v,
{
    match v {
        SpecValue::F32(_) => false,
        SpecValue::F64(_) => false,
        SpecValue::Array(a) => forall|i: int| 0 <= i < a.len() ==> float_free(#[trigger] a[i]),
        SpecValue::Mapping(m) => forall|i: int|
            0 <= i < m.len() ==> float_free(#[trigger] m[i].0) && float_free(m[i].1),
        _ => true,
    }
}

/// For a value without floats, equality is sameness: it equals exactly the value that has the
/// same kind and the same contents, item by item, every key and every value of a map included.
pub proof fn lemma_value_eq_is_sameness(a: SpecValue, b: SpecValue)
    requires
        float_free(a),
    ensures
        spec_value_eq(a, b) <==> a == b,
    decreases a,
{
    match a {
        SpecValue::Array(x) => match b {
            SpecValue::Array(y) => {
                assert forall|i: int| 0 <= i < x.len() && i < y.len() implies (spec_value_eq(
                    #[trigger] x[i],
                    y[i],
                ) <==> x[i] == y[i]) by {
                    assert(float_free(x[i]));
                    lemma_value_eq_is_sameness(x[i], y[i]);
                }
                if spec_value_eq(a, b) {
                    assert(x =~= y);
                }
            },
            _ => {},
        },
        SpecValue::Mapping(x) => match b {
            SpecValue::Mapping(y) => {
                assert forall|i: int| 0 <= i < x.len() && i < y.len() implies ((spec_value_eq(
                    #[trigger] x[i].0,
                    y[i].0,
                ) && spec_value_eq(x[i].1, y[i].1)) <==> x[i] == y[i]) by {
                    assert(float_free(x[i].0) && float_free(x[i].1));
                    lemma_value_eq_is_sameness(x[i].0, y[i].0);
                    lemma_value_eq_is_sameness(x[i].1, y[i].1);
                }
                if spec_value_eq(a, b) {
                    assert forall|i: int| 0 <= i < x.len() implies #[trigger] x[i] == y[i] by {
                        assert(spec_value_eq(x[i].0, y[i].0) && spec_value_eq(x[i].1, y[i].1));
                    }
                    assert(x =~= y);
                }
            },
            _ => {},
        },
        _ => {},
    }
}

/// Two maps are equal only where, position by position, both their keys and their values are.
pub proof fn lemma_equal_maps_have_equal_entries(x: Seq<(SpecValue, SpecValue)>, y: Seq<(SpecValue, SpecValue)>)
    requires
        spec_value_eq(SpecValue::Mapping(x), SpecValue::Mapping(y)),
    ensures
        x.len() == y.len(),
        forall|i: int|
            0 <= i < x.len() ==> spec_value_eq(#[trigger] x[i].0, y[i].0) && spec_value_eq(
                x[i].1,
                y[i].1,
            ),
{
}

/// Equality of values is symmetric.
pub proof fn lemma_value_eq_symmetric(a: SpecValue, b: SpecValue)
    ensures
        spec_value_eq(a, b) == spec_value_eq(b, a),
    decreases a,
{
    match a {
        SpecValue::Array(x) => match b {
            SpecValue::Array(y) => {
                assert forall|i: int|
                    #![trigger x[i]]
                    #![trigger y[i]]
                    0 <= i < x.len() && i < y.len() implies spec_value_eq(x[i], y[i])
                        == spec_value_eq(y[i], x[i]) by {
                    lemma_value_eq_symmetric(x[i], y[i]);
                }
            },
            _ => {},
        },
        SpecValue::Mapping(x) => match b {
            SpecValue::Mapping(y) => {
                assert forall|i: int|
                    #![trigger x[i].0]
                    #![trigger y[i].0]
                    0 <= i < x.len() && i < y.len() implies spec_value_eq(x[i].0, y[i].0)
                        == spec_value_eq(y[i].0, x[i].0) && spec_value_eq(x[i].1, y[i].1)
                        == spec_value_eq(y[i].1, x[i].1) by {
                    lemma_value_eq_symmetric(x[i].0, y[i].0);
                    lemma_value_eq_symmetric(x[i].1, y[i].1);
                }
            },
            _ => {},
        },
        SpecValue::F32(x) => if let SpecValue::F32(y) = b {
            assert(x | y == y | x) by (bit_vector);
        },
        SpecValue::F64(x) => if let SpecValue::F64(y) = b {
            assert(x | y == y | x) by (bit_vector);
        },
        _ => {},
    }
}

/// Whether two 32-bit floats, by their bits, are equal as numbers.
fn f32_bits_equal(a: u32, b: u32) -> (r: bool)
    ensures
        r == f32_bits_eq(a, b),
{
    let a_nan = (a & 0x7f80_0000) == 0x7f80_0000 && (a & 0x007f_ffff) != 0;
    let b_nan = (b & 0x7f80_0000) == 0x7f80_0000 && (b & 0x007f_ffff) != 0;
    !a_nan && !b_nan && (a == b || (a | b) & 0x7fff_ffff == 0)
}

/// Whether two 64-bit floats, by their bits, are equal as numbers.
fn f64_bits_equal(a: u64, b: u64) -> (r: bool)
    ensures
        r == f64_bits_eq(a, b),
{
    let a_nan = (a & 0x7ff0_0000_0000_0000) == 0x7ff0_0000_0000_0000 && (a & 0x000f_ffff_ffff_ffff)
        != 0;
    let b_nan = (b & 0x7ff0_0000_0000_0000) == 0x7ff0_0000_0000_0000 && (b & 0x000f_ffff_ffff_ffff)
        != 0;
    !a_nan && !b_nan && (a == b || (a | b) & 0x7fff_ffff_ffff_ffff == 0)
}

/// Whether two byte vectors hold the same bytes.
fn bytes_equal(a: &Vec<u8>, b: &Vec<u8>) -> (r: bool)
    ensures
        r == (a@ == b@),
{
    if a.len() != b.len() {
        return false;
    }
    let mut i: usize = 0;
    while i < a.len()
        invariant
            i <= a@.len(),
            a@.len() == b@.len(),
            a@.subrange(0, i as int) == b@.subrange(0, i as int),
        decreases a@.len() - i,
    {
        if a[i] != b[i] {
            assert(a@.subrange(0, i + 1)[i as int] != b@.subrange(0, i + 1)[i as int]);
            return false;
        }
        assert(a@.subrange(0, i + 1) =~= a@.subrange(0, i as int).push(a@[i as int]));
        assert(b@.subrange(0, i + 1) =~= b@.subrange(0, i as int).push(b@[i as int]));
        i = i + 1;
    }
    assert(a@ =~= a@.subrange(0, a@.len() as int));
    assert(b@ =~= b@.subrange(0, b@.len() as int));
    true
}

/// Whether two strings are equal: the same text, or the same bytes of invalid UTF-8.
fn strings_equal(a: &Utf8String, b: &Utf8String) -> (r: bool)
    ensures
        r == (a@ == b@),
{
    match (&a.s, &b.s) {
        (Ok(x), Ok(y)) => *x == *y,
        (Err(x), Err(y)) => bytes_equal(x, y),
        _ => false,
    }
}

/// Whether two integers stand for the same number.
fn integers_equal(a: &Integer, b: &Integer) -> (r: bool)
    ensures
        r == (a@ == b@),
{
    proof {
        use_type_invariant(a);
        use_type_invariant(b);
    }
    match (a.n, b.n) {
        (IntPriv::PosInt(x), IntPriv::PosInt(y)) => x == y,
        (IntPriv::NegInt(x), IntPriv::NegInt(y)) => x == y,
        _ => false,
    }
}

/// Whether two values are equal, floats compared as numbers.
pub fn values_equal(a: &Value, b: &Value) -> (r: bool)
    ensures
        r == spec_value_eq(a@, b@),
    decreases a,
{
    match a {
        Value::Nil => match b {
            Value::Nil => true,
            _ => false,
        },
        Value::Boolean(x) => match b {
            Value::Boolean(y) => *x == *y,
            _ => false,
        },
        Value::Integer(x) => match b {
            Value::Integer(y) => integers_equal(x, y),
            _ => false,
        },
        Value::F32(x) => match b {
            Value::F32(y) => f32_bits_equal(*x, *y),
            _ => false,
        },
        Value::F64(x) => match b {
            Value::F64(y) => f64_bits_equal(*x, *y),
            _ => false,
        },
        Value::String(x) => match b {
            Value::String(y) => strings_equal(x, y),
            _ => false,
        },
        Value::Binary(x) => match b {
            Value::Binary(y) => bytes_equal(x, y),
            _ => false,
        },
        Value::Ext(t, d) => match b {
            Value::Ext(u, e) => *t == *u && bytes_equal(d, e),
            _ => false,
        },
        Value::Array(x) => match b {
            Value::Array(y) => {
                proof {
                    lemma_array_view(*x);
                    lemma_array_view(*y);
                }
                if x.len() != y.len() {
                    return false;
                }
                let mut i: usize = 0;
                while i < x.len()
                    invariant
                        i <= x@.len(),
                        x@.len() == y@.len(),
                        *a == Value::Array(*x),
                        a@ == SpecValue::Array(values_view(x@)),
                        b@ == SpecValue::Array(values_view(y@)),
                        forall|j: int| 0 <= j < i ==> spec_value_eq(#[trigger] x@[j]@, y@[j]@),
                    decreases x@.len() - i,
                {
                    proof {
                        assert(decreases_to!(*a => a->Array_0));
                        assert(decreases_to!(*x => x@[i as int]));
                    }
                    if !values_equal(&x[i], &y[i]) {
                        assert(values_view(x@)[i as int] == x@[i as int]@);
                        return false;
                    }
                    i = i + 1;
                }
                assert forall|j: int| 0 <= j < x@.len() implies spec_value_eq(
                    #[trigger] values_view(x@)[j],
                    values_view(y@)[j],
                ) by {
                    assert(spec_value_eq(x@[j]@, y@[j]@));
                }
                true
            },
            _ => false,
        },
        Value::Mapping(x) => match b {
            Value::Mapping(y) => {
                proof {
                    lemma_mapping_view(*x);
                    lemma_mapping_view(*y);
                }
                if x.len() != y.len() {
                    return false;
                }
                let mut i: usize = 0;
                while i < x.len()
                    invariant
                        i <= x@.len(),
                        x@.len() == y@.len(),
                        *a == Value::Mapping(*x),
                        a@ == SpecValue::Mapping(pairs_view(x@)),
                        b@ == SpecValue::Mapping(pairs_view(y@)),
                        forall|j: int|
                            #![trigger x@[j]]
                            0 <= j < i ==> spec_value_eq(x@[j].0@, y@[j].0@) && spec_value_eq(
                                x@[j].1@,
                                y@[j].1@,
                            ),
                    decreases x@.len() - i,
                {
                    proof {
                        assert(decreases_to!(*a => a->Mapping_0));
                        assert(decreases_to!(*x => x@[i as int]));
                        assert(decreases_to!(x@[i as int] => x@[i as int].0));
                        assert(decreases_to!(x@[i as int] => x@[i as int].1));
                    }
                    let same_key = values_equal(&x[i].0, &y[i].0);
                    if !same_key {
                        assert(pairs_view(x@)[i as int] == (x@[i as int].0@, x@[i as int].1@));
                        assert(pairs_view(y@)[i as int] == (y@[i as int].0@, y@[i as int].1@));
                        assert(pairs_view(x@)[i as int].0 == x@[i as int].0@);
                        return false;
                    }
                    let same_value = values_equal(&x[i].1, &y[i].1);
                    if !same_value {
                        assert(pairs_view(x@)[i as int] == (x@[i as int].0@, x@[i as int].1@));
                        assert(pairs_view(y@)[i as int] == (y@[i as int].0@, y@[i as int].1@));
                        assert(pairs_view(x@)[i as int].0 == x@[i as int].0@);
                        return false;
                    }
                    assert(spec_value_eq(x@[i as int].0@, y@[i as int].0@));
                    assert(spec_value_eq(x@[i as int].1@, y@[i as int].1@));
                    i = i + 1;
                }
                assert forall|j: int| 0 <= j < x@.len() implies spec_value_eq(
                    #[trigger] pairs_view(x@)[j].0,
                    pairs_view(y@)[j].0,
                ) && spec_value_eq(pairs_view(x@)[j].1, pairs_view(y@)[j].1) by {
                    assert(x@[j] == x@[j]);
                }
                true
            },
            _ => false,
        },
    }
}

impl PartialEq for Value {
    fn eq(&self, other: &Self) -> (r: bool) {
        values_equal(self, other)
    }
}

impl vstd::std_specs::cmp::PartialEqSpecImpl for Value {
    open spec fn obeys_eq_spec() -> bool {
        true
    }

    open spec fn eq_spec(&self, other: &Value) -> bool {
        spec_value_eq(self@, other@)
    }
}

impl Clone for Value {
    fn clone(&self) -> (r: Self)
        ensures
            r@ == self@,
    {
        self.duplicate()
    }
}

} // verus!
