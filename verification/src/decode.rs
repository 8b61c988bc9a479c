//! From a raw cell to its display text.
//!
//! A cell arrives as the name of its column's type and the value that the
//! driver read from it. The name selects a bucket; the value is then read as
//! the type of that bucket and rendered in its canonical form. A value that is
//! absent, that the driver could not decode, or that is not of the bucket's
//! type renders as [`NULL_TEXT`]: no cell ever fails a row.

use crate::text::{chars_of, decimal, occurs, occurs_in, signed_text};
use vstd::prelude::*;

verus! {

/// What stands in place of a value that is absent or could not be read.
pub const NULL_TEXT: &'static str = "NULL";

/// The kinds of column that are decoded each in their own way.
#[derive(Debug, Clone, Copy, PartialEq, Eq, Structural)]
pub enum TypeBucket {
    Int2,
    Int4,
    Int8,
    Float4,
    Float8,
    Bool,
    /// Text, and every type that no other bucket claims.
    Text,
}

/// The bucket of the type named `tag`: the first of `INT2`, `INT4`, `INT8`,
/// `FLOAT4`, `FLOAT8`, `BOOL`, in this order, that occurs in the name, and the
/// text bucket when none does.
pub open spec fn bucket_of(tag: Seq<char>) -> TypeBucket {
    if occurs_in(tag, "INT2"@) {
        TypeBucket::Int2
    } else if occurs_in(tag, "INT4"@) {
        TypeBucket::Int4
    } else if occurs_in(tag, "INT8"@) {
        TypeBucket::Int8
    } else if occurs_in(tag, "FLOAT4"@) {
        TypeBucket::Float4
    } else if occurs_in(tag, "FLOAT8"@) {
        TypeBucket::Float8
    } else if occurs_in(tag, "BOOL"@) {
        TypeBucket::Bool
    } else {
        TypeBucket::Text
    }
}

/// The bucket of the type named `type_tag`.
pub fn classify(type_tag: &str) -> (bucket: TypeBucket)
    ensures
        bucket == bucket_of(type_tag@),
{
    let tag = chars_of(type_tag);
    if occurs(&tag, "INT2") {
        TypeBucket::Int2
    } else if occurs(&tag, "INT4") {
        TypeBucket::Int4
    } else if occurs(&tag, "INT8") {
        TypeBucket::Int8
    } else if occurs(&tag, "FLOAT4") {
        TypeBucket::Float4
    } else if occurs(&tag, "FLOAT8") {
        TypeBucket::Float8
    } else if occurs(&tag, "BOOL") {
        TypeBucket::Bool
    } else {
        TypeBucket::Text
    }
}

/// A type whose values have a canonical text.
pub trait Canonical: Sized {
    /// The canonical text of the value.
    spec fn canonical(&self) -> Seq<char>;

    /// Renders the value.
    fn into_text(self) -> (text: String)
        ensures
            text@ == self.canonical(),
    ;
}

impl Canonical for i16 {
    open spec fn canonical(&self) -> Seq<char> {
        decimal(*self as int)
    }

    fn into_text(self) -> (text: String) {
        signed_text(self as i64)
    }
}

impl Canonical for i32 {
    open spec fn canonical(&self) -> Seq<char> {
        decimal(*self as int)
    }

    fn into_text(self) -> (text: String) {
        signed_text(self as i64)
    }
}

impl Canonical for i64 {
    open spec fn canonical(&self) -> Seq<char> {
        decimal(*self as int)
    }

    fn into_text(self) -> (text: String) {
        signed_text(self)
    }
}

impl Canonical for bool {
    open spec fn canonical(&self) -> Seq<char> {
        if *self {
            "true"@
        } else {
            "false"@
        }
    }

    fn into_text(self) -> (text: String) {
        if self {
            String::from_str("true")
        } else {
            String::from_str("false")
        }
    }
}

impl Canonical for String {
    open spec fn canonical(&self) -> Seq<char> {
        self@
    }

    fn into_text(self) -> (text: String) {
        self
    }
}

/// The display text of the outcome of reading a cell as a `T`: the canonical
/// text of the value when one was read, [`NULL_TEXT`] when the cell was null
/// or the read failed.
pub open spec fn display_text<T: Canonical, E>(outcome: Result<Option<T>, E>) -> Seq<char> {
    match outcome {
        Ok(Some(value)) => value.canonical(),
        _ => NULL_TEXT@,
    }
}

/// Renders the outcome of reading a cell as a `T`. An error is not passed
/// on: it renders as [`NULL_TEXT`], as an absent value does.
pub fn decode_or_null<T: Canonical, E>(outcome: Result<Option<T>, E>) -> (text: String)
    ensures
        text@ == display_text(outcome),
        outcome matches Ok(Some(value)) ==> text@ == value.canonical(),
        outcome matches Ok(None) ==> text@ == NULL_TEXT@,
        outcome is Err ==> text@ == NULL_TEXT@,
{
    match outcome {
        Ok(Some(value)) => value.into_text(),
        _ => String::from_str(NULL_TEXT),
    }
}

/// Why a value could not be read as the type that was asked for.
#[derive(Debug, Clone, Copy, PartialEq, Eq, Structural)]
pub enum DecodeError {
    /// The value is of another type.
    Mismatch,
    /// The driver could not decode the value.
    Failed,
}

/// What the driver read from one cell. A floating-point value is carried as
/// its decimal text.
#[derive(Debug, PartialEq, Eq)]
pub enum RawValue {
    /// SQL NULL.
    Null,
    Int2(i16),
    Int4(i32),
    Int8(i64),
    Float4(String),
    Float8(String),
    Bool(bool),
    Text(String),
    /// The driver could not decode the value.
    Failed,
}

/// Model of a [`RawValue`].
pub enum RawValueModel {
    Null,
    Int2(i16),
    Int4(i32),
    Int8(i64),
    Float4(Seq<char>),
    Float8(Seq<char>),
    Bool(bool),
    Text(Seq<char>),
    Failed,
}

impl View for RawValue {
    type V = RawValueModel;

    open spec fn view(&self) -> RawValueModel {
        match *self {
            RawValue::Null => RawValueModel::Null,
            RawValue::Int2(v) => RawValueModel::Int2(v),
            RawValue::Int4(v) => RawValueModel::Int4(v),
            RawValue::Int8(v) => RawValueModel::Int8(v),
            RawValue::Float4(t) => RawValueModel::Float4(t@),
            RawValue::Float8(t) => RawValueModel::Float8(t@),
            RawValue::Bool(v) => RawValueModel::Bool(v),
            RawValue::Text(t) => RawValueModel::Text(t@),
            RawValue::Failed => RawValueModel::Failed,
        }
    }
}

impl DeepView for RawValue {
    type V = RawValueModel;

    open spec fn deep_view(&self) -> RawValueModel {
        self@
    }
}

impl Clone for RawValue {
    fn clone(&self) -> (copy: RawValue)
        ensures
            copy@ == self@,
    {
        match self {
            RawValue::Null => RawValue::Null,
            RawValue::Int2(v) => RawValue::Int2(*v),
            RawValue::Int4(v) => RawValue::Int4(*v),
            RawValue::Int8(v) => RawValue::Int8(*v),
            RawValue::Float4(t) => RawValue::Float4(t.clone()),
            RawValue::Float8(t) => RawValue::Float8(t.clone()),
            RawValue::Bool(v) => RawValue::Bool(*v),
            RawValue::Text(t) => RawValue::Text(t.clone()),
            RawValue::Failed => RawValue::Failed,
        }
    }
}

impl RawValueModel {
    /// The bucket of the value's type; none for a null and for a failed read.
    pub open spec fn bucket(self) -> Option<TypeBucket> {
        match self {
            RawValueModel::Null => None,
            RawValueModel::Int2(_) => Some(TypeBucket::Int2),
            RawValueModel::Int4(_) => Some(TypeBucket::Int4),
            RawValueModel::Int8(_) => Some(TypeBucket::Int8),
            RawValueModel::Float4(_) => Some(TypeBucket::Float4),
            RawValueModel::Float8(_) => Some(TypeBucket::Float8),
            RawValueModel::Bool(_) => Some(TypeBucket::Bool),
            RawValueModel::Text(_) => Some(TypeBucket::Text),
            RawValueModel::Failed => None,
        }
    }

    /// The canonical text of the value; [`NULL_TEXT`] where there is none.
    pub open spec fn text(self) -> Seq<char> {
        match self {
            RawValueModel::Null => NULL_TEXT@,
            RawValueModel::Int2(v) => v.canonical(),
            RawValueModel::Int4(v) => v.canonical(),
            RawValueModel::Int8(v) => v.canonical(),
            RawValueModel::Float4(t) => t,
            RawValueModel::Float8(t) => t,
            RawValueModel::Bool(v) => v.canonical(),
            RawValueModel::Text(t) => t,
            RawValueModel::Failed => NULL_TEXT@,
        }
    }

    /// The display text of the value read as a value of `bucket`.
    pub open spec fn text_as(self, bucket: TypeBucket) -> Seq<char> {
        if self.bucket() == Some(bucket) {
            self.text()
        } else {
            NULL_TEXT@
        }
    }

    /// The outcome of reading the value as a type that it does not have:
    /// nothing for a null, an error otherwise.
    pub open spec fn read_other<T>(self) -> Result<Option<T>, DecodeError> {
        match self {
            RawValueModel::Null => Ok(None),
            RawValueModel::Failed => Err(DecodeError::Failed),
            _ => Err(DecodeError::Mismatch),
        }
    }

    /// The outcome of reading the value as a 16-bit integer.
    pub open spec fn read_int2(self) -> Result<Option<i16>, DecodeError> {
        match self {
            RawValueModel::Int2(v) => Ok(Some(v)),
            _ => self.read_other(),
        }
    }

    /// The outcome of reading the value as a 32-bit integer.
    pub open spec fn read_int4(self) -> Result<Option<i32>, DecodeError> {
        match self {
            RawValueModel::Int4(v) => Ok(Some(v)),
            _ => self.read_other(),
        }
    }

    /// The outcome of reading the value as a 64-bit integer.
    pub open spec fn read_int8(self) -> Result<Option<i64>, DecodeError> {
        match self {
            RawValueModel::Int8(v) => Ok(Some(v)),
            _ => self.read_other(),
        }
    }

    /// The outcome of reading the value as a 32-bit float, in its text.
    pub open spec fn read_float4(self) -> Result<Option<Seq<char>>, DecodeError> {
        match self {
            RawValueModel::Float4(t) => Ok(Some(t)),
            _ => self.read_other(),
        }
    }

    /// The outcome of reading the value as a 64-bit float, in its text.
    pub open spec fn read_float8(self) -> Result<Option<Seq<char>>, DecodeError> {
        match self {
            RawValueModel::Float8(t) => Ok(Some(t)),
            _ => self.read_other(),
        }
    }

    /// The outcome of reading the value as a boolean.
    pub open spec fn read_bool(self) -> Result<Option<bool>, DecodeError> {
        match self {
            RawValueModel::Bool(v) => Ok(Some(v)),
            _ => self.read_other(),
        }
    }

    /// The outcome of reading the value as text.
    pub open spec fn read_text(self) -> Result<Option<Seq<char>>, DecodeError> {
        match self {
            RawValueModel::Text(t) => Ok(Some(t)),
            _ => self.read_other(),
        }
    }
}

/// The model of the outcome of reading a text.
pub open spec fn text_outcome(read: Result<Option<String>, DecodeError>) -> Result<
    Option<Seq<char>>,
    DecodeError,
> {
    match read {
        Ok(Some(t)) => Ok(Some(t@)),
        Ok(None) => Ok(None),
        Err(e) => Err(e),
    }
}

impl RawValue {
    /// The outcome of reading the value as a type that it does not have.
    fn as_other<T>(&self) -> (read: Result<Option<T>, DecodeError>)
        ensures
            read == self@.read_other::<T>(),
    {
        match self {
            RawValue::Null => Ok(None),
            RawValue::Failed => Err(DecodeError::Failed),
            _ => Err(DecodeError::Mismatch),
        }
    }

    /// Reads the value as a 16-bit integer.
    pub fn as_int2(&self) -> (read: Result<Option<i16>, DecodeError>)
        ensures
            read == self@.read_int2(),
    {
        match self {
            RawValue::Int2(v) => Ok(Some(*v)),
            _ => self.as_other(),
        }
    }

    /// Reads the value as a 32-bit integer.
    pub fn as_int4(&self) -> (read: Result<Option<i32>, DecodeError>)
        ensures
            read == self@.read_int4(),
    {
        match self {
            RawValue::Int4(v) => Ok(Some(*v)),
            _ => self.as_other(),
        }
    }

    /// Reads the value as a 64-bit integer.
    pub fn as_int8(&self) -> (read: Result<Option<i64>, DecodeError>)
        ensures
            read == self@.read_int8(),
    {
        match self {
            RawValue::Int8(v) => Ok(Some(*v)),
            _ => self.as_other(),
        }
    }

    /// Reads the value as a 32-bit float, in its text.
    pub fn as_float4(&self) -> (read: Result<Option<String>, DecodeError>)
        ensures
            text_outcome(read) == self@.read_float4(),
    {
        match self {
            RawValue::Float4(t) => Ok(Some(t.clone())),
            _ => self.as_other(),
        }
    }

    /// Reads the value as a 64-bit float, in its text.
    pub fn as_float8(&self) -> (read: Result<Option<String>, DecodeError>)
        ensures
            text_outcome(read) == self@.read_float8(),
    {
        match self {
            RawValue::Float8(t) => Ok(Some(t.clone())),
            _ => self.as_other(),
        }
    }

    /// Reads the value as a boolean.
    pub fn as_bool(&self) -> (read: Result<Option<bool>, DecodeError>)
        ensures
            read == self@.read_bool(),
    {
        match self {
            RawValue::Bool(v) => Ok(Some(*v)),
            _ => self.as_other(),
        }
    }

    /// Reads the value as text.
    pub fn as_text(&self) -> (read: Result<Option<String>, DecodeError>)
        ensures
            text_outcome(read) == self@.read_text(),
    {
        match self {
            RawValue::Text(t) => Ok(Some(t.clone())),
            _ => self.as_other(),
        }
    }
}

/// One cell as it comes from the driver: the name of the column's type and
/// the value read.
#[derive(Debug, PartialEq, Eq)]
pub struct RawCell {
    pub type_tag: String,
    pub value: RawValue,
}

/// Model of a [`RawCell`].
pub struct RawCellModel {
    pub type_tag: Seq<char>,
    pub value: RawValueModel,
}

impl View for RawCell {
    type V = RawCellModel;

    open spec fn view(&self) -> RawCellModel {
        RawCellModel { type_tag: self.type_tag@, value: self.value@ }
    }
}

impl DeepView for RawCell {
    type V = RawCellModel;

    open spec fn deep_view(&self) -> RawCellModel {
        self@
    }
}

impl Clone for RawCell {
    fn clone(&self) -> (copy: RawCell)
        ensures
            copy@ == self@,
    {
        RawCell { type_tag: self.type_tag.clone(), value: self.value.clone() }
    }
}

/// The display text of a cell: the text of its value, read as the bucket
/// that the name of its type selects.
pub open spec fn cell_text(cell: RawCellModel) -> Seq<char> {
    cell.value.text_as(bucket_of(cell.type_tag))
}

/// Renders one cell.
pub fn row_value_to_string(cell: &RawCell) -> (text: String)
    ensures
        text@ == cell_text(cell@),
{
    match classify(cell.type_tag.as_str()) {
        TypeBucket::Int2 => decode_or_null(cell.value.as_int2()),
        TypeBucket::Int4 => decode_or_null(cell.value.as_int4()),
        TypeBucket::Int8 => decode_or_null(cell.value.as_int8()),
        TypeBucket::Float4 => decode_or_null(cell.value.as_float4()),
        TypeBucket::Float8 => decode_or_null(cell.value.as_float8()),
        TypeBucket::Bool => decode_or_null(cell.value.as_bool()),
        TypeBucket::Text => decode_or_null(cell.value.as_text()),
    }
}

/// A cell shows the canonical text of its value when the value is of the type
/// that the name of the cell's type selects. In every other case, a null, a
/// value that the driver could not decode, a value of another type, it shows
/// [`NULL_TEXT`].
pub proof fn lemma_cell_text_cases(cell: RawCellModel)
    ensures
        cell.value.bucket() == Some(bucket_of(cell.type_tag)) ==> cell_text(cell)
            == cell.value.text(),
        cell.value.bucket() != Some(bucket_of(cell.type_tag)) ==> cell_text(cell) == NULL_TEXT@,
        cell.value is Null ==> cell_text(cell) == NULL_TEXT@,
        cell.value is Failed ==> cell_text(cell) == NULL_TEXT@,
{
}

} // verus!
