//! Reading the store's data from rows.

use crate::convert::{copy_bytes, fits_bigint, fits_integer, key_bytes, script_bytes, to_array};
use crate::error::DbError;
use crate::model::{DkgSharesStatus, PublicKey, ScriptPubKey};
use crate::value::{bytes_of, Column, Datum, PgEnum, Row, Value};
use vstd::prelude::*;

verus! {

/// Data that is read from the rows of a result.
pub trait FromRow: Sized {
    /// The columns that are read.
    spec fn spec_columns() -> Seq<Column>;

    /// Whether a row holds such data.
    spec fn is_row(row: Seq<Datum>) -> bool;

    /// The row that holds this data.
    spec fn row(&self) -> Seq<Datum>;

    /// Whether the numbers in the data fit into their columns.
    spec fn storable(&self) -> bool;

    /// Data that fits into its columns is read back from the row that holds it.
    proof fn row_is_row(&self)
        requires
            self.storable(),
        ensures
            Self::is_row(self.row()),
    ;

    /// The columns that are read.
    fn columns() -> (columns: Vec<Column>)
        ensures
            columns@ == Self::spec_columns(),
    ;

    /// Reads a row.
    fn from_row(row: &Row) -> (result: Result<Self, DbError>)
        ensures
            (match result {
                Ok(item) => Self::is_row(row@) && item.row() == row@ && item.storable(),
                Err(error) => !Self::is_row(row@) && error == DbError::ColumnDecode,
            }),
    ;
}

/// Whether all data in a list fits into its columns.
pub open spec fn all_storable<T: FromRow>(items: Seq<T>) -> bool {
    forall|i: int| 0 <= i < items.len() ==> (#[trigger] items[i]).storable()
}

/// The bytes of a byte string.
pub open spec fn as_bytes(datum: Datum) -> Seq<u8> {
    datum->Bytes_0
}

/// The number in a `BIGINT`.
pub open spec fn as_int8(datum: Datum) -> int {
    datum->Int8_0
}

/// The number in an `INTEGER`.
pub open spec fn as_int4(datum: Datum) -> int {
    datum->Int4_0
}

/// The value of a flag.
pub open spec fn as_bool(datum: Datum) -> bool {
    datum->Bool_0
}

/// The value of a flag that may be missing.
pub open spec fn as_optional_bool(datum: Datum) -> Option<bool> {
    match datum {
        Datum::Bool(flag) => Some(flag),
        _ => None,
    }
}

/// The datum is a byte string of the given length.
pub open spec fn is_bytes(datum: Datum, len: nat) -> bool {
    datum matches Datum::Bytes(bytes) && bytes.len() == len
}

/// The datum is an `INTEGER` that is not negative.
pub open spec fn is_uint4(datum: Datum) -> bool {
    datum matches Datum::Int4(n) && fits_integer(n)
}

/// The datum is an `INTEGER` in the range of `u16`.
pub open spec fn is_u16(datum: Datum) -> bool {
    datum matches Datum::Int4(n) && 0 <= n <= u16::MAX
}

/// The datum is a `BIGINT`.
pub open spec fn is_int8(datum: Datum) -> bool {
    datum matches Datum::Int8(n) && i64::MIN <= n <= i64::MAX
}

/// The datum is a `BIGINT` that is not negative.
pub open spec fn is_uint8(datum: Datum) -> bool {
    datum matches Datum::Int8(n) && fits_bigint(n)
}

/// The datum is a `BIGINT` in the range of `u32`.
pub open spec fn is_u32(datum: Datum) -> bool {
    datum matches Datum::Int8(n) && 0 <= n <= u32::MAX
}

/// The datum is a list of compressed public keys.
pub open spec fn is_keys(datum: Datum) -> bool {
    datum matches Datum::BytesArray(keys) && (forall|i: int|
        0 <= i < keys.len() ==> (#[trigger] keys[i]).len() == 33)
}

/// The datum is a label of a status.
pub open spec fn is_status(datum: Datum) -> bool {
    datum matches Datum::Label(PgEnum::DkgSharesStatus, label) && DkgSharesStatus::is_label(label)
}

/// The datum of a flag that may be missing.
pub open spec fn optional_bool(flag: Option<bool>) -> Datum {
    match flag {
        Some(flag) => Datum::Bool(flag),
        None => Datum::Null,
    }
}

/// Reads a byte string of fixed length.
pub fn read_array<const N: usize>(row: &Row, i: usize) -> (result: Option<[u8; N]>)
    requires
        i < row@.len(),
    ensures
        (match result {
            Some(array) => row@[i as int] == Datum::Bytes(array@) && array@.len() == N,
            None => !is_bytes(row@[i as int], N as nat),
        }),
{
    match &row.values[i] {
        Value::Bytes(bytes) => to_array(bytes),
        _ => None,
    }
}

/// Reads a byte string of any length.
pub fn read_bytes(row: &Row, i: usize) -> (result: Option<Vec<u8>>)
    requires
        i < row@.len(),
    ensures
        (match result {
            Some(bytes) => row@[i as int] == Datum::Bytes(bytes@),
            None => !(row@[i as int] is Bytes),
        }),
{
    match &row.values[i] {
        Value::Bytes(bytes) => Some(copy_bytes(bytes)),
        _ => None,
    }
}

/// Reads a text.
pub fn read_text(row: &Row, i: usize) -> (result: Option<String>)
    requires
        i < row@.len(),
    ensures
        (match result {
            Some(text) => row@[i as int] == Datum::Text(text@),
            None => !(row@[i as int] is Text),
        }),
{
    match &row.values[i] {
        Value::Text(text) => Some(text.clone()),
        _ => None,
    }
}

/// Reads a flag.
pub fn read_bool(row: &Row, i: usize) -> (result: Option<bool>)
    requires
        i < row@.len(),
    ensures
        (match result {
            Some(flag) => row@[i as int] == Datum::Bool(flag),
            None => !(row@[i as int] is Bool),
        }),
{
    match &row.values[i] {
        Value::Bool(flag) => Some(*flag),
        _ => None,
    }
}

/// Reads a flag that may be missing.
pub fn read_optional_bool(row: &Row, i: usize) -> (result: Option<Option<bool>>)
    requires
        i < row@.len(),
    ensures
        (match result {
            Some(flag) => row@[i as int] == optional_bool(flag),
            None => !(row@[i as int] is Bool || row@[i as int] is Null),
        }),
{
    match &row.values[i] {
        Value::Bool(flag) => Some(Some(*flag)),
        Value::Null => Some(None),
        _ => None,
    }
}

/// Reads an `INTEGER` as an unsigned number.
pub fn read_uint4(row: &Row, i: usize) -> (result: Option<u32>)
    requires
        i < row@.len(),
    ensures
        (match result {
            Some(number) => row@[i as int] == Datum::Int4(number as int) && fits_integer(
                number as int,
            ),
            None => !is_uint4(row@[i as int]),
        }),
{
    match &row.values[i] {
        Value::Int4(number) => if *number >= 0 {
            Some(*number as u32)
        } else {
            None
        },
        _ => None,
    }
}

/// Reads an `INTEGER` in the range of `u16`.
pub fn read_u16(row: &Row, i: usize) -> (result: Option<u16>)
    requires
        i < row@.len(),
    ensures
        (match result {
            Some(number) => row@[i as int] == Datum::Int4(number as int),
            None => !is_u16(row@[i as int]),
        }),
{
    match &row.values[i] {
        Value::Int4(number) => if 0 <= *number && *number <= 65535 {
            Some(*number as u16)
        } else {
            None
        },
        _ => None,
    }
}

/// Reads a `BIGINT`.
pub fn read_int8(row: &Row, i: usize) -> (result: Option<i64>)
    requires
        i < row@.len(),
    ensures
        (match result {
            Some(number) => row@[i as int] == Datum::Int8(number as int),
            None => !is_int8(row@[i as int]),
        }),
{
    match &row.values[i] {
        Value::Int8(number) => Some(*number),
        _ => None,
    }
}

/// Reads a `BIGINT` as an unsigned number.
pub fn read_uint8(row: &Row, i: usize) -> (result: Option<u64>)
    requires
        i < row@.len(),
    ensures
        (match result {
            Some(number) => row@[i as int] == Datum::Int8(number as int) && fits_bigint(
                number as int,
            ),
            None => !is_uint8(row@[i as int]),
        }),
{
    match &row.values[i] {
        Value::Int8(number) => if *number >= 0 {
            Some(*number as u64)
        } else {
            None
        },
        _ => None,
    }
}

/// Reads a `BIGINT` in the range of `u32`.
pub fn read_u32(row: &Row, i: usize) -> (result: Option<u32>)
    requires
        i < row@.len(),
    ensures
        (match result {
            Some(number) => row@[i as int] == Datum::Int8(number as int),
            None => !is_u32(row@[i as int]),
        }),
{
    match &row.values[i] {
        Value::Int8(number) => if 0 <= *number && *number <= 4294967295 {
            Some(*number as u32)
        } else {
            None
        },
        _ => None,
    }
}

/// Reads the label of a status.
pub fn read_status(row: &Row, i: usize) -> (result: Option<DkgSharesStatus>)
    requires
        i < row@.len(),
    ensures
        (match result {
            Some(status) => row@[i as int] == Datum::Label(
                PgEnum::DkgSharesStatus,
                status.spec_label(),
            ),
            None => !is_status(row@[i as int]),
        }),
{
    match &row.values[i] {
        Value::Label(kind, label) => match kind {
            PgEnum::DkgSharesStatus => DkgSharesStatus::from_label(label),
            _ => None,
        },
        _ => None,
    }
}

/// Reads a list of compressed public keys.
pub fn read_keys(row: &Row, i: usize) -> (result: Option<Vec<PublicKey>>)
    requires
        i < row@.len(),
    ensures
        (match result {
            Some(keys) => row@[i as int] == Datum::BytesArray(key_bytes(keys@)),
            None => !is_keys(row@[i as int]),
        }),
{
    match &row.values[i] {
        Value::BytesArray(items) => {
            let mut keys: Vec<PublicKey> = Vec::new();
            let mut j: usize = 0;
            while j < items.len()
                invariant
                    i < row@.len(),
                    row@[i as int] == Datum::BytesArray(bytes_of(items@)),
                    j <= items@.len(),
                    keys@.len() == j,
                    forall|k: int| 0 <= k < j ==> (#[trigger] keys@[k]).0@ == items@[k]@,
                decreases items@.len() - j,
            {
                match to_array(&items[j]) {
                    Some(key) => {
                        keys.push(PublicKey(key));
                    },
                    None => {
                        proof {
                            let all = bytes_of(items@);
                            assert(row@[i as int]->BytesArray_0 == all);
                            assert(row@[i as int]->BytesArray_0[j as int].len() != 33);
                        }
                        return None;
                    },
                }
                j = j + 1;
            }
            assert(key_bytes(keys@) =~= bytes_of(items@));
            Some(keys)
        },
        _ => None,
    }
}

/// Reads a list of scripts.
pub fn read_scripts(row: &Row, i: usize) -> (result: Option<Vec<ScriptPubKey>>)
    requires
        i < row@.len(),
    ensures
        (match result {
            Some(scripts) => row@[i as int] == Datum::BytesArray(script_bytes(scripts@)),
            None => !(row@[i as int] is BytesArray),
        }),
{
    match &row.values[i] {
        Value::BytesArray(items) => {
            let mut scripts: Vec<ScriptPubKey> = Vec::new();
            let mut j: usize = 0;
            while j < items.len()
                invariant
                    j <= items@.len(),
                    scripts@.len() == j,
                    forall|k: int| 0 <= k < j ==> (#[trigger] scripts@[k]).0@ == items@[k]@,
                decreases items@.len() - j,
            {
                scripts.push(ScriptPubKey(copy_bytes(&items[j])));
                j = j + 1;
            }
            assert(script_bytes(scripts@) =~= bytes_of(items@));
            Some(scripts)
        },
        _ => None,
    }
}

} // verus!
