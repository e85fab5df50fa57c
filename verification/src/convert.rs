//! Conversions between the store's data and the values of the database.

use crate::error::StoreError;
use crate::model::{PublicKey, PublicKeyXOnly, ScriptPubKey};
use crate::value::bytes_of;
use vstd::prelude::*;

verus! {

/// Whether a number that is not negative fits into a `BIGINT` column.
pub open spec fn fits_bigint(value: int) -> bool {
    0 <= value <= i64::MAX
}

/// Whether a number that is not negative fits into an `INTEGER` column.
pub open spec fn fits_integer(value: int) -> bool {
    0 <= value <= i32::MAX
}

/// The difference of two numbers, or zero where it would be negative.
pub open spec fn saturating_sub(a: int, b: int) -> int {
    if a >= b {
        a - b
    } else {
        0
    }
}

/// The number as a `BIGINT`.
pub fn to_bigint(value: u64) -> (result: Result<i64, StoreError>)
    ensures
        (match result {
            Ok(number) => fits_bigint(value as int) && number == value,
            Err(error) => !fits_bigint(value as int) && error == StoreError::ConversionDatabaseInt,
        }),
{
    if value <= i64::MAX as u64 {
        Ok(value as i64)
    } else {
        Err(StoreError::ConversionDatabaseInt)
    }
}

/// The number as an `INTEGER`.
pub fn to_integer(value: u32) -> (result: Result<i32, StoreError>)
    ensures
        (match result {
            Ok(number) => fits_integer(value as int) && number == value,
            Err(error) => !fits_integer(value as int) && error == StoreError::ConversionDatabaseInt,
        }),
{
    if value <= i32::MAX as u32 {
        Ok(value as i32)
    } else {
        Err(StoreError::ConversionDatabaseInt)
    }
}

/// One more than the sum of two numbers, as an `INTEGER`.
pub fn to_integer_after(a: u64, b: u16) -> (result: Result<i32, StoreError>)
    ensures
        (match result {
            Ok(number) => fits_integer(a + b + 1) && number == a + b + 1,
            Err(error) => !fits_integer(a + b + 1) && error == StoreError::ConversionDatabaseInt,
        }),
{
    if a < i32::MAX as u64 - b as u64 {
        Ok((a + b as u64 + 1) as i32)
    } else {
        Err(StoreError::ConversionDatabaseInt)
    }
}

/// The bytes of an array.
pub fn to_bytes<const N: usize>(array: &[u8; N]) -> (bytes: Vec<u8>)
    ensures
        bytes@ == array@,
{
    vstd::slice::slice_to_vec(array.as_slice())
}

/// The array of `N` bytes, if there are that many.
pub fn to_array<const N: usize>(bytes: &Vec<u8>) -> (array: Option<[u8; N]>)
    ensures
        (match array {
            Some(array) => array@ == bytes@,
            None => bytes@.len() != N,
        }),
{
    if bytes.len() != N {
        return None;
    }
    let mut array: [u8; N] = [0u8;N];
    let mut i: usize = 0;
    while i < N
        invariant
            bytes@.len() == N,
            i <= N,
            forall|j: int| 0 <= j < i ==> array@[j] == bytes@[j],
        decreases N - i,
    {
        array[i] = bytes[i];
        i = i + 1;
    }
    assert(array@ =~= bytes@);
    Some(array)
}

/// A copy of a byte string.
pub fn copy_bytes(bytes: &Vec<u8>) -> (copy: Vec<u8>)
    ensures
        copy@ == bytes@,
{
    vstd::slice::slice_to_vec(bytes.as_slice())
}

/// The bytes of public keys.
pub open spec fn key_bytes(keys: Seq<PublicKey>) -> Seq<Seq<u8>> {
    keys.map_values(|key: PublicKey| key.0@)
}

/// The bytes of scripts.
pub open spec fn script_bytes(scripts: Seq<ScriptPubKey>) -> Seq<Seq<u8>> {
    scripts.map_values(|script: ScriptPubKey| script.0@)
}

/// The bytes of public keys.
pub fn keys_to_bytes(keys: &Vec<PublicKey>) -> (bytes: Vec<Vec<u8>>)
    ensures
        bytes_of(bytes@) == key_bytes(keys@),
{
    let mut bytes: Vec<Vec<u8>> = Vec::new();
    let mut i: usize = 0;
    while i < keys.len()
        invariant
            i <= keys@.len(),
            bytes@.len() == i,
            forall|j: int| 0 <= j < i ==> #[trigger] bytes@[j]@ == keys@[j].0@,
        decreases keys@.len() - i,
    {
        bytes.push(to_bytes(&keys[i].0));
        i = i + 1;
    }
    assert(bytes_of(bytes@) =~= key_bytes(keys@));
    bytes
}

/// The bytes of scripts.
pub fn scripts_to_bytes(scripts: &Vec<ScriptPubKey>) -> (bytes: Vec<Vec<u8>>)
    ensures
        bytes_of(bytes@) == script_bytes(scripts@),
{
    let mut bytes: Vec<Vec<u8>> = Vec::new();
    let mut i: usize = 0;
    while i < scripts.len()
        invariant
            i <= scripts@.len(),
            bytes@.len() == i,
            forall|j: int| 0 <= j < i ==> #[trigger] bytes@[j]@ == scripts@[j].0@,
        decreases scripts@.len() - i,
    {
        bytes.push(copy_bytes(&scripts[i].0));
        i = i + 1;
    }
    assert(bytes_of(bytes@) =~= script_bytes(scripts@));
    bytes
}

/// The x-coordinate of a compressed public key: all but its parity byte.
pub open spec fn x_only(key: Seq<u8>) -> Seq<u8> {
    key.skip(1)
}

impl PublicKey {
    /// The key without its parity byte.
    pub fn x_only(&self) -> (key: PublicKeyXOnly)
        ensures
            key.0@ == x_only(self.0@),
    {
        let mut array: [u8; 32] = [0u8;32];
        let mut i: usize = 0;
        while i < 32
            invariant
                i <= 32,
                forall|j: int| 0 <= j < i ==> array@[j] == self.0@[j + 1],
            decreases 32 - i,
        {
            array[i] = self.0[i + 1];
            i = i + 1;
        }
        assert(array@ =~= x_only(self.0@));
        PublicKeyXOnly(array)
    }
}

/// A relative lock time.
#[derive(Debug, Clone, Copy, PartialEq, Eq)]
pub enum LockTime {
    /// A number of blocks.
    Blocks(u16),
    /// A number of intervals of 512 seconds.
    Time(u16),
}

/// The lock time that a consensus encoded number stands for, unless its
/// disable flag, bit 31, is set. Bit 22 tells time from blocks, and the low 16
/// bits count.
pub open spec fn lock_time_of(n: u32) -> Option<LockTime> {
    if n & 0x8000_0000 != 0 {
        None
    } else if n & 0x0040_0000 != 0 {
        Some(LockTime::Time((n & 0xffff) as u16))
    } else {
        Some(LockTime::Blocks((n & 0xffff) as u16))
    }
}

/// Calls `bitcoin::relative::LockTime::from_consensus`. It refuses a number
/// whose bit 31 is set, with that number in the error, and otherwise takes the
/// low 16 bits as intervals of time if bit 22 is set, and as blocks if it is
/// not.
#[verifier::external_body]
fn lock_time_from_consensus(n: u32) -> (result: Result<LockTime, u32>)
    ensures
        (match result {
            Ok(lock_time) => lock_time_of(n) == Some(lock_time),
            Err(disabled) => lock_time_of(n) is None && disabled == n,
        }),
{
    match bitcoin::relative::LockTime::from_consensus(n) {
        Ok(bitcoin::relative::LockTime::Blocks(height)) => Ok(LockTime::Blocks(height.value())),
        Ok(bitcoin::relative::LockTime::Time(time)) => Ok(LockTime::Time(time.value())),
        Err(error) => Err(error.disabled_locktime_value()),
    }
}

/// Reads a consensus encoded lock time.
pub fn to_lock_time(n: u32) -> (result: Result<LockTime, StoreError>)
    ensures
        (match result {
            Ok(lock_time) => lock_time_of(n) == Some(lock_time),
            Err(error) => lock_time_of(n) is None && error == StoreError::DisabledLockTime(n),
        }),
{
    match lock_time_from_consensus(n) {
        Ok(lock_time) => Ok(lock_time),
        Err(disabled) => Err(StoreError::DisabledLockTime(disabled)),
    }
}

/// The hexadecimal digit with the given value, in lower case.
pub open spec fn hex_digit(value: int) -> char {
    if value < 10 {
        ('0' as int + value) as char
    } else {
        ('a' as int + value - 10) as char
    }
}

/// The bytes in hexadecimal: two digits for each, the higher one first.
pub open spec fn hex(bytes: Seq<u8>) -> Seq<char> {
    Seq::new(
        2 * bytes.len(),
        |i: int|
            hex_digit(
                if i % 2 == 0 {
                    bytes[i / 2] as int / 16
                } else {
                    bytes[i / 2] as int % 16
                },
            ),
    )
}

/// Calls `bitcoin::Script::to_hex_string`, which writes the bytes of the script
/// in lower-case hexadecimal.
#[verifier::external_body]
fn script_to_hex_string(script: &Vec<u8>) -> (text: String)
    ensures
        text@ == hex(script@),
{
    bitcoin::Script::from_bytes(script).to_hex_string()
}

/// The scripts in hexadecimal, separated by commas.
pub open spec fn joined(scripts: Seq<Seq<u8>>) -> Seq<char>
    decreases scripts.len(),
{
    if scripts.len() == 0 {
        Seq::empty()
    } else if scripts.len() == 1 {
        hex(scripts[0])
    } else {
        joined(scripts.drop_last()) + seq![','] + hex(scripts.last())
    }
}

/// Writes scripts in hexadecimal, separated by commas.
pub fn join_scripts(scripts: &Vec<ScriptPubKey>) -> (text: String)
    ensures
        text@ == joined(script_bytes(scripts@)),
{
    let mut text: String = String::new();
    let mut i: usize = 0;
    assert(script_bytes(scripts@).take(0) =~= Seq::empty());
    while i < scripts.len()
        invariant
            i <= scripts@.len(),
            text@ == joined(script_bytes(scripts@).take(i as int)),
        decreases scripts@.len() - i,
    {
        let item = script_to_hex_string(&scripts[i].0);
        proof {
            let all = script_bytes(scripts@);
            assert(all.take(i + 1).drop_last() =~= all.take(i as int));
            assert(all.take(i + 1).last() == scripts@[i as int].0@);
            if i == 0 {
                assert(all.take(1)[0] == scripts@[0].0@);
            }
            reveal_strlit(",");
            assert(","@ =~= seq![',']);
            assert(Seq::<char>::empty() + item@ =~= item@);
        }
        if i > 0 {
            text.append(",");
        }
        text.append(item.as_str());
        i = i + 1;
    }
    assert(script_bytes(scripts@).take(scripts@.len() as int) =~= script_bytes(scripts@));
    text
}

} // verus!
