use vstd::prelude::*;

use crate::error::SensorError;
use crate::protocol::{le16_at, AranetService};

verus! {

/// Whether `pat` occurs in `s` as a contiguous run.
pub open spec fn contains_seq(s: Seq<char>, pat: Seq<char>) -> bool {
    exists|i: int| 0 <= i && i + pat.len() <= s.len() && #[trigger] s.subrange(i, i + pat.len()) == pat
}

/// Relies on `str::contains` with a `&str` pattern: true exactly when the
/// pattern occurs in the string as a contiguous run of characters.
#[verifier::external_body]
fn str_contains(s: &str, pat: &str) -> (r: bool)
    ensures
        r == contains_seq(s@, pat@),
{
    s.contains(pat)
}

/// The text in the advertised name of every sensor of this kind.
pub open spec fn sensor_name() -> Seq<char> {
    seq!['A', 'r', 'a', 'n', 'e', 't', '4']
}

/// Index of the first characteristic in `available` with the given UUID.
pub open spec fn first_index_of(available: Seq<u128>, uuid: u128, i: int) -> bool {
    &&& 0 <= i < available.len()
    &&& available[i] == uuid
    &&& forall|j: int| 0 <= j < i ==> available[j] != uuid
}

/// Looks a characteristic up by UUID among those the peripheral reported,
/// giving the position of the first match.
pub fn find_characteristic(available: &Vec<u128>, uuid: u128) -> (r: Option<usize>)
    ensures
        r is None <==> !available@.contains(uuid),
        r matches Some(i) ==> first_index_of(available@, uuid, i as int),
{
    let mut i: usize = 0;
    while i < available.len()
        invariant
            i <= available@.len(),
            forall|j: int| 0 <= j < i ==> available@[j] != uuid,
        decreases available@.len() - i,
    {
        if available[i] == uuid {
            return Some(i);
        }
        i = i + 1;
    }
    None
}

/// Like [`find_characteristic`], failing when the characteristic is absent.
pub fn require_characteristic(available: &Vec<u128>, uuid: u128) -> (r: Result<usize, SensorError>)
    ensures
        r is Err <==> !available@.contains(uuid),
        r matches Err(e) ==> e == SensorError::CannotFindCharacteristics,
        r matches Ok(i) ==> first_index_of(available@, uuid, i as int),
{
    match find_characteristic(available, uuid) {
        Some(i) => Ok(i),
        None => Err(SensorError::CannotFindCharacteristics),
    }
}

/// The command and history characteristics that a history pull needs, in
/// that order; fails before any exchange when either is absent.
pub fn history_characteristics(available: &Vec<u128>) -> (r: Result<(usize, usize), SensorError>)
    ensures
        r is Err <==> !available@.contains(AranetService::WRITE_CMD) || !available@.contains(
            AranetService::READ_HISTORY_READINGS,
        ),
        r matches Err(e) ==> e == SensorError::CannotFindCharacteristics,
        r matches Ok((w, h)) ==> {
            &&& first_index_of(available@, AranetService::WRITE_CMD, w as int)
            &&& first_index_of(available@, AranetService::READ_HISTORY_READINGS, h as int)
        },
{
    let write_cmd = require_characteristic(available, AranetService::WRITE_CMD)?;
    let reading_cmd = require_characteristic(available, AranetService::READ_HISTORY_READINGS)?;
    Ok((write_cmd, reading_cmd))
}

/// Decodes the seconds-since-update packet: one little-endian `u16`; fails
/// on fewer than two bytes.
pub fn decode_seconds_since_update(bytes: &[u8]) -> (r: Result<u16, SensorError>)
    ensures
        bytes@.len() < 2 <==> r is Err,
        r matches Err(e) ==> e == SensorError::ByteReadError,
        r matches Ok(s) ==> s as int == le16_at(bytes@, 0),
{
    if bytes.len() < 2 {
        return Err(SensorError::ByteReadError);
    }
    Ok(crate::protocol::read_u16_le(bytes, 0))
}

/// Finds and connects sensors; the Bluetooth side lives with the caller.
pub struct SensorManager {}

impl SensorManager {
    /// Seconds to scan for peripherals before picking one.
    pub const SCAN_SECONDS: u64 = 2;

    /// Whether an advertised local name is that of a sensor of this kind.
    pub fn is_sensor_name(name: &str) -> (r: bool)
        ensures
            r == contains_seq(name@, sensor_name()),
    {
        proof {
            reveal_strlit("Aranet4");
        }
        assert("Aranet4"@ =~= sensor_name());
        str_contains(name, "Aranet4")
    }
}

} // verus!
