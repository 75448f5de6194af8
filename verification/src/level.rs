//! Level markers: what the name of a node of the level scene says about it.
//!
//! A name is a sequence of bytes made of fields separated by dots. The first
//! field tells the kind of marker; the fields after it carry numbers:
//! `spawn.<route>` and `waypoint.<route>.<sequence number>`.

use vstd::prelude::*;

verus! {

/// The byte that separates the fields of a name.
pub const DOT: u8 = 46;

/// The byte that may stand before the digits of a number.
pub const PLUS: u8 = 43;

/// The byte of the digit zero.
pub const ZERO: u8 = 48;

/// What a node of the level scene marks.
#[derive(Clone, Copy, Debug, PartialEq, Eq, Structural)]
pub enum Marker {
    /// Not a marker.
    Scenery,
    /// A tile on which a tower can be built.
    BuildLocation,
    /// The place where the units of route `id` appear.
    SpawnPoint { id: u32 },
    /// A point of route `spawn_id`, with its sequence number.
    Waypoint { spawn_id: u32, id: u32 },
}

/// Why the name of a marker could not be read.
#[derive(Clone, Copy, Debug, PartialEq, Eq, Structural)]
pub enum MarkerError {
    /// The name has fewer fields than its kind of marker needs.
    MissingField,
    /// A field that should hold a number does not.
    InvalidNumber,
}

/// The first bytes of the name of a tile on which a tower can be built.
pub open spec fn build_location_tag() -> Seq<u8> {
    seq![103u8, 114u8, 97u8, 115u8, 115u8]
}

/// The first bytes of the name of a spawn point.
pub open spec fn spawn_tag() -> Seq<u8> {
    seq![115u8, 112u8, 97u8, 119u8, 110u8]
}

/// The first bytes of the name of a waypoint.
pub open spec fn waypoint_tag() -> Seq<u8> {
    seq![119u8, 97u8, 121u8, 112u8, 111u8, 105u8, 110u8, 116u8]
}

/// The byte is one of the digits `0` to `9`.
pub open spec fn is_digit(byte: u8) -> bool {
    ZERO <= byte <= ZERO + 9
}

/// Every byte is a digit.
pub open spec fn all_digits(bytes: Seq<u8>) -> bool {
    forall|i: int| 0 <= i < bytes.len() ==> is_digit(#[trigger] bytes[i])
}

/// The number that a run of digits stands for in base ten.
pub open spec fn digits_value(digits: Seq<u8>) -> nat
    decreases digits.len(),
{
    if digits.len() == 0 {
        0
    } else {
        digits_value(digits.drop_last()) * 10 + (digits.last() - ZERO) as nat
    }
}

/// The bytes that are left when a leading plus sign is taken off.
pub open spec fn without_sign(bytes: Seq<u8>) -> Seq<u8> {
    if bytes.len() > 0 && bytes[0] == PLUS {
        bytes.skip(1)
    } else {
        bytes
    }
}

/// The number that a field holds: an optional plus sign and then one or more
/// digits, nothing else, standing for a number that fits in 32 bits.
pub open spec fn number_in(field: Seq<u8>) -> Option<u32> {
    let digits = without_sign(field);
    if digits.len() > 0 && all_digits(digits) && digits_value(digits) <= u32::MAX {
        Some(digits_value(digits) as u32)
    } else {
        None
    }
}

/// The index of the first dot at or after `from`, or the length of the name
/// when there is none.
pub open spec fn next_dot(name: Seq<u8>, from: int) -> int
    decreases name.len() - from,
{
    if from >= name.len() {
        name.len() as int
    } else if name[from] == DOT {
        from
    } else {
        next_dot(name, from + 1)
    }
}

/// The index at which the field numbered `field` begins, if the name has
/// that many fields. Fields are numbered from zero.
pub open spec fn field_start(name: Seq<u8>, field: nat) -> Option<int>
    decreases field,
{
    if field == 0 {
        Some(0)
    } else {
        match field_start(name, (field - 1) as nat) {
            Some(start) => if next_dot(name, start) < name.len() {
                Some(next_dot(name, start) + 1)
            } else {
                None
            },
            None => None,
        }
    }
}

/// The bytes of the field numbered `field`, if the name has that many
/// fields.
pub open spec fn field_of(name: Seq<u8>, field: nat) -> Option<Seq<u8>> {
    match field_start(name, field) {
        Some(start) => Some(name.subrange(start, next_dot(name, start))),
        None => None,
    }
}

/// The number held by the field numbered `field`.
pub open spec fn number_of_field(name: Seq<u8>, field: nat) -> Result<u32, MarkerError> {
    match field_of(name, field) {
        None => Err(MarkerError::MissingField),
        Some(bytes) => match number_in(bytes) {
            None => Err(MarkerError::InvalidNumber),
            Some(number) => Ok(number),
        },
    }
}

/// What the node with the given name marks.
///
/// The sequence number of a waypoint is read before its route number, so a
/// waypoint with a single number is reported as lacking a field.
pub open spec fn marker_of(name: Seq<u8>) -> Result<Marker, MarkerError> {
    if build_location_tag().is_prefix_of(name) {
        Ok(Marker::BuildLocation)
    } else if spawn_tag().is_prefix_of(name) {
        match number_of_field(name, 1) {
            Ok(id) => Ok(Marker::SpawnPoint { id }),
            Err(error) => Err(error),
        }
    } else if waypoint_tag().is_prefix_of(name) {
        match number_of_field(name, 2) {
            Ok(id) => match number_of_field(name, 1) {
                Ok(spawn_id) => Ok(Marker::Waypoint { spawn_id, id }),
                Err(error) => Err(error),
            },
            Err(error) => Err(error),
        }
    } else {
        Ok(Marker::Scenery)
    }
}

/// A run of digits stands for at least as much as any of its beginnings.
proof fn lemma_digits_value_grows(digits: Seq<u8>, count: int)
    requires
        0 <= count <= digits.len(),
        all_digits(digits),
    ensures
        digits_value(digits.take(count)) <= digits_value(digits),
    decreases digits.len() - count,
{
    if count < digits.len() {
        lemma_digits_value_grows(digits, count + 1);
        assert(digits.take(count + 1).drop_last() == digits.take(count));
    } else {
        assert(digits.take(count) == digits);
    }
}

/// Whether `name` begins with the bytes of `tag`.
pub fn starts_with(name: &[u8], tag: &[u8]) -> (found: bool)
    ensures
        found == tag@.is_prefix_of(name@),
{
    if tag.len() > name.len() {
        return false;
    }
    let mut index: usize = 0;
    while index < tag.len()
        invariant
            index <= tag.len() <= name.len(),
            forall|i: int| 0 <= i < index ==> tag@[i] == name@[i],
        decreases tag.len() - index,
    {
        if tag[index] != name[index] {
            return false;
        }
        index += 1;
    }
    true
}

/// The index of the first dot at or after `from`, or the length of the name
/// when there is none.
pub fn find_dot(name: &[u8], from: usize) -> (dot: usize)
    requires
        from <= name@.len(),
    ensures
        dot == next_dot(name@, from as int),
        from <= dot <= name@.len(),
{
    let mut index: usize = from;
    while index < name.len() && name[index] != DOT
        invariant
            from <= index <= name@.len(),
            next_dot(name@, from as int) == next_dot(name@, index as int),
        decreases name@.len() - index,
    {
        index += 1;
    }
    index
}

/// Where the field numbered `field` begins and ends, if the name has that
/// many fields.
pub fn find_field(name: &[u8], field: usize) -> (range: Option<(usize, usize)>)
    ensures
        range is Some <==> field_start(name@, field as nat) is Some,
        range matches Some(found) ==> {
            &&& field_start(name@, field as nat) == Some(found.0 as int)
            &&& found.1 == next_dot(name@, found.0 as int)
            &&& found.0 <= found.1 <= name@.len()
            &&& field_of(name@, field as nat) == Some(
                name@.subrange(found.0 as int, found.1 as int),
            )
        },
{
    let mut start: usize = 0;
    let mut passed: usize = 0;
    while passed < field
        invariant
            passed <= field,
            start <= name@.len(),
            field_start(name@, passed as nat) == Some(start as int),
        decreases field - passed,
    {
        let dot = find_dot(name, start);
        if dot >= name.len() {
            proof {
                lemma_field_start_stays_none(name@, passed as nat + 1, field as nat);
            }
            return None;
        }
        start = dot + 1;
        passed += 1;
    }
    let end = find_dot(name, start);
    Some((start, end))
}

/// A name that lacks a field lacks every later field too.
proof fn lemma_field_start_stays_none(name: Seq<u8>, missing: nat, later: nat)
    requires
        missing <= later,
        field_start(name, missing) is None,
    ensures
        field_start(name, later) is None,
    decreases later,
{
    if missing < later {
        lemma_field_start_stays_none(name, missing, (later - 1) as nat);
    }
}

/// The number held by the bytes of `name` from `start` up to `end`.
pub fn read_number(name: &[u8], start: usize, end: usize) -> (number: Option<u32>)
    requires
        start <= end <= name@.len(),
    ensures
        number == number_in(name@.subrange(start as int, end as int)),
{
    let ghost field = name@.subrange(start as int, end as int);
    let first: usize = if start < end && name[start] == PLUS {
        start + 1
    } else {
        start
    };
    let ghost digits = name@.subrange(first as int, end as int);
    if first == end {
        return None;
    }
    let mut value: u64 = 0;
    let mut index: usize = first;
    while index < end
        invariant
            first <= index <= end <= name@.len(),
            field == name@.subrange(start as int, end as int),
            digits == without_sign(field),
            digits == name@.subrange(first as int, end as int),
            all_digits(digits.take(index - first)),
            value == digits_value(digits.take(index - first)),
            value <= u32::MAX,
        decreases end - index,
    {
        let byte = name[index];
        assert(digits[index - first] == byte);
        if byte < ZERO || byte > ZERO + 9 {
            return None;
        }
        let ghost seen = digits.take(index - first + 1);
        assert(seen.drop_last() == digits.take(index - first));
        assert forall|i: int| 0 <= i < seen.len() implies is_digit(#[trigger] seen[i]) by {
            if i < seen.len() - 1 {
                assert(seen[i] == digits.take(index - first)[i]);
            }
        }
        value = value * 10 + (byte - ZERO) as u64;
        if value > u32::MAX as u64 {
            proof {
                if all_digits(digits) {
                    lemma_digits_value_grows(digits, index - first + 1);
                }
            }
            return None;
        }
        index += 1;
    }
    assert(digits.take(end - first) == digits);
    Some(value as u32)
}

/// The number held by the field numbered `field`.
pub fn read_field(name: &[u8], field: usize) -> (number: Result<u32, MarkerError>)
    ensures
        number == number_of_field(name@, field as nat),
{
    match find_field(name, field) {
        None => Err(MarkerError::MissingField),
        Some((start, end)) => match read_number(name, start, end) {
            None => Err(MarkerError::InvalidNumber),
            Some(number) => Ok(number),
        },
    }
}

/// Reads what the node with the given name marks.
pub fn read_marker(name: &[u8]) -> (marker: Result<Marker, MarkerError>)
    ensures
        marker == marker_of(name@),
{
    let build_location: [u8; 5] = [103, 114, 97, 115, 115];
    let spawn: [u8; 5] = [115, 112, 97, 119, 110];
    let waypoint: [u8; 8] = [119, 97, 121, 112, 111, 105, 110, 116];
    if starts_with(name, build_location.as_slice()) {
        Ok(Marker::BuildLocation)
    } else if starts_with(name, spawn.as_slice()) {
        match read_field(name, 1) {
            Ok(id) => Ok(Marker::SpawnPoint { id }),
            Err(error) => Err(error),
        }
    } else if starts_with(name, waypoint.as_slice()) {
        match read_field(name, 2) {
            Ok(id) => match read_field(name, 1) {
                Ok(spawn_id) => Ok(Marker::Waypoint { spawn_id, id }),
                Err(error) => Err(error),
            },
            Err(error) => Err(error),
        }
    } else {
        Ok(Marker::Scenery)
    }
}

} // verus!
