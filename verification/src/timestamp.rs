//! Calendar times as plain field values, and the compact sortable
//! timestamp `YYYYMMDD-HHMMSS` that names a restore's safety copy.

use vstd::prelude::*;

verus! {

/// A calendar time in UTC, held as plain field values.
#[derive(Clone, Copy, Debug, PartialEq, Eq, Structural)]
pub struct UtcTime {
    pub year: i32,
    pub month: u32,
    pub day: u32,
    pub hour: u32,
    pub minute: u32,
    pub second: u32,
}

impl UtcTime {
    /// The field ranges the calendar guarantees; the year is further
    /// held to the four digits that the compact timestamp writes.
    pub open spec fn wf(self) -> bool {
        &&& 0 <= self.year <= 9999
        &&& 1 <= self.month <= 12
        &&& 1 <= self.day <= 31
        &&& self.hour <= 23
        &&& self.minute <= 59
        &&& self.second <= 59
    }
}

/// One decimal digit as its character byte.
pub open spec fn digit(n: int) -> u8 {
    (48 + n) as u8
}

/// The compact sortable timestamp of a time: the year on four digits,
/// month and day on two each, a dash, then hour, minute and second on
/// two digits each.
pub open spec fn timestamp_bytes(t: UtcTime) -> Seq<u8> {
    seq![
        digit(t.year as int / 1000 % 10),
        digit(t.year as int / 100 % 10),
        digit(t.year as int / 10 % 10),
        digit(t.year as int % 10),
        digit(t.month as int / 10 % 10),
        digit(t.month as int % 10),
        digit(t.day as int / 10 % 10),
        digit(t.day as int % 10),
        45u8,
        digit(t.hour as int / 10 % 10),
        digit(t.hour as int % 10),
        digit(t.minute as int / 10 % 10),
        digit(t.minute as int % 10),
        digit(t.second as int / 10 % 10),
        digit(t.second as int % 10),
    ]
}

/// The compact timestamp of `t`, as `timestamp_bytes` describes.
#[verifier::rlimit(50)]
pub fn format_timestamp(t: UtcTime) -> (r: Vec<u8>)
    requires
        t.wf(),
    ensures
        r@ == timestamp_bytes(t),
{
    let mut r: Vec<u8> = Vec::new();
    let y = t.year as u32;
    r.push((48 + y / 1000 % 10) as u8);
    r.push((48 + y / 100 % 10) as u8);
    r.push((48 + y / 10 % 10) as u8);
    r.push((48 + y % 10) as u8);
    r.push((48 + t.month / 10 % 10) as u8);
    r.push((48 + t.month % 10) as u8);
    r.push((48 + t.day / 10 % 10) as u8);
    r.push((48 + t.day % 10) as u8);
    r.push(45u8);
    r.push((48 + t.hour / 10 % 10) as u8);
    r.push((48 + t.hour % 10) as u8);
    r.push((48 + t.minute / 10 % 10) as u8);
    r.push((48 + t.minute % 10) as u8);
    r.push((48 + t.second / 10 % 10) as u8);
    r.push((48 + t.second % 10) as u8);
    assert(r@ =~= timestamp_bytes(t));
    r
}

} // verus!
