//! Timestamps and durations in milliseconds.

use vstd::prelude::*;
use crate::text::{
    all_ascii_digits, decimal, decimal_two, digit_char, digits_value, i64_decimal, signed_decimal,
    u64_decimal, u64_decimal_two,
};

verus! {

#[verifier::external_type_specification]
#[verifier::external_body]
pub struct ExSystemTime(std::time::SystemTime);

/// `SystemTime::now`: the system clock's reading. The clock decides it, so
/// nothing is stated of it.
#[verifier::external_body]
fn system_now() -> std::time::SystemTime {
    std::time::SystemTime::now()
}

/// `SystemTime::duration_since(UNIX_EPOCH)`: the time from the epoch to `t`,
/// or none when `t` is earlier than the epoch. A system time is opaque here,
/// so nothing is stated of which.
#[verifier::external_body]
fn since_epoch(t: &std::time::SystemTime) -> Option<std::time::Duration> {
    match t.duration_since(std::time::UNIX_EPOCH) {
        Ok(d) => Some(d),
        Err(_) => None,
    }
}

/// The whole milliseconds in a std duration, as `Duration::as_millis` counts
/// them.
pub uninterp spec fn std_millis_of(d: std::time::Duration) -> u128;

/// `std::time::Duration::as_millis`: the total number of whole milliseconds
/// in the duration.
#[verifier::external_body]
pub(crate) fn std_duration_millis(d: &std::time::Duration) -> (r: u128)
    ensures
        r == std_millis_of(*d),
{
    d.as_millis()
}

/// Timestamp in milliseconds since Unix epoch
#[derive(Debug, Clone, Copy, PartialEq, Eq, PartialOrd, Ord, Hash)]
pub struct Timestamp(i64);

impl View for Timestamp {
    type V = i64;

    closed spec fn view(&self) -> i64 {
        self.0
    }
}

/// The milliseconds of a timestamp made from a clock reading: the whole
/// milliseconds since the epoch, cast to `i64` as `as` casts them, or 0 for a
/// reading before the epoch (`None`).
pub open spec fn clock_reading_millis(reading: Option<u128>) -> i64 {
    match reading {
        Some(ms) => ms as i64,
        None => 0,
    }
}

impl Timestamp {
    /// Creates a timestamp for the current moment. A clock that reads earlier
    /// than the epoch gives timestamp 0. Which moment it is the clock decides;
    /// what holds of every reading is that the timestamp is the one
    /// `from_clock_reading` makes of it.
    pub fn now() -> (r: Self)
        ensures
            exists|reading: Option<u128>| r@ == clock_reading_millis(reading),
    {
        let now = system_now();
        let reading = match since_epoch(&now) {
            Some(d) => Some(std_duration_millis(&d)),
            None => None,
        };
        Timestamp::from_clock_reading(reading)
    }

    /// The timestamp of a clock reading: `Some` milliseconds since the epoch,
    /// cast to `i64`, or `None` for a reading before the epoch, which gives 0.
    pub fn from_clock_reading(reading: Option<u128>) -> (r: Timestamp)
        ensures
            r@ == clock_reading_millis(reading),
    {
        match reading {
            Some(ms) => Timestamp(#[verifier::truncate] (ms as i64)),
            None => Timestamp(0),
        }
    }

    /// Creates a timestamp from milliseconds since Unix epoch
    pub fn from_millis(millis: i64) -> (r: Self)
        ensures
            r@ == millis,
    {
        Timestamp(millis)
    }

    /// Returns the timestamp as milliseconds since Unix epoch
    pub fn as_millis(&self) -> (r: i64)
        ensures
            r == self@,
    {
        self.0
    }

    /// Returns the timestamp as seconds since Unix epoch (truncated toward zero)
    pub fn as_seconds(&self) -> (r: i64)
        ensures
            r as int == (if self@ >= 0 {
                (self@ as int) / 1000
            } else {
                -((-(self@ as int)) / 1000)
            }),
    {
        self.0 / 1000
    }

    /// The milliseconds, as the `Display` form shows them.
    pub fn to_string(&self) -> (r: String)
        ensures
            r@ == signed_decimal(self@ as int),
    {
        i64_decimal(self.0)
    }
}

/// Duration in milliseconds
#[derive(Debug, Clone, Copy, PartialEq, Eq, PartialOrd, Ord, Hash)]
pub struct Duration(u64);

impl View for Duration {
    type V = u64;

    closed spec fn view(&self) -> u64 {
        self.0
    }
}

/// `H:MM:SS` for a number of whole seconds; the hours are not padded.
pub open spec fn hms_text(total_seconds: nat) -> Seq<char> {
    decimal(total_seconds / 3600) + ":"@ + decimal_two((total_seconds % 3600) / 60) + ":"@
        + decimal_two(total_seconds % 60)
}

proof fn lemma_digit_char_value(d: nat)
    requires
        d < 10,
    ensures
        crate::text::is_ascii_digit(digit_char(d)),
        ((digit_char(d) as u32) - 48) as nat == d,
{
    assert((48 + d) as char as u32 == 48 + d);
}

proof fn lemma_decimal_reads_back(n: nat)
    ensures
        decimal(n).len() > 0,
        all_ascii_digits(decimal(n)),
        digits_value(decimal(n)) == n,
    decreases n,
{
    lemma_digit_char_value(n % 10);
    if n < 10 {
        let d = decimal(n);
        assert(d.drop_last() =~= Seq::<char>::empty());
        assert(d.last() == digit_char(n));
        assert(digits_value(d) == digits_value(d.drop_last()) * 10 + ((d.last() as u32) - 48) as nat);
        assert(digits_value(Seq::<char>::empty()) == 0);
    } else {
        lemma_decimal_reads_back(n / 10);
        let d = decimal(n);
        assert(d.drop_last() =~= decimal(n / 10));
        assert(d.last() == digit_char(n % 10));
        assert(digits_value(d) == digits_value(d.drop_last()) * 10 + ((d.last() as u32) - 48) as nat);
        assert(digits_value(d) == (n / 10) * 10 + n % 10);
        assert forall|i: int| 0 <= i < d.len() implies crate::text::is_ascii_digit(#[trigger] d[i]) by {
            if i < d.len() - 1 {
                assert(d[i] == decimal(n / 10)[i]);
            }
        }
    }
}

proof fn lemma_two_digits_read_back(n: nat)
    requires
        n < 100,
    ensures
        decimal_two(n).len() == 2,
        all_ascii_digits(decimal_two(n)),
        digits_value(decimal_two(n)) == n,
{
    lemma_decimal_reads_back(n);
    if n < 10 {
        lemma_digit_char_value(n);
        let t = decimal_two(n);
        assert(t.drop_last() =~= seq!['0']);
        assert(t.last() == digit_char(n));
        assert(seq!['0'].drop_last() =~= Seq::<char>::empty());
        assert('0' as u32 == 48);
        assert(seq!['0'].last() == '0');
        assert(digits_value(Seq::<char>::empty()) == 0);
        assert(digits_value(seq!['0']) == 0);
    } else {
        lemma_decimal_reads_back(n / 10);
        assert(decimal(n / 10) =~= seq![digit_char(n / 10)]);
    }
}

/// `H:MM:SS` reads back to the duration: it is three runs of digits split by
/// colons, minutes and seconds two digits each and below 60, and hours,
/// minutes and seconds add up to the whole duration, so the hours never wrap
/// around.
pub proof fn law_hms_reads_back(total_seconds: nat) -> (fields: (Seq<char>, Seq<char>, Seq<char>))
    ensures
        hms_text(total_seconds) == fields.0 + seq![':'] + fields.1 + seq![':'] + fields.2,
        fields.0.len() > 0 && all_ascii_digits(fields.0),
        fields.1.len() == 2 && all_ascii_digits(fields.1),
        fields.2.len() == 2 && all_ascii_digits(fields.2),
        digits_value(fields.1) < 60,
        digits_value(fields.2) < 60,
        digits_value(fields.0) * 3600 + digits_value(fields.1) * 60 + digits_value(fields.2)
            == total_seconds,
{
    reveal_strlit(":");
    let h = decimal(total_seconds / 3600);
    let m = decimal_two((total_seconds % 3600) / 60);
    let s = decimal_two(total_seconds % 60);
    lemma_decimal_reads_back(total_seconds / 3600);
    lemma_two_digits_read_back((total_seconds % 3600) / 60);
    lemma_two_digits_read_back(total_seconds % 60);
    assert(":"@ =~= seq![':']);
    assert(hms_text(total_seconds) =~= h + seq![':'] + m + seq![':'] + s);
    (h, m, s)
}

impl Duration {
    /// The zero duration.
    pub fn zero() -> (r: Self)
        ensures
            r@ == 0,
    {
        Duration(0)
    }

    /// Creates a duration from milliseconds
    pub fn from_millis(millis: u64) -> (r: Self)
        ensures
            r@ == millis,
    {
        Duration(millis)
    }

    /// Creates a duration from seconds
    pub fn from_seconds(seconds: u64) -> (r: Self)
        requires
            seconds * 1000 <= u64::MAX,
        ensures
            r@ == seconds * 1000,
    {
        Duration(seconds * 1000)
    }

    /// Returns the duration in milliseconds
    pub fn as_millis(&self) -> (r: u64)
        ensures
            r == self@,
    {
        self.0
    }

    /// Returns the duration in whole seconds
    pub fn as_seconds(&self) -> (r: u64)
        ensures
            r == self@ / 1000,
    {
        self.0 / 1000
    }

    /// Returns true if the duration is zero
    pub fn is_zero(&self) -> (r: bool)
        ensures
            r == (self@ == 0),
    {
        self.0 == 0
    }

    /// Formats as H:MM:SS (always shows hours)
    pub fn as_hms(&self) -> (r: String)
        ensures
            r@ == hms_text((self@ / 1000) as nat),
    {
        let total_seconds = self.as_seconds();
        let hours = total_seconds / 3600;
        let minutes = (total_seconds % 3600) / 60;
        let seconds = total_seconds % 60;
        let mut r = u64_decimal(hours);
        r.append(":");
        let m = u64_decimal_two(minutes);
        r.append(m.as_str());
        r.append(":");
        let s = u64_decimal_two(seconds);
        r.append(s.as_str());
        r
    }

    /// The duration as its `Display` form shows it: `H:MM:SS`.
    pub fn to_string(&self) -> (r: String)
        ensures
            r@ == hms_text((self@ / 1000) as nat),
    {
        self.as_hms()
    }

    /// A count of milliseconds, truncated to its low 64 bits as `as u64` does.
    pub fn from_millis_truncated(millis: u128) -> (r: Self)
        ensures
            r@ == millis % 0x1_0000_0000_0000_0000,
    {
        let low: u64 = #[verifier::truncate] (millis as u64);
        assert(millis as u64 == millis % 0x1_0000_0000_0000_0000) by (bit_vector);
        Duration(low)
    }

    /// The whole milliseconds of a std duration, clamped to the largest duration.
    pub fn from_std_millis(millis: u128) -> (r: Self)
        ensures
            r@ == (if millis > u64::MAX as u128 {
                u64::MAX
            } else {
                millis as u64
            }),
    {
        if millis > u64::MAX as u128 {
            Duration(u64::MAX)
        } else {
            Duration(millis as u64)
        }
    }
}

impl vstd::std_specs::convert::FromSpecImpl<std::time::Duration> for Duration {
    /// A std duration has no specification here; `from` keeps its whole
    /// milliseconds, truncated to 64 bits.
    open spec fn obeys_from_spec() -> bool {
        false
    }

    open spec fn from_spec(v: std::time::Duration) -> Duration {
        arbitrary()
    }
}

impl From<std::time::Duration> for Duration {
    /// The whole milliseconds of `d`, truncated to 64 bits.
    fn from(d: std::time::Duration) -> (r: Self)
        ensures
            r@ == std_millis_of(d) % 0x1_0000_0000_0000_0000,
    {
        let millis = std_duration_millis(&d);
        Duration::from_millis_truncated(millis)
    }
}

/// A duration made from whole seconds gives those seconds back.
pub proof fn law_seconds_round_trip(d: Duration, seconds: u64)
    requires
        d@ == seconds * 1000,
    ensures
        d@ / 1000 == seconds,
{
}

} // verus!
