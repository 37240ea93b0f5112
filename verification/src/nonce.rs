use vstd::prelude::*;

use core::num::ParseIntError;
use std::time::{SystemTime, UNIX_EPOCH};

use crate::decimal::{i64_to_decimal, parse_i64, parse_i64_text, signed_decimal};

verus! {

/// A strictly growing number that exmo demands with each signed request;
/// the gateway takes the current time in milliseconds.
#[derive(Debug, Clone, Copy, PartialEq, Eq, Structural, Default)]
pub struct Nonce(i64);

/// A reading of the system clock: how far it is from the Unix epoch, as whole
/// seconds and the milliseconds past them, and on which side of the epoch.
#[derive(Debug, Clone, Copy, PartialEq, Eq, Structural)]
pub struct ClockReading {
    pub after_epoch: bool,
    pub seconds: u64,
    pub millis: u32,
}

/// Reads the system clock with std's `SystemTime::now().duration_since(UNIX_EPOCH)`:
/// the distance after the epoch, or, where the clock reads before the epoch, the
/// distance before it (`SystemTimeError::duration`), each split by
/// `Duration::as_secs` and `Duration::subsec_millis`. Claimed: the milliseconds
/// are below 1000, as std documents `subsec_millis`. Nothing more is claimed of
/// the result: it depends on the clock.
#[verifier::external_body]
fn read_clock() -> (r: ClockReading)
    ensures
        r.millis < 1000,
{
    match SystemTime::now().duration_since(UNIX_EPOCH) {
        Ok(d) => ClockReading { after_epoch: true, seconds: d.as_secs(), millis: d.subsec_millis() },
        Err(e) => ClockReading { after_epoch: false, seconds: e.duration().as_secs(), millis: e.duration().subsec_millis() },
    }
}

/// The milliseconds since the epoch of a moment given as seconds and milliseconds.
pub open spec fn millis_timestamp(seconds: i64, millis: u32) -> int {
    seconds * 1000 + millis
}

/// The signed milliseconds from the epoch that a clock reading stands for
/// (negative before the epoch).
pub open spec fn reading_millis(r: ClockReading) -> int {
    let m = r.seconds * 1000 + r.millis;
    if r.after_epoch { m } else { -m }
}

/// `v` held to the range of an `i64`.
pub open spec fn clamp_i64(v: int) -> i64 {
    if v > i64::MAX {
        i64::MAX
    } else if v < i64::MIN {
        i64::MIN
    } else {
        v as i64
    }
}

impl Nonce {
    pub closed spec fn spec_inner(self) -> i64 {
        self.0
    }

    /// The nonce whose number is `v`.
    pub closed spec fn spec_from_inner(v: i64) -> Nonce {
        Nonce(v)
    }

    /// The nonce that a text stands for, where it stands for one.
    pub open spec fn spec_parse(s: Seq<char>) -> Option<Nonce> {
        match parse_i64(s) {
            Some(v) => Some(Nonce::spec_from_inner(v)),
            None => None,
        }
    }

    /// The text a nonce displays as: its number in decimal.
    pub open spec fn spec_text(self) -> Seq<char> {
        signed_decimal(self.spec_inner() as int)
    }

    pub fn new(id: i64) -> (r: Nonce)
        ensures
            r.spec_inner() == id,
            r == Nonce::spec_from_inner(id),
    {
        Nonce(id)
    }

    pub fn inner(&self) -> (r: i64)
        ensures
            r == self.spec_inner(),
    {
        self.0
    }

    /// The nonce of a moment given as whole seconds and the milliseconds past them.
    pub fn from_timestamp(seconds: i64, millis: u32) -> (r: Nonce)
        requires
            i64::MIN <= seconds * 1000,
            seconds * 1000 + millis <= i64::MAX,
        ensures
            r.spec_inner() == seconds * 1000 + millis,
    {
        Nonce(seconds * 1000 + millis as i64)
    }

    /// The nonce of a clock reading: its signed milliseconds from the epoch,
    /// held to the range of an `i64`.
    pub fn from_reading(reading: ClockReading) -> (r: Nonce)
        ensures
            r.spec_inner() == clamp_i64(reading_millis(reading)),
    {
        let m: i128 = reading.seconds as i128 * 1000 + reading.millis as i128;
        let v: i128 = if reading.after_epoch { m } else { 0 - m };
        if v > i64::MAX as i128 {
            Nonce(i64::MAX)
        } else if v < i64::MIN as i128 {
            Nonce(i64::MIN)
        } else {
            Nonce(v as i64)
        }
    }

    /// The nonce of the current moment: milliseconds from the Unix epoch.
    pub fn generate() -> (r: Nonce)
        ensures
            exists|reading: ClockReading|
                reading.millis < 1000 && r.spec_inner() == #[trigger] clamp_i64(reading_millis(reading)),
    {
        let reading = read_clock();
        Nonce::from_reading(reading)
    }

    /// The nonce written in decimal (what it displays as).
    pub fn to_string(&self) -> (r: String)
        ensures
            r@ == self.spec_text(),
    {
        i64_to_decimal(self.0)
    }

    /// Reads a nonce written in decimal.
    pub fn parse(s: &str) -> (r: Result<Nonce, ParseIntError>)
        ensures
            match Nonce::spec_parse(s@) {
                Some(n) => r == Ok::<Nonce, ParseIntError>(n),
                None => r is Err,
            },
    {
        match parse_i64_text(s) {
            Ok(v) => Ok(Nonce::new(v)),
            Err(e) => Err(e),
        }
    }
}

impl core::str::FromStr for Nonce {
    type Err = ParseIntError;

    fn from_str(s: &str) -> (r: Result<Nonce, ParseIntError>)
        ensures
            match Nonce::spec_parse(s@) {
                Some(n) => r == Ok::<Nonce, ParseIntError>(n),
                None => r is Err,
            },
    {
        Nonce::parse(s)
    }
}

/// Two nonces are equal exactly when their numbers are: the nonces made (by
/// `Nonce::new`) of two numbers are equal exactly when the numbers are, and the
/// nonce made of a number has that number.
pub proof fn lemma_nonce_equality(a: Nonce, b: Nonce, x: i64, y: i64)
    ensures
        a == b <==> a.spec_inner() == b.spec_inner(),
        Nonce::spec_from_inner(x) == Nonce::spec_from_inner(y) <==> x == y,
        Nonce::spec_from_inner(x).spec_inner() == x,
        Nonce::spec_from_inner(a.spec_inner()) == a,
{
}

/// Reading back the text a nonce displays as gives the same nonce.
pub proof fn lemma_nonce_text_round_trip(n: Nonce)
    ensures
        Nonce::spec_parse(n.spec_text()) == Some(n),
{
    crate::decimal::lemma_decimal_round_trip(n.spec_inner());
}

/// The nonce of a clock reading keeps the reading whole: for a reading after
/// the epoch (that fits in an `i64`), the nonce's thousands are the reading's
/// seconds and its remainder the reading's milliseconds, so two readings give
/// the same nonce only when they are the same reading; a reading before the
/// epoch gives the negated milliseconds.
pub proof fn lemma_reading_nonce_keeps_millis(a: ClockReading, b: ClockReading)
    requires
        a.millis < 1000,
        b.millis < 1000,
        a.seconds * 1000 + a.millis <= i64::MAX,
        b.seconds * 1000 + b.millis <= i64::MAX,
    ensures
        a.after_epoch ==> clamp_i64(reading_millis(a)) >= 0 && clamp_i64(reading_millis(a)) / 1000 == a.seconds
            && clamp_i64(reading_millis(a)) % 1000 == a.millis,
        !a.after_epoch ==> clamp_i64(reading_millis(a)) == -(a.seconds * 1000 + a.millis),
        a.after_epoch && b.after_epoch && clamp_i64(reading_millis(a)) == clamp_i64(reading_millis(b)) ==> a == b,
{
    let va = a.seconds * 1000 + a.millis;
    let vb = b.seconds * 1000 + b.millis;
    assert(va / 1000 == a.seconds && va % 1000 == a.millis) by (nonlinear_arith)
        requires
            va == a.seconds * 1000 + a.millis,
            a.millis < 1000,
            a.seconds >= 0,
    ;
    assert(vb / 1000 == b.seconds && vb % 1000 == b.millis) by (nonlinear_arith)
        requires
            vb == b.seconds * 1000 + b.millis,
            b.millis < 1000,
            b.seconds >= 0,
    ;
}

} // verus!
