//! The boot-time clock: turning one reading of the operating system's clock
//! into the milliseconds that the TA stamps authentication attempts with.

use vstd::prelude::*;

verus! {

/// Milliseconds in one second.
pub const MILLIS_PER_SEC: i64 = 1000;

/// Nanoseconds in one millisecond.
pub const NANOS_PER_MILLI: i64 = 1_000_000;

/// Nanoseconds in one second.
pub const NANOS_PER_SEC: i64 = 1_000_000_000;

/// A point in time, in milliseconds. Zero stands for "unknown".
#[derive(Clone, Copy, Debug, PartialEq, Eq, Structural)]
pub struct MillisecondsSinceEpoch(pub i64);

/// Division that rounds towards zero, as machine integers divide.
pub open spec fn div_towards_zero(a: int, b: int) -> int
    recommends
        b > 0,
{
    if a >= 0 {
        a / b
    } else {
        -((-a) / b)
    }
}

/// The milliseconds that a reading of `tv_sec` seconds and `tv_nsec`
/// nanoseconds amounts to: the nanoseconds are cut down to whole
/// milliseconds.
pub open spec fn millis_of(tv_sec: int, tv_nsec: int) -> int {
    tv_sec * MILLIS_PER_SEC + div_towards_zero(tv_nsec, NANOS_PER_MILLI as int)
}

/// The time that one reading of the clock amounts to: `rc` is what the
/// system call returned, `tv_sec` and `tv_nsec` what it stored. A failed
/// reading (`rc` below zero) amounts to zero, whatever was stored.
pub open spec fn time_of(rc: int, tv_sec: int, tv_nsec: int) -> int {
    if rc < 0 {
        0
    } else {
        millis_of(tv_sec, tv_nsec)
    }
}

/// Whether the milliseconds of a reading, and the product on the way to
/// them, fit in an `i64`.
pub open spec fn representable(tv_sec: int, tv_nsec: int) -> bool {
    &&& i64::MIN <= tv_sec * MILLIS_PER_SEC <= i64::MAX
    &&& i64::MIN <= millis_of(tv_sec, tv_nsec) <= i64::MAX
}

/// Whether the nanoseconds of a reading lie within one second, as they do in
/// every reading that the operating system hands out.
pub open spec fn normalized(tv_nsec: int) -> bool {
    0 <= tv_nsec < NANOS_PER_SEC
}

/// Whether the reading `(sec1, nsec1)` was taken no later than
/// `(sec2, nsec2)`.
pub open spec fn not_after(sec1: int, nsec1: int, sec2: int, nsec2: int) -> bool {
    sec1 < sec2 || (sec1 == sec2 && nsec1 <= nsec2)
}

/// Dividing by a thousand twice is dividing by a million.
proof fn lemma_div_twice(n: int)
    requires
        n >= 0,
    ensures
        (n / 1000) / 1000 == n / 1_000_000,
{
    let q: int = n / 1000;
    let r: int = n % 1000;
    let qq: int = q / 1000;
    let rr: int = q % 1000;
    assert(n == 1000 * q + r && 0 <= r < 1000) by (nonlinear_arith)
        requires
            q == n / 1000,
            r == n % 1000,
    ;
    assert(q == 1000 * qq + rr && 0 <= rr < 1000) by (nonlinear_arith)
        requires
            qq == q / 1000,
            rr == q % 1000,
    ;
    assert(n / 1_000_000 == qq) by (nonlinear_arith)
        requires
            n == 1_000_000 * qq + (1000 * rr + r),
            0 <= 1000 * rr + r < 1_000_000,
    ;
}

/// Cutting nanoseconds down to microseconds and those to milliseconds is
/// cutting them down to milliseconds, whatever their sign.
proof fn lemma_cut_twice(tv_nsec: int)
    ensures
        div_towards_zero(div_towards_zero(tv_nsec, 1000), 1000) == div_towards_zero(
            tv_nsec,
            NANOS_PER_MILLI as int,
        ),
{
    if tv_nsec >= 0 {
        lemma_div_twice(tv_nsec);
    } else {
        lemma_div_twice(-tv_nsec);
    }
}

/// Monotonic clock over the operating system's boot-time clock, which keeps
/// counting while the system is suspended.
#[derive(Default)]
pub struct StdClock;

impl StdClock {
    /// Whether `now` can turn a successful reading into milliseconds without
    /// leaving the range of `i64`.
    pub fn fits(tv_sec: i64, tv_nsec: i64) -> (ok: bool)
        ensures
            ok == representable(tv_sec as int, tv_nsec as int),
    {
        let whole: i64 = match tv_sec.checked_mul(MILLIS_PER_SEC) {
            Some(ms) => ms,
            None => {
                return false;
            },
        };
        proof {
            lemma_cut_twice(tv_nsec as int);
        }
        let part: i64 = tv_nsec / 1000 / 1000;
        whole.checked_add(part).is_some()
    }

    /// The current time, from one reading of the boot-time clock: `rc` is
    /// what the system call returned, `tv_sec` and `tv_nsec` what it stored.
    ///
    /// A failed reading (`rc` below zero) gives zero, which the TA takes for
    /// "unknown"; what was stored is then not looked at.
    pub fn now(&self, rc: i32, tv_sec: i64, tv_nsec: i64) -> (t: MillisecondsSinceEpoch)
        requires
            rc >= 0 ==> representable(tv_sec as int, tv_nsec as int),
        ensures
            t.0 == time_of(rc as int, tv_sec as int, tv_nsec as int),
            rc < 0 ==> t.0 == 0,
    {
        if rc < 0 {
            return MillisecondsSinceEpoch(0);
        }
        proof {
            lemma_cut_twice(tv_nsec as int);
        }
        MillisecondsSinceEpoch((tv_sec * MILLIS_PER_SEC) + (tv_nsec / 1000 / 1000))
    }

    /// `now` for any reading whatever: the time, or nothing where a
    /// successful reading is beyond what milliseconds in an `i64` can hold.
    pub fn checked_now(&self, rc: i32, tv_sec: i64, tv_nsec: i64) -> (t: Option<MillisecondsSinceEpoch>)
        ensures
            t is Some <==> rc < 0 || representable(tv_sec as int, tv_nsec as int),
            t matches Some(ms) ==> ms.0 == time_of(rc as int, tv_sec as int, tv_nsec as int),
    {
        if rc < 0 || StdClock::fits(tv_sec, tv_nsec) {
            Some(self.now(rc, tv_sec, tv_nsec))
        } else {
            None
        }
    }
}

/// The clock never runs backwards: of two readings that succeeded, as the
/// operating system hands them out, the later one gives at least as much
/// time. (A reading that fails gives zero, and so may fall behind an earlier
/// one.)
pub proof fn lemma_now_is_monotonic(
    rc1: int,
    sec1: int,
    nsec1: int,
    rc2: int,
    sec2: int,
    nsec2: int,
)
    requires
        rc1 >= 0,
        rc2 >= 0,
        normalized(nsec1),
        normalized(nsec2),
        not_after(sec1, nsec1, sec2, nsec2),
    ensures
        time_of(rc1, sec1, nsec1) <= time_of(rc2, sec2, nsec2),
{
}

/// Time that has passed is counted: of two readings that succeeded, the
/// second taken at least `d` whole milliseconds after the first, the second
/// gives at least `d` milliseconds more. This holds across a suspension as
/// well, as long as the clock that is read counts the time suspended.
pub proof fn lemma_elapsed_is_counted(
    rc1: int,
    sec1: int,
    nsec1: int,
    rc2: int,
    sec2: int,
    nsec2: int,
    d: int,
)
    requires
        rc1 >= 0,
        rc2 >= 0,
        normalized(nsec1),
        normalized(nsec2),
        d >= 0,
        (sec2 * NANOS_PER_SEC + nsec2) - (sec1 * NANOS_PER_SEC + nsec1) >= d * NANOS_PER_MILLI,
    ensures
        time_of(rc2, sec2, nsec2) - time_of(rc1, sec1, nsec1) >= d,
{
    lemma_millis_bounds(sec1, nsec1);
    lemma_millis_bounds(sec2, nsec2);
}

/// The milliseconds of a normalized reading are the whole milliseconds in
/// it: less than one millisecond is lost.
pub proof fn lemma_millis_bounds(tv_sec: int, tv_nsec: int)
    requires
        normalized(tv_nsec),
    ensures
        tv_sec * MILLIS_PER_SEC <= millis_of(tv_sec, tv_nsec) < (tv_sec + 1) * MILLIS_PER_SEC,
        0 <= tv_sec * NANOS_PER_SEC + tv_nsec - millis_of(tv_sec, tv_nsec) * NANOS_PER_MILLI
            < NANOS_PER_MILLI,
{
}

} // verus!
