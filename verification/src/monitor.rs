//! Registration of the two key monitors, and whether the operating system
//! offers the designated key at all.
//!
//! The observer watches while another application is in front, the
//! interceptor while this one is.  Either registration may be refused, for
//! want of a permission; a retry loop attempts again until both stand.  A
//! monitor that is registered stays registered for the life of the process.

use vstd::prelude::*;
use vstd::slice::slice_subrange;
use vstd::utf8::valid_utf8;

verus! {

/// The first major version of the operating system that reports the
/// designated key to monitors.
pub const REQUIRED_MAJOR_VERSION: u32 = 15;

/// The pause before registration is attempted again.
pub const MONITOR_RETRY_INTERVAL_MS: u64 = 2000;

/// Which monitors are registered.
#[derive(Clone, Copy, Debug, PartialEq, Eq)]
pub struct MonitorRegistry {
    /// The observer, active while another application is frontmost.
    pub global_registered: bool,
    /// The interceptor, active while this application is frontmost.
    pub local_registered: bool,
}

/// Which registrations to attempt.
#[derive(Clone, Copy, Debug, PartialEq, Eq)]
pub struct RegistrationPlan {
    pub observer: bool,
    pub interceptor: bool,
}

/// The next move of the retry loop.
#[derive(Clone, Copy, Debug, PartialEq, Eq)]
pub enum RetryStep {
    /// The loop ends.
    Stop,
    /// Wait, then hand an attempt to the main thread.
    AttemptAfter { millis: u64 },
}

impl MonitorRegistry {
    /// Both monitors are registered.
    pub open spec fn complete(self) -> bool {
        self.global_registered && self.local_registered
    }

    /// The registry after an attempt: a monitor that was registered stays
    /// so, and one that was attempted is registered if the attempt
    /// succeeded.
    pub open spec fn after_attempt(
        self,
        observer_ok: bool,
        interceptor_ok: bool,
    ) -> MonitorRegistry {
        MonitorRegistry {
            global_registered: self.global_registered || observer_ok,
            local_registered: self.local_registered || interceptor_ok,
        }
    }

    /// The move of the retry loop: it ends once both monitors are registered
    /// or once an attempt could not be handed over; else it waits and
    /// attempts again.
    pub open spec fn next_retry(self, handover_failed: bool) -> RetryStep {
        if self.complete() || handover_failed {
            RetryStep::Stop
        } else {
            RetryStep::AttemptAfter { millis: MONITOR_RETRY_INTERVAL_MS }
        }
    }

    /// No monitor is registered.
    pub fn new() -> (registry: MonitorRegistry)
        ensures
            !registry.global_registered,
            !registry.local_registered,
    {
        MonitorRegistry { global_registered: false, local_registered: false }
    }

    pub fn is_complete(&self) -> (complete: bool)
        ensures
            complete == self.complete(),
    {
        self.global_registered && self.local_registered
    }

    /// The registrations to attempt: those that do not stand yet.
    pub fn plan(&self) -> (plan: RegistrationPlan)
        ensures
            plan.observer == !self.global_registered,
            plan.interceptor == !self.local_registered,
    {
        RegistrationPlan { observer: !self.global_registered, interceptor: !self.local_registered }
    }

    /// Records the result of an attempt.  Pass `false` for a monitor that was
    /// not attempted.
    pub fn record(&mut self, observer_ok: bool, interceptor_ok: bool)
        ensures
            *final(self) == old(self).after_attempt(observer_ok, interceptor_ok),
    {
        if observer_ok {
            self.global_registered = true;
        }
        if interceptor_ok {
            self.local_registered = true;
        }
    }

    /// The next move of the retry loop, given whether the last attempt could
    /// not be handed to the main thread.
    pub fn retry_step(&self, handover_failed: bool) -> (step: RetryStep)
        ensures
            step == self.next_retry(handover_failed),
    {
        if self.is_complete() || handover_failed {
            RetryStep::Stop
        } else {
            RetryStep::AttemptAfter { millis: MONITOR_RETRY_INTERVAL_MS }
        }
    }
}

/// Whether the designated key can be offered as a shortcut: the operating
/// system reports it, and both monitors are registered.
pub fn supports_fn_globe_shortcut(
    os_supported: bool,
    registry: &MonitorRegistry,
) -> (supported: bool)
    ensures
        supported == (os_supported && registry.complete()),
{
    os_supported && registry.global_registered && registry.local_registered
}

/// A monitor that is registered stays registered: no attempt, whatever it
/// reports, takes a registration away, and a complete registry is left as
/// it is.
pub proof fn registration_is_monotone(
    registry: MonitorRegistry,
    observer_ok: bool,
    interceptor_ok: bool,
)
    ensures
        registry.global_registered ==> registry.after_attempt(
            observer_ok,
            interceptor_ok,
        ).global_registered,
        registry.local_registered ==> registry.after_attempt(
            observer_ok,
            interceptor_ok,
        ).local_registered,
        registry.complete() ==> registry.after_attempt(observer_ok, interceptor_ok) == registry,
{
}

/// The retry loop stops exactly when both monitors are registered, unless an
/// attempt could not be handed over.
pub proof fn retry_stops_when_complete(registry: MonitorRegistry)
    ensures
        registry.next_retry(false) is Stop <==> registry.complete(),
        registry.next_retry(true) is Stop,
{
}

pub open spec fn is_digit(b: u8) -> bool {
    0x30 <= b <= 0x39
}

pub open spec fn all_digits(s: Seq<u8>) -> bool {
    forall|i: int| 0 <= i < s.len() ==> is_digit(#[trigger] s[i])
}

/// What one byte adds to a decimal number.
pub open spec fn digit_value(b: u8) -> nat {
    if is_digit(b) {
        (b - 0x30) as nat
    } else {
        0
    }
}

/// The number that a run of decimal digits denotes.
pub open spec fn digits_value(s: Seq<u8>) -> nat
    decreases s.len(),
{
    if s.len() == 0 {
        0
    } else {
        digits_value(s.drop_last()) * 10 + digit_value(s.last())
    }
}

/// The digits of an unsigned number: the text without one leading `+`.
pub open spec fn unsigned_digits(s: Seq<u8>) -> Seq<u8> {
    if s.len() > 0 && s[0] == 0x2B {
        s.skip(1)
    } else {
        s
    }
}

/// The unsigned 32-bit number that a text denotes: an optional `+`, then at
/// least one decimal digit and nothing else, the value within range.
pub open spec fn parse_u32(s: Seq<u8>) -> Option<u32> {
    let d = unsigned_digits(s);
    if d.len() > 0 && all_digits(d) && digits_value(d) <= u32::MAX {
        Some(digits_value(d) as u32)
    } else {
        None
    }
}

/// The position of the first `.` in `s`, or the length of `s` where it has
/// none.
pub open spec fn first_dot(s: Seq<u8>) -> int
    decreases s.len(),
{
    if s.len() == 0 || s[0] == 0x2E {
        0
    } else {
        1 + first_dot(s.skip(1))
    }
}

/// The text without one trailing NUL.
pub open spec fn without_nul(s: Seq<u8>) -> Seq<u8> {
    if s.len() > 0 && s.last() == 0 {
        s.drop_last()
    } else {
        s
    }
}

/// The part of a version before its first `.`.
pub open spec fn major_part(version: Seq<u8>) -> Seq<u8> {
    version.take(first_dot(version))
}

/// Whether a product version, as text, is one that reports the designated
/// key: the text is UTF-8, and its major part denotes a number that is at
/// least the required one.
pub open spec fn version_supported(version: Seq<u8>) -> bool {
    &&& valid_utf8(version)
    &&& parse_u32(major_part(version)) matches Some(major)
    &&& major >= REQUIRED_MAJOR_VERSION
}

/// The version text in a buffer of which the system filled `written` bytes.
pub open spec fn version_text(buffer: Seq<u8>, written: int) -> Seq<u8> {
    without_nul(
        if 0 <= written < buffer.len() {
            buffer.take(written)
        } else {
            buffer
        },
    )
}

/// The value of a prefix never exceeds the value of the whole.
proof fn lemma_digits_value_grows(s: Seq<u8>, k: int)
    requires
        0 <= k <= s.len(),
    ensures
        digits_value(s.take(k)) <= digits_value(s),
    decreases s.len() - k,
{
    if k < s.len() {
        lemma_digits_value_grows(s.drop_last(), k);
        assert(s.drop_last().take(k) =~= s.take(k));
    } else {
        assert(s.take(k) =~= s);
    }
}

proof fn lemma_first_dot(s: Seq<u8>, i: int)
    requires
        0 <= i <= s.len(),
        forall|j: int| 0 <= j < i ==> #[trigger] s[j] != 0x2E,
        i == s.len() || s[i] == 0x2E,
    ensures
        first_dot(s) == i,
    decreases i,
{
    if i > 0 {
        let t = s.skip(1);
        assert(s[0] != 0x2E);
        assert forall|j: int| 0 <= j < i - 1 implies #[trigger] t[j] != 0x2E by {
            assert(t[j] == s[j + 1]);
        }
        lemma_first_dot(t, i - 1);
    }
}

/// `core::str::from_utf8` of the standard library, asked only whether it
/// accepts the bytes.  It accepts exactly the byte sequences that are
/// well-formed UTF-8.
#[verifier::external_body]
fn is_utf8(bytes: &[u8]) -> (valid: bool)
    ensures
        valid == valid_utf8(bytes@),
{
    core::str::from_utf8(bytes).is_ok()
}

/// Reads an unsigned 32-bit number.
pub fn parse_decimal_u32(text: &[u8]) -> (number: Option<u32>)
    ensures
        number == parse_u32(text@),
{
    let n = text.len();
    let start: usize = if n > 0 && text[0] == 0x2B {
        1
    } else {
        0
    };
    let ghost d = unsigned_digits(text@);
    assert(d =~= text@.skip(start as int));
    if start == n {
        return None;
    }
    let mut i: usize = start;
    let mut value: u64 = 0;
    assert(d.take(0) =~= Seq::<u8>::empty());
    while i < n
        invariant
            n == text.len(),
            start <= i <= n,
            d == text@.skip(start as int),
            d == unsigned_digits(text@),
            all_digits(d.take(i - start)),
            value == digits_value(d.take(i - start)),
            value <= u32::MAX,
        decreases n - i,
    {
        let b = text[i];
        let ghost seen = d.take(i - start);
        let ghost more = d.take(i + 1 - start);
        assert(more.drop_last() =~= seen);
        assert(more.last() == b);
        if b < 0x30 || b > 0x39 {
            assert(!is_digit(d[i - start]));
            return None;
        }
        value = value * 10 + (b - 0x30) as u64;
        assert(value == digits_value(more));
        if value > u32::MAX as u64 {
            proof {
                lemma_digits_value_grows(d, i + 1 - start);
            }
            return None;
        }
        assert forall|j: int| 0 <= j < more.len() implies is_digit(#[trigger] more[j]) by {
            if j < seen.len() {
                assert(more[j] == seen[j]);
            }
        }
        i += 1;
    }
    assert(d.take(n - start) =~= d);
    Some(value as u32)
}

/// Whether the size that the system reports for the product version can be
/// used: the call succeeded and the version is not empty.
pub fn version_size_known(status: i32, size: usize) -> (known: bool)
    ensures
        known == (status == 0 && size != 0),
{
    status == 0 && size != 0
}

/// Whether the operating system reports the designated key to monitors,
/// judged by its product version.  `status` is what reading the version
/// returned, `buffer` the bytes it was read into, `written` how many of them
/// the system says it wrote.
pub fn macos_supports_fn_globe_monitor(
    status: i32,
    buffer: &Vec<u8>,
    written: usize,
) -> (supported: bool)
    ensures
        supported == (status == 0 && version_supported(version_text(buffer@, written as int))),
{
    if status != 0 {
        return false;
    }
    let mut end: usize = if written < buffer.len() {
        written
    } else {
        buffer.len()
    };
    assert(buffer@.take(end as int) =~= if 0 <= written < buffer.len() {
        buffer@.take(written as int)
    } else {
        buffer@
    });
    if end > 0 && buffer[end - 1] == 0 {
        end = end - 1;
    }
    let version = slice_subrange(buffer.as_slice(), 0, end);
    assert(version@ =~= version_text(buffer@, written as int));
    if !is_utf8(version) {
        return false;
    }
    let mut dot: usize = 0;
    while dot < end && version[dot] != 0x2E
        invariant
            end == version@.len(),
            dot <= end,
            forall|j: int| 0 <= j < dot ==> #[trigger] version@[j] != 0x2E,
        decreases end - dot,
    {
        dot += 1;
    }
    proof {
        lemma_first_dot(version@, dot as int);
    }
    let major = slice_subrange(version, 0, dot);
    match parse_decimal_u32(major) {
        Some(number) => number >= REQUIRED_MAJOR_VERSION,
        None => false,
    }
}

} // verus!
