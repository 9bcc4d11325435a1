use vstd::prelude::*;

verus! {

#[verifier::external_type_specification]
#[verifier::external_body]
pub struct ExInstant(std::time::Instant);

/// Relies on std::time::Instant::now: an opaque point in time; nothing is
/// promised of it, the counter only compares it against later readings.
#[verifier::external_body]
fn instant_now() -> (r: std::time::Instant) {
    std::time::Instant::now()
}

/// Relies on std::time::Instant::elapsed: the time since the instant, as
/// an opaque duration; nothing is promised of its value.
#[verifier::external_body]
fn instant_elapsed(t: &std::time::Instant) -> (r: std::time::Duration) {
    t.elapsed()
}

/// Relies on std::time::Duration::as_millis: the duration in whole
/// milliseconds; the value depends on the clock, so nothing is promised.
#[verifier::external_body]
fn duration_as_millis(d: &std::time::Duration) -> (r: u128) {
    d.as_millis()
}

/// Counts frames and reports the count accumulated over each full second.
pub struct FpsCounter {
    pub last_time: std::time::Instant,
    pub counter: u32,
}

impl FpsCounter {
    /// A counter starting at zero, anchored at the present instant.
    pub fn new() -> (r: FpsCounter)
        ensures
            r.counter == 0,
    {
        FpsCounter { last_time: instant_now(), counter: 0 }
    }

    /// Registers one frame. When at least a second has passed since the
    /// last report the frame count restarts at zero and the accumulated
    /// count is handed back; otherwise the count only grows. Which of the
    /// two happens depends on the clock, but nothing else can: the count
    /// saturates instead of wrapping.
    pub fn update(&mut self) -> (r: Option<u32>)
        ensures
            match r {
                Some(c) => c == inc_sat(old(self).counter) && final(self).counter == 0,
                None => final(self).counter == inc_sat(old(self).counter),
            },
    {
        if self.counter < u32::MAX {
            self.counter = self.counter + 1;
        }
        let ms = duration_as_millis(&instant_elapsed(&self.last_time));
        if ms >= 1000 {
            let counter = self.counter;
            self.counter = 0;
            self.last_time = instant_now();
            Some(counter)
        } else {
            None
        }
    }
}

/// A frame count one larger, saturating at the type's maximum.
pub open spec fn inc_sat(c: u32) -> u32 {
    if c < u32::MAX {
        (c + 1) as u32
    } else {
        c
    }
}

} // verus!
