//! Stream configuration: frame-rate cap, buffering and cursor visibility.

use vstd::prelude::*;
use crate::error::Error;

verus! {

/// The largest number of undelivered frames a stream may be asked to buffer.
pub const MAX_QUEUE_DEPTH: u32 = 8;

/// Whether the three numbers describe a configuration that may exist: a
/// positive frame interval `numerator / denominator` seconds and a queue depth
/// between one and `MAX_QUEUE_DEPTH`.
pub open spec fn valid_parameters(numerator: i64, denominator: i32, queue_depth: u32) -> bool {
    &&& numerator > 0
    &&& denominator > 0
    &&& 1 <= queue_depth <= MAX_QUEUE_DEPTH
}

/// Capture parameters of one stream. A value of this type is always valid and
/// cannot be changed once made.
#[derive(Debug, Clone, Copy, PartialEq, Eq)]
pub struct StreamConfig {
    interval_numerator: i64,
    interval_denominator: i32,
    queue_depth: u32,
    show_cursor: bool,
}

impl StreamConfig {
    #[verifier::type_invariant]
    spec fn well_formed(self) -> bool {
        valid_parameters(self.interval_numerator, self.interval_denominator, self.queue_depth)
    }

    /// Numerator of the minimum frame interval, in seconds.
    pub closed spec fn spec_interval_numerator(self) -> i64 {
        self.interval_numerator
    }

    /// Denominator of the minimum frame interval.
    pub closed spec fn spec_interval_denominator(self) -> i32 {
        self.interval_denominator
    }

    /// Number of frames that may wait undelivered.
    pub closed spec fn spec_queue_depth(self) -> u32 {
        self.queue_depth
    }

    /// Whether the cursor is drawn into captured frames.
    pub closed spec fn spec_show_cursor(self) -> bool {
        self.show_cursor
    }

    /// Makes a configuration with a minimum frame interval of
    /// `numerator / denominator` seconds. Parameters that break the invariant
    /// are refused here, before any stream is asked for.
    pub fn new(numerator: i64, denominator: i32, queue_depth: u32, show_cursor: bool) -> (made:
        Result<StreamConfig, Error>)
        ensures
            valid_parameters(numerator, denominator, queue_depth) ==> {
                &&& made matches Ok(config)
                &&& config.spec_interval_numerator() == numerator
                &&& config.spec_interval_denominator() == denominator
                &&& config.spec_queue_depth() == queue_depth
                &&& config.spec_show_cursor() == show_cursor
            },
            !valid_parameters(numerator, denominator, queue_depth) ==> made == Err::<
                StreamConfig,
                Error,
            >(Error::StreamCreationFailed),
    {
        if numerator > 0 && denominator > 0 && 1 <= queue_depth && queue_depth <= MAX_QUEUE_DEPTH {
            Ok(
                StreamConfig {
                    interval_numerator: numerator,
                    interval_denominator: denominator,
                    queue_depth,
                    show_cursor,
                },
            )
        } else {
            Err(Error::StreamCreationFailed)
        }
    }

    /// Numerator of the minimum frame interval; always positive.
    pub fn interval_numerator(&self) -> (numerator: i64)
        ensures
            numerator == self.spec_interval_numerator(),
            numerator > 0,
    {
        proof {
            use_type_invariant(self);
        }
        self.interval_numerator
    }

    /// Denominator of the minimum frame interval; always positive.
    pub fn interval_denominator(&self) -> (denominator: i32)
        ensures
            denominator == self.spec_interval_denominator(),
            denominator > 0,
    {
        proof {
            use_type_invariant(self);
        }
        self.interval_denominator
    }

    /// Queue depth; always between one and `MAX_QUEUE_DEPTH`.
    pub fn queue_depth(&self) -> (depth: u32)
        ensures
            depth == self.spec_queue_depth(),
            1 <= depth <= MAX_QUEUE_DEPTH,
    {
        proof {
            use_type_invariant(self);
        }
        self.queue_depth
    }

    /// Whether the cursor is drawn into captured frames.
    pub fn show_cursor(&self) -> (shown: bool)
        ensures
            shown == self.spec_show_cursor(),
    {
        self.show_cursor
    }
}

} // verus!
