//! Options of rolling windows, and the choice of the kernel that a rolling
//! aggregation runs.

use vstd::prelude::*;
use crate::duration::Duration;
use crate::error::{Reason, TemporalError};
use crate::range::ClosedWindow;
use crate::timezone::Zone;
use crate::units::TimeUnit;

verus! {

/// The options of a rolling aggregation, as a caller gives them.
#[derive(Debug)]
pub struct RollingOptions {
    /// The length of the window: a number of rows, or a duration.
    pub window_size: Duration,
    /// The number of values that a window must hold to give a result.
    pub min_periods: usize,
    /// Whether the label of a window is at its center.
    pub center: bool,
    /// The name of the column of instants that a window of a duration goes
    /// by.
    pub by: Option<String>,
    /// Which ends of a window of a duration belong to it.
    pub closed_window: Option<ClosedWindow>,
}

/// The options of a rolling aggregation, resolved against the data.
#[derive(Debug)]
pub struct RollingOptionsImpl {
    pub window_size: Duration,
    pub min_periods: usize,
    pub center: bool,
    /// The instants that a window of a duration goes by.
    pub by: Option<Vec<i64>>,
    pub tu: Option<TimeUnit>,
    pub tz: Option<Zone>,
    pub closed_window: Option<ClosedWindow>,
}

/// The options of a rolling aggregation over a fixed number of rows.
#[derive(Clone, Copy, Debug, PartialEq, Eq, Structural)]
pub struct RollingOptionsFixedWindow {
    pub window_size: usize,
    pub min_periods: usize,
    pub center: bool,
}

/// The window of three rows that the options start with.
pub open spec fn three_rows() -> Duration {
    Duration { months: 0, weeks: 0, days: 0, nsecs: 3, negative: false, parsed_int: true }
}

impl Default for RollingOptions {
    fn default() -> (r: RollingOptions)
        ensures
            r.window_size == three_rows(),
            r.min_periods == 1,
            !r.center,
            r.by is None,
            r.closed_window is None,
    {
        RollingOptions {
            window_size: Duration::new(3),
            min_periods: 1,
            center: false,
            by: None,
            closed_window: None,
        }
    }
}

impl Default for RollingOptionsImpl {
    fn default() -> (r: RollingOptionsImpl)
        ensures
            r.window_size == three_rows(),
            r.min_periods == 1,
            !r.center,
            r.by is None,
            r.tu is None,
            r.tz is None,
            r.closed_window is None,
    {
        RollingOptionsImpl {
            window_size: Duration::new(3),
            min_periods: 1,
            center: false,
            by: None,
            tu: None,
            tz: None,
            closed_window: None,
        }
    }
}

impl RollingOptionsImpl {
    /// The resolved options of a window of a number of rows: nothing to go
    /// by, no unit, no zone.
    pub fn from(options: RollingOptions) -> (r: RollingOptionsImpl)
        requires
            options.window_size.parsed_int,
        ensures
            r.window_size == options.window_size,
            r.min_periods == options.min_periods,
            r.center == options.center,
            r.by is None,
            r.tu is None,
            r.tz is None,
            r.closed_window is None,
    {
        RollingOptionsImpl {
            window_size: options.window_size,
            min_periods: options.min_periods,
            center: options.center,
            by: None,
            tu: None,
            tz: None,
            closed_window: None,
        }
    }
}

impl RollingOptionsFixedWindow {
    /// The number of rows that a duration of rows counts.
    pub open spec fn rows_of(window_size: Duration) -> usize {
        window_size.nsecs as usize
    }

    /// The options of a window of a number of rows.
    pub fn from(options: RollingOptions) -> (r: RollingOptionsFixedWindow)
        requires
            options.window_size.parsed_int,
            options.window_size.wf(),
            options.window_size.nsecs <= usize::MAX,
        ensures
            r == (RollingOptionsFixedWindow {
                window_size: Self::rows_of(options.window_size),
                min_periods: options.min_periods,
                center: options.center,
            }),
    {
        RollingOptionsFixedWindow {
            window_size: options.window_size.nsecs as usize,
            min_periods: options.min_periods,
            center: options.center,
        }
    }

    /// The options of a window of a number of rows, from resolved options.
    pub fn from_impl(options: &RollingOptionsImpl) -> (r: RollingOptionsFixedWindow)
        requires
            options.window_size.parsed_int,
            options.window_size.wf(),
            options.window_size.nsecs <= usize::MAX,
        ensures
            r == (RollingOptionsFixedWindow {
                window_size: Self::rows_of(options.window_size),
                min_periods: options.min_periods,
                center: options.center,
            }),
    {
        RollingOptionsFixedWindow {
            window_size: options.window_size.nsecs as usize,
            min_periods: options.min_periods,
            center: options.center,
        }
    }
}

/// A window cannot ask for more values than it holds.
pub fn check_input(window_size: usize, min_periods: usize) -> (r: Result<(), TemporalError>)
    ensures
        r is Ok <==> min_periods <= window_size,
        r matches Err(e) ==> e.reason == Reason::MinPeriodsExceedWindow && e.literal@.len() == 0,
{
    if min_periods <= window_size {
        Ok(())
    } else {
        Err(TemporalError::new(Reason::MinPeriodsExceedWindow))
    }
}

/// The kernel that a rolling aggregation runs.
#[derive(Clone, Copy, Debug, PartialEq, Eq, Structural)]
pub enum RollingKernel {
    /// There is no data: the result is empty.
    Empty,
    /// A window of a number of rows over data without nulls.
    Fixed(RollingOptionsFixedWindow),
    /// A window of a number of rows over data with nulls.
    FixedWithNulls(RollingOptionsFixedWindow),
    /// A window of a duration, over the instants that it goes by.
    Dynamic { window: Duration, closed: ClosedWindow, tu: TimeUnit },
}

/// The kernel for data of `len` values, `null_count` of them null, under
/// the options. Empty data needs no kernel. A window of rows must hold its
/// `min_periods`. A window of a duration must be positive.
pub open spec fn kernel_for(len: usize, null_count: usize, options: &RollingOptionsImpl) -> Result<
    RollingKernel,
    Reason,
> {
    if len == 0 {
        Ok(RollingKernel::Empty)
    } else if options.window_size.parsed_int {
        let fixed = RollingOptionsFixedWindow {
            window_size: RollingOptionsFixedWindow::rows_of(options.window_size),
            min_periods: options.min_periods,
            center: options.center,
        };
        if options.min_periods > fixed.window_size {
            Err(Reason::MinPeriodsExceedWindow)
        } else if null_count == 0 {
            Ok(RollingKernel::Fixed(fixed))
        } else {
            Ok(RollingKernel::FixedWithNulls(fixed))
        }
    } else if options.window_size.negative || options.window_size.spec_is_zero() {
        Err(Reason::NonPositiveWindow)
    } else {
        Ok(
            RollingKernel::Dynamic {
                window: options.window_size,
                closed: options.closed_window.unwrap(),
                tu: options.tu.unwrap(),
            },
        )
    }
}

/// Chooses the kernel of a rolling aggregation. A window of a duration is
/// only for data without nulls, and where it is positive its options must
/// say what it goes by, in which unit, and which of its ends belong to it.
pub fn rolling_agg(len: usize, null_count: usize, options: &RollingOptionsImpl) -> (r: Result<
    RollingKernel,
    TemporalError,
>)
    requires
        options.window_size.wf(),
        options.window_size.nsecs <= usize::MAX,
        len > 0 && !options.window_size.parsed_int ==> null_count == 0,
        len > 0 && !options.window_size.parsed_int && !options.window_size.negative
            && !options.window_size.spec_is_zero() ==> options.tu is Some && options.by is Some
            && options.closed_window is Some,
    ensures
        match r {
            Ok(kernel) => kernel_for(len, null_count, options) == Ok::<RollingKernel, Reason>(kernel),
            Err(e) => kernel_for(len, null_count, options) == Err::<RollingKernel, Reason>(e.reason)
                && e.literal@.len() == 0,
        },
{
    if len == 0 {
        return Ok(RollingKernel::Empty);
    }
    if options.window_size.parsed_int {
        let fixed = RollingOptionsFixedWindow::from_impl(options);
        match check_input(fixed.window_size, fixed.min_periods) {
            Err(e) => Err(e),
            Ok(()) => if null_count == 0 {
                Ok(RollingKernel::Fixed(fixed))
            } else {
                Ok(RollingKernel::FixedWithNulls(fixed))
            },
        }
    } else if options.window_size.negative || options.window_size.is_zero() {
        Err(TemporalError::new(Reason::NonPositiveWindow))
    } else {
        match (options.closed_window, options.tu) {
            (Some(closed), Some(tu)) => Ok(
                RollingKernel::Dynamic { window: options.window_size, closed, tu },
            ),
            _ => Err(TemporalError::new(Reason::NonPositiveWindow)),
        }
    }
}

} // verus!
