//! Bulk-throughput test logic: the command decode, the running statistics
//! and the one-packet send step of the IN-speed test.
use vstd::prelude::*;

use crate::regs::UsbRegisters;

verus! {

/// Number of polls the IN-FIFO idle wait is allowed before giving up: the
/// busy-wait is bounded so a wedged endpoint cannot hang the loop.
pub const FLUSH_POLL_BUDGET: usize = 100;

/// A host command steering the throughput test.
#[derive(Clone, Copy, Debug, PartialEq, Eq, Structural)]
pub enum TestCommand {
    /// Stop whatever test is running.
    Stop,
    /// Stream data to the host as fast as possible.
    In,
    /// Accept data from the host as fast as possible.
    Out,
    /// A recognized error marker.
    Error,
}

/// The command a byte from the host decodes to; unknown bytes stop the
/// test rather than fault.
pub open spec fn spec_test_command(value: u8) -> TestCommand {
    if value == 0x23 {
        TestCommand::In
    } else if value == 0x42 {
        TestCommand::Out
    } else if value == 0xff {
        TestCommand::Error
    } else {
        TestCommand::Stop
    }
}

impl From<u8> for TestCommand {
    /// Decodes a command byte; total over all 256 values.
    fn from(value: u8) -> (r: Self) {
        if value == 0x23 {
            TestCommand::In
        } else if value == 0x42 {
            TestCommand::Out
        } else if value == 0xff {
            TestCommand::Error
        } else {
            TestCommand::Stop
        }
    }
}

impl vstd::std_specs::convert::FromSpecImpl<u8> for TestCommand {
    open spec fn obeys_from_spec() -> bool {
        true
    }

    open spec fn from_spec(v: u8) -> TestCommand {
        spec_test_command(v)
    }
}

/// Running statistics of the throughput test.
#[derive(Clone, Copy, Debug, PartialEq, Eq, Structural)]
pub struct TestStats {
    pub max_queue_length: usize,
    pub max_write_time: usize,
    pub min_write_time: usize,
    pub max_flush_time: usize,
    pub min_flush_time: usize,
    pub write_count: usize,
    pub reset_count: usize,
}

/// The statistics `update_in` leaves behind: maxima raised, minima
/// lowered, and the reset counter stepped when a stale FIFO was flushed.
pub open spec fn spec_update_in(
    stats: TestStats,
    t_write: usize,
    t_flush: usize,
    did_reset: bool,
) -> TestStats {
    TestStats {
        max_write_time: if t_write > stats.max_write_time {
            t_write
        } else {
            stats.max_write_time
        },
        min_write_time: if t_write < stats.min_write_time {
            t_write
        } else {
            stats.min_write_time
        },
        max_flush_time: if t_flush > stats.max_flush_time {
            t_flush
        } else {
            stats.max_flush_time
        },
        min_flush_time: if t_flush < stats.min_flush_time {
            t_flush
        } else {
            stats.min_flush_time
        },
        reset_count: if did_reset {
            (stats.reset_count + 1) as usize
        } else {
            stats.reset_count
        },
        ..stats
    }
}

impl TestStats {
    /// Fresh statistics: counters at zero, minima at the ceiling so the
    /// first sample lowers them.
    pub fn new() -> (r: TestStats)
        ensures
            r == (TestStats {
                max_queue_length: 0,
                max_write_time: 0,
                min_write_time: usize::MAX,
                max_flush_time: 0,
                min_flush_time: usize::MAX,
                write_count: 0,
                reset_count: 0,
            }),
    {
        TestStats {
            max_queue_length: 0,
            max_write_time: 0,
            min_write_time: usize::MAX,
            max_flush_time: 0,
            min_flush_time: usize::MAX,
            write_count: 0,
            reset_count: 0,
        }
    }

    /// Forgets everything recorded so far.
    pub fn reset(&mut self)
        ensures
            *final(self) == (TestStats {
                max_queue_length: 0,
                max_write_time: 0,
                min_write_time: usize::MAX,
                max_flush_time: 0,
                min_flush_time: usize::MAX,
                write_count: 0,
                reset_count: 0,
            }),
    {
        *self = Self::new();
    }

    /// Folds one IN-test sample into the statistics.
    pub fn update_in(&mut self, t_write: usize, t_flush: usize, did_reset: bool)
        requires
            old(self).reset_count < usize::MAX,
        ensures
            *final(self) == spec_update_in(*old(self), t_write, t_flush, did_reset),
    {
        if t_write > self.max_write_time {
            self.max_write_time = t_write;
        }
        if t_write < self.min_write_time {
            self.min_write_time = t_write;
        }
        if t_flush > self.max_flush_time {
            self.max_flush_time = t_flush;
        }
        if t_flush < self.min_flush_time {
            self.min_flush_time = t_flush;
        }
        if did_reset {
            self.reset_count = self.reset_count + 1;
        }
    }

    /// Raises the recorded maximum queue length if this drain saw more.
    pub fn note_queue_length(&mut self, queue_length: usize)
        ensures
            *final(self) == (TestStats {
                max_queue_length: if queue_length > old(self).max_queue_length {
                    queue_length
                } else {
                    old(self).max_queue_length
                },
                ..*old(self)
            }),
    {
        if queue_length > self.max_queue_length {
            self.max_queue_length = queue_length;
        }
    }
}

/// Decides the next test command from a command packet: a one-byte packet
/// switches the test (resetting the statistics when one starts), anything
/// else is reported invalid and leaves the running command in place.
pub fn process_test_command(
    bytes_read: usize,
    first_byte: u8,
    test_stats: &mut TestStats,
    current: TestCommand,
) -> (next: TestCommand)
    ensures
        bytes_read == 1 && spec_test_command(first_byte) == TestCommand::In ==> next
            == TestCommand::In && *final(test_stats) == (TestStats {
            max_queue_length: 0,
            max_write_time: 0,
            min_write_time: usize::MAX,
            max_flush_time: 0,
            min_flush_time: usize::MAX,
            write_count: 0,
            reset_count: 0,
        }),
        bytes_read == 1 && spec_test_command(first_byte) == TestCommand::Out ==> next
            == TestCommand::Out && *final(test_stats) == (TestStats {
            max_queue_length: 0,
            max_write_time: 0,
            min_write_time: usize::MAX,
            max_flush_time: 0,
            min_flush_time: usize::MAX,
            write_count: 0,
            reset_count: 0,
        }),
        bytes_read == 1 && spec_test_command(first_byte) != TestCommand::In && spec_test_command(
            first_byte,
        ) != TestCommand::Out ==> next == TestCommand::Stop && *final(test_stats) == *old(
            test_stats,
        ),
        bytes_read != 1 ==> next == current && *final(test_stats) == *old(test_stats),
{
    let command = TestCommand::from(first_byte);
    if bytes_read == 1 {
        match command {
            TestCommand::In => {
                test_stats.reset();
                TestCommand::In
            },
            TestCommand::Out => {
                test_stats.reset();
                TestCommand::Out
            },
            _ => TestCommand::Stop,
        }
    } else {
        current
    }
}

/// Sends one buffer of test data to the host on bulk IN endpoint one, as
/// fast as possible: wait (bounded) for the transmit FIFO to drain, write
/// the whole buffer as one primed packet, and fold the sample into the
/// statistics.
///
/// The model has no cycle counter, so the write time is recorded as zero
/// and the flush time as the number of idle polls the bounded wait used.
pub fn test_in_speed(usb0: &mut UsbRegisters, test_data: &[u8], test_stats: &mut TestStats)
    requires
        old(usb0).wf(),
        old(test_stats).write_count < usize::MAX,
        old(test_stats).reset_count < usize::MAX,
    ensures
        final(usb0).wf(),
        final(usb0).sent_view() == old(usb0).sent_view().push((1u8, test_data@)),
        final(usb0).ep_in.fifo@ == Seq::<u8>::empty(),
        final(test_stats).write_count == old(test_stats).write_count + 1,
        *final(test_stats) == spec_update_in(
            (TestStats { write_count: (old(test_stats).write_count + 1) as usize, ..*old(test_stats) }),
            0,
            if old(usb0).ep_in.fifo@.len() == 0 {
                0
            } else {
                FLUSH_POLL_BUDGET as usize
            },
            old(usb0).ep_in.fifo@.len() > 0,
        ),
{
    let mut timeout: usize = FLUSH_POLL_BUDGET;
    while !usb0.in_is_idle() && timeout > 0
        invariant
            timeout <= FLUSH_POLL_BUDGET,
            *usb0 == *old(usb0),
            usb0.ep_in.fifo@.len() == 0 ==> timeout == FLUSH_POLL_BUDGET,
        decreases timeout,
    {
        timeout = timeout - 1;
    }
    let t_flush = FLUSH_POLL_BUDGET - timeout;
    let did_reset = usb0.write(1, test_data);
    self_update(test_stats, t_flush, did_reset);
    proof {
        assert(1u8 & 0xf == 1) by (bit_vector);
    }
}

/// Folds a completed send into the statistics: one more write, zero write
/// time, the given flush time.
fn self_update(test_stats: &mut TestStats, t_flush: usize, did_reset: bool)
    requires
        old(test_stats).write_count < usize::MAX,
        old(test_stats).reset_count < usize::MAX,
    ensures
        *final(test_stats) == spec_update_in(
            (TestStats {
                write_count: (old(test_stats).write_count + 1) as usize,
                ..*old(test_stats)
            }),
            0,
            t_flush,
            did_reset,
        ),
{
    test_stats.write_count = test_stats.write_count + 1;
    test_stats.update_in(0, t_flush, did_reset);
}

} // verus!
