//! The data of a snapshot of the host: processor time, block devices,
//! sockets, and measurements that take time.

use std::ops::Sub;
use vstd::prelude::*;

verus! {

/// `std::io::Error`, what a failed reading gives. Nothing is known of what
/// is inside.
#[verifier::external_type_specification]
#[verifier::external_body]
pub struct ExIoError(std::io::Error);

/// `l` less `r` bytes, and none where `r` is the larger.
pub open spec fn spec_saturating_sub_bytes(l: u64, r: u64) -> u64 {
    if l >= r {
        (l - r) as u64
    } else {
        0
    }
}

#[verifier::when_used_as_spec(spec_saturating_sub_bytes)]
pub fn saturating_sub_bytes(l: u64, r: u64) -> (left: u64)
    ensures
        left == spec_saturating_sub_bytes(l, r),
{
    if l >= r {
        l - r
    } else {
        0
    }
}

/// A measurement that takes time: time should pass between getting it and
/// calling `done` on it. `F` is what reads the result.
#[verifier::reject_recursive_types(T)]
pub struct DelayedMeasurement<T, F: Fn() -> Result<T, std::io::Error>> {
    res: F,
    measured: core::marker::PhantomData<T>,
}

impl<T, F: Fn() -> Result<T, std::io::Error>> DelayedMeasurement<T, F> {
    /// What reads the result.
    pub closed spec fn reader(&self) -> F {
        self.res
    }

    /// A measurement whose result `f` will read.
    pub fn new(f: F) -> (measurement: DelayedMeasurement<T, F>)
        ensures
            measurement.reader() == f,
    {
        DelayedMeasurement { res: f, measured: core::marker::PhantomData }
    }

    /// Reads the result.
    pub fn done(&self) -> (result: Result<T, std::io::Error>)
        requires
            call_requires(self.reader(), ()),
        ensures
            call_ensures(self.reader(), (), result),
    {
        (self.res)()
    }
}

/// Processor time, in ticks, by what it was spent on.
#[derive(Clone, Copy, Debug, PartialEq, Eq)]
pub struct CpuTime {
    pub user: usize,
    pub nice: usize,
    pub system: usize,
    pub interrupt: usize,
    pub idle: usize,
    pub other: usize,
}

/// `a` less `b`, and nothing where `b` is the larger.
pub open spec fn less(a: usize, b: usize) -> usize {
    if a >= b {
        (a - b) as usize
    } else {
        0
    }
}

fn ticks_less(a: usize, b: usize) -> (left: usize)
    ensures
        left == less(a, b),
{
    if a >= b {
        a - b
    } else {
        0
    }
}

impl<'a> Sub<&'a CpuTime> for CpuTime {
    type Output = CpuTime;

    /// The time spent since `rhs` was read, kind by kind; nothing for a
    /// kind whose count went backwards.
    fn sub(self, rhs: &CpuTime) -> (spent: CpuTime) {
        CpuTime {
            user: ticks_less(self.user, rhs.user),
            nice: ticks_less(self.nice, rhs.nice),
            system: ticks_less(self.system, rhs.system),
            interrupt: ticks_less(self.interrupt, rhs.interrupt),
            idle: ticks_less(self.idle, rhs.idle),
            other: ticks_less(self.other, rhs.other),
        }
    }
}

impl<'a> vstd::std_specs::ops::SubSpecImpl<&'a CpuTime> for CpuTime {
    open spec fn obeys_sub_spec() -> bool {
        true
    }

    open spec fn sub_req(self, rhs: &'a CpuTime) -> bool {
        true
    }

    open spec fn sub_spec(self, rhs: &'a CpuTime) -> CpuTime {
        CpuTime {
            user: less(self.user, rhs.user),
            nice: less(self.nice, rhs.nice),
            system: less(self.system, rhs.system),
            interrupt: less(self.interrupt, rhs.interrupt),
            idle: less(self.idle, rhs.idle),
            other: less(self.other, rhs.other),
        }
    }
}

impl CpuTime {
    /// All the time together.
    pub open spec fn sum(self) -> int {
        self.user + self.nice + self.system + self.interrupt + self.idle + self.other
    }

    /// All the time together, if the sum can be held.
    pub fn total(&self) -> (total: Option<usize>)
        ensures
            total is Some <==> self.sum() <= usize::MAX,
            total matches Some(t) ==> t == self.sum(),
    {
        let a = self.user.checked_add(self.nice)?;
        let b = a.checked_add(self.system)?;
        let c = b.checked_add(self.interrupt)?;
        let d = c.checked_add(self.idle)?;
        d.checked_add(self.other)
    }
}

/// The counters of one block device.
#[derive(Clone, Debug, PartialEq, Eq)]
pub struct BlockDeviceStats {
    pub name: String,
    pub read_ios: usize,
    pub read_merges: usize,
    pub read_sectors: usize,
    pub read_ticks: usize,
    pub write_ios: usize,
    pub write_merges: usize,
    pub write_sectors: usize,
    pub write_ticks: usize,
    pub in_flight: usize,
    pub io_ticks: usize,
    pub time_in_queue: usize,
}

/// How many sockets are in use.
#[derive(Clone, Copy, Debug, PartialEq, Eq)]
pub struct SocketStats {
    pub tcp_sockets_in_use: usize,
    pub tcp_sockets_orphaned: usize,
    pub udp_sockets_in_use: usize,
    pub tcp6_sockets_in_use: usize,
    pub udp6_sockets_in_use: usize,
}

} // verus!
