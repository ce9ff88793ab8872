use vstd::prelude::*;

verus! {

/// Hardware shape of the guest machine a suite runs on.
#[derive(Clone, Copy, Debug, PartialEq, Eq, Structural)]
pub struct Topology {
    pub sockets: u8,
    pub llcs_per_socket: u8,
    pub cores_per_llc: u8,
    pub threads_per_core: u8,
}

/// Number of sockets when a suite leaves it out.
pub const DEFAULT_SOCKETS: u8 = 1;
/// Number of last-level caches per socket when a suite leaves it out.
pub const DEFAULT_LLCS_PER_SOCKET: u8 = 1;
/// Number of cores per last-level cache when a suite leaves it out.
pub const DEFAULT_CORES_PER_LLC: u8 = 2;
/// Number of hardware threads per core when a suite leaves it out.
pub const DEFAULT_THREADS_PER_CORE: u8 = 2;

impl Topology {
    /// The CPU count that a topology describes, as a mathematical integer.
    pub open spec fn spec_num_cpus(&self) -> int {
        self.sockets as int * self.llcs_per_socket as int * self.cores_per_llc as int
    }

    /// Builds a topology from the fields a suite gave, with the defaults for
    /// those it left out.
    pub fn from_parts(
        sockets: Option<u8>,
        llcs_per_socket: Option<u8>,
        cores_per_llc: Option<u8>,
        threads_per_core: Option<u8>,
    ) -> (t: Topology)
        ensures
            t.sockets == (match sockets { Some(v) => v, None => DEFAULT_SOCKETS }),
            t.llcs_per_socket == (match llcs_per_socket { Some(v) => v, None => DEFAULT_LLCS_PER_SOCKET }),
            t.cores_per_llc == (match cores_per_llc { Some(v) => v, None => DEFAULT_CORES_PER_LLC }),
            t.threads_per_core == (match threads_per_core { Some(v) => v, None => DEFAULT_THREADS_PER_CORE }),
    {
        Topology {
            sockets: match sockets { Some(v) => v, None => DEFAULT_SOCKETS },
            llcs_per_socket: match llcs_per_socket { Some(v) => v, None => DEFAULT_LLCS_PER_SOCKET },
            cores_per_llc: match cores_per_llc { Some(v) => v, None => DEFAULT_CORES_PER_LLC },
            threads_per_core: match threads_per_core { Some(v) => v, None => DEFAULT_THREADS_PER_CORE },
        }
    }

    /// Number of CPUs: sockets times caches per socket times cores per cache.
    pub fn num_cpus(&self) -> (n: u8)
        requires
            self.spec_num_cpus() <= u8::MAX,
        ensures
            n as int == self.spec_num_cpus(),
    {
        let a: u32 = self.sockets as u32;
        let b: u32 = self.llcs_per_socket as u32;
        assert(a * b <= 255 * 255) by (nonlinear_arith)
            requires a <= 255, b <= 255;
        let ab: u32 = a * b;
        assert(ab * (self.cores_per_llc as u32) <= 255 * 255 * 255) by (nonlinear_arith)
            requires ab <= 255 * 255, self.cores_per_llc <= 255;
        let abc: u32 = ab * self.cores_per_llc as u32;
        abc as u8
    }
}

} // verus!
