//! What attaching and detaching through libxdp have in common.

use vstd::prelude::*;

verus! {

/// Where an XDP program is hooked in. The dispatcher has no hardware offload.
#[derive(Clone, Copy, Debug, PartialEq, Eq, Structural)]
pub enum DriverMode {
    /// In the network driver.
    Native,
    /// In the generic socket buffer path.
    Skb,
}

impl DriverMode {
    /// The short name of the mode in log lines.
    pub open spec fn label_text(self) -> Seq<char> {
        match self {
            DriverMode::Native => "DRV"@,
            DriverMode::Skb => "SKB"@,
        }
    }

    /// The short name of the mode in log lines.
    pub fn label(&self) -> (res: &'static str)
        ensures
            res@ == self.label_text(),
            *self == DriverMode::Native ==> res@ == "DRV"@,
            *self == DriverMode::Skb ==> res@ == "SKB"@,
    {
        match self {
            DriverMode::Native => "DRV",
            DriverMode::Skb => "SKB",
        }
    }
}

/// The largest error number that a pointer can stand for.
pub const MAX_ERRNO: isize = 4095;

/// Whether an address stands for an error: as in the Linux kernel, the last
/// addresses hold negated error numbers.
pub open spec fn is_err_address(address: isize) -> bool {
    -MAX_ERRNO <= address <= -1
}

/// Whether an address is that of a program that libxdp handed out.
pub open spec fn is_program_address(address: isize) -> bool {
    address != 0 && !is_err_address(address)
}

/// The error number that a pointer returned by libxdp stands for, if it does
/// stand for one. A null pointer does not.
pub fn err_ptr(address: isize) -> (res: Option<i32>)
    ensures
        res == (if is_err_address(address) {
            Some((-address) as i32)
        } else {
            None
        }),
        address >= 0 || address < -4095 ==> res is None,
        -4095 <= address < 0 ==> (res matches Some(errno) && errno == -address),
{
    if address < 0 && address >= -MAX_ERRNO {
        Some((-address) as i32)
    } else {
        None
    }
}

/// An interface index as a C `int`, which keeps its lower 32 bits.
pub open spec fn c_ifindex(ifindex: u32) -> int {
    if ifindex <= i32::MAX {
        ifindex as int
    } else {
        ifindex - 0x1_0000_0000
    }
}

/// An interface index as a C `int`.
pub fn to_c_ifindex(ifindex: u32) -> (res: i32)
    ensures
        res == c_ifindex(ifindex),
        ifindex <= 2147483647 ==> res == ifindex,
        ifindex > 2147483647 ==> res == ifindex - 4294967296,
{
    assert(ifindex > 0x7fff_ffff ==> (ifindex as i32) == ifindex - 0x1_0000_0000) by (bit_vector);
    #[verifier::truncate]
    (ifindex as i32)
}

/// An error number and an address determine each other: every error number
/// from 1 to 4095 is read back from the address it is stored in.
pub proof fn law_err_address_round_trip(errno: int)
    requires
        1 <= errno <= MAX_ERRNO,
    ensures
        is_err_address((-errno) as isize),
        -((-errno) as isize) == errno,
        !is_program_address((-errno) as isize),
{
}

/// The addresses from -4095 to -1 stand for errors. Null is neither an error nor
/// a program, and every other address is that of a program.
pub proof fn law_addresses(address: isize)
    ensures
        is_err_address(address) <==> -4095 <= address < 0,
        is_program_address(address) <==> address > 0 || address < -4095,
{
}

/// An interface index that a C `int` can hold is handed on as it is; a larger
/// one keeps its value modulo the range of a C `int`. So no two interfaces are
/// taken for each other.
pub proof fn law_interfaces_stay_apart(ifindex: u32, other: u32)
    ensures
        ifindex <= 2147483647 ==> c_ifindex(ifindex) == ifindex,
        ifindex > 2147483647 ==> c_ifindex(ifindex) == ifindex - 4294967296,
        c_ifindex(ifindex) == c_ifindex(other) ==> ifindex == other,
{
}

} // verus!
