use vstd::prelude::*;
use vstd::string::StringExecFns;

verus! {

/// The number of a status that has no name of its own: always 10 or more, so
/// that no number spells two statuses.
#[derive(Clone, Copy, Debug, PartialEq, Eq, Structural)]
pub struct OtherCode {
    code: u8,
}

impl OtherCode {
    /// The number is never that of a named status.
    #[verifier::type_invariant]
    spec fn inv(self) -> bool {
        self.code >= 10
    }

    /// The number of this status.
    pub closed spec fn spec_code(self) -> u8 {
        self.code
    }

    /// The number of this status.
    pub fn code(&self) -> (r: u8)
        ensures
            r == self.spec_code(),
            r >= 10,
    {
        proof {
            use_type_invariant(self);
        }
        self.code
    }

    /// Codes of unnamed statuses are equal when their numbers are.
    pub proof fn code_injective(a: OtherCode, b: OtherCode)
        requires
            a.spec_code() == b.spec_code(),
        ensures
            a == b,
    {
    }
}

/// A result code reported by the device driver.
#[allow(non_camel_case_types)]
#[derive(Clone, Copy, Debug, PartialEq, Eq, Structural)]
pub enum DeviceError {
    OK,
    NOTCONNECTED,
    USBBUSY,
    NODEVICES,
    CARTFINDFAIL,
    CANTOPEN,
    CLOSEFAIL,
    READFAIL,
    WRITEFAIL,
    MALLOCFAIL,
    /// Any further code that the driver defines, kept by its number.
    Other(OtherCode),
}

/// The number by which the driver reports a status.
pub open spec fn status_code(e: DeviceError) -> u8 {
    match e {
        DeviceError::OK => 0,
        DeviceError::NOTCONNECTED => 1,
        DeviceError::USBBUSY => 2,
        DeviceError::NODEVICES => 3,
        DeviceError::CARTFINDFAIL => 4,
        DeviceError::CANTOPEN => 5,
        DeviceError::CLOSEFAIL => 6,
        DeviceError::READFAIL => 7,
        DeviceError::WRITEFAIL => 8,
        DeviceError::MALLOCFAIL => 9,
        DeviceError::Other(o) => o.spec_code(),
    }
}

/// A status as a value of the type can hold it: an unnamed status's number is
/// 10 or more.
pub open spec fn status_wf(e: DeviceError) -> bool {
    e matches DeviceError::Other(o) ==> o.spec_code() >= 10
}

/// The status that the driver means by a number.
pub closed spec fn status_of_code(v: u8) -> DeviceError {
    if v == 0 {
        DeviceError::OK
    } else if v == 1 {
        DeviceError::NOTCONNECTED
    } else if v == 2 {
        DeviceError::USBBUSY
    } else if v == 3 {
        DeviceError::NODEVICES
    } else if v == 4 {
        DeviceError::CARTFINDFAIL
    } else if v == 5 {
        DeviceError::CANTOPEN
    } else if v == 6 {
        DeviceError::CLOSEFAIL
    } else if v == 7 {
        DeviceError::READFAIL
    } else if v == 8 {
        DeviceError::WRITEFAIL
    } else if v == 9 {
        DeviceError::MALLOCFAIL
    } else {
        DeviceError::Other(OtherCode { code: v })
    }
}

impl DeviceError {
    /// The status's number, for display.
    pub fn value(&self) -> (r: u8)
        ensures
            r == status_code(*self),
            status_wf(*self),
    {
        match *self {
            DeviceError::OK => 0,
            DeviceError::NOTCONNECTED => 1,
            DeviceError::USBBUSY => 2,
            DeviceError::NODEVICES => 3,
            DeviceError::CARTFINDFAIL => 4,
            DeviceError::CANTOPEN => 5,
            DeviceError::CLOSEFAIL => 6,
            DeviceError::READFAIL => 7,
            DeviceError::WRITEFAIL => 8,
            DeviceError::MALLOCFAIL => 9,
            DeviceError::Other(o) => o.code(),
        }
    }

    /// The status that a number reported by the driver stands for.
    pub fn from_value(v: u8) -> (r: DeviceError)
        ensures
            r == status_of_code(v),
            status_code(r) == v,
            status_wf(r),
    {
        match v {
            0 => DeviceError::OK,
            1 => DeviceError::NOTCONNECTED,
            2 => DeviceError::USBBUSY,
            3 => DeviceError::NODEVICES,
            4 => DeviceError::CARTFINDFAIL,
            5 => DeviceError::CANTOPEN,
            6 => DeviceError::CLOSEFAIL,
            7 => DeviceError::READFAIL,
            8 => DeviceError::WRITEFAIL,
            9 => DeviceError::MALLOCFAIL,
            _ => DeviceError::Other(OtherCode { code: v }),
        }
    }
}

/// A status is identified by its number: two statuses with one number are
/// the same status.
pub proof fn status_code_identifies(a: DeviceError, b: DeviceError)
    requires
        status_wf(a),
        status_wf(b),
        status_code(a) == status_code(b),
    ensures
        a == b,
{
    if let (DeviceError::Other(x), DeviceError::Other(y)) = (a, b) {
        OtherCode::code_injective(x, y);
    }
}

/// A number read as a status and written back is itself; the status is one
/// the type can hold.
pub proof fn status_code_round_trip(v: u8)
    ensures
        status_code(status_of_code(v)) == v,
        status_wf(status_of_code(v)),
{
}

/// Every status is the one that its number stands for.
pub proof fn status_of_own_code(e: DeviceError)
    requires
        status_wf(e),
    ensures
        status_of_code(status_code(e)) == e,
{
    if let DeviceError::Other(x) = e {
        OtherCode::code_injective(x, OtherCode { code: x.spec_code() });
    }
}

/// The family of the attached cartridge.
#[allow(non_camel_case_types)]
#[derive(Clone, Copy, Debug, PartialEq, Eq, Structural)]
pub enum CartType {
    NONE,
    _64DRIVE1,
    _64DRIVE2,
    EVERDRIVE,
    SC64,
    GOPHER64,
}

/// The number by which the driver reports a cartridge family.
pub open spec fn cart_code(c: CartType) -> u8 {
    match c {
        CartType::NONE => 0,
        CartType::_64DRIVE1 => 1,
        CartType::_64DRIVE2 => 2,
        CartType::EVERDRIVE => 3,
        CartType::SC64 => 4,
        CartType::GOPHER64 => 5,
    }
}

impl CartType {
    /// The cartridge family that a number reported by the driver stands for,
    /// or `None` for a number that names none.
    pub fn from_code(v: u8) -> (r: Option<CartType>)
        ensures
            v <= 5 <==> r.is_some(),
            r matches Some(c) ==> cart_code(c) == v,
    {
        match v {
            0 => Some(CartType::NONE),
            1 => Some(CartType::_64DRIVE1),
            2 => Some(CartType::_64DRIVE2),
            3 => Some(CartType::EVERDRIVE),
            4 => Some(CartType::SC64),
            5 => Some(CartType::GOPHER64),
            _ => None,
        }
    }
}

/// The human-readable name of a cartridge family.
pub open spec fn cart_name(c: CartType) -> Seq<char> {
    match c {
        CartType::NONE => "None"@,
        CartType::_64DRIVE1 => "64Drive HW1"@,
        CartType::_64DRIVE2 => "64Drive HW2"@,
        CartType::EVERDRIVE => "Everdrive (X7 or V3)"@,
        CartType::SC64 => "Summercart64"@,
        CartType::GOPHER64 => "Gopher64"@,
    }
}

/// The name of a cartridge family, for the status line.
pub fn cart_type_to_str(cart: CartType) -> (r: String)
    ensures
        r@ == cart_name(cart),
{
    let name: &str = match cart {
        CartType::NONE => "None",
        CartType::_64DRIVE1 => "64Drive HW1",
        CartType::_64DRIVE2 => "64Drive HW2",
        CartType::EVERDRIVE => "Everdrive (X7 or V3)",
        CartType::SC64 => "Summercart64",
        CartType::GOPHER64 => "Gopher64",
    };
    String::from_str(name)
}

} // verus!
