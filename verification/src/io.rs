use vstd::prelude::*;

verus! {

/// Errors of the device bus.
#[derive(Debug, Clone)]
pub enum e_IO {
    FailedToRegisterDevice(String),
    FailedToUnregisterDevice(String),
    UnableToGetDBUS(String),
    ShutdownNotReady(String),
    Custom(String),
}

/// Result of a device-bus operation.
pub type r_IO<T> = Result<T, e_IO>;

impl e_IO {
    /// The header line that introduces the message of this kind of error.
    pub open spec fn spec_header(&self) -> Seq<char> {
        match self {
            e_IO::FailedToRegisterDevice(_) => "[IO ERROR: Failed to register a device interface to DBUS]\n"@,
            e_IO::FailedToUnregisterDevice(_) => "[IO ERROR: Failed to unregister a device interface to DBUS]\n"@,
            e_IO::UnableToGetDBUS(_) => "[IO ERROR: Failed to capture the DBUS]\n"@,
            e_IO::Custom(_) => "[IO ERROR: Custom Error]\n"@,
            e_IO::ShutdownNotReady(_) => "[IO ERROR: Dbus is busy can't Shutdown]\n"@,
        }
    }

    /// The diagnostic text carried by the error.
    pub open spec fn spec_detail(&self) -> Seq<char> {
        match self {
            e_IO::FailedToRegisterDevice(x) => x@,
            e_IO::FailedToUnregisterDevice(x) => x@,
            e_IO::UnableToGetDBUS(x) => x@,
            e_IO::Custom(x) => x@,
            e_IO::ShutdownNotReady(x) => x@,
        }
    }

    /// The human-readable message: the header line followed by the detail.
    pub fn to_string(&self) -> (s: String)
        ensures
            s@ == self.spec_header() + self.spec_detail(),
    {
        let (header, detail) = match self {
            e_IO::FailedToRegisterDevice(x) => ("[IO ERROR: Failed to register a device interface to DBUS]\n", x),
            e_IO::FailedToUnregisterDevice(x) => ("[IO ERROR: Failed to unregister a device interface to DBUS]\n", x),
            e_IO::UnableToGetDBUS(x) => ("[IO ERROR: Failed to capture the DBUS]\n", x),
            e_IO::Custom(x) => ("[IO ERROR: Custom Error]\n", x),
            e_IO::ShutdownNotReady(x) => ("[IO ERROR: Dbus is busy can't Shutdown]\n", x),
        };
        String::from_str(header).concat(detail.as_str())
    }
}

} // verus!
