use vstd::prelude::*;

verus! {

/// An error of the hardware or operating system layer.
#[derive(Clone, Debug, PartialEq, Eq)]
pub enum Error {
    /// A call failed with this error code.
    Os(i32),
    /// A call failed without an error code; the text says which.
    Custom(String),
}

/// An error that carries the code `errno`.
pub fn from_errno(errno: i32) -> (r: Error)
    ensures
        r == Error::Os(errno),
{
    Error::Os(errno)
}

/// An error described by `msg` alone.
pub fn custom_error(msg: &str) -> (r: Error)
    ensures
        r matches Error::Custom(s) && s@ == msg@,
{
    Error::Custom(msg.to_owned())
}

/// Relies on std's `io::Error::last_os_error`: the error code that the last
/// failed call of this thread left behind, read back with `raw_os_error`,
/// which std documents to be present for an error made this way.
#[verifier::external_body]
fn last_os_errno() -> (r: Option<i32>)
    ensures
        r is Some,
{
    std::io::Error::last_os_error().raw_os_error()
}

/// The error that the last failed call of this thread left behind.
pub fn last_error() -> (r: Error)
    ensures
        r is Os,
{
    match last_os_errno() {
        Some(errno) => from_errno(errno),
        None => from_errno(0),
    }
}

/// The outcome of a call that creates a resource: the new handle, which a
/// null handle (zero) is not; else the error code that the call left
/// behind, or, when it left none, an error described by `msg`.
pub fn create_resource(handle: u64, errno: i32, msg: &str) -> (r: Result<u64, Error>)
    ensures
        handle != 0 ==> r == Ok::<u64, Error>(handle),
        handle == 0 && errno != 0 ==> r == Err::<u64, Error>(Error::Os(errno)),
        handle == 0 && errno == 0 ==> (r matches Err(Error::Custom(s)) && s@ == msg@),
{
    if handle != 0 {
        Ok(handle)
    } else if errno != 0 {
        Err(from_errno(errno))
    } else {
        Err(custom_error(msg))
    }
}

/// The outcome of a call that returns zero on success and an error code
/// otherwise.
pub fn check_ret(ret: i32) -> (r: Result<(), Error>)
    ensures
        ret == 0 ==> r == Ok::<(), Error>(()),
        ret != 0 ==> r == Err::<(), Error>(Error::Os(ret)),
{
    if ret != 0 {
        Err(from_errno(ret))
    } else {
        Ok(())
    }
}

} // verus!
