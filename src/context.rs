use vstd::prelude::*;

verus! {

/// Relies on `std::io::Error` only as an opaque value: the operating system
/// error that a failed initialization carries to the caller.
#[verifier::external_type_specification]
#[verifier::external_body]
pub struct ExIoError(std::io::Error);

/// Relies on `std::error::Error::description` of `std::io::Error`: a short
/// text describing the error.
#[verifier::external_body]
#[allow(deprecated)]
fn io_error_description(e: &std::io::Error) -> &str {
    std::error::Error::description(e)
}

/// Evidence that the native font library was started by this process, to be
/// shut down once it is no longer needed.
#[must_use]
pub struct Sdl2TtfContext;

/// Why the native font library could not be started.
#[derive(Debug)]
pub enum InitError {
    /// Starting the library failed, with the operating system's error.
    InitializationError(std::io::Error),
    /// The library was already started: it must not be started twice.
    AlreadyInitializedError,
}

/// Whether the native library's initialization count says it is started.
pub open spec fn initialized(was_init: i32) -> bool {
    was_init == 1
}

/// Reads the native library's initialization count.
pub fn has_been_initialized(was_init: i32) -> (r: bool)
    ensures
        r == initialized(was_init),
{
    was_init == 1
}

/// The first step of starting the library, given its initialization count:
/// refuses with `AlreadyInitializedError` when it is started already, and
/// otherwise lets the caller start it.
pub fn init_check(was_init: i32) -> (r: Result<(), InitError>)
    ensures
        initialized(was_init) ==> r matches Err(InitError::AlreadyInitializedError),
        !initialized(was_init) ==> r is Ok,
{
    if has_been_initialized(was_init) {
        Err(InitError::AlreadyInitializedError)
    } else {
        Ok(())
    }
}

/// The last step of starting the library, given the status the native start
/// returned and the operating system's error at that moment: a context on
/// status zero, else that error.
pub fn init_finish(init_status: i32, os_error: std::io::Error) -> (r: Result<
    Sdl2TtfContext,
    InitError,
>)
    ensures
        init_status == 0 <==> r is Ok,
        init_status != 0 ==> r == Err::<Sdl2TtfContext, InitError>(
            InitError::InitializationError(os_error),
        ),
{
    if init_status == 0 {
        Ok(Sdl2TtfContext)
    } else {
        Err(InitError::InitializationError(os_error))
    }
}

impl InitError {
    /// A short description of the error.
    pub fn description(&self) -> (r: &str)
        ensures
            self is AlreadyInitializedError ==> r@ == "SDL2_TTF has already been initialized"@,
    {
        match self {
            InitError::AlreadyInitializedError => "SDL2_TTF has already been initialized",
            InitError::InitializationError(e) => io_error_description(e),
        }
    }

    /// The underlying operating system error, if there is one.
    pub fn cause(&self) -> (r: Option<&std::io::Error>)
        ensures
            match self {
                InitError::AlreadyInitializedError => r is None,
                InitError::InitializationError(e) => r == Some(e),
            },
    {
        match self {
            InitError::AlreadyInitializedError => None,
            InitError::InitializationError(e) => Some(e),
        }
    }

    /// The text shown to a user for this error.
    pub fn to_string(&self) -> (r: String)
        ensures
            r@ == "SDL2_TTF has already been initialized"@,
    {
        "SDL2_TTF has already been initialized".to_owned()
    }
}

} // verus!
