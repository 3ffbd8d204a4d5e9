//! Errors of the driver: each carries the error of the hardware part that failed.
use vstd::prelude::*;
use vstd::std_specs::convert::FromSpecImpl;

verus! {

/// An error of the whole driver.
#[derive(Debug)]
pub enum Error<SPIError, DCError, RSTError, BSYError> {
    /// Writing on the SPI bus failed.
    SPI(SPIError),
    /// Driving the data/command pin failed.
    DC(DCError),
    /// Driving the reset pin failed.
    RST(RSTError),
    /// Reading the busy pin failed.
    BSY(BSYError),
}

/// An error while sending one command: only the bus and the data/command pin take part.
#[derive(Debug)]
pub enum CommandError<SPIError, DCError> {
    /// Writing on the SPI bus failed.
    SPI(SPIError),
    /// Driving the data/command pin failed.
    DC(DCError),
}

/// The driver error that a command error stands for: the same part, with the same payload.
pub open spec fn command_error_as_error<SPIError, DCError, RSTError, BSYError>(
    e: CommandError<SPIError, DCError>,
) -> Error<SPIError, DCError, RSTError, BSYError> {
    match e {
        CommandError::SPI(s) => Error::SPI(s),
        CommandError::DC(d) => Error::DC(d),
    }
}

impl<SPIError, DCError, RSTError, BSYError> From<CommandError<SPIError, DCError>> for Error<
    SPIError,
    DCError,
    RSTError,
    BSYError,
> {
    fn from(value: CommandError<SPIError, DCError>) -> (r: Self) {
        match value {
            CommandError::SPI(e) => Self::SPI(e),
            CommandError::DC(e) => Self::DC(e),
        }
    }
}

impl<SPIError, DCError, RSTError, BSYError> FromSpecImpl<CommandError<SPIError, DCError>> for Error<
    SPIError,
    DCError,
    RSTError,
    BSYError,
> {
    open spec fn obeys_from_spec() -> bool {
        true
    }

    open spec fn from_spec(v: CommandError<SPIError, DCError>) -> Self {
        command_error_as_error(v)
    }
}

impl<SPIError, DCError> CommandError<SPIError, DCError> {
    /// The driver error for this command error: the same part, with the same payload.
    pub fn to_error<RSTError, BSYError>(self) -> (r: Error<SPIError, DCError, RSTError, BSYError>)
        ensures
            r == command_error_as_error::<SPIError, DCError, RSTError, BSYError>(self),
    {
        Error::from(self)
    }
}

} // verus!
