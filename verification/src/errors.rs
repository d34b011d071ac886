//! Errors reported by the UART drivers.

use vstd::prelude::*;

verus! {

/// The ways in which an operation on a UART can fail.
#[derive(Clone, Copy, Debug, PartialEq, Eq, Structural)]
pub enum UartErrorType {
    /// The GPIO lines were not granted, or the clock and baud rate admit no divisor.
    InitializationFailed,
    /// The operation was requested before a successful initialization.
    UartNotInitialized,
    SendDataFailed,
    ReceiveDataFailed,
    /// A receive was requested for zero bytes.
    ReceiveBufferEmpty,
    /// A bounded receive used up its waiting budget before a byte arrived.
    ReceiveDataTimeOut,
}

/// An error of a UART operation.
#[derive(Clone, Copy, Debug, PartialEq, Eq, Structural)]
pub struct UartError {
    error_type: UartErrorType,
}

/// The text that describes an error of the given type.
pub open spec fn error_text(error_type: UartErrorType) -> Seq<char> {
    match error_type {
        UartErrorType::InitializationFailed => "InitializationFailed Error in Uart"@,
        UartErrorType::UartNotInitialized => "UartNotInitialized Error in Uart"@,
        UartErrorType::SendDataFailed => "SendDataFailed Error in Uart"@,
        UartErrorType::ReceiveDataFailed => "ReceiveDataFailed Error in Uart"@,
        UartErrorType::ReceiveBufferEmpty => "ReceiveBufferEmpty Error in Uart"@,
        UartErrorType::ReceiveDataTimeOut => "ReceiveDataTimeOut Error in Uart"@,
    }
}

impl View for UartError {
    type V = UartErrorType;

    closed spec fn view(&self) -> UartErrorType {
        self.error_type
    }
}

impl UartError {
    pub fn new(error_type: UartErrorType) -> (error: Self)
        ensures
            error@ == error_type,
    {
        Self { error_type }
    }

    /// The type of this error.
    pub fn error_type(&self) -> (error_type: UartErrorType)
        ensures
            error_type == self@,
    {
        self.error_type
    }

    /// The human readable text of this error.
    pub fn message(&self) -> (text: String)
        ensures
            text@ == error_text(self@),
    {
        match self.error_type {
            UartErrorType::InitializationFailed => "InitializationFailed Error in Uart".to_owned(),
            UartErrorType::UartNotInitialized => "UartNotInitialized Error in Uart".to_owned(),
            UartErrorType::SendDataFailed => "SendDataFailed Error in Uart".to_owned(),
            UartErrorType::ReceiveDataFailed => "ReceiveDataFailed Error in Uart".to_owned(),
            UartErrorType::ReceiveBufferEmpty => "ReceiveBufferEmpty Error in Uart".to_owned(),
            UartErrorType::ReceiveDataTimeOut => "ReceiveDataTimeOut Error in Uart".to_owned(),
        }
    }
}

} // verus!
