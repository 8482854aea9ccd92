//! The errors the kernel-facing operations report.
use vstd::prelude::*;

verus! {

/// Basic error type for the library.
#[derive(Copy, Clone, Debug, PartialEq, Eq, Structural)]
pub enum FreeRtosError {
    OutOfMemory,
    QueueSendTimeout,
    QueueReceiveTimeout,
    MutexTimeout,
    Timeout,
    QueueFull,
    StringConversionError,
    TaskNotFound,
    InvalidQueueSize,
    ProcessorHasShutDown,
    ZeroDuration,
}

impl FreeRtosError {
    /// The text an error is shown as: the name of its variant.
    pub open spec fn spec_name(self) -> Seq<char> {
        match self {
            FreeRtosError::OutOfMemory => "OutOfMemory"@,
            FreeRtosError::QueueSendTimeout => "QueueSendTimeout"@,
            FreeRtosError::QueueReceiveTimeout => "QueueReceiveTimeout"@,
            FreeRtosError::MutexTimeout => "MutexTimeout"@,
            FreeRtosError::Timeout => "Timeout"@,
            FreeRtosError::QueueFull => "QueueFull"@,
            FreeRtosError::StringConversionError => "StringConversionError"@,
            FreeRtosError::TaskNotFound => "TaskNotFound"@,
            FreeRtosError::InvalidQueueSize => "InvalidQueueSize"@,
            FreeRtosError::ProcessorHasShutDown => "ProcessorHasShutDown"@,
            FreeRtosError::ZeroDuration => "ZeroDuration"@,
        }
    }

    /// Returns the text this error is shown as.
    pub fn name(&self) -> (text: &'static str)
        ensures
            text@ == self.spec_name(),
    {
        match self {
            FreeRtosError::OutOfMemory => "OutOfMemory",
            FreeRtosError::QueueSendTimeout => "QueueSendTimeout",
            FreeRtosError::QueueReceiveTimeout => "QueueReceiveTimeout",
            FreeRtosError::MutexTimeout => "MutexTimeout",
            FreeRtosError::Timeout => "Timeout",
            FreeRtosError::QueueFull => "QueueFull",
            FreeRtosError::StringConversionError => "StringConversionError",
            FreeRtosError::TaskNotFound => "TaskNotFound",
            FreeRtosError::InvalidQueueSize => "InvalidQueueSize",
            FreeRtosError::ProcessorHasShutDown => "ProcessorHasShutDown",
            FreeRtosError::ZeroDuration => "ZeroDuration",
        }
    }
}

} // verus!
