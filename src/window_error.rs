use vstd::prelude::*;

verus! {

/// Why no frame could be acquired from the window's swap chain.
#[derive(Debug, Clone, Copy, PartialEq, Eq, Structural)]
pub enum WindowError {
    UninitializedSwapChain,
    TimeOut,
}

impl WindowError {
    /// The human-readable description of the error.
    pub fn message(&self) -> (r: String)
        ensures
            *self == WindowError::UninitializedSwapChain ==> r@
                == "Swap chain has not been initialized yet"@,
            *self == WindowError::TimeOut ==> r@
                == "The GPU timed out when attempting to acquire the next texture or if a previous output is still alive."@,
    {
        match self {
            WindowError::UninitializedSwapChain => String::from_str(
                "Swap chain has not been initialized yet",
            ),
            WindowError::TimeOut => String::from_str(
                "The GPU timed out when attempting to acquire the next texture or if a previous output is still alive.",
            ),
        }
    }
}

/// The swap chain's timeout error carries no data of its own.
#[verifier::external_type_specification]
#[verifier::external_body]
pub struct ExTimeOut(wgpu::TimeOut);

impl From<wgpu::TimeOut> for WindowError {
    fn from(_t: wgpu::TimeOut) -> (r: WindowError)
        ensures
            r == WindowError::TimeOut,
    {
        WindowError::TimeOut
    }
}

impl vstd::std_specs::convert::FromSpecImpl<wgpu::TimeOut> for WindowError {
    open spec fn obeys_from_spec() -> bool {
        true
    }

    open spec fn from_spec(_t: wgpu::TimeOut) -> WindowError {
        WindowError::TimeOut
    }
}

} // verus!
