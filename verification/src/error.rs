//! Error kinds of the command layer.

use vstd::prelude::*;

verus! {

/// What can go wrong in the command layer.
///
/// Transport failures are surfaced to the caller unchanged as text; the
/// layer itself neither retries nor recovers.
#[derive(Debug)]
pub enum IqosError {
    /// A BLE-layer failure (connect, discover, write, disconnect), carried
    /// as the transport's own description.
    TransportError(String),
    /// Invalid textual input, e.g. an unparseable brightness level.
    ConfigurationError(String),
    /// An ILUMA-only operation was invoked on a non-ILUMA device.
    IncompatibleModelError,
    /// A write was requested before the control characteristic was
    /// resolved: the device is not ready to accept commands.
    NotReady,
}

impl IqosError {
    /// A short description of the error, one line per kind.
    pub fn message(&self) -> (r: String)
        ensures
            self is TransportError ==> r@ == "transport error: "@ + self->TransportError_0@,
            self is ConfigurationError ==> r@ == "configuration error: "@
                + self->ConfigurationError_0@,
            self is IncompatibleModelError ==> r@ == "this operation requires an ILUMA model"@,
            self is NotReady ==> r@ == "device not ready: control characteristic unresolved"@,
    {
        match self {
            IqosError::TransportError(m) => {
                let mut r = String::from_str("transport error: ");
                r.append(m.as_str());
                r
            },
            IqosError::ConfigurationError(m) => {
                let mut r = String::from_str("configuration error: ");
                r.append(m.as_str());
                r
            },
            IqosError::IncompatibleModelError => {
                String::from_str("this operation requires an ILUMA model")
            },
            IqosError::NotReady => {
                String::from_str("device not ready: control characteristic unresolved")
            },
        }
    }
}

} // verus!
