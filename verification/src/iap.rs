//! The plugin object.

use crate::error::rejected;
use crate::error::Error;
use crate::error::ErrorResponse;
use crate::error::PluginInvokeError;
use vstd::prelude::*;

verus! {

/// Access to the in-app-purchase rules. It holds what they read of the running
/// application: the package's name.
#[derive(Debug)]
pub struct Iap {
    pub package_name: String,
}

/// Sets the plugin up for the application of the given package name.
pub fn init(package_name: String) -> (iap: Result<Iap, Error>)
    ensures
        iap is Ok,
        iap->Ok_0.package_name@ == package_name@,
{
    Ok(Iap { package_name })
}

impl Iap {
    /// A rejected call with its code and message.
    pub fn reject(code: &str, message: String) -> (error: Error)
        ensures
            error@ == rejected(code@, message@),
    {
        Error::PluginInvoke(
            PluginInvokeError::InvokeRejected(
                ErrorResponse { code: Some(code.to_owned()), message: Some(message), data: () },
            ),
        )
    }
}

} // verus!
