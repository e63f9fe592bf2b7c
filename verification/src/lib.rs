//! Scaffold of a host-application plugin named "ext": the entry point builds
//! the plugin descriptor, a setup hook completes the platform-specific native
//! registration, and the resulting opaque handle is stored in application-wide
//! managed state for later retrieval.
//!
//! The native calls themselves (registering an Android plugin class, binding
//! an iOS entry symbol, constructing the desktop backend) belong to the host
//! runtime and its platform toolchains; this library states which call the
//! host must make for each platform, and completes setup from the outcome the
//! host hands back.

pub mod desktop;
pub mod error;
pub mod mobile;
pub mod registry;

use vstd::prelude::*;

use crate::error::{error_of, Error, PlatformFailure};
use crate::mobile::{ext_of, Ext};
use crate::registry::AppState;

verus! {

/// Transient plugin descriptor: the configuration the host's plugin builder
/// consumes once, at application startup. It carries the plugin's name; the
/// setup hook registered with it is `setup`.
pub struct PluginDescriptor {
    /// The identifier under which the plugin registers with the host runtime.
    pub name: &'static str,
}

/// Entry point: build the plugin descriptor under the plugin name "ext".
/// The host runtime consumes the descriptor and runs the setup hook once at
/// application startup.
pub fn init() -> (r: PluginDescriptor)
    ensures
        r.name@ == "ext"@,
{
    PluginDescriptor { name: "ext" }
}

/// The compile targets the plugin supports.
#[derive(Clone, Copy, PartialEq, Eq, Structural, Debug)]
pub enum Platform {
    /// Host operating systems outside mobile.
    Desktop,
    /// The Android mobile target.
    Android,
    /// The iOS mobile target.
    Ios,
}

/// The native registration the host must perform for a platform.
pub enum RegistrationRequest {
    /// Register the desktop backend object under the plugin name.
    DesktopBackend {
        /// The plugin name the backend is registered under.
        plugin_name: &'static str,
    },
    /// Register the named Android plugin class.
    AndroidPlugin {
        /// The plugin domain the class is registered under.
        domain: &'static str,
        /// The plugin class name.
        class_name: &'static str,
    },
    /// Bind the iOS native plugin entry symbol.
    IosEntry {
        /// The entry symbol to bind.
        entry_symbol: &'static str,
    },
}

/// Select the native registration for the platform the application was built
/// for. The Android path registers under exactly the identifier pair
/// ("tauri.plugin.ext", "ExtPlugin"); the iOS path binds the fixed entry
/// symbol; the desktop path registers the backend under the plugin name.
pub fn registration_request(platform: Platform) -> (r: RegistrationRequest)
    ensures
        (platform is Desktop ==> (r matches RegistrationRequest::DesktopBackend { plugin_name }
            && plugin_name@ == "ext"@)),
        (platform is Android ==> (r matches RegistrationRequest::AndroidPlugin { domain, class_name }
            && domain@ == "tauri.plugin.ext"@
            && class_name@ == "ExtPlugin"@)),
        (platform is Ios ==> (r matches RegistrationRequest::IosEntry { entry_symbol }
            && entry_symbol@ == "init_plugin_ext"@)),
{
    match platform {
        Platform::Desktop => RegistrationRequest::DesktopBackend { plugin_name: "ext" },
        Platform::Android => RegistrationRequest::AndroidPlugin {
            domain: "tauri.plugin.ext",
            class_name: "ExtPlugin",
        },
        Platform::Ios => RegistrationRequest::IosEntry { entry_symbol: "init_plugin_ext" },
    }
}

/// The setup hook as a transition on managed state: from the stored slot and
/// the outcome of the host's native call to the new slot and the hook's
/// result. A successful outcome stores the handle wrapping the returned
/// token, overwriting any previous one, and succeeds; a failure leaves the
/// state unchanged and surfaces the failure as-is.
pub open spec fn setup_transition(
    slot: Option<Ext>,
    outcome: Result<u64, PlatformFailure>,
) -> (Option<Ext>, Result<(), Error>) {
    match outcome {
        Ok(token) => (Some(ext_of(token)), Ok(())),
        Err(failure) => (slot, Err(error_of(failure))),
    }
}

/// Setup hook: run once by the host at application startup, after the host
/// performed the native registration that `registration_request` selected
/// for its platform. On success the returned handle is stored in
/// application-wide managed state; any failure propagates unchanged, with
/// nothing registered. The result does not depend on the platform.
pub fn setup(
    state: &mut AppState,
    platform: Platform,
    outcome: Result<u64, PlatformFailure>,
) -> (r: Result<(), Error>)
    ensures
        (final(state).registered(), r) == setup_transition(old(state).registered(), outcome),
{
    let initialized = match platform {
        Platform::Desktop => desktop::init(outcome),
        Platform::Android | Platform::Ios => mobile::init(outcome),
    };
    match initialized {
        Ok(ext) => {
            state.manage(ext);
            Ok(())
        },
        Err(e) => Err(e),
    }
}

/// Law: on every platform, when the underlying native registration succeeds,
/// setup succeeds and managed state ends up holding exactly the handle that
/// wraps the returned token — the handle a subsequent retrieval yields.
pub proof fn lemma_setup_success_registers(slot: Option<Ext>, token: u64)
    ensures
        setup_transition(slot, Ok(token)).1 is Ok,
        setup_transition(slot, Ok(token)).0 == Some(ext_of(token)),
        ext_of(token).id() == token,
{
    mobile::lemma_ext_of_id(token);
}

/// Law: when the native registration call fails, setup yields the failure as
/// the corresponding error, kind and message unchanged, and registers
/// nothing: managed state is left as it was.
pub proof fn lemma_setup_failure_registers_nothing(slot: Option<Ext>, failure: PlatformFailure)
    ensures
        setup_transition(slot, Err(failure)).0 == slot,
        setup_transition(slot, Err(failure)).1 == Err::<(), Error>(error_of(failure)),
        (failure matches PlatformFailure::Registration { message }
            ==> error_of(failure) == (Error::Registration { message })),
        (failure matches PlatformFailure::Deserialization { message }
            ==> error_of(failure) == (Error::Deserialization { message })),
{
}

/// Law: running the setup hook twice within one application lifecycle, both
/// times with a successful native outcome, overwrites the previously stored
/// handle: managed state ends up holding the handle of the second run.
pub proof fn lemma_setup_twice_overwrites(slot: Option<Ext>, first: u64, second: u64)
    ensures
        setup_transition(setup_transition(slot, Ok(first)).0, Ok(second)).0 == Some(
            ext_of(second),
        ),
{
}

} // verus!
