#![allow(non_snake_case)]

pub mod calls;
pub mod context;
pub mod dispatch;
pub mod error;
pub mod registry;
pub mod slot;
pub mod status;

pub use calls::{
    WdfDeviceCreate, WdfDeviceInitSetPnpPowerEventCallbacks, WdfDriverCreate,
    WdfObjectGetTypedContextWorker,
};
pub use context::{ContextTypeInfo, ExclusiveAccess, ObjectContexts, ObjectHandle, SharedAccess};
pub use dispatch::{DriverGlobals, EntryPoint, FunctionTable};
pub use error::{into_result, WdfError};
pub use registry::ContextTypeRegistry;
pub use slot::{Access, ContextSlot, ExclusiveGuard, SharedGuard};
pub use status::{NtStatus, STATUS_NOT_FOUND, STATUS_SUCCESS};
