use vstd::prelude::*;

use crate::context::{ContextTypeInfo, ObjectHandle};
use crate::dispatch::{DriverGlobals, EntryPoint, FunctionTable};
use crate::error::{checked_spec, into_result, WdfError};
use crate::status::NtStatus;

verus! {

/// What a call of a status-returning entry point may return: the outcome of the
/// call, with a failing status turned into `CallFailed`.
pub open spec fn status_call_outcome<F, A>(
    table: FunctionTable<F>,
    entry: EntryPoint,
    args: A,
    r: Result<NtStatus, WdfError>,
) -> bool
    where F: Fn(DriverGlobals, A) -> NtStatus,
{
    exists|c: Result<NtStatus, WdfError>| table.invoke_outcome(entry, args, c) && r == checked_spec(c)
}

/// Calls a status-returning entry point and reports a failing status as an error.
fn status_call<F, A>(table: &FunctionTable<F>, entry: EntryPoint, args: A) -> (r: Result<NtStatus, WdfError>)
    where F: Fn(DriverGlobals, A) -> NtStatus,
    requires
        table.available(entry.index) ==> call_requires(
            table.function(entry.index),
            (table.globals(), args),
        ),
    ensures
        status_call_outcome(*table, entry, args, r),
{
    let c = table.invoke(entry, args);
    into_result(c)
}

/// Creates the framework driver object through the entry point `entry`.
pub fn WdfDriverCreate<F, A>(table: &FunctionTable<F>, entry: EntryPoint, args: A) -> (r: Result<NtStatus, WdfError>)
    where F: Fn(DriverGlobals, A) -> NtStatus,
    requires
        table.available(entry.index) ==> call_requires(
            table.function(entry.index),
            (table.globals(), args),
        ),
    ensures
        status_call_outcome(*table, entry, args, r),
{
    status_call(table, entry, args)
}

/// Creates a framework device object through the entry point `entry`.
pub fn WdfDeviceCreate<F, A>(table: &FunctionTable<F>, entry: EntryPoint, args: A) -> (r: Result<NtStatus, WdfError>)
    where F: Fn(DriverGlobals, A) -> NtStatus,
    requires
        table.available(entry.index) ==> call_requires(
            table.function(entry.index),
            (table.globals(), args),
        ),
    ensures
        status_call_outcome(*table, entry, args, r),
{
    status_call(table, entry, args)
}

/// Registers power and plug-and-play callbacks through the entry point `entry`,
/// which returns nothing.
pub fn WdfDeviceInitSetPnpPowerEventCallbacks<F, A>(table: &FunctionTable<F>, entry: EntryPoint, args: A) -> (r: Result<(), WdfError>)
    where F: Fn(DriverGlobals, A) -> (),
    requires
        table.available(entry.index) ==> call_requires(
            table.function(entry.index),
            (table.globals(), args),
        ),
    ensures
        table.invoke_outcome(entry, args, r),
{
    table.invoke(entry, args)
}

/// Asks the framework, through the entry point `entry`, where the context of type
/// `info` lives for the object `handle`. The type is named by its identity.
pub fn WdfObjectGetTypedContextWorker<F>(
    table: &FunctionTable<F>,
    entry: EntryPoint,
    handle: ObjectHandle,
    info: &ContextTypeInfo,
) -> (r: Result<usize, WdfError>)
    where F: Fn(DriverGlobals, (ObjectHandle, u64)) -> usize,
    requires
        table.available(entry.index) ==> call_requires(
            table.function(entry.index),
            (table.globals(), (handle, info.unique_type)),
        ),
    ensures
        table.invoke_outcome(entry, (handle, info.unique_type), r),
{
    table.invoke(entry, (handle, info.unique_type))
}

} // verus!
