//! The entry-point state machine and the attach notification. The loader
//! drives the module `Unloaded -> Attached -> Detached` through a single
//! entry point; only the process-attach and process-detach reason codes are
//! handled, and both report success. Any other reason is rejected with a
//! failure return and no work. The attach transition surfaces the lookup
//! result as exactly one dialog, described here as a plain value.

use vstd::prelude::*;

use crate::fileinfo::{spec_high_half, spec_low_half, version_components, FixedFileInfo};
use crate::text::{dialog_title, failure_message, spec_failure_message, spec_success_message,
    spec_title, success_message};

verus! {

/// Reason code the loader passes when the process loads the module.
pub const DLL_PROCESS_ATTACH: u32 = 1;

/// Reason code the loader passes when the process unloads the module.
pub const DLL_PROCESS_DETACH: u32 = 0;

/// The lifecycle events the entry point distinguishes.
#[derive(Clone, Copy, Debug, PartialEq, Eq, Structural)]
pub enum LifecycleEvent {
    ProcessAttach,
    ProcessDetach,
    Unrecognized,
}

/// The event a reason code stands for; everything outside the two process
/// transitions is unrecognized.
pub open spec fn spec_classify_reason(reason: u32) -> LifecycleEvent {
    if reason == DLL_PROCESS_ATTACH {
        LifecycleEvent::ProcessAttach
    } else if reason == DLL_PROCESS_DETACH {
        LifecycleEvent::ProcessDetach
    } else {
        LifecycleEvent::Unrecognized
    }
}

/// Classifies a loader reason code.
pub fn classify_reason(reason: u32) -> (e: LifecycleEvent)
    ensures
        e == spec_classify_reason(reason),
{
    if reason == DLL_PROCESS_ATTACH {
        LifecycleEvent::ProcessAttach
    } else if reason == DLL_PROCESS_DETACH {
        LifecycleEvent::ProcessDetach
    } else {
        LifecycleEvent::Unrecognized
    }
}

/// The detach handler: no resources were acquired, so it performs no work,
/// shows no dialog, and always reports success to the loader.
pub fn detach() -> (r: bool)
    ensures
        r == true,
{
    true
}

/// A modal dialog, described as the values handed to the presentation
/// service: title, body, and whether it is styled as an error.
pub struct Dialog {
    pub title: String,
    pub body: String,
    pub error_style: bool,
}

/// The one dialog the attach transition shows: the success message with the
/// record's version components when a record was found, else the fixed
/// failure message styled as an error. The title is the same either way.
pub fn attach_dialog(info: Option<FixedFileInfo>) -> (d: Dialog)
    ensures
        d.title@ == spec_title(),
        info matches Some(record) ==> d.body@ == spec_success_message(
            spec_high_half(record.file_date_ms),
            spec_low_half(record.file_date_ms),
            spec_high_half(record.file_date_ls),
        ) && !d.error_style,
        info is None ==> d.body@ == spec_failure_message() && d.error_style,
{
    match info {
        Some(record) => {
            let (a, b, c) = version_components(&record);
            Dialog { title: dialog_title(), body: success_message(a, b, c), error_style: false }
        },
        None => Dialog { title: dialog_title(), body: failure_message(), error_style: true },
    }
}

/// The observable work a transition performs besides its return value:
/// only the attach transition queries the version resource and shows a
/// dialog; every other reason code does nothing — no dialog, no buffer,
/// no OS query.
#[derive(Clone, Copy, Debug, PartialEq, Eq, Structural)]
pub enum EntryWork {
    LookupAndNotify,
    NoWork,
}

/// The work owed for a reason code: the lookup and its dialog on process
/// attach, nothing otherwise.
pub open spec fn spec_entry_work(reason: u32) -> EntryWork {
    if spec_classify_reason(reason) == LifecycleEvent::ProcessAttach {
        EntryWork::LookupAndNotify
    } else {
        EntryWork::NoWork
    }
}

/// The work the entry point performs for a reason code.
pub fn entry_work(reason: u32) -> (w: EntryWork)
    ensures
        w == spec_entry_work(reason),
{
    match classify_reason(reason) {
        LifecycleEvent::ProcessAttach => EntryWork::LookupAndNotify,
        LifecycleEvent::ProcessDetach => EntryWork::NoWork,
        LifecycleEvent::Unrecognized => EntryWork::NoWork,
    }
}

/// The detach transition, whenever it is invoked, is recognized — so
/// `entry_result` fixes its return value to success — and performs no
/// work: no dialog is shown and nothing is queried or allocated.
pub proof fn lemma_detach_transition(reason: u32)
    requires
        spec_classify_reason(reason) == LifecycleEvent::ProcessDetach,
    ensures
        spec_classify_reason(reason) != LifecycleEvent::Unrecognized,
        spec_entry_work(reason) == EntryWork::NoWork,
{
}

/// An unrecognized reason code is rejected with no side effects:
/// `entry_result` fixes its return value to failure, and no work — no
/// dialog, no buffer, no OS query — is owed for it.
pub proof fn lemma_unrecognized_reason_rejected(reason: u32)
    requires
        spec_classify_reason(reason) == LifecycleEvent::Unrecognized,
    ensures
        spec_entry_work(reason) == EntryWork::NoWork,
{
}

/// The success value the entry point reports to the loader for each reason
/// code: both recognized transitions succeed — attach even when the lookup
/// found nothing, detach unconditionally — and any other reason is rejected.
pub fn entry_result(reason: u32) -> (r: bool)
    ensures
        r == (spec_classify_reason(reason) != LifecycleEvent::Unrecognized),
{
    match classify_reason(reason) {
        LifecycleEvent::ProcessAttach => true,
        LifecycleEvent::ProcessDetach => detach(),
        LifecycleEvent::Unrecognized => false,
    }
}

} // verus!
