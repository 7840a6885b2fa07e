//! The version-lookup pipeline, distilled to the decisions it makes on the
//! values the OS queries return: the reported size of the version resource,
//! and the bytes the root sub-query handed back (if it succeeded). A zero
//! size is the fatal condition; a failed sub-query, or a block too short to
//! hold the record, leaves the result absent.

use vstd::prelude::*;

use crate::fileinfo::{le_u32_at, spec_parse, parse_fixed_file_info, FixedFileInfo,
    FIXED_FILE_INFO_LEN};

verus! {

/// Outcome of the lookup.
#[derive(Clone, Copy, Debug, PartialEq, Eq, Structural)]
pub enum LookupOutcome {
    /// The size query reported no version resource: the fail-fast path; the
    /// caller aborts and no record is ever read.
    Fatal,
    /// The resource held a well-formed fixed file-info record.
    Found(FixedFileInfo),
    /// The sub-query failed or its block was too short for the record.
    Missing,
}

/// What the lookup concludes from a reported resource size and the bytes the
/// sub-query returned (`None` when the sub-query failed).
pub open spec fn spec_lookup(size: u32, raw: Option<Seq<u8>>) -> LookupOutcome {
    if size == 0 {
        LookupOutcome::Fatal
    } else {
        match raw {
            Some(bytes) => match spec_parse(bytes) {
                Some(info) => LookupOutcome::Found(info),
                None => LookupOutcome::Missing,
            },
            None => LookupOutcome::Missing,
        }
    }
}

/// Whether a reported resource size is the fatal condition: zero means the
/// module carries no version resource and the lookup cannot proceed.
pub fn resource_size_is_fatal(size: u32) -> (r: bool)
    ensures
        r == (size == 0),
{
    size == 0
}

/// The lookup's conclusion from the size query and the sub-query result.
/// `sub_query` carries the bytes of the root-level entry, or `None` when the
/// sub-query failed.
pub fn check_version(size: u32, sub_query: Option<&Vec<u8>>) -> (r: LookupOutcome)
    ensures
        sub_query matches Some(bytes) ==> r == spec_lookup(size, Some(bytes@)),
        sub_query is None ==> r == spec_lookup(size, None),
{
    if resource_size_is_fatal(size) {
        LookupOutcome::Fatal
    } else {
        match sub_query {
            Some(bytes) => match parse_fixed_file_info(bytes) {
                Some(info) => LookupOutcome::Found(info),
                None => LookupOutcome::Missing,
            },
            None => LookupOutcome::Missing,
        }
    }
}

/// A well-formed version resource always yields a present record, and its
/// date words — the ones the displayed components are derived from — are
/// exactly the little-endian words the resource holds at their offsets.
pub proof fn lemma_lookup_reads_well_formed(size: u32, bytes: Seq<u8>)
    requires
        size != 0,
        bytes.len() >= FIXED_FILE_INFO_LEN,
    ensures
        spec_lookup(size, Some(bytes)) matches LookupOutcome::Found(info) && info
            == spec_parse(bytes).unwrap() && info.file_date_ms == le_u32_at(bytes, 44)
            && info.file_date_ls == le_u32_at(bytes, 48),
{
}

/// With no version resource the lookup is fatal whatever else was handed to
/// it: no record is produced, so none can be read.
pub proof fn lemma_no_resource_is_fatal(raw: Option<Seq<u8>>)
    ensures
        spec_lookup(0, raw) is Fatal,
{
}

/// A malformed resource — the sub-query failed, or returned a block too
/// short for the record — leaves the lookup result absent.
pub proof fn lemma_malformed_resource_is_missing(size: u32, raw: Option<Seq<u8>>)
    requires
        size != 0,
        raw matches Some(bytes) ==> spec_parse(bytes) is None,
    ensures
        spec_lookup(size, raw) is Missing,
{
}

} // verus!
