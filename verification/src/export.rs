//! Where the trace of a finished run comes from, and where its CSV file is
//! written and later fetched.

use vstd::prelude::*;
use crate::device::DeviceCode;
use crate::text::join3;

verus! {

/// Where the remote core's trace is read from.
pub const TRACE_SOURCE: &'static str = "/sys/kernel/debug/remoteproc/remoteproc0/trace0";

/// The path of the CSV file of the device that `dev` names: in the
/// directory `data`, the name followed by `-test.csv`.
pub open spec fn spec_csv_path(dev: Seq<char>) -> Seq<char> {
    "data/"@ + dev + "-test.csv"@
}

/// The path of the CSV file that a client asks for under the name `dev`.
pub fn download_path(dev: &str) -> (path: String)
    ensures
        path@ == spec_csv_path(dev@),
{
    join3("data/", dev, "-test.csv")
}

/// The path of the CSV file that the trace of a run of the device with
/// `code` is written to.
pub fn export_path(code: DeviceCode) -> (path: String)
    ensures
        path@ == spec_csv_path(code.spec_str()),
{
    download_path(code.as_str())
}

/// What was exported for a device is what a client gets who asks for it by
/// the device's code: both paths are the same. No two devices share a file.
pub proof fn lemma_download_finds_export(code: DeviceCode, other: DeviceCode)
    ensures
        spec_csv_path(code.spec_str()) == "data/"@ + code.spec_str() + "-test.csv"@,
        spec_csv_path(code.spec_str()) == spec_csv_path(other.spec_str()) ==> code == other,
{
    crate::device::lemma_codes_differ();
    if spec_csv_path(code.spec_str()) == spec_csv_path(other.spec_str()) {
        let a = code.spec_str();
        let b = other.spec_str();
        let head = "data/"@;
        let tail = "-test.csv"@;
        assert(a.len() == b.len()) by {
            assert((head + a + tail).len() == (head + b + tail).len());
        }
        assert(a =~= b) by {
            assert forall|i: int| 0 <= i < a.len() implies a[i] == b[i] by {
                assert((head + b + tail)[head.len() + i] == b[i]);
            }
        }
    }
}

} // verus!
