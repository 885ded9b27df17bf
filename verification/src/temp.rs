//! Temporary-artifact naming.
//!
//! Temporary file names embed the process identity and a nanosecond-resolution
//! timestamp, so that concurrent operations never collide; the embedding
//! runtime supplies both, along with the temporary directory, since only it
//! can ask the operating system.

use vstd::assert_by_contradiction;
use vstd::prelude::*;

use crate::numerals::{decimal_string, lemma_decimal_injective, spec_decimal};

verus! {

/// What the embedding runtime knows about the temporary directory: its path
/// (ending in the platform's separator) and the identity of this process.
pub struct TempContext {
    /// The temporary directory, with a trailing separator, so that appending
    /// a file name yields a full path.
    pub temp_dir: String,
    /// The identity of the running process.
    pub pid: u64,
}

/// The name of a temporary file for the given process, timestamp and
/// extension.
pub open spec fn spec_temp_file_name(pid: nat, stamp: nat, ext: Seq<char>) -> Seq<char> {
    "printer_job_"@ + spec_decimal(pid) + "_"@ + spec_decimal(stamp) + "."@ + ext
}

/// The full path of that temporary file under `temp_dir`.
pub open spec fn spec_temp_file_path(
    temp_dir: Seq<char>,
    pid: nat,
    stamp: nat,
    ext: Seq<char>,
) -> Seq<char> {
    temp_dir + spec_temp_file_name(pid, stamp, ext)
}

/// The full path of the bundled print-dispatch helper under `temp_dir`.
pub open spec fn spec_helper_path(temp_dir: Seq<char>) -> Seq<char> {
    temp_dir + "sm.exe"@
}

/// The naming is collision-resistant: within one process, two temporary files
/// of the same kind allocated at distinct timestamps never share a name.
pub proof fn lemma_temp_names_distinct(pid: nat, first: nat, second: nat, ext: Seq<char>)
    requires
        first != second,
    ensures
        spec_temp_file_name(pid, first, ext) != spec_temp_file_name(pid, second, ext),
{
    lemma_decimal_injective(first, second);
    let head = "printer_job_"@ + spec_decimal(pid) + "_"@;
    let d1 = spec_decimal(first);
    let d2 = spec_decimal(second);
    let n1 = spec_temp_file_name(pid, first, ext);
    let n2 = spec_temp_file_name(pid, second, ext);
    assert(n1.len() == head.len() + d1.len() + 1 + ext.len()) by {
        reveal_strlit(".");
    }
    assert(n2.len() == head.len() + d2.len() + 1 + ext.len()) by {
        reveal_strlit(".");
    }
    if d1.len() == d2.len() {
        assert(exists|k: int| 0 <= k < d1.len() && d1[k] != d2[k]) by {
            assert_by_contradiction!(exists|k: int| 0 <= k < d1.len() && d1[k] != d2[k], {
                assert(d1 =~= d2);
            });
        }
        let k = choose|k: int| 0 <= k < d1.len() && d1[k] != d2[k];
        assert(n1[head.len() + k] == d1[k]);
        assert(n2[head.len() + k] == d2[k]);
    } else {
        assert(n1.len() != n2.len());
    }
}

/// Builds the collision-resistant name of a temporary file: process id and
/// timestamp keep concurrent invocations apart.
pub fn temp_file_name(pid: u64, stamp: u64, ext: &str) -> (r: String)
    ensures
        r@ == spec_temp_file_name(pid as nat, stamp as nat, ext@),
{
    let mut name = String::from_str("printer_job_");
    let pid_text = decimal_string(pid);
    name.append(pid_text.as_str());
    name.append("_");
    let stamp_text = decimal_string(stamp);
    name.append(stamp_text.as_str());
    name.append(".");
    name.append(ext);
    name
}

impl TempContext {
    /// Allocates the path of a fresh temporary file with the given extension,
    /// distinguished by the caller-supplied timestamp.
    pub fn allocate(&self, stamp: u64, ext: &str) -> (r: String)
        ensures
            r@ == spec_temp_file_path(self.temp_dir@, self.pid as nat, stamp as nat, ext@),
    {
        let name = temp_file_name(self.pid, stamp, ext);
        let mut path = self.temp_dir.clone();
        path.append(name.as_str());
        path
    }

    /// The path the bundled print-dispatch helper was installed at.
    pub fn helper_path(&self) -> (r: String)
        ensures
            r@ == spec_helper_path(self.temp_dir@),
    {
        let mut path = self.temp_dir.clone();
        path.append("sm.exe");
        path
    }
}

} // verus!
