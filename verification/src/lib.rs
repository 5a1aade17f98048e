//! Orchestration of an external cloud-sync tool: building its invocations,
//! decoding its structured progress stream, classifying how a launched
//! process ended, and driving the whole lifecycle as a cancellable,
//! pollable event stream.

use vstd::prelude::*;

pub mod heroic;
pub mod process;
pub mod rclone;
pub mod rclone_monitor;
pub mod remote;
pub mod strutil;

verus! {

/// Errors raised before any process is launched.
#[derive(Clone, Copy, Debug, PartialEq, Eq, Structural)]
pub enum Error {
    CloudPathInvalid,
}

/// A remote path must be non-empty and must not refer to the remote's root.
pub fn validate_cloud_path(path: &str) -> (r: Result<(), Error>)
    ensures
        r is Err <==> (path@.len() == 0 || path@ == "/"@),
        r matches Err(e) ==> e is CloudPathInvalid,
{
    proof {
        reveal_strlit("/");
    }
    let n = path.unicode_len();
    if n == 0 {
        Err(Error::CloudPathInvalid)
    } else if n == 1 && path.get_char(0) == '/' {
        proof {
            assert(path@ =~= "/"@);
        }
        Err(Error::CloudPathInvalid)
    } else {
        assert(path@ != "/"@) by {
            if path@ == "/"@ {
                assert(path@.len() == 1);
                assert(path@[0] == '/');
            }
        }
        Ok(())
    }
}

} // verus!
