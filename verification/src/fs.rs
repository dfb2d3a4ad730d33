//! The filesystem a server drives: one dispatch call per request.

use crate::context::FuseContext;
use crate::ops::Operation;
use crate::write::FuseWrite;
use vstd::prelude::*;

verus! {

/// A user-supplied filesystem. The server hands each parsed request to
/// `dispatch` with a one-shot reply context; the filesystem sends at
/// most one reply through the context and reports OS errors as raw
/// errnos.
pub trait FileSystem {
    /// Handles one request.
    fn dispatch<W: FuseWrite>(
        &self,
        writer: &mut W,
        cx: FuseContext,
        op: Operation<'_>,
    ) -> Result<(), i32>;
}

} // verus!
