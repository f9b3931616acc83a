use vstd::prelude::*;
use vstd::string::StringSliceAdditionalSpecFns;

use crate::error::AgcError;
use crate::text::{to_c_text, no_nul, no_nul_char};

verus! {

/// An open or closed archive, holding the engine's handle of type `H`.
///
/// The handle is owned exclusively and is never copied out. A file is open
/// while it holds the handle; closing hands the handle back exactly once,
/// after which the file stays closed and refuses every query.
pub struct AgcFile<H> {
    native: Option<H>,
}

impl<H> View for AgcFile<H> {
    type V = Option<H>;

    closed spec fn view(&self) -> Option<H> {
        self.native
    }
}

/// `after` and `released` are what closing `before` gives: the file is then
/// closed, and the handle it held, if any, is handed back.
pub open spec fn closes<H>(before: AgcFile<H>, after: AgcFile<H>, released: Option<H>) -> bool {
    after@ is None && released == before@
}

/// The arguments of the engine's open call for `path`: its NUL-terminated
/// bytes, and `1` to preload the archive or `0` not to.
pub fn open_request(path: &str, prefetching: bool) -> (r: Result<(Vec<u8>, i32), AgcError>)
    ensures
        r is Ok <==> no_nul(path.spec_bytes()),
        r is Ok <==> no_nul_char(path@),
        r matches Ok((b, flag)) ==> b@ == path.spec_bytes().push(0u8) && flag == (if prefetching {
            1i32
        } else {
            0i32
        }),
        r matches Err(e) ==> (e matches AgcError::Encoding { text } && text@ == path@),
{
    let bytes = to_c_text(path)?;
    let flag: i32 = if prefetching {
        1
    } else {
        0
    };
    Ok((bytes, flag))
}

impl<H> AgcFile<H> {
    /// True while the file holds the engine's handle.
    pub open spec fn is_open(&self) -> bool {
        self@ is Some
    }

    /// Wraps the engine's answer to opening `path`: `None` stands for the
    /// null handle by which the engine reports failure.
    pub fn from_native(path: &str, native: Option<H>) -> (r: Result<AgcFile<H>, AgcError>)
        ensures
            native is None ==> (r matches Err(e) && e matches AgcError::Open { path: p } && p@
                == path@),
            native is Some ==> (r matches Ok(f) && f@ == native),
    {
        match native {
            None => Err(AgcError::Open { path: path.to_owned() }),
            Some(h) => Ok(AgcFile { native: Some(h) }),
        }
    }

    /// Whether the file is still open.
    pub fn is_open_now(&self) -> (r: bool)
        ensures
            r == self.is_open(),
    {
        self.native.is_some()
    }

    /// The engine's handle, for a query; a closed file refuses every query.
    pub fn native(&self) -> (r: Result<&H, AgcError>)
        ensures
            self.is_open() ==> (r matches Ok(h) && Some(*h) == self@),
            !self.is_open() ==> (r matches Err(e) && e is Closed),
    {
        match self.native.as_ref() {
            Some(h) => Ok(h),
            None => Err(AgcError::Closed),
        }
    }

    /// Closes the file, handing back the engine's handle if it still held one.
    ///
    /// The caller releases what comes back; a second close hands back nothing,
    /// so the handle is released at most once.
    pub fn close(&mut self) -> (r: Option<H>)
        ensures
            closes(*old(self), *final(self), r),
    {
        self.native.take()
    }
}

/// A file opened on a handle and then closed twice releases that handle on
/// the first close and nothing on the second.
pub proof fn lemma_close_releases_once<H>(
    h: H,
    opened: AgcFile<H>,
    once: AgcFile<H>,
    twice: AgcFile<H>,
    first: Option<H>,
    second: Option<H>,
)
    requires
        opened@ == Some(h),
        closes(opened, once, first),
        closes(once, twice, second),
    ensures
        first == Some(h),
        second is None,
        !once.is_open(),
        !twice.is_open(),
{
}

} // verus!
