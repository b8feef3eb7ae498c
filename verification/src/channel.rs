//! What a front end is told to ask of the transport for the interactive
//! channel.

use vstd::prelude::*;

verus! {

/// The pseudo-terminal a caller asks for.
#[derive(Clone, Debug, PartialEq, Eq)]
pub struct Pty {
    pub cols: u16,
    pub rows: u16,
    pub term: String,
}

/// The pseudo-terminal request to send on a newly opened channel, before the
/// request for a shell. It carries no terminal modes.
#[derive(Clone, Debug, PartialEq, Eq)]
pub struct PtyRequest {
    pub want_reply: bool,
    pub term: String,
    pub col_width: u32,
    pub row_height: u32,
    pub pix_width: u32,
    pub pix_height: u32,
}

/// The window-change request to send on the open channel.
#[derive(Clone, Copy, Debug, PartialEq, Eq, Structural)]
pub struct WindowChange {
    pub col_width: u32,
    pub row_height: u32,
    pub pix_width: u32,
    pub pix_height: u32,
}

impl Pty {
    /// Whether `request` asks for this terminal: the same type and size in
    /// characters, no size in pixels, and a reply wanted.
    pub open spec fn asked_by(self, request: PtyRequest) -> bool {
        &&& request.want_reply
        &&& request.term@ == self.term@
        &&& request.col_width == self.cols
        &&& request.row_height == self.rows
        &&& request.pix_width == 0
        &&& request.pix_height == 0
    }

    /// The request that asks the transport for this terminal.
    pub fn request(self) -> (request: PtyRequest)
        ensures
            self.asked_by(request),
    {
        PtyRequest {
            want_reply: true,
            term: self.term,
            col_width: self.cols as u32,
            row_height: self.rows as u32,
            pix_width: 0,
            pix_height: 0,
        }
    }
}

impl WindowChange {
    /// The request for a window of `cols` by `rows` characters, with no size
    /// in pixels.
    pub open spec fn sized(cols: u16, rows: u16) -> WindowChange {
        WindowChange {
            col_width: cols as u32,
            row_height: rows as u32,
            pix_width: 0,
            pix_height: 0,
        }
    }

    /// The request for a window of `cols` by `rows` characters.
    pub fn new(cols: u16, rows: u16) -> (request: WindowChange)
        ensures
            request == Self::sized(cols, rows),
    {
        WindowChange { col_width: cols as u32, row_height: rows as u32, pix_width: 0, pix_height: 0 }
    }
}

} // verus!
