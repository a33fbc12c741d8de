//! Delivery of a text that arrives in pieces: the message is edited as the text grows, each
//! time enough has come since the last edit.

use vstd::prelude::*;
use vstd::string::StringSliceAdditionalSpecFns;

verus! {

/// How many new bytes of text warrant another edit of the message.
pub const EDIT_STEP: usize = 50;

pub struct StreamView {
    /// Everything received so far.
    pub text: Seq<char>,
    /// Bytes received since the message last showed the text.
    pub unshown: nat,
}

/// The text received so far, and how much of it the message does not show yet.
pub struct StreamProgress {
    text: String,
    added_len: usize,
}

impl View for StreamProgress {
    type V = StreamView;

    closed spec fn view(&self) -> StreamView {
        StreamView { text: self.text@, unshown: self.added_len as nat }
    }
}

impl StreamProgress {
    pub open spec fn wf(&self) -> bool {
        self@.unshown < EDIT_STEP
    }

    pub fn new() -> (r: StreamProgress)
        ensures
            r.wf(),
            r@.text == Seq::<char>::empty(),
            r@.unshown == 0,
    {
        StreamProgress { text: String::new(), added_len: 0 }
    }

    /// Adds a piece of the text. Returns whether the message is to be edited now to show all
    /// of the text so far.
    pub fn push_chunk(&mut self, chunk: &str) -> (r: bool)
        requires
            old(self).wf(),
        ensures
            final(self).wf(),
            final(self)@.text == old(self)@.text + chunk@,
            r == (old(self)@.unshown + chunk.spec_bytes().len() >= EDIT_STEP),
            r ==> final(self)@.unshown == 0,
            !r ==> final(self)@.unshown == old(self)@.unshown + chunk.spec_bytes().len(),
    {
        self.text.append(chunk);
        let chunk_len = chunk.as_bytes().len();
        if chunk_len >= EDIT_STEP - self.added_len {
            self.added_len = 0;
            true
        } else {
            self.added_len = self.added_len + chunk_len;
            false
        }
    }

    /// Whether the message still lacks part of the text once the last piece came.
    pub fn needs_final_edit(&self) -> (r: bool)
        ensures
            r == (self@.unshown != 0),
    {
        self.added_len != 0
    }

    /// Everything received so far.
    pub fn text(&self) -> (r: &String)
        ensures
            r@ == self@.text,
    {
        &self.text
    }
}

} // verus!
