//! The log pane: the lines written to it.

use vstd::prelude::*;
use vstd::slice::slice_to_vec;
use crate::text::text_of_bytes;

verus! {

/// Why a write to the log was refused.
#[derive(Clone, Copy, Debug, PartialEq, Eq, Structural)]
pub enum LogError {
    /// The bytes written are not well-formed UTF-8.
    InvalidData,
}

/// The lines written so far, oldest first.
#[derive(Debug)]
pub struct Log {
    log: Vec<String>,
}

impl View for Log {
    type V = Seq<Seq<char>>;

    closed spec fn view(&self) -> Seq<Seq<char>> {
        self.log.deep_view()
    }
}

impl Log {
    /// The log with nothing written to it.
    pub fn new() -> (log: Log)
        ensures
            log@ == Seq::<Seq<char>>::empty(),
    {
        let log = Log { log: Vec::new() };
        assert(log@ =~= Seq::<Seq<char>>::empty());
        log
    }

    /// Writes `buf` as one entry at the end of the log and says how many
    /// bytes were taken: all of them. Bytes that are not well-formed UTF-8
    /// are refused, and the log stays as it was.
    pub fn write(&mut self, buf: &[u8]) -> (written: Result<usize, LogError>)
        ensures
            match written {
                Ok(n) => n == buf@.len() && vstd::utf8::valid_utf8(buf@)
                    && final(self)@ == old(self)@.push(vstd::utf8::decode_utf8(buf@)),
                Err(e) => e == LogError::InvalidData && !vstd::utf8::valid_utf8(buf@)
                    && final(self)@ == old(self)@,
            },
    {
        match text_of_bytes(slice_to_vec(buf)) {
            Some(text) => {
                let ghost before = self@;
                self.log.push(text);
                assert(self@ =~= before.push(vstd::utf8::decode_utf8(buf@)));
                Ok(buf.len())
            },
            None => Err(LogError::InvalidData),
        }
    }

    /// Nothing is held back, so there is nothing to flush.
    pub fn flush(&mut self) -> (done: Result<(), LogError>)
        ensures
            done is Ok,
            final(self)@ == old(self)@,
    {
        Ok(())
    }

    /// The number of entries.
    pub fn len(&self) -> (n: usize)
        ensures
            n == self@.len(),
    {
        self.log.len()
    }

    /// The entry at `index`.
    pub fn line(&self, index: usize) -> (text: &String)
        requires
            index < self@.len(),
        ensures
            text@ == self@[index as int],
    {
        &self.log[index]
    }
}

} // verus!
