//! The decode stage: what the decoder's answers mean, and what follows
//! from them.
//!
//! Packets of the selected stream are fed to the decoder one at a time.
//! After each, the frames that the decoder has ready are pulled. When the
//! input is exhausted the decoder is told so and pulled empty.

use vstd::prelude::*;

verus! {

/// The message with which the framework says that the decoder has output
/// waiting and takes no input before it is drained.
pub const AGAIN_MESSAGE: &'static str = "Resource temporarily unavailable";

/// The message with which the framework says that the decoder has given out
/// its last frame.
pub const EOF_MESSAGE: &'static str = "End of file";

/// Why the decoder did not do what was asked.
#[derive(Clone, Copy, Debug, PartialEq, Eq, Structural)]
pub enum DecodeSignal {
    /// Not an error: drain the decoder, then feed it again.
    Again,
    /// The decoder has nothing more to give.
    Eof,
    /// Any other failure.
    Other,
}

/// `needle` stands in `hay` from position `at` on.
pub open spec fn occurs_at(needle: Seq<char>, hay: Seq<char>, at: int) -> bool {
    0 <= at && at + needle.len() <= hay.len() && hay.subrange(at, at + needle.len()) == needle
}

/// `needle` stands somewhere in `hay` as an unbroken run.
pub open spec fn occurs_in(needle: Seq<char>, hay: Seq<char>) -> bool {
    exists|at: int| occurs_at(needle, hay, at)
}

/// The signal that an error message stands for. The two messages that the
/// decode stage treats apart are told by their wording, wherever it stands in
/// the message.
pub open spec fn signal_of(message: Seq<char>) -> DecodeSignal {
    if occurs_in(AGAIN_MESSAGE@, message) {
        DecodeSignal::Again
    } else if occurs_in(EOF_MESSAGE@, message) {
        DecodeSignal::Eof
    } else {
        DecodeSignal::Other
    }
}

/// The characters of a string.
fn chars_of(s: &str) -> (v: Vec<char>)
    ensures
        v@ == s@,
{
    let n = s.unicode_len();
    let mut v: Vec<char> = Vec::new();
    let mut i: usize = 0;
    while i < n
        invariant
            n == s@.len(),
            i <= n,
            v@ == s@.subrange(0, i as int),
        decreases n - i,
    {
        v.push(s.get_char(i));
        i = i + 1;
        assert(v@ =~= s@.subrange(0, i as int));
    }
    assert(s@.subrange(0, n as int) =~= s@);
    v
}

/// Whether `needle` stands in `hay` at position `at`.
fn matches_at(hay: &Vec<char>, needle: &Vec<char>, at: usize) -> (b: bool)
    requires
        at + needle@.len() <= hay@.len(),
    ensures
        b == occurs_at(needle@, hay@, at as int),
{
    let m = needle.len();
    let len = hay.len();
    let mut j: usize = 0;
    while j < m
        invariant
            m == needle@.len(),
            len == hay@.len(),
            at + m <= hay@.len(),
            j <= m,
            forall|k: int| 0 <= k < j ==> hay@[at + k] == needle@[k],
        decreases m - j,
    {
        if hay[at + j] != needle[j] {
            assert(hay@.subrange(at as int, at + m)[j as int] != needle@[j as int]);
            return false;
        }
        j = j + 1;
    }
    assert(hay@.subrange(at as int, at + m) =~= needle@);
    true
}

/// Whether `needle` occurs in `hay`.
pub fn contains(hay: &str, needle: &str) -> (b: bool)
    ensures
        b == occurs_in(needle@, hay@),
{
    let h = chars_of(hay);
    let n = chars_of(needle);
    if n.len() > h.len() {
        return false;
    }
    let last = h.len() - n.len();
    let mut i: usize = 0;
    loop
        invariant
            h@ == hay@,
            n@ == needle@,
            n@.len() <= h@.len(),
            last == h@.len() - n@.len(),
            i <= last,
            forall|k: int| 0 <= k < i ==> !occurs_at(n@, h@, k),
        decreases last - i,
    {
        if matches_at(&h, &n, i) {
            return true;
        }
        if i == last {
            return false;
        }
        i = i + 1;
    }
}

impl DecodeSignal {
    /// Reads the signal off the message of a decoder error.
    pub fn from_message(message: &str) -> (s: DecodeSignal)
        ensures
            s == signal_of(message@),
    {
        if contains(message, AGAIN_MESSAGE) {
            DecodeSignal::Again
        } else if contains(message, EOF_MESSAGE) {
            DecodeSignal::Eof
        } else {
            DecodeSignal::Other
        }
    }

    /// The signal is an error when a packet was fed: all but "drain
    /// first".
    pub open spec fn fails_submit(self) -> bool {
        !(self is Again)
    }

    /// The signal is an error when a frame was asked for: all but "none
    /// ready yet" and "none left".
    pub open spec fn fails_drain(self) -> bool {
        self is Other
    }
}

/// What follows when the decoder has no frame to give.
#[derive(Clone, Copy, Debug, PartialEq, Eq, Structural)]
pub enum DrainEnd {
    /// Feed the next packet.
    Feed,
    /// The stage has given out its last frame.
    Finished,
}

/// The decode stage of a session.
#[derive(Clone, Copy, Debug, PartialEq, Eq, Structural)]
pub struct DecodeStage {
    /// The decoder was told that the stream has ended.
    pub flushing: bool,
}

impl DecodeStage {
    /// A stage that takes packets.
    pub fn new() -> (stage: DecodeStage)
        ensures
            !stage.flushing,
    {
        DecodeStage { flushing: false }
    }

    /// Takes the decoder's answer to a packet and says whether the packet
    /// was lost to an error. Either way the decoder is drained next.
    pub fn submit(&self, result: Result<(), DecodeSignal>) -> (failed: bool)
        ensures
            failed == (result is Err && result->Err_0.fails_submit()),
    {
        match result {
            Err(DecodeSignal::Again) => false,
            Err(_) => true,
            Ok(()) => false,
        }
    }

    /// Takes the decoder's answer to the end of the stream and says whether
    /// it was an error. From now on the stage is flushing; the decoder is
    /// drained next.
    pub fn end_of_stream(&mut self, result: Result<(), DecodeSignal>) -> (failed: bool)
        ensures
            final(self).flushing,
            failed == (result is Err),
    {
        self.flushing = true;
        match result {
            Err(_) => true,
            Ok(()) => false,
        }
    }

    /// Takes the signal with which the decoder gave no frame. The drain
    /// cycle is over, whatever the signal: a stage that is flushing has
    /// finished, any other is fed again. Says also whether the signal was an
    /// error.
    pub fn drain(&self, signal: DecodeSignal) -> (r: (DrainEnd, bool))
        ensures
            r.0 == self.after_drain(),
            r.1 == signal.fails_drain(),
    {
        let failed = match signal {
            DecodeSignal::Other => true,
            _ => false,
        };
        if self.flushing {
            (DrainEnd::Finished, failed)
        } else {
            (DrainEnd::Feed, failed)
        }
    }

    /// What follows a drain cycle.
    pub open spec fn after_drain(self) -> DrainEnd {
        if self.flushing {
            DrainEnd::Finished
        } else {
            DrainEnd::Feed
        }
    }
}

} // verus!
