//! The audio sink's own state: in mock mode utterances are recorded in a
//! buffer instead of being played.

use vstd::prelude::*;

verus! {

/// Where finished utterances go. Playing real audio happens outside the
/// library; in mock mode the sink records the text and never fails.
pub struct AudioSink {
    mock: bool,
    spoken: Vec<String>,
}

impl AudioSink {
    /// Whether utterances are recorded instead of played.
    pub closed spec fn is_mock_spec(&self) -> bool {
        self.mock
    }

    /// The utterances recorded since the buffer was last taken.
    pub closed spec fn recorded(&self) -> Seq<String> {
        self.spoken@
    }

    /// A sink with an empty buffer, in mock mode or not.
    pub fn new(mock: bool) -> (r: Self)
        ensures
            r.is_mock_spec() == mock,
            r.recorded().len() == 0,
    {
        AudioSink { mock, spoken: Vec::new() }
    }

    /// Whether utterances are recorded instead of played.
    pub fn is_mock(&self) -> (r: bool)
        ensures
            r == self.is_mock_spec(),
    {
        self.mock
    }

    /// In mock mode, records `text` and returns true; otherwise changes
    /// nothing and returns false, and the caller plays the text.
    pub fn capture(&mut self, text: &str) -> (r: bool)
        ensures
            r == old(self).is_mock_spec(),
            final(self).is_mock_spec() == old(self).is_mock_spec(),
            r ==> final(self).recorded().len() == old(self).recorded().len() + 1
                && final(self).recorded().drop_last() == old(self).recorded()
                && final(self).recorded().last()@ == text@,
            !r ==> final(self).recorded() == old(self).recorded(),
    {
        if self.mock {
            self.spoken.push(String::from_str(text));
            assert(self.spoken@.drop_last() =~= old(self).spoken@);
            true
        } else {
            false
        }
    }

    /// Hands out the recorded utterances, oldest first, and empties the buffer.
    pub fn take_spoken(&mut self) -> (r: Vec<String>)
        ensures
            r@ == old(self).recorded(),
            final(self).recorded().len() == 0,
            final(self).is_mock_spec() == old(self).is_mock_spec(),
    {
        let mut out: Vec<String> = Vec::new();
        out.append(&mut self.spoken);
        assert(out@ =~= old(self).spoken@);
        out
    }
}

/// Switches `sink` to mock mode; what it recorded stays.
pub fn enable_mock_mode(sink: &mut AudioSink)
    ensures
        final(sink).is_mock_spec(),
        final(sink).recorded() == old(sink).recorded(),
{
    sink.mock = true;
}

} // verus!
