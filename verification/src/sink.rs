//! The text destination of a render.

use vstd::prelude::*;

verus! {

/// The sink could not take the text of a write.
#[derive(Debug, Clone, Copy, PartialEq, Eq)]
pub struct SinkError;

/// An append-only text destination.
///
/// A sink is either unbounded or has room for a fixed number of further
/// characters. A write that does not fit is refused as a whole and leaves the
/// sink as it was.
pub struct Sink {
    text: String,
    room: Option<usize>,
}

impl View for Sink {
    type V = Seq<char>;

    /// Everything written so far.
    closed spec fn view(&self) -> Seq<char> {
        self.text@
    }
}

impl Sink {
    /// How many more characters the sink takes; `None` if it has no bound.
    pub closed spec fn room(&self) -> Option<nat> {
        match self.room {
            Some(n) => Some(n as nat),
            None => None,
        }
    }

    /// True if a write of `n` characters succeeds.
    pub open spec fn takes(&self, n: nat) -> bool {
        match self.room() {
            Some(room) => n <= room,
            None => true,
        }
    }

    /// The room that is left once `n` characters were written.
    pub open spec fn room_after(&self, n: nat) -> Option<nat> {
        match self.room() {
            Some(room) => Some((room - n) as nat),
            None => None,
        }
    }

    /// An empty sink without a bound.
    pub fn new() -> (sink: Sink)
        ensures
            sink@ == Seq::<char>::empty(),
            sink.room() is None,
    {
        Sink { text: String::new(), room: None }
    }

    /// An empty sink that takes `limit` characters and no more.
    pub fn with_limit(limit: usize) -> (sink: Sink)
        ensures
            sink@ == Seq::<char>::empty(),
            sink.room() == Some(limit as nat),
    {
        Sink { text: String::new(), room: Some(limit) }
    }

    /// Appends `s`, or refuses it where it does not fit.
    pub fn write_str(&mut self, s: &str) -> (r: Result<(), SinkError>)
        ensures
            r is Ok <==> old(self).takes(s@.len()),
            r is Ok ==> final(self)@ == old(self)@ + s@ && final(self).room() == old(self).room_after(
                s@.len(),
            ),
            r is Err ==> final(self)@ == old(self)@ && final(self).room() == old(self).room(),
    {
        match self.room {
            Some(room) => {
                let n = s.unicode_len();
                if n > room {
                    return Err(SinkError);
                }
                self.room = Some(room - n);
            },
            None => {},
        }
        self.text.append(s);
        Ok(())
    }

    /// The number of characters the sink still takes, if it is bounded.
    pub fn remaining(&self) -> (room: Option<usize>)
        ensures
            match room {
                Some(n) => self.room() == Some(n as nat),
                None => self.room() is None,
            },
    {
        self.room
    }

    /// The text written so far.
    pub fn as_str(&self) -> (s: &str)
        ensures
            s@ == self@,
    {
        self.text.as_str()
    }

    /// Gives up the sink for the text written to it.
    pub fn into_string(self) -> (s: String)
        ensures
            s@ == self@,
    {
        self.text
    }
}

} // verus!
