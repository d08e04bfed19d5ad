//! The diagnostic log as the units observe it: an append-only sequence of
//! lines. The hosting runtime owns the real sink; this buffer makes each
//! emission visible to callers and to the contracts.

use vstd::prelude::*;

verus! {

/// An append-only buffer of diagnostic lines, oldest first.
pub struct LogBuffer {
    lines: Vec<String>,
}

impl LogBuffer {
    /// The emitted lines, oldest first.
    pub closed spec fn view(&self) -> Seq<Seq<char>> {
        self.lines@.map_values(|s: String| s@)
    }

    /// An empty log: nothing has been emitted yet.
    pub fn new() -> (r: LogBuffer)
        ensures
            r@ == Seq::<Seq<char>>::empty(),
    {
        let r = LogBuffer { lines: Vec::new() };
        proof {
            assert(r@ =~= Seq::<Seq<char>>::empty());
        }
        r
    }

    /// Record one diagnostic line at the end of the log.
    pub fn emit(&mut self, line: &str)
        ensures
            final(self)@ == old(self)@.push(line@),
    {
        self.lines.push(String::from_str(line));
        proof {
            assert(self@ =~= old(self)@.push(line@));
        }
    }

    /// How many lines have been emitted.
    pub fn len(&self) -> (n: usize)
        ensures
            n == self@.len(),
    {
        self.lines.len()
    }

    /// The i-th emitted line, oldest first.
    pub fn line(&self, i: usize) -> (r: &String)
        requires
            i < self@.len(),
        ensures
            r@ == self@[i as int],
    {
        &self.lines[i]
    }
}

} // verus!
