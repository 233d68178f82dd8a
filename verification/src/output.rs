//! Line-oriented output collectors. Commands append complete lines; a
//! collector either prints them to the console or hands them back for
//! inspection.

use std::io::Write;
use vstd::prelude::*;

verus! {

/// A sink for the lines a command wants to show.
pub trait Output {
    /// The lines accumulated so far.
    spec fn lines(&self) -> Seq<Seq<char>>;

    /// Appends one line.
    fn add(&mut self, output: String)
        ensures
            final(self).lines() == old(self).lines().push(output@),
    ;

    /// Appends one line given as a string slice.
    fn add_str(&mut self, output: &str)
        ensures
            final(self).lines() == old(self).lines().push(output@),
    ;

    /// Emits the accumulated lines; a collector that keeps them instead
    /// returns them.
    fn print(&self) -> Option<Vec<String>>;
}

/// Writes one finished line to standard output.
///
/// Relies on `std::io::Stdout::write_fmt` (through `writeln`) to put the text
/// and a newline on the console; a console failure is deliberately dropped.
#[verifier::external_body]
fn emit_line(line: &str) {
    let _ = writeln!(std::io::stdout(), "{}", line);
}

/// Collects lines and prints them to the console on `print`.
pub struct ConsoleOutput {
    output: Vec<String>,
}

impl ConsoleOutput {
    pub fn new() -> (r: Self)
        ensures
            r.lines() == Seq::<Seq<char>>::empty(),
    {
        let r = ConsoleOutput { output: Vec::new() };
        proof {
            assert(r.lines() =~= Seq::<Seq<char>>::empty());
        }
        r
    }
}

impl Output for ConsoleOutput {
    closed spec fn lines(&self) -> Seq<Seq<char>> {
        self.output.deep_view()
    }

    fn add(&mut self, output: String) {
        self.output.push(output);
        proof {
            assert(self.lines() =~= old(self).lines().push(output@));
        }
    }

    fn add_str(&mut self, output: &str) {
        let line = output.to_owned();
        self.output.push(line);
        proof {
            assert(self.lines() =~= old(self).lines().push(output@));
        }
    }

    /// Prints every line to the console and keeps nothing back.
    fn print(&self) -> Option<Vec<String>> {
        let mut i: usize = 0;
        while i < self.output.len()
            decreases self.output.len() - i,
        {
            emit_line(self.output[i].as_str());
            i += 1;
        }
        None
    }
}

/// Collects lines and hands them back on `print`, for tests and error paths.
pub struct DebugOutput {
    output: Vec<String>,
}

impl DebugOutput {
    pub fn new() -> (r: Self)
        ensures
            r.lines() == Seq::<Seq<char>>::empty(),
    {
        let r = DebugOutput { output: Vec::new() };
        proof {
            assert(r.lines() =~= Seq::<Seq<char>>::empty());
        }
        r
    }
}

impl Output for DebugOutput {
    closed spec fn lines(&self) -> Seq<Seq<char>> {
        self.output.deep_view()
    }

    fn add(&mut self, output: String) {
        self.output.push(output);
        proof {
            assert(self.lines() =~= old(self).lines().push(output@));
        }
    }

    fn add_str(&mut self, output: &str) {
        let line = output.to_owned();
        self.output.push(line);
        proof {
            assert(self.lines() =~= old(self).lines().push(output@));
        }
    }

    /// Returns the accumulated lines without printing them.
    fn print(&self) -> Option<Vec<String>> {
        Some(self.output.clone())
    }
}

} // verus!
