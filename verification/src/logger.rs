//! The game log: an ordered record of narration lines. Lines are only ever
//! appended; none is dropped, merged or moved.

use crate::text::line_views;
use vstd::prelude::*;

verus! {

/// An append-only list of lines.
pub struct GameLogger {
    log: Vec<String>,
}

impl View for GameLogger {
    type V = Seq<Seq<char>>;

    closed spec fn view(&self) -> Seq<Seq<char>> {
        line_views(self.log@)
    }
}

impl GameLogger {
    /// An empty log.
    pub fn new() -> (logger: Self)
        ensures
            logger@ == Seq::<Seq<char>>::empty(),
    {
        let logger = GameLogger { log: Vec::new() };
        logger
    }

    /// Appends `entry` as the newest line of the log.
    pub fn add_entry(&mut self, entry: String)
        ensures
            final(self)@ == old(self)@.push(entry@),
    {
        self.log.push(entry);
    }

    /// The lines of the log, oldest first.
    pub fn get_log(&self) -> (lines: &[String])
        ensures
            line_views(lines@) == self@,
    {
        self.log.as_slice()
    }
}

} // verus!
