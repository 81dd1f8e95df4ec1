//! Settings of the binding.
use vstd::prelude::*;

verus! {

/// Process-wide settings of the binding.
pub struct Config {
    /// Accept invalid UTF-8 in incoming strings, replacing bad sequences.
    pub utf8_lenient: bool,
    /// Directory where indexes are kept.
    pub fts_path: String,
}

impl Config {
    /// Strict UTF-8 and an empty index path.
    pub fn default() -> (r: Config)
        ensures
            !r.utf8_lenient,
            r.fts_path@ == Seq::<char>::empty(),
    {
        Config { utf8_lenient: false, fts_path: String::new() }
    }

    pub fn update_utf8_lenient(&mut self, utf8_lenient: bool)
        ensures
            final(self).utf8_lenient == utf8_lenient,
            final(self).fts_path == old(self).fts_path,
    {
        self.utf8_lenient = utf8_lenient;
    }

    pub fn update_fts_path(&mut self, fts_path: String)
        ensures
            final(self).fts_path == fts_path,
            final(self).utf8_lenient == old(self).utf8_lenient,
    {
        self.fts_path = fts_path;
    }
}

} // verus!
