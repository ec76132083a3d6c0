use vstd::prelude::*;

verus! {

/// The persisted settings record: the path of the run file that most recently
/// loaded successfully, if any. A failed load attempt never touches this
/// record; only a successful one updates it.
pub struct Config {
    pub split_file: Option<String>,
}

impl Default for Config {
    /// A configuration with no remembered run file.
    fn default() -> (c: Self)
        ensures
            c.split_file is None,
    {
        Config { split_file: None }
    }
}

} // verus!
