use vstd::prelude::*;

use crate::paths::{trim_str, trim_view};

verus! {

/// The drop operation: copies dragged-in files and folders into the current
/// location.  The splitting of the dropped line is [`crate::tokens::parse_paths`];
/// the planning and accounting of each copy is [`crate::copy::CopyRun`] with
/// [`crate::progress::ProgressTracker`].
pub struct DropCommand;

impl DropCommand {
    /// Builds the drop command.
    pub fn new() -> (r: DropCommand) {
        DropCommand
    }
}

/// The question put after a store operation: whether files or folders should
/// be dropped next.
pub struct DropAsks;

impl DropAsks {
    /// Builds the prompt.
    pub fn new() -> (r: DropAsks) {
        DropAsks
    }

    /// Whether an answer line means yes: exactly `y`, in either case, after
    /// trimming.
    pub fn wants_drop(&self, answer: &str) -> (r: bool)
        ensures
            r == (trim_view(answer@) == seq!['y'] || trim_view(answer@) == seq!['Y']),
    {
        let t = trim_str(answer);
        let n = t.as_str().unicode_len();
        if n == 1 {
            let c = t.as_str().get_char(0);
            proof {
                if c == 'y' {
                    assert(t@ =~= seq!['y']);
                }
                if c == 'Y' {
                    assert(t@ =~= seq!['Y']);
                }
                if c != 'y' && c != 'Y' {
                    assert(t@ != seq!['y']) by {
                        if t@ == seq!['y'] {
                            assert(t@[0] == 'y');
                        }
                    }
                    assert(t@ != seq!['Y']) by {
                        if t@ == seq!['Y'] {
                            assert(t@[0] == 'Y');
                        }
                    }
                }
            }
            c == 'y' || c == 'Y'
        } else {
            proof {
                assert(t@ != seq!['y']) by {
                    if t@ == seq!['y'] {
                        assert(t@.len() == 1);
                    }
                }
                assert(t@ != seq!['Y']) by {
                    if t@ == seq!['Y'] {
                        assert(t@.len() == 1);
                    }
                }
            }
            false
        }
    }
}

} // verus!
