use vstd::prelude::*;

use crate::cursor::spec_back_one;
use crate::editor_state::{spec_move_right, spec_remove_from_edit, spec_update_edit};

verus! {

/// Law: stepping left and then right from any offset that has a unit on its
/// left returns the cursor to its origin. At the buffer start the left step
/// is a no-op and the pair instead lands one unit right of the origin.
pub proof fn lemma_move_left_then_right(s: Seq<char>, c: int)
    requires
        0 < c <= s.len(),
    ensures
        spec_move_right(s, spec_back_one(c)) == c,
{
}

/// Law: inserting any character at the cursor and then deleting backward
/// restores both the buffer content and the cursor offset exactly.
pub proof fn lemma_insert_then_remove(s: Seq<char>, c: int, ch: char)
    requires
        0 <= c <= s.len(),
    ensures
        ({
            let t = spec_update_edit(s, c, ch);
            spec_remove_from_edit(t.0, t.1) == (s, c)
        }),
{
    let t = spec_update_edit(s, c, ch);
    assert(t.0.remove(c) =~= s);
}

} // verus!
