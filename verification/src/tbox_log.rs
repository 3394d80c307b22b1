//! Tags and switches of the tagged logs, one module per log.

pub mod can;
pub mod kernel;
pub mod modem;
pub mod remote;
pub mod vehicle;

use vstd::prelude::*;

verus! {

/// Each log's tag is the name of its log, so no two logs share a tag and a
/// line can be traced back to the log that wrote it.
pub proof fn lemma_tags_distinct()
    ensures
        can::TAG@ == "can"@,
        kernel::TAG@ == "kernel"@,
        modem::TAG@ == "modem"@,
        remote::TAG@ == "remote"@,
        vehicle::TAG@ == "vehicle"@,
        seq![can::TAG@, kernel::TAG@, modem::TAG@, remote::TAG@, vehicle::TAG@].no_duplicates(),
{
    reveal_strlit("can");
    reveal_strlit("kernel");
    reveal_strlit("modem");
    reveal_strlit("remote");
    reveal_strlit("vehicle");
    let tags = seq![can::TAG@, kernel::TAG@, modem::TAG@, remote::TAG@, vehicle::TAG@];
    assert forall|i: int, j: int| 0 <= i < tags.len() && 0 <= j < tags.len() && i != j
        implies tags[i] != tags[j] by {
        assert(tags[i][0] != tags[j][0] || tags[i].len() != tags[j].len());
    }
}

} // verus!
