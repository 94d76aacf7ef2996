//! The names of runs: they tell when a run started and what it was.

use vstd::prelude::*;
use crate::audit;
use crate::audit::Timestamp;
use crate::laws::words;
use crate::text;

verus! {

/// The time of a run as a name has fifteen characters: eight digits for the day, a hyphen,
/// and six digits for the time of day. Every field can be read back from its place.
pub proof fn compact_time_can_be_read_back(t: Timestamp)
    requires
        t.wf(),
    ensures
        ({
            let s = audit::compact_time(t);
            &&& s.len() == 15
            &&& words::number(s.subrange(0, 4)) == t.year
            &&& words::number(s.subrange(4, 6)) == t.month
            &&& words::number(s.subrange(6, 8)) == t.day
            &&& s[8] == '-'
            &&& words::number(s.subrange(9, 11)) == t.hour
            &&& words::number(s.subrange(11, 13)) == t.minute
            &&& words::number(s.subrange(13, 15)) == t.second
        }),
{
    words::padded_numeral_stands_for_its_number(t.year as nat, 4);
    words::padded_numeral_stands_for_its_number(t.month as nat, 2);
    words::padded_numeral_stands_for_its_number(t.day as nat, 2);
    words::padded_numeral_stands_for_its_number(t.hour as nat, 2);
    words::padded_numeral_stands_for_its_number(t.minute as nat, 2);
    words::padded_numeral_stands_for_its_number(t.second as nat, 2);
    reveal_strlit("-");
    let s = audit::compact_time(t);
    assert(s.subrange(0, 4) =~= text::padded(t.year as nat, 4));
    assert(s.subrange(4, 6) =~= text::padded(t.month as nat, 2));
    assert(s.subrange(6, 8) =~= text::padded(t.day as nat, 2));
    assert(s.subrange(9, 11) =~= text::padded(t.hour as nat, 2));
    assert(s.subrange(11, 13) =~= text::padded(t.minute as nat, 2));
    assert(s.subrange(13, 15) =~= text::padded(t.second as nat, 2));
}

/// The name of a run starts with its time, then tells its command and, where it has one
/// that is not empty, its slug.
pub proof fn run_name_tells_the_run(t: Timestamp, command: Seq<char>, slug: Option<Seq<char>>)
    requires
        t.wf(),
    ensures
        ({
            let name = audit::run_name(t, command, slug);
            let rest = name.skip(15);
            &&& name.take(15) == audit::compact_time(t)
            &&& slug is Some && slug->Some_0.len() > 0 ==> rest == "_"@ + command + "_"@
                + slug->Some_0
            &&& slug is None || slug->Some_0.len() == 0 ==> rest == "_"@ + command
        }),
{
    compact_time_can_be_read_back(t);
    let name = audit::run_name(t, command, slug);
    assert(name.take(15) =~= audit::compact_time(t));
    if slug is Some && slug->Some_0.len() > 0 {
        assert(name.skip(15) =~= "_"@ + command + "_"@ + slug->Some_0);
    } else {
        assert(name.skip(15) =~= "_"@ + command);
    }
}

} // verus!
