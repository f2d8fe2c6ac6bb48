//! Time stamps of log lines.

use vstd::prelude::*;

verus! {

/// `HH:MM:SS`: two digits, a colon, two digits, a colon, two digits.
pub open spec fn is_hms(s: Seq<char>) -> bool {
    &&& s.len() == 8
    &&& s[2] == ':'
    &&& s[5] == ':'
    &&& forall|i: int|
        0 <= i < 8 && i != 2 && i != 5 ==> '0' <= #[trigger] s[i] && s[i] <= '9'
}

/// Wrapper of chrono's `Local::now().format("%H:%M:%S")`. Claimed, as
/// chrono documents `%H`, `%M` and `%S` (hour, minute and second, each
/// zero-padded to two digits): the text has the shape `HH:MM:SS`. Which
/// time it shows is not stated: it is the clock's.
#[verifier::external_body]
fn local_hms() -> (r: String)
    ensures
        is_hms(r@),
{
    chrono::Local::now().format("%H:%M:%S").to_string()
}

/// The local time as `HH:MM:SS`, to stamp log lines with.
pub fn timestamp() -> (r: String)
    ensures
        is_hms(r@),
{
    local_hms()
}

} // verus!
