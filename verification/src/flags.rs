//! Numbers of stop flags: a bridge hands them out one after the other.
use vstd::prelude::*;

verus! {

/// How many flags have been handed out after one more. The count stops at its end.
pub open spec fn one_more(issued: u64) -> u64 {
    if issued == u64::MAX {
        issued
    } else {
        (issued + 1) as u64
    }
}

/// The flag is one of those handed out, as far as the count tells: once it has come to its end, it
/// tells nothing.
pub open spec fn is_issued(flag: u64, issued: u64) -> bool {
    flag < issued || issued == u64::MAX
}

/// The next flag, when it must not be `taken`.
pub open spec fn apart_from(issued: u64, taken: u64) -> u64 {
    if issued != taken {
        issued
    } else if issued < u64::MAX {
        (issued + 1) as u64
    } else {
        (issued - 1) as u64
    }
}

/// How many flags have been handed out once `flag` is among them.
pub open spec fn including(issued: u64, flag: u64) -> u64 {
    if flag < issued {
        issued
    } else {
        one_more(flag)
    }
}

/// The next flag, when it must not be `taken`, and how many have been handed out with it.
pub fn issue_apart(issued: u64, taken: u64) -> (r: (u64, u64))
    ensures
        r.0 == apart_from(issued, taken),
        r.1 == including(issued, r.0),
        r.0 != taken,
        r.1 >= issued,
        is_issued(r.0, r.1),
{
    if issued != taken {
        (issued, issue_one(issued))
    } else if issued < u64::MAX {
        (issued + 1, issue_one(issued + 1))
    } else {
        (issued - 1, issued)
    }
}

/// How many flags have been handed out after one more.
pub fn issue_one(issued: u64) -> (r: u64)
    ensures
        r == one_more(issued),
{
    if issued == u64::MAX {
        issued
    } else {
        issued + 1
    }
}

/// What is handed out when one flag must not be: the next number, or the one after it if the next
/// is that flag. At the end of the count, where there is none after, it is the one before. Numbers
/// below the count have all been handed out, so the flag is a fresh one as long as there are any.
pub proof fn law_apart_from(issued: u64, taken: u64)
    ensures
        apart_from(issued, taken) != taken,
        issued != taken ==> apart_from(issued, taken) == issued,
        issued == taken && issued < u64::MAX ==> apart_from(issued, taken) == issued + 1,
        issued == taken && issued == u64::MAX ==> apart_from(issued, taken) == u64::MAX - 1,
{
}

/// A count that takes in a flag is above that flag, unless it is at its end; it does not go down, and
/// it does not go up by more than it takes.
pub proof fn law_counting_flags(issued: u64, flag: u64)
    ensures
        issued < u64::MAX ==> one_more(issued) == issued + 1,
        issued == u64::MAX ==> one_more(issued) == u64::MAX,
        flag < issued ==> including(issued, flag) == issued,
        issued <= flag < u64::MAX ==> including(issued, flag) == flag + 1,
        flag == u64::MAX ==> including(issued, flag) == u64::MAX,
        is_issued(flag, issued) <==> flag < issued || issued == u64::MAX,
{
}

} // verus!
