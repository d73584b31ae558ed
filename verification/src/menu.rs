//! Naming the windows of the application.

use crate::text::{decimal, push_decimal};
use vstd::prelude::*;

verus! {

/// The zeros that pad the number of a window to four digits.
pub open spec fn padding(count: u32) -> Seq<char> {
    if count < 10 {
        seq!['0', '0', '0']
    } else if count < 100 {
        seq!['0', '0']
    } else if count < 1000 {
        seq!['0']
    } else {
        Seq::empty()
    }
}

/// The label of the window with number `count`: `instance_` and the number
/// in at least four digits.
pub open spec fn label_text(count: u32) -> Seq<char> {
    "instance_"@ + padding(count) + decimal(count as nat)
}

/// Writes the label of the window with number `count`.
pub fn instance_label(count: u32) -> (label: String)
    ensures
        label@ == label_text(count),
{
    let mut label = String::from_str("instance_");
    proof {
        reveal_strlit("000");
        reveal_strlit("00");
        reveal_strlit("0");
    }
    if count < 10 {
        label.append("000");
        assert(label@ =~= "instance_"@ + padding(count));
    } else if count < 100 {
        label.append("00");
        assert(label@ =~= "instance_"@ + padding(count));
    } else if count < 1000 {
        label.append("0");
        assert(label@ =~= "instance_"@ + padding(count));
    } else {
        assert(label@ =~= "instance_"@ + padding(count));
    }
    push_decimal(&mut label, count as u64);
    label
}

} // verus!
