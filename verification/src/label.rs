//! The display form of a node: `room_<id>`, `user_<id>` or `server_<id>`,
//! with the id in decimal. Diagnostics and the visualization exports both
//! render nodes through this form.

use vstd::prelude::*;

use crate::graph::Node;
use crate::graph::NodeType;

verus! {

/// The decimal digit character for `d` (meaningful for `0 <= d <= 9`).
pub open spec fn digit_char(d: int) -> char {
    if d == 0 {
        '0'
    } else if d == 1 {
        '1'
    } else if d == 2 {
        '2'
    } else if d == 3 {
        '3'
    } else if d == 4 {
        '4'
    } else if d == 5 {
        '5'
    } else if d == 6 {
        '6'
    } else if d == 7 {
        '7'
    } else if d == 8 {
        '8'
    } else {
        '9'
    }
}

/// The decimal rendering of a nonnegative integer, most significant digit
/// first, without leading zeros (a single `'0'` for zero).
pub open spec fn decimal_str(n: int) -> Seq<char>
    recommends
        n >= 0,
    decreases n,
{
    if n < 10 {
        seq![digit_char(n)]
    } else {
        decimal_str(n / 10) + seq![digit_char(n % 10)]
    }
}

/// The display form of a node: its kind's prefix, then its id in decimal.
pub open spec fn label_spec(node: Node) -> Seq<char> {
    match node.kind {
        NodeType::Room => "room_"@ + decimal_str(node.id as int),
        NodeType::User => "user_"@ + decimal_str(node.id as int),
        NodeType::Server => "server_"@ + decimal_str(node.id as int),
    }
}

/// The one-character string for a decimal digit.
fn digit_str(d: u64) -> (s: &'static str)
    requires
        d <= 9,
    ensures
        s@ == seq![digit_char(d as int)],
{
    proof {
        reveal_strlit("0");
        reveal_strlit("1");
        reveal_strlit("2");
        reveal_strlit("3");
        reveal_strlit("4");
        reveal_strlit("5");
        reveal_strlit("6");
        reveal_strlit("7");
        reveal_strlit("8");
        reveal_strlit("9");
    }
    let s: &'static str = if d == 0 {
        "0"
    } else if d == 1 {
        "1"
    } else if d == 2 {
        "2"
    } else if d == 3 {
        "3"
    } else if d == 4 {
        "4"
    } else if d == 5 {
        "5"
    } else if d == 6 {
        "6"
    } else if d == 7 {
        "7"
    } else if d == 8 {
        "8"
    } else {
        "9"
    };
    proof {
        assert(s@ =~= seq![digit_char(d as int)]);
    }
    s
}

/// Renders `n` in decimal.
pub fn u64_to_decimal(n: u64) -> (s: String)
    ensures
        s@ == decimal_str(n as int),
    decreases n,
{
    if n < 10 {
        String::from_str(digit_str(n))
    } else {
        let mut s = u64_to_decimal(n / 10);
        s.append(digit_str(n % 10));
        s
    }
}

impl Node {
    /// The display form: `room_<id>`, `user_<id>` or `server_<id>`.
    pub fn label(&self) -> (s: String)
        ensures
            s@ == label_spec(*self),
    {
        let prefix: &'static str = match self.kind {
            NodeType::Room => "room_",
            NodeType::User => "user_",
            NodeType::Server => "server_",
        };
        let mut s = String::from_str(prefix);
        let digits = u64_to_decimal(self.id);
        s.append(digits.as_str());
        s
    }
}

} // verus!
