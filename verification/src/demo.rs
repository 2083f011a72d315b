//! The shadowing demonstration itself.
//!
//! One name is bound three times: an outer binding holding the integer `1`,
//! a binding inside a nested block holding the string `"abc"` that shadows
//! the outer one for the block's duration, and a later outer binding holding
//! the integer `2` that supersedes the first for the rest of the scope. The
//! demonstration renders the binding visible at each of four points into a
//! line of text and returns the four lines in order.

use vstd::prelude::*;
use crate::decimal::decimal_rep;
use crate::decimal::decimal_string;

verus! {

/// The four output lines of the demonstration, in order.
pub open spec fn expected_lines() -> Seq<Seq<char>> {
    seq![
        "before being shadowed: 1"@,
        "shadowed in inner block: abc"@,
        "outside inner block: 1"@,
        "shadowed in outer block: 2"@,
    ]
}

/// Joins a label and a rendered binding value into one output line.
fn labeled_line(label: &str, value: String) -> (line: String)
    ensures
        line@ == label@ + value@,
{
    let mut line = label.to_owned();
    line.append(value.as_str());
    line
}

/// Performs the demonstration and returns its output lines in order.
///
/// The body exercises the scoping rule directly: `shadowed_binding` is bound
/// to `1`, shadowed by `"abc"` inside the nested block, visible as `1` again
/// once the block ends, and finally rebound to `2` in the outer scope.
pub fn shadowing_example_lines() -> (lines: Vec<String>)
    ensures
        lines@.len() == expected_lines().len(),
        forall|i: int| 0 <= i < lines@.len() ==> lines@[i]@ == expected_lines()[i],
{
    let shadowed_binding: u64 = 1;
    let mut lines: Vec<String> = Vec::new();
    {
        lines.push(labeled_line("before being shadowed: ", decimal_string(shadowed_binding)));
        // This binding shadows the outer one and only exists in this block.
        let shadowed_binding = "abc";
        lines.push(labeled_line("shadowed in inner block: ", shadowed_binding.to_owned()));
    }
    // The inner binding is gone; the name resolves to the outer binding again.
    lines.push(labeled_line("outside inner block: ", decimal_string(shadowed_binding)));
    // This binding shadows the first outer one for the rest of the scope.
    let shadowed_binding: u64 = 2;
    lines.push(labeled_line("shadowed in outer block: ", decimal_string(shadowed_binding)));
    proof {
        reveal_strlit("before being shadowed: ");
        reveal_strlit("before being shadowed: 1");
        reveal_strlit("shadowed in inner block: ");
        reveal_strlit("abc");
        reveal_strlit("shadowed in inner block: abc");
        reveal_strlit("outside inner block: ");
        reveal_strlit("outside inner block: 1");
        reveal_strlit("shadowed in outer block: ");
        reveal_strlit("shadowed in outer block: 2");
        assert(lines@[0]@ =~= expected_lines()[0]);
        assert(lines@[1]@ =~= expected_lines()[1]);
        assert(lines@[2]@ =~= expected_lines()[2]);
        assert(lines@[3]@ =~= expected_lines()[3]);
    }
    lines
}

/// The value rendered for the shared name depends on lexical position alone:
/// inside the nested block the line ends in `"abc"`, immediately after the
/// block (while the first outer binding is the referent again) it ends in
/// `"1"`, and after the outer rebinding it ends in `"2"`; the three values
/// are pairwise distinct.
pub proof fn lemma_value_depends_on_position()
    ensures
        expected_lines()[1] == "shadowed in inner block: "@ + "abc"@,
        expected_lines()[2] == "outside inner block: "@ + "1"@,
        expected_lines()[3] == "shadowed in outer block: "@ + "2"@,
        "abc"@ != "1"@,
        "1"@ != "2"@,
        "abc"@ != "2"@,
{
    reveal_strlit("shadowed in inner block: ");
    reveal_strlit("abc");
    reveal_strlit("shadowed in inner block: abc");
    reveal_strlit("outside inner block: ");
    reveal_strlit("outside inner block: 1");
    reveal_strlit("shadowed in outer block: ");
    reveal_strlit("shadowed in outer block: 2");
    reveal_strlit("1");
    reveal_strlit("2");
    assert(expected_lines()[1] =~= "shadowed in inner block: "@ + "abc"@);
    assert(expected_lines()[2] =~= "outside inner block: "@ + "1"@);
    assert(expected_lines()[3] =~= "shadowed in outer block: "@ + "2"@);
    assert("abc"@.len() != "1"@.len());
    assert("1"@[0] != "2"@[0]);
    assert("abc"@.len() != "2"@.len());
}

/// Repeated invocations produce identical output: the contract of
/// `shadowing_example_lines` pins its result to the one fixed sequence
/// `expected_lines()`, so any two results satisfying it are equal.
pub proof fn lemma_repeated_output_identical(a: Seq<Seq<char>>, b: Seq<Seq<char>>)
    requires
        a.len() == expected_lines().len(),
        forall|i: int| 0 <= i < a.len() ==> a[i] == expected_lines()[i],
        b.len() == expected_lines().len(),
        forall|i: int| 0 <= i < b.len() ==> b[i] == expected_lines()[i],
    ensures
        a == b,
{
    assert(a =~= b);
}

} // verus!
