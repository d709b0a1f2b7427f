//! The legend registry: the process-wide, immutable, ordered list of
//! semantic categories. Its order is the wire-protocol id assignment and
//! must never change once a client has cached it.

use vstd::prelude::*;

use crate::tokens::SemanticCategory;

verus! {

/// The published legend, in its fixed order. The id of a category on the
/// wire is its position in this sequence.
pub open spec fn legend_seq() -> Seq<SemanticCategory> {
    seq![
        SemanticCategory::Number,
        SemanticCategory::Str,
        SemanticCategory::Operator,
        SemanticCategory::Keyword,
        SemanticCategory::Comment,
        SemanticCategory::Function,
        SemanticCategory::Struct,
    ]
}

/// The wire id of a category: its position in `legend_seq`.
pub open spec fn category_id(c: SemanticCategory) -> int {
    match c {
        SemanticCategory::Number => 0,
        SemanticCategory::Str => 1,
        SemanticCategory::Operator => 2,
        SemanticCategory::Keyword => 3,
        SemanticCategory::Comment => 4,
        SemanticCategory::Function => 5,
        SemanticCategory::Struct => 6,
    }
}

/// Looks a category up in the legend and returns its wire id.
pub fn token_type_id(c: SemanticCategory) -> (r: u32)
    ensures
        r == category_id(c),
{
    match c {
        SemanticCategory::Number => 0,
        SemanticCategory::Str => 1,
        SemanticCategory::Operator => 2,
        SemanticCategory::Keyword => 3,
        SemanticCategory::Comment => 4,
        SemanticCategory::Function => 5,
        SemanticCategory::Struct => 6,
    }
}

/// The ordered category list, as advertised once to the client in the
/// capability-negotiation response.
pub fn legend_categories() -> (r: Vec<SemanticCategory>)
    ensures
        r@ == legend_seq(),
{
    let mut v: Vec<SemanticCategory> = Vec::new();
    v.push(SemanticCategory::Number);
    v.push(SemanticCategory::Str);
    v.push(SemanticCategory::Operator);
    v.push(SemanticCategory::Keyword);
    v.push(SemanticCategory::Comment);
    v.push(SemanticCategory::Function);
    v.push(SemanticCategory::Struct);
    proof {
        assert(v@ =~= legend_seq());
    }
    v
}

/// Legend stability: every category's id is exactly its position in the
/// published legend, and the id of the category at any legend position is
/// that position.
pub proof fn lemma_legend_stable()
    ensures
        forall|c: SemanticCategory|
            0 <= #[trigger] category_id(c) < legend_seq().len() && legend_seq()[category_id(c)] == c,
        forall|i: int| 0 <= i < legend_seq().len() ==> category_id(#[trigger] legend_seq()[i]) == i,
{
    assert forall|c: SemanticCategory|
        0 <= #[trigger] category_id(c) < legend_seq().len() && legend_seq()[category_id(c)] == c
    by {
        match c {
            SemanticCategory::Number => assert(legend_seq()[0] == c),
            SemanticCategory::Str => assert(legend_seq()[1] == c),
            SemanticCategory::Operator => assert(legend_seq()[2] == c),
            SemanticCategory::Keyword => assert(legend_seq()[3] == c),
            SemanticCategory::Comment => assert(legend_seq()[4] == c),
            SemanticCategory::Function => assert(legend_seq()[5] == c),
            SemanticCategory::Struct => assert(legend_seq()[6] == c),
        }
    }
    assert forall|i: int| 0 <= i < legend_seq().len() implies category_id(#[trigger] legend_seq()[i]) == i by {
        if i == 0 {
            assert(legend_seq()[0] == SemanticCategory::Number);
        } else if i == 1 {
            assert(legend_seq()[1] == SemanticCategory::Str);
        } else if i == 2 {
            assert(legend_seq()[2] == SemanticCategory::Operator);
        } else if i == 3 {
            assert(legend_seq()[3] == SemanticCategory::Keyword);
        } else if i == 4 {
            assert(legend_seq()[4] == SemanticCategory::Comment);
        } else if i == 5 {
            assert(legend_seq()[5] == SemanticCategory::Function);
        } else {
            assert(legend_seq()[6] == SemanticCategory::Struct);
        }
    }
}

} // verus!
