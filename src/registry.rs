use crate::error::Family;
use vstd::prelude::*;

verus! {

/// The tags that each family's registry holds.
pub open spec fn registered(family: Family, tag: Seq<char>) -> bool {
    match family {
        Family::Condition => tag == "FloatInRange"@ || tag == "FloatListIsNotEmpty"@ || tag
            == "FloatListLengthNotEquals"@ || tag == "IntLessThanOrEquals"@,
        Family::BoolOperation => tag == "Buffer"@,
        Family::BoolValue => tag == "Bool"@ || tag == "Buffer"@,
        Family::IntValue => tag == "Int"@,
        Family::FloatValue => tag == "Float"@,
        Family::FloatListValue => tag == "FloatList"@,
        Family::FloatRangeValue => tag == "FloatRange"@,
    }
}

pub open spec fn is_value_family(family: Family) -> bool {
    family != Family::Condition && family != Family::BoolOperation
}

/// Character-wise equality of two strings.
pub fn same_text(a: &str, b: &str) -> (r: bool)
    ensures
        r == (a@ == b@),
{
    let n = a.unicode_len();
    if n != b.unicode_len() {
        return false;
    }
    let mut i: usize = 0;
    while i < n
        invariant
            n == a@.len(),
            n == b@.len(),
            i <= n,
            forall|j: int| 0 <= j < i ==> a@[j] == b@[j],
        decreases n - i,
    {
        if a.get_char(i) != b.get_char(i) {
            return false;
        }
        i = i + 1;
    }
    proof {
        assert(a@ =~= b@);
    }
    true
}

/// Whether `tag` is registered under `family`.
pub fn is_registered(family: Family, tag: &str) -> (r: bool)
    ensures
        r == registered(family, tag@),
{
    match family {
        Family::Condition => same_text(tag, "FloatInRange") || same_text(tag, "FloatListIsNotEmpty")
            || same_text(tag, "FloatListLengthNotEquals") || same_text(tag, "IntLessThanOrEquals"),
        Family::BoolOperation => same_text(tag, "Buffer"),
        Family::BoolValue => same_text(tag, "Bool") || same_text(tag, "Buffer"),
        Family::IntValue => same_text(tag, "Int"),
        Family::FloatValue => same_text(tag, "Float"),
        Family::FloatListValue => same_text(tag, "FloatList"),
        Family::FloatRangeValue => same_text(tag, "FloatRange"),
    }
}

/// Tags are isolated by family: no tag of a condition kind is known to a value
/// family, and no tag of a value kind is known to the condition family.
pub proof fn lemma_tag_isolation(tag: Seq<char>, family: Family)
    requires
        is_value_family(family),
    ensures
        registered(Family::Condition, tag) ==> !registered(family, tag),
        registered(family, tag) ==> !registered(Family::Condition, tag),
{
    reveal_strlit("FloatInRange");
    reveal_strlit("FloatListIsNotEmpty");
    reveal_strlit("FloatListLengthNotEquals");
    reveal_strlit("IntLessThanOrEquals");
    reveal_strlit("Bool");
    reveal_strlit("Buffer");
    reveal_strlit("Int");
    reveal_strlit("Float");
    reveal_strlit("FloatList");
    reveal_strlit("FloatRange");
    assert("FloatInRange"@.len() == 12);
    assert("FloatListIsNotEmpty"@.len() == 19);
    assert("FloatListLengthNotEquals"@.len() == 24);
    assert("IntLessThanOrEquals"@.len() == 19);
    assert("Bool"@.len() == 4);
    assert("Buffer"@.len() == 6);
    assert("Int"@.len() == 3);
    assert("Float"@.len() == 5);
    assert("FloatList"@.len() == 9);
    assert("FloatRange"@.len() == 10);
}

} // verus!
