//! Validation of device, node and property identifiers, and the
//! comma-joined identifier lists published as aggregate metadata.

use vstd::prelude::*;

verus! {

/// A character allowed in a device, node or property identifier:
/// a lowercase ASCII letter, an ASCII digit, or a hyphen.
pub open spec fn is_id_char(c: char) -> bool {
    ('a' as u32 <= c as u32 && c as u32 <= 'z' as u32) || ('0' as u32 <= c as u32 && c as u32
        <= '9' as u32) || c == '-'
}

/// A valid topic identifier: non-empty, made of lowercase ASCII
/// letters, digits and hyphens only, and neither starting nor ending
/// with a hyphen.
pub open spec fn spec_valid_topic_id(s: Seq<char>) -> bool {
    &&& s.len() > 0
    &&& s[0] != '-'
    &&& s[s.len() - 1] != '-'
    &&& forall|i: int| 0 <= i < s.len() ==> is_id_char(#[trigger] s[i])
}

/// Decides whether `topic` may be used as a device, node or property
/// identifier.
pub fn valid_topic_id(topic: &str) -> (b: bool)
    ensures
        b == spec_valid_topic_id(topic@),
{
    let len = topic.unicode_len();
    if len == 0 {
        return false;
    }
    if topic.get_char(0) == '-' {
        return false;
    }
    if topic.get_char(len - 1) == '-' {
        return false;
    }
    let mut i: usize = 0;
    while i < len
        invariant
            len == topic@.len(),
            0 < len,
            i <= len,
            topic@[0] != '-',
            topic@[len - 1] != '-',
            forall|j: int| 0 <= j < i ==> is_id_char(#[trigger] topic@[j]),
        decreases len - i,
    {
        let c = topic.get_char(i);
        let n = c as u32;
        if !((97 <= n && n <= 122) || (48 <= n && n <= 57) || n == 45) {
            assert(!is_id_char(topic@[i as int]));
            return false;
        }
        i += 1;
    }
    true
}

/// The given pieces of text joined by single commas.
pub open spec fn spec_comma_join(ss: Seq<Seq<char>>) -> Seq<char>
    decreases ss.len(),
{
    if ss.len() == 0 {
        Seq::<char>::empty()
    } else if ss.len() == 1 {
        ss[0]
    } else {
        spec_comma_join(ss.drop_last()) + seq![','] + ss.last()
    }
}

/// Joins the given strings with commas.
pub fn comma_join(items: &Vec<String>) -> (s: String)
    ensures
        s@ =~= spec_comma_join(items.deep_view()),
{
    proof {
        reveal_strlit(",");
    }
    let ghost vs = items.deep_view();
    let mut s = String::new();
    let mut i: usize = 0;
    while i < items.len()
        invariant
            i <= items.len(),
            vs == items.deep_view(),
            vs.len() == items@.len(),
            forall|j: int| 0 <= j < vs.len() ==> vs[j] == #[trigger] items@[j]@,
            s@ =~= spec_comma_join(vs.take(i as int)),
        decreases items.len() - i,
    {
        proof {
            reveal_strlit(",");
        }
        if i > 0 {
            s.append(",");
        }
        s.append(items[i].as_str());
        i += 1;
        proof {
            assert(vs.take(i as int).drop_last() =~= vs.take(i - 1));
            assert(vs.take(i as int).last() == vs[i - 1]);
            if i == 1 {
                assert(spec_comma_join(vs.take(1int)) == vs[0]);
            } else {
                assert(spec_comma_join(vs.take(i as int)) == spec_comma_join(vs.take(i - 1))
                    + seq![','] + vs[i - 1]);
            }
            assert(s@ =~= spec_comma_join(vs.take(i as int)));
        }
    }
    proof {
        assert(vs.take(items@.len() as int) =~= vs);
    }
    s
}

} // verus!
