//! Encoding of call arguments: each argument becomes a JSON fragment, and the
//! fragments are joined by commas so that they can be spliced between the
//! parentheses of a call expression.

use vstd::prelude::*;
use crate::js_value::{json_text, to_json_text, JsValue};

verus! {

/// The fragments joined by single commas: no comma before the first, none
/// after the last, and the empty text for no fragment at all.
pub open spec fn comma_joined(fragments: Seq<Seq<char>>) -> Seq<char>
    decreases fragments.len(),
{
    if fragments.len() == 0 {
        Seq::<char>::empty()
    } else if fragments.len() == 1 {
        fragments[0]
    } else {
        comma_joined(fragments.drop_last()) + seq![','] + fragments.last()
    }
}

/// The texts of a sequence of strings.
pub open spec fn texts_of(fragments: Seq<String>) -> Seq<Seq<char>> {
    Seq::new(fragments.len(), |i: int| fragments[i]@)
}

/// The JSON texts of a sequence of values.
pub open spec fn json_texts_of(values: Seq<JsValue>) -> Seq<Seq<char>> {
    Seq::new(values.len(), |i: int| json_text(values[i]))
}

/// One more fragment at the end: alone it stands as it is, after others it
/// follows a comma.
pub proof fn lemma_comma_joined_push(fragments: Seq<Seq<char>>, last: Seq<char>)
    ensures
        comma_joined(fragments.push(last)) == if fragments.len() == 0 {
            last
        } else {
            comma_joined(fragments) + seq![','] + last
        },
{
    let all = fragments.push(last);
    assert(all.drop_last() =~= fragments);
    assert(all.last() == last);
    assert(all[0] == if fragments.len() == 0 { last } else { fragments[0] });
}

/// Joins already encoded argument fragments into the argument list of a call.
pub fn join_arg_fragments(fragments: &Vec<String>) -> (joined: String)
    ensures
        joined@ == comma_joined(texts_of(fragments@)),
{
    let mut joined = String::new();
    let mut i: usize = 0;
    while i < fragments.len()
        invariant
            i <= fragments.len(),
            joined@ == comma_joined(texts_of(fragments@).take(i as int)),
        decreases fragments.len() - i,
    {
        proof {
            reveal_strlit(",");
            let all = texts_of(fragments@);
            assert(all.take(i as int + 1) =~= all.take(i as int).push(all[i as int]));
            lemma_comma_joined_push(all.take(i as int), all[i as int]);
            assert(","@ =~= seq![',']);
        }
        if i > 0 {
            joined.append(",");
        }
        joined.append(fragments[i].as_str());
        i += 1;
    }
    proof {
        assert(texts_of(fragments@).take(i as int) =~= texts_of(fragments@));
    }
    joined
}

/// Encodes the arguments of a call: the compact JSON text of each value, in
/// order, joined by commas.
pub fn encode_args(values: &Vec<JsValue>) -> (encoded: String)
    ensures
        encoded@ == comma_joined(json_texts_of(values@)),
{
    let mut fragments: Vec<String> = Vec::new();
    let mut i: usize = 0;
    while i < values.len()
        invariant
            i <= values.len(),
            fragments@.len() == i,
            texts_of(fragments@) == json_texts_of(values@).take(i as int),
        decreases values.len() - i,
    {
        let ghost before = fragments@;
        let text = to_json_text(&values[i]);
        fragments.push(text);
        proof {
            let now = texts_of(fragments@);
            let goal = json_texts_of(values@).take(i as int + 1);
            assert forall|j: int| 0 <= j < now.len() implies now[j] == goal[j] by {
                if j < i {
                    assert(fragments@[j] == before[j]);
                    assert(texts_of(before)[j] == json_texts_of(values@).take(i as int)[j]);
                }
            }
            assert(now =~= goal);
        }
        i += 1;
    }
    proof {
        assert(json_texts_of(values@).take(i as int) =~= json_texts_of(values@));
    }
    join_arg_fragments(&fragments)
}

} // verus!
