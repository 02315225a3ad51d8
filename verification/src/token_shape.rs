//! The shape of a compact token: a message and a signature, joined by the
//! token's last dot. The message is itself a header and a payload joined by a
//! dot, so a token of the right shape has exactly two dots.

use vstd::prelude::*;

verus! {

/// The number of dots in `t`.
pub open spec fn dots(t: Seq<char>) -> nat
    decreases t.len(),
{
    if t.len() == 0 {
        0
    } else {
        dots(t.drop_last()) + if t.last() == '.' {
            1nat
        } else {
            0nat
        }
    }
}

/// The index of the last dot of `t`, or -1 if it has none.
pub open spec fn last_dot(t: Seq<char>) -> int
    decreases t.len(),
{
    if t.len() == 0 {
        -1
    } else if t.last() == '.' {
        t.len() - 1
    } else {
        last_dot(t.drop_last())
    }
}

/// What stands before the last dot: the text that is signed.
pub open spec fn message_part(t: Seq<char>) -> Seq<char>
    recommends
        last_dot(t) >= 0,
{
    t.take(last_dot(t))
}

/// What stands after the last dot: the signature.
pub open spec fn signature_part(t: Seq<char>) -> Seq<char> {
    t.skip(last_dot(t) + 1)
}

/// The last dot is a dot, nothing after it is one, and it is there exactly
/// when the text has a dot at all.
pub proof fn lemma_last_dot(t: Seq<char>)
    ensures
        -1 <= last_dot(t) < t.len(),
        last_dot(t) >= 0 ==> t[last_dot(t)] == '.',
        forall|i: int| last_dot(t) < i < t.len() ==> t[i] != '.',
        last_dot(t) >= 0 <==> dots(t) > 0,
        dots(signature_part(t)) == 0,
    decreases t.len(),
{
    if t.len() > 0 {
        lemma_last_dot(t.drop_last());
        if t.last() != '.' {
            assert(signature_part(t).drop_last() =~= signature_part(t.drop_last()));
            assert forall|i: int| last_dot(t) < i < t.len() implies t[i] != '.' by {
                if i < t.len() - 1 {
                    assert(t.drop_last()[i] == t[i]);
                }
            }
        } else {
            assert(signature_part(t) =~= Seq::<char>::empty());
        }
    } else {
        assert(signature_part(t) =~= Seq::<char>::empty());
    }
}

/// The dots of a concatenation are those of its parts.
pub proof fn lemma_dots_concat(a: Seq<char>, b: Seq<char>)
    ensures
        dots(a + b) == dots(a) + dots(b),
    decreases b.len(),
{
    if b.len() == 0 {
        assert(a + b =~= a);
    } else {
        assert((a + b).drop_last() =~= a + b.drop_last());
        lemma_dots_concat(a, b.drop_last());
    }
}

/// Text without a dot, put behind a text, leaves the last dot where it was.
pub proof fn lemma_last_dot_concat(a: Seq<char>, b: Seq<char>)
    requires
        dots(b) == 0,
    ensures
        last_dot(a + b) == last_dot(a),
    decreases b.len(),
{
    if b.len() == 0 {
        assert(a + b =~= a);
    } else {
        assert((a + b).drop_last() =~= a + b.drop_last());
        lemma_last_dot_concat(a, b.drop_last());
    }
}

/// Two texts that agree up to and including the last dot of the first, and
/// have the same number of dots, have the same message.
pub proof fn lemma_same_message(t: Seq<char>, u: Seq<char>)
    requires
        last_dot(t) >= 0,
        u.len() > last_dot(t),
        u.take(last_dot(t) + 1) == t.take(last_dot(t) + 1),
        dots(u) == dots(t),
    ensures
        last_dot(u) == last_dot(t),
        message_part(u) == message_part(t),
{
    let k = last_dot(t) + 1;
    lemma_last_dot(t);
    assert(t =~= t.take(k) + t.skip(k));
    assert(u =~= u.take(k) + u.skip(k));
    lemma_dots_concat(t.take(k), t.skip(k));
    lemma_dots_concat(u.take(k), u.skip(k));
    lemma_last_dot_concat(u.take(k), u.skip(k));
    lemma_last_dot_concat(t.take(k), t.skip(k));
    assert(message_part(u) =~= message_part(t)) by {
        assert(u.take(k).take(k - 1) =~= u.take(k - 1));
        assert(t.take(k).take(k - 1) =~= t.take(k - 1));
    }
}

} // verus!
