use vstd::prelude::*;
use vstd::utf8::{
    decode_utf8, encode_utf8, encode_utf8_decode_utf8, encode_utf8_valid_utf8, valid_utf8,
};

use crate::response::{body_readable_as, read_succeeds, BodyReading, ResponseModel};

verus! {

/// A body can be read once: on an unread view, a first read succeeds
/// whenever the body suits it, and after any read, every read of any kind
/// fails, since the view is marked consumed (and the reading methods then
/// return `BodyAlreadyConsumed`).
pub proof fn lemma_single_use(m: ResponseModel, first: BodyReading, second: BodyReading)
    requires
        !m.body_used,
        body_readable_as(m.body, first),
    ensures
        read_succeeds(m, first),
        m.consumed().body_used,
        !read_succeeds(m.consumed(), second),
{
}

/// A read never makes a consumed view readable again.
pub proof fn lemma_consumed_stays_consumed(m: ResponseModel, how: BodyReading)
    requires
        m.body_used,
    ensures
        m.consumed() == m,
        !read_succeeds(m, how),
{
}

/// Cloning an unread view with a text body gives two views that can each
/// be read as text once: reading the clone leaves the original as it was.
/// Cloning a read view gives a clone whose body is already consumed.
pub proof fn lemma_clone_independence(original: ResponseModel, clone: ResponseModel)
    requires
        clone == original,
        valid_utf8(original.body),
    ensures
        !original.body_used ==> read_succeeds(clone, BodyReading::Text) && read_succeeds(
            original,
            BodyReading::Text,
        ) && !read_succeeds(clone.consumed(), BodyReading::Text),
        original.body_used ==> !read_succeeds(clone, BodyReading::Text),
{
}

/// Reading as text an unread body that encodes a string gives back exactly
/// that string.
pub proof fn lemma_text_round_trip(m: ResponseModel, s: Seq<char>)
    requires
        !m.body_used,
        m.body == encode_utf8(s),
    ensures
        read_succeeds(m, BodyReading::Text),
        decode_utf8(m.body) == s,
{
    encode_utf8_valid_utf8(s);
    encode_utf8_decode_utf8(s);
}

} // verus!
