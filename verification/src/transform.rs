//! Messages made of parts that each end with a zero byte.

use vstd::prelude::*;
use vstd::utf8::decode_utf8;
use vstd::utf8::valid_utf8;
use crate::utf8::string_from_utf8;

verus! {

/// The place of the first zero byte of `content`, if it has one.
pub open spec fn first_zero(content: Seq<u8>) -> Option<int>
    decreases content.len(),
{
    if content.len() == 0 {
        None
    } else if content[0] == 0 {
        Some(0int)
    } else {
        match first_zero(content.skip(1)) {
            Some(i) => Some(i + 1),
            None => None,
        }
    }
}

/// The first zero byte stands where `first_zero` says, and no zero byte
/// stands before it.
pub proof fn lemma_first_zero(content: Seq<u8>)
    ensures
        match first_zero(content) {
            Some(i) => 0 <= i < content.len() && content[i] == 0 && forall|j: int|
                0 <= j < i ==> content[j] != 0,
            None => forall|j: int| 0 <= j < content.len() ==> content[j] != 0,
        },
    decreases content.len(),
{
    if content.len() > 0 && content[0] != 0 {
        let rest = content.skip(1);
        lemma_first_zero(rest);
        match first_zero(rest) {
            Some(i) => {
                assert forall|j: int| 0 <= j < i + 1 implies content[j] != 0 by {
                    if j > 0 {
                        assert(rest[j - 1] == content[j]);
                    }
                }
            },
            None => {
                assert forall|j: int| 0 <= j < content.len() implies content[j] != 0 by {
                    if j > 0 {
                        assert(rest[j - 1] == content[j]);
                    }
                }
            },
        }
    }
}

/// Where `i` is the first place of a zero byte, `first_zero` finds it.
pub proof fn lemma_first_zero_is(content: Seq<u8>, i: int)
    requires
        0 <= i < content.len(),
        content[i] == 0,
        forall|j: int| 0 <= j < i ==> content[j] != 0,
    ensures
        first_zero(content) == Some(i),
{
    lemma_first_zero(content);
}

/// Takes the first part off the front of `raw_content`: the bytes before
/// the first zero byte are handed out, and those behind it stay. Without a
/// zero byte nothing is taken.
pub fn get_message_part(raw_content: &mut Vec<u8>) -> (part: Option<Vec<u8>>)
    ensures
        match first_zero(old(raw_content)@) {
            Some(i) => part is Some && part.unwrap()@ == old(raw_content)@.take(i)
                && final(raw_content)@ == old(raw_content)@.skip(i + 1),
            None => part is None && final(raw_content)@ == old(raw_content)@,
        },
{
    let ghost before = raw_content@;
    let mut index: usize = 0;
    let mut result: Vec<u8> = Vec::new();
    while index < raw_content.len()
        invariant
            raw_content@ == before,
            before == old(raw_content)@,
            index <= raw_content.len(),
            result@ == before.take(index as int),
            forall|j: int| 0 <= j < index ==> before[j] != 0,
        decreases raw_content.len() - index,
    {
        let byte = raw_content[index];
        if byte == 0 {
            proof {
                lemma_first_zero_is(before, index as int);
            }
            let rest = raw_content.split_off(index + 1);
            *raw_content = rest;
            proof {
                assert(raw_content@ =~= before.skip(index + 1));
            }
            return Some(result);
        }
        proof {
            assert(before.take(index as int + 1) =~= before.take(index as int).push(byte));
        }
        result.push(byte);
        index = index + 1;
    }
    proof {
        lemma_first_zero(before);
    }
    None
}

/// Takes the first part off the front of `raw_content` and reads it as
/// text. A part is taken even where it is no valid UTF-8.
pub fn get_utf8_message_part(raw_content: &mut Vec<u8>) -> (part: Option<String>)
    ensures
        match first_zero(old(raw_content)@) {
            Some(i) => final(raw_content)@ == old(raw_content)@.skip(i + 1) && (part is Some
                <==> valid_utf8(old(raw_content)@.take(i))) && (part is Some ==> part.unwrap()@
                == decode_utf8(old(raw_content)@.take(i))),
            None => part is None && final(raw_content)@ == old(raw_content)@,
        },
{
    match get_message_part(raw_content) {
        Some(message) => string_from_utf8(message),
        None => None,
    }
}

} // verus!
