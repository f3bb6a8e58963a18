//! Pieces shared by the conversions to the providers' native formats.
use vstd::prelude::*;

use crate::types::message::{content_text, ChatMessage, Role};

verus! {

/// The text of an optional string, empty when absent.
pub open spec fn text_or_empty(o: Option<String>) -> Seq<char> {
    match o {
        Some(s) => s@,
        None => Seq::empty(),
    }
}

/// The messages of a conversation other than the system messages, in order.
pub open spec fn non_system(ms: Seq<ChatMessage>) -> Seq<ChatMessage>
    decreases ms.len(),
{
    if ms.len() == 0 {
        Seq::empty()
    } else if ms.last().role == Role::System {
        non_system(ms.drop_last())
    } else {
        non_system(ms.drop_last()).push(ms.last())
    }
}

/// The texts of the system messages of a conversation, in order.
pub open spec fn system_texts(ms: Seq<ChatMessage>) -> Seq<Seq<char>>
    decreases ms.len(),
{
    if ms.len() == 0 {
        Seq::empty()
    } else if ms.last().role == Role::System {
        system_texts(ms.drop_last()).push(content_text(ms.last().content))
    } else {
        system_texts(ms.drop_last())
    }
}

/// The texts joined with `sep` between consecutive ones.
pub open spec fn join(texts: Seq<Seq<char>>, sep: Seq<char>) -> Seq<char>
    decreases texts.len(),
{
    if texts.len() == 0 {
        Seq::empty()
    } else if texts.len() == 1 {
        texts[0]
    } else {
        join(texts.drop_last(), sep) + sep + texts.last()
    }
}

pub proof fn lemma_join_push(texts: Seq<Seq<char>>, sep: Seq<char>, t: Seq<char>)
    ensures
        texts.len() > 0 ==> join(texts.push(t), sep) == join(texts, sep) + sep + t,
        texts.len() == 0 ==> join(texts.push(t), sep) == t,
{
    assert(texts.push(t).drop_last() =~= texts);
}

} // verus!
