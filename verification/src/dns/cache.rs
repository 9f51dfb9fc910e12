use crate::dns::lookup::utils::{QueryResponse, QueryType};
use crate::dns::message::{push_all, Message, HEADER_LEN};
use crate::dns::utils::{get_reply_message, reply_octets};
use crate::dns::wire::{class_name, class_text, rtype_name, rtype_text, Question, QuestionView};
use vstd::prelude::*;
use vstd::string::*;

verus! {

/// What is stored for an answer: the octets of the reply, then one octet
/// that tells whether the answer is domestic.
pub open spec fn entry_octets(response: Seq<u8>, is_china: bool) -> Seq<u8> {
    response.push(
        if is_china {
            1u8
        } else {
            0u8
        },
    )
}

/// The reply and the flag that a stored entry holds; an empty entry holds
/// nothing.
pub open spec fn entry_parts(entry: Seq<u8>) -> Option<(Seq<u8>, bool)> {
    if entry.len() == 0 {
        None
    } else {
        Some((entry.drop_last(), entry.last() > 0))
    }
}

/// Makes the entry that is stored for an answer.
pub fn cache_entry(response: &[u8], is_china: bool) -> (entry: Vec<u8>)
    ensures
        entry@ == entry_octets(response@, is_china),
{
    let mut entry: Vec<u8> = Vec::new();
    push_all(&mut entry, response);
    entry.push(
        if is_china {
            1
        } else {
            0
        },
    );
    assert(entry@ =~= entry_octets(response@, is_china));
    entry
}

/// Takes a stored entry apart.
pub fn decode_entry(entry: Vec<u8>) -> (r: Option<(Vec<u8>, bool)>)
    ensures
        match r {
            Some((response, is_china)) => entry_parts(entry@) == Some((response@, is_china)),
            None => entry_parts(entry@).is_none(),
        },
{
    let mut entry = entry;
    match entry.pop() {
        None => None,
        Some(flag) => Some((entry, flag > 0)),
    }
}

/// What was stored is what is read back.
pub proof fn lemma_entry_round_trip(response: Seq<u8>, is_china: bool)
    ensures
        entry_parts(entry_octets(response, is_china)) == Some((response, is_china)),
{
    assert(entry_octets(response, is_china).drop_last() =~= response);
}

/// The key under which the answer to a question is stored: name, type and
/// class of the question, separated by bars.
pub open spec fn identifier_of(question: QuestionView) -> Seq<char> {
    question.qname + "|"@ + rtype_name(question.qtype) + "|"@ + class_name(question.qclass)
}

/// Makes the key under which the answer to a question is stored.
pub fn cache_identifier(question: &Question) -> (identifier: String)
    ensures
        identifier@ == identifier_of(question@),
{
    let mut identifier = question.qname.clone();
    identifier.append("|");
    let qtype = rtype_text(question.qtype);
    identifier.append(qtype.as_str());
    identifier.append("|");
    let qclass = class_text(question.qclass);
    identifier.append(qclass.as_str());
    identifier
}

/// The reply to the query `message` that a stored entry gives, and whether
/// it is domestic: the stored reply made anew under the id and with the
/// questions of the query.
/// There is none where the entry is empty, where what it holds is too short
/// for a message, or where no reply can be made from it.
pub open spec fn cache_result(message: Seq<u8>, entry: Seq<u8>) -> Option<(Seq<u8>, bool)> {
    match entry_parts(entry) {
        None => None,
        Some((saved, is_china)) => if saved.len() < HEADER_LEN {
            None
        } else {
            match reply_octets(message, saved) {
                Some(octets) => Some((octets, is_china)),
                None => None,
            }
        },
    }
}

/// Answers a query from what the cache returned for its key; an empty
/// entry is a miss.
pub fn lookup_cache(message: &Message, entry: Vec<u8>) -> (r: Option<(QueryResponse, bool)>)
    ensures
        match r {
            Some((response, is_china)) => cache_result(message@, entry@) == Some(
                (response.message()@, is_china),
            ) && response.kind() == QueryType::Cache,
            None => cache_result(message@, entry@).is_none(),
        },
{
    let (saved, is_china) = match decode_entry(entry) {
        Some(parts) => parts,
        None => {
            return None;
        },
    };
    let saved_message = match Message::from_octets(saved) {
        Some(m) => m,
        None => {
            return None;
        },
    };
    match get_reply_message(message, &saved_message) {
        Some(reply) => Some((QueryResponse::Cache(reply), is_china)),
        None => None,
    }
}

} // verus!
