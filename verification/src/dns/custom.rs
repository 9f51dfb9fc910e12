use crate::dns::lookup::utils::QueryResponse;
use crate::dns::message::{Header, Message};
use crate::dns::settings::DNSSettings;
use crate::dns::utils::{get_response_message, response_octets};
use crate::dns::wire::{
    ip_literal, name_from_text, name_wire, parse_ip, Record, RecordView, CLASS_IN, RTYPE_A,
    RTYPE_AAAA,
};
use glob::Pattern;
use vstd::prelude::*;

verus! {

/// Seconds that an answer made from an override rule may be kept.
pub const OVERRIDE_TTL: u32 = 120;

/// Whether the glob library accepts a text as a pattern.
pub uninterp spec fn glob_valid(pattern: Seq<char>) -> bool;

/// Whether a pattern that the glob library accepts matches a text, as that
/// library decides it with its default options.
pub uninterp spec fn glob_match(pattern: Seq<char>, text: Seq<char>) -> bool;

/// Compiles a pattern with `Pattern::new` of the glob library and tells
/// whether that succeeded. The result is what `glob_valid` names.
#[verifier::external_body]
pub(crate) fn compile_ok(pattern: &str) -> (r: bool)
    ensures
        r == glob_valid(pattern@),
{
    Pattern::new(pattern).is_ok()
}

/// Compiles a pattern with `Pattern::new` of the glob library and matches a
/// text against it with `Pattern::matches`. Nothing is returned where the
/// pattern does not compile; otherwise the result is what `glob_match`
/// names.
#[verifier::external_body]
pub(crate) fn pattern_matches(pattern: &str, text: &str) -> (r: Option<bool>)
    ensures
        r == if glob_valid(pattern@) {
            Some(glob_match(pattern@, text@))
        } else {
            None::<bool>
        },
{
    Some(Pattern::new(pattern).ok()?.matches(text))
}

/// Override rules as plain values: pattern and address, both as text.
pub open spec fn rule_views(rules: Seq<(String, String)>) -> Seq<(Seq<char>, Seq<char>)> {
    rules.map_values(|rule: (String, String)| (rule.0@, rule.1@))
}

/// The rules whose pattern the glob library accepts, in their order.
pub open spec fn usable_rules(rules: Seq<(Seq<char>, Seq<char>)>) -> Seq<(Seq<char>, Seq<char>)>
    decreases rules.len(),
{
    if rules.len() == 0 {
        Seq::<(Seq<char>, Seq<char>)>::empty()
    } else {
        let rest = usable_rules(rules.drop_last());
        if glob_valid(rules.last().0) {
            rest.push(rules.last())
        } else {
            rest
        }
    }
}

/// Keeps the override rules of the settings whose pattern compiles, in the
/// order of the configuration.
pub fn load_patterns(settings: &DNSSettings) -> (patterns: Vec<(String, String)>)
    ensures
        rule_views(patterns@) == usable_rules(rule_views(settings.custom_hosts@)),
{
    let rules = &settings.custom_hosts;
    let ghost views = rule_views(rules@);
    let mut patterns: Vec<(String, String)> = Vec::new();
    let mut i: usize = 0;
    assert(views.subrange(0, 0) =~= Seq::<(Seq<char>, Seq<char>)>::empty());
    assert(rule_views(patterns@) =~= Seq::<(Seq<char>, Seq<char>)>::empty());
    while i < rules.len()
        invariant
            i <= rules.len(),
            views == rule_views(rules@),
            views.len() == rules@.len(),
            rule_views(patterns@) == usable_rules(views.subrange(0, i as int)),
        decreases rules.len() - i,
    {
        let ghost before = patterns@;
        proof {
            let prefix = views.subrange(0, i + 1);
            assert(prefix.drop_last() =~= views.subrange(0, i as int));
            assert(prefix.last() == (rules@[i as int].0@, rules@[i as int].1@));
        }
        if compile_ok(rules[i].0.as_str()) {
            let pattern = rules[i].0.clone();
            let address = rules[i].1.clone();
            patterns.push((pattern, address));
            assert(rule_views(patterns@) =~= rule_views(before).push(
                (rules@[i as int].0@, rules@[i as int].1@),
            ));
        }
        i = i + 1;
    }
    assert(views.subrange(0, i as int) =~= views);
    patterns
}

/// The address of the first rule whose pattern matches a name.
pub open spec fn first_matching(rules: Seq<(Seq<char>, Seq<char>)>, domain: Seq<char>) -> Option<
    Seq<char>,
>
    decreases rules.len(),
{
    if rules.len() == 0 {
        None
    } else if glob_valid(rules.first().0) && glob_match(rules.first().0, domain) {
        Some(rules.first().1)
    } else {
        first_matching(rules.drop_first(), domain)
    }
}

/// The record that answers for a name by an override rule: an address
/// record of the Internet class for the name, IPv4 or IPv6 by the kind of
/// the rule's address. There is none where the name or the address cannot
/// be read.
pub open spec fn override_record(domain: Seq<char>, address: Seq<char>) -> Option<RecordView> {
    match (name_wire(domain), ip_literal(address)) {
        (Some(owner), Some(octets)) => Some(
            RecordView {
                owner,
                rtype: if octets.len() == 4 {
                    RTYPE_A
                } else {
                    RTYPE_AAAA
                },
                class: CLASS_IN,
                ttl: OVERRIDE_TTL,
                rdata: octets,
            },
        ),
        _ => None,
    }
}

/// What the override rules have for a query.
pub enum CustomLookup {
    /// No rule matches the name.
    NoMatch,
    /// The first rule that matches answers.
    Answer(QueryResponse),
    /// The first rule that matches cannot be turned into an answer.
    Unusable,
}

/// What the override rules have for a query, the answer as plain octets.
pub enum CustomResult {
    NoMatch,
    Answer(Seq<u8>),
    Unusable,
}

impl View for CustomLookup {
    type V = CustomResult;

    open spec fn view(&self) -> CustomResult {
        match self {
            CustomLookup::NoMatch => CustomResult::NoMatch,
            CustomLookup::Answer(response) => CustomResult::Answer(response.message()@),
            CustomLookup::Unusable => CustomResult::Unusable,
        }
    }
}

/// What the override rules have for the query `message` that asks for
/// `domain`: the reply to the query, under its id, whose only answer is the
/// record of the first rule that matches.
pub open spec fn custom_result(
    message: Seq<u8>,
    rules: Seq<(Seq<char>, Seq<char>)>,
    domain: Seq<char>,
) -> CustomResult {
    match first_matching(rules, domain) {
        None => CustomResult::NoMatch,
        Some(address) => match override_record(domain, address) {
            None => CustomResult::Unusable,
            Some(record) => match response_octets(
                Header::of(message).id,
                message,
                Some(seq![record]),
            ) {
                Some(octets) => CustomResult::Answer(octets),
                None => CustomResult::Unusable,
            },
        },
    }
}

/// Finds the address of the first rule whose pattern matches a name.
pub fn find_override(custom_patterns: &Vec<(String, String)>, domain: &str) -> (r: Option<usize>)
    ensures
        match r {
            Some(i) => i < custom_patterns@.len() && first_matching(
                rule_views(custom_patterns@),
                domain@,
            ) == Some(custom_patterns@[i as int].1@),
            None => first_matching(rule_views(custom_patterns@), domain@).is_none(),
        },
{
    let ghost views = rule_views(custom_patterns@);
    let mut i: usize = 0;
    assert(views.subrange(0, views.len() as int) =~= views);
    while i < custom_patterns.len()
        invariant
            i <= custom_patterns.len(),
            views == rule_views(custom_patterns@),
            views.len() == custom_patterns@.len(),
            first_matching(views, domain@) == first_matching(
                views.subrange(i as int, views.len() as int),
                domain@,
            ),
        decreases custom_patterns.len() - i,
    {
        proof {
            let rest = views.subrange(i as int, views.len() as int);
            assert(rest.first() == (custom_patterns@[i as int].0@, custom_patterns@[i as int].1@));
            assert(rest.drop_first() =~= views.subrange(i + 1, views.len() as int));
        }
        match pattern_matches(custom_patterns[i].0.as_str(), domain) {
            Some(true) => {
                return Some(i);
            },
            _ => {},
        }
        i = i + 1;
    }
    None
}

/// Makes the record that answers for a name by an override rule.
pub fn make_override_record(domain: &str, address: &str) -> (r: Option<Record>)
    ensures
        match r {
            Some(record) => override_record(domain@, address@) == Some(record@),
            None => override_record(domain@, address@).is_none(),
        },
{
    let owner = match name_from_text(domain) {
        Some(owner) => owner,
        None => {
            return None;
        },
    };
    let octets = match parse_ip(address) {
        Some(octets) => octets,
        None => {
            return None;
        },
    };
    let rtype: u16 = if octets.len() == 4 {
        RTYPE_A
    } else {
        RTYPE_AAAA
    };
    Some(Record { owner, rtype, class: CLASS_IN, ttl: OVERRIDE_TTL, rdata: octets })
}

/// Answers a query from the override rules, if one of them matches the name
/// asked for.
pub fn lookup_custom(message: &Message, custom_patterns: &Vec<(String, String)>, domain: &String)
    -> (r: CustomLookup)
    ensures
        r@ == custom_result(message@, rule_views(custom_patterns@), domain@),
        r matches CustomLookup::Answer(response) ==> response.kind()
            == crate::dns::lookup::utils::QueryType::Custom,
{
    let index = match find_override(custom_patterns, domain.as_str()) {
        Some(index) => index,
        None => {
            return CustomLookup::NoMatch;
        },
    };
    let record = match make_override_record(domain.as_str(), custom_patterns[index].1.as_str()) {
        Some(record) => record,
        None => {
            return CustomLookup::Unusable;
        },
    };
    let ghost view = record@;
    let mut answers: Vec<Record> = Vec::new();
    answers.push(record);
    assert(crate::dns::wire::views_of(answers@) =~= seq![view]);
    match get_response_message(message.header().id, message, Some(answers)) {
        Some(reply) => CustomLookup::Answer(QueryResponse::Custom(reply)),
        None => CustomLookup::Unusable,
    }
}

} // verus!
