//! Which origins the service answers.
//!
//! In production the service answers the origins of a configured list, a
//! text with commas between the origins and white space around them that
//! does not count. Outside of production, and where the list holds an entry
//! that cannot stand in an HTTP header, it answers every origin.

use vstd::prelude::*;
use vstd::utf8::encode_utf8;

verus! {

/// Whether `c` has the Unicode property White_Space. The property is a table
/// of the Unicode standard; this is its name here.
pub uninterp spec fn white_space(c: char) -> bool;

/// `char::is_whitespace` of the standard library, which tells whether a
/// character has the Unicode property White_Space.
#[verifier::external_body]
fn is_white_space(c: char) -> (yes: bool)
    ensures
        yes == white_space(c),
{
    c.is_whitespace()
}

/// Whether the byte may stand in the value of an HTTP header: the tab and
/// every byte from the blank on but the delete character.
pub open spec fn header_byte_ok(byte: u8) -> bool {
    byte >= 32 && byte != 127 || byte == 9
}

/// Whether `text` may be the value of an HTTP header: every byte of its
/// UTF-8 form may stand in one.
pub open spec fn header_value_ok(text: Seq<char>) -> bool {
    forall|i: int| 0 <= i < encode_utf8(text).len() ==> header_byte_ok(#[trigger] encode_utf8(text)[i])
}

/// `HeaderValue::from_str` of the `http` crate, reached as `axum::http`. It
/// walks over the bytes of the text and refuses the text if one of them is
/// below the blank and no tab, or is the delete character; else it makes the
/// value. This says whether it makes one.
#[verifier::external_body]
fn is_header_value(text: &str) -> (ok: bool)
    ensures
        ok == header_value_ok(text@),
{
    axum::http::HeaderValue::from_str(text).is_ok()
}

/// The place of the first comma in `text`, or the length of `text` where it
/// holds none.
pub open spec fn first_comma(text: Seq<char>) -> int
    decreases text.len(),
{
    if text.len() == 0 || text[0] == ',' {
        0
    } else {
        1 + first_comma(text.drop_first())
    }
}

/// The pieces of `text` between its commas, in their order: one more than
/// there are commas, and some of them empty where two commas meet or the
/// text begins or ends with one.
pub open spec fn split_at_commas(text: Seq<char>) -> Seq<Seq<char>>
    decreases text.len(),
{
    let at: int = first_comma(text);
    if 0 <= at < text.len() {
        seq![text.take(at)] + split_at_commas(text.skip(at + 1))
    } else {
        seq![text]
    }
}

/// `text` without the white space at its start.
pub open spec fn trim_start(text: Seq<char>) -> Seq<char>
    decreases text.len(),
{
    if text.len() > 0 && white_space(text[0]) {
        trim_start(text.drop_first())
    } else {
        text
    }
}

/// `text` without the white space at its end.
pub open spec fn trim_end(text: Seq<char>) -> Seq<char>
    decreases text.len(),
{
    if text.len() > 0 && white_space(text.last()) {
        trim_end(text.drop_last())
    } else {
        text
    }
}

/// `text` without the white space at its start and at its end.
pub open spec fn trim(text: Seq<char>) -> Seq<char> {
    trim_end(trim_start(text))
}

/// The origins that the list `list` names: its pieces between the commas,
/// each without the white space around it.
pub open spec fn listed_origins(list: Seq<char>) -> Seq<Seq<char>> {
    split_at_commas(list).map_values(|piece: Seq<char>| trim(piece))
}

/// Whether each of `origins` may be the value of an HTTP header.
pub open spec fn all_header_values(origins: Seq<Seq<char>>) -> bool {
    forall|i: int| 0 <= i < origins.len() ==> header_value_ok(#[trigger] origins[i])
}

/// The texts of `origins`, in their order.
pub open spec fn texts_of(origins: Seq<String>) -> Seq<Seq<char>> {
    origins.map_values(|origin: String| origin@)
}

/// The list of origins of a service in production whose configuration names
/// none.
pub open spec fn default_allowed_origins() -> Seq<char> {
    "http://localhost:5173"@
}

/// Which origins a service answers.
#[derive(Clone, Debug, PartialEq, Eq)]
pub enum CorsPolicy {
    /// Every origin.
    AllowAny,
    /// The origins of this list, and those with credentials.
    AllowListed(Vec<String>),
}

/// A policy with its origins as sequences of characters.
pub enum CorsPolicyModel {
    AllowAny,
    AllowListed(Seq<Seq<char>>),
}

impl View for CorsPolicy {
    type V = CorsPolicyModel;

    open spec fn view(&self) -> CorsPolicyModel {
        match self {
            CorsPolicy::AllowAny => CorsPolicyModel::AllowAny,
            CorsPolicy::AllowListed(origins) => CorsPolicyModel::AllowListed(texts_of(origins@)),
        }
    }
}

/// The policy of a service: outside of production every origin; in
/// production the origins of the configured list, or of the default list
/// where none is configured, if each of them may stand in an HTTP header,
/// and every origin if one of them may not.
pub open spec fn policy_for(production: bool, configured: Option<Seq<char>>) -> CorsPolicyModel {
    let list = match configured {
        Some(list) => list,
        None => default_allowed_origins(),
    };
    if production && all_header_values(listed_origins(list)) {
        CorsPolicyModel::AllowListed(listed_origins(list))
    } else {
        CorsPolicyModel::AllowAny
    }
}

/// In a text without a comma before place `at` and with a comma there, the
/// first comma is at `at`; in a text without any comma it is at the end.
proof fn lemma_first_comma(text: Seq<char>, at: int)
    requires
        0 <= at <= text.len(),
        forall|i: int| 0 <= i < at ==> text[i] != ',',
        at < text.len() ==> text[at] == ',',
    ensures
        first_comma(text) == at,
    decreases at,
{
    if at > 0 {
        let rest = text.drop_first();
        assert forall|i: int| 0 <= i < at - 1 implies rest[i] != ',' by {
            assert(rest[i] == text[i + 1]);
        }
        lemma_first_comma(rest, at - 1);
    }
}

/// Cutting `at` characters of white space off the start of a text leaves
/// its trimmed start as it is.
proof fn lemma_trim_start(text: Seq<char>, at: int)
    requires
        0 <= at <= text.len(),
        forall|i: int| 0 <= i < at ==> white_space(text[i]),
    ensures
        trim_start(text) == trim_start(text.skip(at)),
    decreases at,
{
    if at > 0 {
        let rest = text.drop_first();
        assert forall|i: int| 0 <= i < at - 1 implies white_space(rest[i]) by {
            assert(rest[i] == text[i + 1]);
        }
        lemma_trim_start(rest, at - 1);
        assert(rest.skip(at - 1) =~= text.skip(at));
    } else {
        assert(text.skip(0) =~= text);
    }
}

/// Cutting white space off the end of a text, down to its first `keep`
/// characters, leaves its trimmed end as it is.
proof fn lemma_trim_end(text: Seq<char>, keep: int)
    requires
        0 <= keep <= text.len(),
        forall|i: int| keep <= i < text.len() ==> white_space(text[i]),
    ensures
        trim_end(text) == trim_end(text.take(keep)),
    decreases text.len() - keep,
{
    if keep < text.len() {
        let rest = text.drop_last();
        lemma_trim_end(rest, keep);
        assert(rest.take(keep) =~= text.take(keep));
    } else {
        assert(text.take(keep) =~= text);
    }
}

/// The characters from `from` up to `to` of `text`, without the white space
/// at their start and at their end.
fn trimmed_piece(text: &str, from: usize, to: usize) -> (piece: String)
    requires
        from <= to <= text@.len(),
    ensures
        piece@ == trim(text@.subrange(from as int, to as int)),
{
    let ghost whole = text@.subrange(from as int, to as int);
    let mut start: usize = from;
    while start < to && is_white_space(text.get_char(start))
        invariant
            from <= start <= to <= text@.len(),
            forall|i: int| from <= i < start ==> white_space(text@[i]),
        decreases to - start,
    {
        start += 1;
    }
    let mut end: usize = to;
    while end > start && is_white_space(text.get_char(end - 1))
        invariant
            start <= end <= to <= text@.len(),
            forall|i: int| end <= i < to ==> white_space(text@[i]),
        decreases end - start,
    {
        end -= 1;
    }
    proof {
        let head = whole.skip(start - from);
        lemma_trim_start(whole, start - from);
        assert(head =~= text@.subrange(start as int, to as int));
        assert(trim_start(head) == head);
        lemma_trim_end(head, end - start);
        let kept = head.take(end - start);
        assert(kept =~= text@.subrange(start as int, end as int));
        assert(trim_end(kept) == kept);
    }
    String::from_str(text.substring_char(start, end))
}

/// The origins that the list `list` names: its pieces between the commas,
/// each without the white space around it.
pub fn split_origins(list: &str) -> (origins: Vec<String>)
    ensures
        texts_of(origins@) == listed_origins(list@),
        origins@.len() == listed_origins(list@).len(),
        forall|i: int|
            0 <= i < origins@.len() ==> (#[trigger] origins@[i])@ == listed_origins(list@)[i],
        origins@.len() >= 1,
{
    let len: usize = list.unicode_len();
    let mut origins: Vec<String> = Vec::new();
    let mut from: usize = 0;
    let mut at: usize = 0;
    proof {
        assert(list@.skip(0) =~= list@);
        assert(texts_of(origins@) + listed_origins(list@) =~= listed_origins(list@));
    }
    while at < len
        invariant
            len == list@.len(),
            from <= at <= len,
            forall|i: int| from <= i < at ==> list@[i] != ',',
            texts_of(origins@) + listed_origins(list@.skip(from as int)) == listed_origins(list@),
        decreases len - at,
    {
        if list.get_char(at) == ',' {
            let piece = trimmed_piece(list, from, at);
            proof {
                let rest = list@.skip(from as int);
                assert forall|i: int| 0 <= i < at - from implies rest[i] != ',' by {
                    assert(rest[i] == list@[from + i]);
                }
                lemma_first_comma(rest, at - from);
                assert(rest.take(at - from) =~= list@.subrange(from as int, at as int));
                assert(rest.skip(at - from + 1) =~= list@.skip(at + 1));
                assert(split_at_commas(rest) == seq![rest.take(at - from)] + split_at_commas(
                    list@.skip(at + 1),
                ));
                assert(listed_origins(rest) =~= seq![piece@] + listed_origins(list@.skip(at + 1)));
                assert(texts_of(origins@.push(piece)) =~= texts_of(origins@) + seq![piece@]);
                assert(texts_of(origins@.push(piece)) + listed_origins(list@.skip(at + 1))
                    =~= texts_of(origins@) + listed_origins(rest));
            }
            origins.push(piece);
            from = at + 1;
        }
        at += 1;
    }
    let piece = trimmed_piece(list, from, len);
    proof {
        let rest = list@.skip(from as int);
        assert forall|i: int| 0 <= i < len - from implies rest[i] != ',' by {
            assert(rest[i] == list@[from + i]);
        }
        lemma_first_comma(rest, len - from);
        assert(rest =~= list@.subrange(from as int, len as int));
        assert(listed_origins(rest) =~= seq![piece@]);
        assert(texts_of(origins@.push(piece)) =~= texts_of(origins@) + seq![piece@]);
    }
    origins.push(piece);
    origins
}

/// Whether each of `origins` may be the value of an HTTP header.
pub fn are_header_values(origins: &Vec<String>) -> (ok: bool)
    ensures
        ok == all_header_values(texts_of(origins@)),
{
    let mut i: usize = 0;
    while i < origins.len()
        invariant
            i <= origins@.len(),
            forall|k: int| 0 <= k < i ==> header_value_ok(#[trigger] texts_of(origins@)[k]),
        decreases origins@.len() - i,
    {
        if !is_header_value(origins[i].as_str()) {
            assert(!header_value_ok(texts_of(origins@)[i as int]));
            return false;
        }
        i += 1;
    }
    true
}

/// The policy of a service that runs in production or not, with the list of
/// origins that its configuration names, if it names one.
pub fn cors_policy(production: bool, configured: Option<&str>) -> (policy: CorsPolicy)
    ensures
        policy@ == policy_for(
            production,
            match configured {
                Some(list) => Some(list@),
                None => None,
            },
        ),
{
    if !production {
        return CorsPolicy::AllowAny;
    }
    let list = match configured {
        Some(list) => list,
        None => "http://localhost:5173",
    };
    let origins = split_origins(list);
    if are_header_values(&origins) && origins.len() > 0 {
        CorsPolicy::AllowListed(origins)
    } else {
        CorsPolicy::AllowAny
    }
}

} // verus!
