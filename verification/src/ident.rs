//! Account and operation ids, and the keys under which the store files them.
use vstd::prelude::*;

verus! {

/// An id is well formed when it is not empty and holds neither a colon nor a
/// space: exactly the ids that the store's key spelling leaves as they are.
pub open spec fn well_formed_id(id: Seq<char>) -> bool {
    &&& id.len() > 0
    &&& forall|i: int| 0 <= i < id.len() ==> id[i] != ':' && id[i] != ' '
}

/// The store's key for an id: a colon, then the id without its colons and
/// with a hyphen for each space.
pub open spec fn key_text(id: Seq<char>) -> Seq<char> {
    seq![':'] + id.filter(|c: char| c != ':').map_values(
        |c: char|
            if c == ' ' {
                '-'
            } else {
                c
            },
    )
}

/// A lower-case hexadecimal digit.
pub open spec fn is_lower_hex(c: char) -> bool {
    ('0' <= c && c <= '9') || ('a' <= c && c <= 'f')
}

/// The hyphenated spelling of a UUID: 36 characters, hyphens after the 8th,
/// 12th, 16th and 20th digit, lower-case hexadecimal digits elsewhere.
pub open spec fn is_hyphenated_uuid(s: Seq<char>) -> bool {
    &&& s.len() == 36
    &&& forall|i: int|
        0 <= i < 36 ==> if i == 8 || i == 13 || i == 18 || i == 23 {
            #[trigger] s[i] == '-'
        } else {
            is_lower_hex(s[i])
        }
}

/// The key of a well-formed id is the id behind a colon.
pub proof fn lemma_key_of_well_formed(id: Seq<char>)
    requires
        well_formed_id(id),
    ensures
        key_text(id) == seq![':'] + id,
{
    let keep = |c: char| c != ':';
    let dash = |c: char|
        if c == ' ' {
            '-'
        } else {
            c
        };
    lemma_filter_keeps_all(id, keep);
    assert(id.filter(keep).map_values(dash) =~= id);
}

/// A filter that every element passes changes nothing.
proof fn lemma_filter_keeps_all(s: Seq<char>, pred: spec_fn(char) -> bool)
    requires
        forall|i: int| 0 <= i < s.len() ==> pred(#[trigger] s[i]),
    ensures
        s.filter(pred) == s,
    decreases s.len(),
{
    reveal(Seq::filter);
    if s.len() > 0 {
        lemma_filter_keeps_all(s.drop_last(), pred);
        assert(s.drop_last().push(s.last()) =~= s);
    }
}

/// Every hyphenated UUID is a well-formed id.
pub proof fn lemma_uuid_is_well_formed(s: Seq<char>)
    requires
        is_hyphenated_uuid(s),
    ensures
        well_formed_id(s),
{
    assert forall|i: int| 0 <= i < s.len() implies s[i] != ':' && s[i] != ' ' by {
        if i == 8 || i == 13 || i == 18 || i == 23 {
            assert(s[i] == '-');
        } else {
            assert(is_lower_hex(s[i]));
        }
    }
}

/// Whether `id` is well formed.
pub fn is_well_formed_id(id: &str) -> (ok: bool)
    ensures
        ok == well_formed_id(id@),
{
    let n: usize = id.unicode_len();
    if n == 0 {
        return false;
    }
    let mut i: usize = 0;
    while i < n
        invariant
            i <= n,
            n == id@.len(),
            forall|j: int| 0 <= j < i ==> id@[j] != ':' && id@[j] != ' ',
        decreases n - i,
    {
        let c: char = id.get_char(i);
        if c == ':' || c == ' ' {
            return false;
        }
        i = i + 1;
    }
    true
}

/// The key under which the store files the document with this id.
///
/// Calls `transistor::types::CruxId::new` and serialises the result with
/// `edn_rs::to_string`. The first drops every colon of the id; the second
/// puts one colon in front and writes a hyphen for each space. The contract
/// says exactly that.
#[verifier::external_body]
pub(crate) fn document_key(id: &str) -> (key: String)
    ensures
        key@ == key_text(id@),
{
    edn_rs::to_string(transistor::types::CruxId::new(id))
}

/// A new random id.
///
/// Calls `uuid::Uuid::new_v4` and spells the result with its `Display`, which
/// is the hyphenated lower-case form. The contract claims that form and
/// nothing of the digits, which are random.
#[verifier::external_body]
pub(crate) fn fresh_id() -> (id: String)
    ensures
        is_hyphenated_uuid(id@),
{
    uuid::Uuid::new_v4().to_string()
}

} // verus!
