//! Redaction of sensitive fields in JSON bodies and header maps.

use crate::headers::{distinct_keys, has_key_at, lemma_listed_entry, listed_map, Headers};
use crate::json::{lemma_object_view, object_view, Json, JsonValue};
use crate::text::{
    eq_ignore_ascii_case, find_from, head_before, head_of, lemma_find_from,
    lemma_find_from_unique, occurs_at, same_ignoring_ascii_case, same_text,
};
use vstd::prelude::*;
use vstd::string::*;

verus! {

/// The token that stands in for a redacted string.
pub const MASK: &'static str = "******";

/// What a member named by the policy holds after masking: the mask token in
/// place of a string, null in place of anything else.
pub open spec fn redact(value: Json) -> Json {
    if value is String {
        Json::String(MASK@)
    } else {
        Json::Null
    }
}

/// The masked form of a JSON value under the policy `fields`. Only objects are
/// entered; arrays and scalars are left as they are.
pub open spec fn mask_json(fields: Seq<Seq<char>>, value: Json) -> Json
    decreases value, 0int,
{
    match value {
        Json::Object(members) => Json::Object(mask_members(fields, members)),
        _ => value,
    }
}

/// The members of an object, each masked, in the same order.
pub open spec fn mask_members(fields: Seq<Seq<char>>, members: Seq<(Seq<char>, Json)>) -> Seq<
    (Seq<char>, Json),
>
    decreases members, 1int,
{
    Seq::new(
        members.len(),
        |i: int|
            if 0 <= i < members.len() {
                mask_member(fields, members[i])
            } else {
                members[i]
            },
    )
}

/// One member after masking: the key stays; the value is redacted if the key
/// is in the policy, and masked in turn if it is not.
pub open spec fn mask_member(fields: Seq<Seq<char>>, member: (Seq<char>, Json)) -> (
    Seq<char>,
    Json,
)
    decreases member, 0int,
{
    if fields.contains(member.0) {
        (member.0, redact(member.1))
    } else {
        (member.0, mask_json(fields, member.1))
    }
}

/// Whether `key` is one of `fields`.
pub fn contains(fields: &[String], key: &str) -> (found: bool)
    ensures
        found == fields.deep_view().contains(key@),
{
    let mut i: usize = 0;
    while i < fields.len()
        invariant
            i <= fields@.len(),
            forall|k: int| 0 <= k < i ==> fields@[k]@ != key@,
        decreases fields@.len() - i,
    {
        if same_text(fields[i].as_str(), key) {
            assert(fields.deep_view()[i as int] == key@);
            return true;
        }
        i += 1;
    }
    false
}

/// Masks `value` in place under the policy `fields`.
pub fn clear_value(value: &mut JsonValue, fields: &[String])
    ensures
        final(value)@ == mask_json(fields.deep_view(), old(value)@),
    decreases *old(value),
{
    match value {
        JsonValue::Object(members) => {
            proof {
                assert(decreases_to!(*old(value) => old(value)->Object_0));
                lemma_object_view(*members);
            }
            clear_map(members, fields);
            proof {
                lemma_object_view(*members);
            }
        },
        _ => {},
    }
}

/// Masks the members of an object in place under the policy `fields`.
pub fn clear_map(members: &mut Vec<(String, JsonValue)>, fields: &[String])
    ensures
        object_view(final(members)@) == mask_members(
            fields.deep_view(),
            object_view(old(members)@),
        ),
    decreases *old(members),
{
    let mut i: usize = 0;
    while i < members.len()
        invariant
            i <= members@.len(),
            members@.len() == old(members)@.len(),
            forall|k: int|
                0 <= k < i ==> (#[trigger] members@[k].0@, members@[k].1@) == mask_member(
                    fields.deep_view(),
                    (old(members)@[k].0@, old(members)@[k].1@),
                ),
            forall|k: int| i <= k < members@.len() ==> members@[k] == old(members)@[k],
        decreases members@.len() - i,
    {
        let hit = contains(fields, members[i].0.as_str());
        proof {
            assert(decreases_to!(*old(members) => old(members)[i as int]));
            assert(decreases_to!(old(members)[i as int] => old(members)[i as int].1));
        }
        let slot = &mut members[i];
        if hit {
            match slot.1 {
                JsonValue::String(_) => {
                    slot.1 = JsonValue::String(MASK.to_owned());
                },
                _ => {
                    slot.1 = JsonValue::Null;
                },
            }
        } else {
            clear_value(&mut slot.1, fields);
        }
        i += 1;
    }
    assert(object_view(members@) =~= mask_members(
        fields.deep_view(),
        object_view(old(members)@),
    ));
}

/// The name of the header whose credential is masked whatever the policy.
pub const AUTHORIZATION: &'static str = "authorization";

/// What separates the scheme of an authorization value from its credential.
pub const SPACE: &'static str = " ";

/// Whether `key` names the authorization header, whatever the case of its
/// ASCII letters.
pub open spec fn is_authorization(key: Seq<char>) -> bool {
    same_ignoring_ascii_case(key, AUTHORIZATION@)
}

/// The masked form of an authorization value: what stands before its first
/// space, a space, and the mask token.
pub open spec fn mask_credential(value: Seq<char>) -> Seq<char> {
    head_before(value, SPACE@) + SPACE@ + MASK@
}

/// The masked form of the value of the header `key` under the policy `fields`.
pub open spec fn mask_header(fields: Seq<Seq<char>>, key: Seq<char>, value: Seq<char>) -> Seq<
    char,
> {
    if is_authorization(key) {
        mask_credential(value)
    } else if fields.contains(key) {
        MASK@
    } else {
        value
    }
}

/// The masked form of a header map: the same names, each with its masked
/// value.
pub open spec fn mask_headers(fields: Seq<Seq<char>>, map: Map<Seq<char>, Seq<char>>) -> Map<
    Seq<char>,
    Seq<char>,
> {
    Map::new(
        |key: Seq<char>| map.contains_key(key),
        |key: Seq<char>| mask_header(fields, key, map[key]),
    )
}

/// The masked form of a list of headers, entry by entry.
pub open spec fn mask_entries(fields: Seq<Seq<char>>, list: Seq<(Seq<char>, Seq<char>)>) -> Seq<
    (Seq<char>, Seq<char>),
> {
    list.map_values(|e: (Seq<char>, Seq<char>)| (e.0, mask_header(fields, e.0, e.1)))
}

/// Masking a list without repeated names entry by entry masks the map that it
/// spells.
pub proof fn lemma_mask_entries(fields: Seq<Seq<char>>, list: Seq<(Seq<char>, Seq<char>)>)
    requires
        distinct_keys(list),
    ensures
        distinct_keys(mask_entries(fields, list)),
        listed_map(mask_entries(fields, list)) == mask_headers(fields, listed_map(list)),
{
    let after = mask_entries(fields, list);
    let target = mask_headers(fields, listed_map(list));
    assert forall|key: Seq<char>| listed_map(after).contains_key(key) <==> target.contains_key(
        key,
    ) by {
        if listed_map(after).contains_key(key) {
            let j = choose|j: int| has_key_at(after, key, j);
            assert(has_key_at(list, key, j));
        }
        if target.contains_key(key) {
            let j = choose|j: int| has_key_at(list, key, j);
            assert(has_key_at(after, key, j));
        }
    }
    assert forall|key: Seq<char>| listed_map(after).contains_key(key) implies listed_map(
        after,
    )[key] == target[key] by {
        let j = choose|j: int| has_key_at(after, key, j);
        assert(has_key_at(list, key, j));
        lemma_listed_entry(list, j);
    }
    assert(listed_map(after) =~= target);
}

/// The masked form of the value `value` of the header `key` under the policy
/// `fields`; nothing for a header that masking leaves alone.
pub fn masked_header_value(key: &str, value: &str, fields: &[String]) -> (masked: Option<String>)
    ensures
        masked is None <==> !is_authorization(key@) && !fields.deep_view().contains(key@),
        match masked {
            Some(text) => text@ == mask_header(fields.deep_view(), key@, value@),
            None => value@ == mask_header(fields.deep_view(), key@, value@),
        },
{
    if eq_ignore_ascii_case(key, AUTHORIZATION) {
        let mut text = head_of(value, SPACE);
        text.append(SPACE);
        text.append(MASK);
        Some(text)
    } else if contains(fields, key) {
        Some(MASK.to_owned())
    } else {
        None
    }
}

/// Masks the values of a header map in place under the policy `fields`: the
/// credential of the authorization header, and the whole value of each header
/// that the policy names.
pub fn clear_hashmap(map: &mut Headers, fields: &[String])
    ensures
        final(map).entries() == mask_entries(fields.deep_view(), old(map).entries()),
        final(map)@ == mask_headers(fields.deep_view(), old(map)@),
{
    let n = map.len();
    let mut i: usize = 0;
    while i < n
        invariant
            n == old(map).entries().len(),
            i <= n,
            distinct_keys(old(map).entries()),
            map.entries().len() == n,
            forall|k: int|
                0 <= k < i ==> #[trigger] map.entries()[k] == mask_entries(
                    fields.deep_view(),
                    old(map).entries(),
                )[k],
            forall|k: int| i <= k < n ==> map.entries()[k] == old(map).entries()[k],
        decreases n - i,
    {
        let masked = masked_header_value(map.key_at(i).as_str(), map.value_at(i).as_str(), fields);
        match masked {
            Some(text) => {
                map.set_value_at(i, text);
            },
            None => {},
        }
        i += 1;
    }
    proof {
        assert(map.entries() =~= mask_entries(fields.deep_view(), old(map).entries()));
        lemma_mask_entries(fields.deep_view(), old(map).entries());
    }
}

/// Whether `value` is masked under the policy `fields`: in every object
/// reached through objects alone, a member whose key is in the policy holds
/// the mask token or null.
pub open spec fn redacted(fields: Seq<Seq<char>>, value: Json) -> bool
    decreases value,
{
    match value {
        Json::Object(members) => forall|i: int|
            0 <= i < members.len() ==> if fields.contains((#[trigger] members[i]).0) {
                members[i].1 == Json::String(MASK@) || members[i].1 == Json::Null
            } else {
                redacted(fields, members[i].1)
            },
        _ => true,
    }
}

/// After masking, no member named by the policy keeps a value of its own,
/// however deep in nested objects it stands: it holds the mask token if it
/// held a string, and null otherwise.
pub proof fn lemma_mask_redacts(fields: Seq<Seq<char>>, value: Json)
    ensures
        redacted(fields, mask_json(fields, value)),
    decreases value,
{
    match value {
        Json::Object(members) => {
            let masked = mask_members(fields, members);
            assert forall|i: int| 0 <= i < masked.len() implies if fields.contains(
                (#[trigger] masked[i]).0,
            ) {
                masked[i].1 == Json::String(MASK@) || masked[i].1 == Json::Null
            } else {
                redacted(fields, masked[i].1)
            } by {
                if !fields.contains(members[i].0) {
                    lemma_mask_redacts(fields, members[i].1);
                }
            }
        },
        _ => {},
    }
}

/// Masking keeps the shape of an object: as many members, under the same keys
/// and in the same order; a member whose key is in the policy is redacted,
/// any other is masked in turn.
pub proof fn lemma_mask_object(fields: Seq<Seq<char>>, members: Seq<(Seq<char>, Json)>, i: int)
    requires
        0 <= i < members.len(),
    ensures
        mask_json(fields, Json::Object(members)) is Object,
        mask_json(fields, Json::Object(members))->Object_0.len() == members.len(),
        mask_json(fields, Json::Object(members))->Object_0[i].0 == members[i].0,
        fields.contains(members[i].0) ==> mask_json(fields, Json::Object(members))->Object_0[i].1
            == redact(members[i].1),
        !fields.contains(members[i].0) ==> mask_json(fields, Json::Object(members))->Object_0[i].1
            == mask_json(fields, members[i].1),
{
}

/// Masking enters objects only: an array, like any scalar, is left as it is,
/// whatever it holds.
pub proof fn lemma_mask_keeps_non_objects(fields: Seq<Seq<char>>, value: Json)
    requires
        !(value is Object),
    ensures
        mask_json(fields, value) == value,
{
}

/// Masking twice is masking once.
pub proof fn lemma_mask_json_idempotent(fields: Seq<Seq<char>>, value: Json)
    ensures
        mask_json(fields, mask_json(fields, value)) == mask_json(fields, value),
    decreases value,
{
    match value {
        Json::Object(members) => {
            let once = mask_members(fields, members);
            let twice = mask_members(fields, once);
            assert forall|i: int| 0 <= i < once.len() implies twice[i] == once[i] by {
                if !fields.contains(members[i].0) {
                    lemma_mask_json_idempotent(fields, members[i].1);
                }
            }
            assert(twice =~= once);
        },
        _ => {},
    }
}

/// The masked form of an authorization value keeps what stood before the
/// first space and ends in a space and the mask token; a value without a
/// space is kept whole.
pub proof fn lemma_mask_credential(value: Seq<char>)
    ensures
        head_before(value, SPACE@).len() <= value.len(),
        head_before(value, SPACE@) == value.take(head_before(value, SPACE@).len() as int),
        !head_before(value, SPACE@).contains(' '),
        head_before(value, SPACE@).len() < value.len() ==> value[head_before(
            value,
            SPACE@,
        ).len() as int] == ' ',
        !value.contains(' ') ==> mask_credential(value) == value + SPACE@ + MASK@,
{
    reveal_strlit(" ");
    lemma_find_from(value, SPACE@, 0);
    let at = find_from(value, SPACE@, 0);
    let head = head_before(value, SPACE@);
    assert forall|j: int| 0 <= j < value.len() implies (occurs_at(value, SPACE@, j) <==> value[j]
        == ' ') by {
        if value[j] == ' ' {
            assert(value.subrange(j, j + 1) =~= SPACE@);
        } else {
            assert(value.subrange(j, j + 1)[0] == value[j]);
        }
    }
    assert forall|j: int| 0 <= j < head.len() implies head[j] != ' ' by {
        assert(!occurs_at(value, SPACE@, j));
    }
    if at < value.len() {
        assert(occurs_at(value, SPACE@, at));
    }
    if !value.contains(' ') {
        if at < value.len() {
            assert(value[at] == ' ');
        }
        assert(head =~= value);
    }
}

/// Masking the value of a header twice is masking it once.
pub proof fn lemma_mask_header_idempotent(
    fields: Seq<Seq<char>>,
    key: Seq<char>,
    value: Seq<char>,
)
    ensures
        mask_header(fields, key, mask_header(fields, key, value)) == mask_header(
            fields,
            key,
            value,
        ),
{
    if is_authorization(key) {
        reveal_strlit(" ");
        lemma_mask_credential(value);
        let head = head_before(value, SPACE@);
        let once = mask_credential(value);
        assert(once.len() > head.len());
        assert(once[head.len() as int] == ' ');
        assert forall|j: int| 0 <= j < head.len() implies !occurs_at(once, SPACE@, j) by {
            assert(once[j] == head[j]);
            if occurs_at(once, SPACE@, j) {
                assert(once.subrange(j, j + 1)[0] == once[j]);
            }
        }
        assert(once.subrange(head.len() as int, head.len() as int + 1) =~= SPACE@);
        lemma_find_from_unique(once, SPACE@, 0, head.len() as int);
        assert(head_before(once, SPACE@) =~= head);
    }
}

/// Masking a header map twice is masking it once.
pub proof fn lemma_mask_headers_idempotent(fields: Seq<Seq<char>>, map: Map<Seq<char>, Seq<char>>)
    ensures
        mask_headers(fields, mask_headers(fields, map)) == mask_headers(fields, map),
{
    let once = mask_headers(fields, map);
    assert forall|key: Seq<char>| once.contains_key(key) implies mask_headers(fields, once)[key]
        == once[key] by {
        lemma_mask_header_idempotent(fields, key, map[key]);
    }
    assert(mask_headers(fields, once) =~= once);
}

/// After masking, every header that the policy names holds the mask token,
/// but for the authorization header, which holds its masked credential.
pub proof fn lemma_mask_headers_redacts(
    fields: Seq<Seq<char>>,
    map: Map<Seq<char>, Seq<char>>,
    key: Seq<char>,
)
    requires
        map.contains_key(key),
    ensures
        mask_headers(fields, map).contains_key(key),
        is_authorization(key) ==> mask_headers(fields, map)[key] == mask_credential(map[key]),
        !is_authorization(key) && fields.contains(key) ==> mask_headers(fields, map)[key] == MASK@,
        !is_authorization(key) && !fields.contains(key) ==> mask_headers(fields, map)[key]
            == map[key],
{
}

} // verus!
