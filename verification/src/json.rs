//! Reading the answers that the server gives as free-form JSON.

use vstd::hash_map::StringHashMap;
use vstd::prelude::*;

use crate::error::HawkbitError;
use crate::error::HawkbitResult;

verus! {

/// `serde_json::Map`: the members of a JSON object, carried through without
/// being looked at.
#[verifier::external_type_specification]
#[verifier::external_body]
#[verifier::reject_recursive_types(K)]
#[verifier::reject_recursive_types(V)]
pub struct ExJsonMap<K, V>(serde_json::Map<K, V>);

/// The members of a JSON object, if the document is one.
pub uninterp spec fn json_object(document: serde_json::Value) -> Option<
    serde_json::Map<String, serde_json::Value>,
>;

/// The names and values that a JSON object holds, in the order in which it
/// hands them out.
pub uninterp spec fn json_members(object: serde_json::Map<String, serde_json::Value>) -> Seq<
    (Seq<char>, serde_json::Value),
>;

/// The characters of a JSON string, if the document is one.
pub uninterp spec fn json_text(document: serde_json::Value) -> Option<Seq<char>>;

/// The member of a JSON object under `key`, if the document is an object and
/// has such a member.
pub uninterp spec fn json_member(document: serde_json::Value, key: Seq<char>) -> Option<
    serde_json::Value,
>;

/// The elements of a JSON array, if the document is one.
pub uninterp spec fn json_items(document: serde_json::Value) -> Option<Seq<serde_json::Value>>;

/// `serde_json::Value::clone`: the copy is the same document.
pub assume_specification[ <serde_json::Value as Clone>::clone ](
    document: &serde_json::Value,
) -> (copy: serde_json::Value)
    ensures
        copy == *document,
;

/// `serde_json::Value::as_object`: the map of an object, `None` for every
/// other kind of document.
#[verifier::external_body]
fn as_object(document: &serde_json::Value) -> (object: Option<
    &serde_json::Map<String, serde_json::Value>,
>)
    ensures
        match object {
            Some(map) => json_object(*document) == Some(*map),
            None => json_object(*document) is None,
        },
{
    document.as_object()
}

/// `serde_json::Map::iter`: every member of the object once, name and value.
#[verifier::external_body]
fn members(object: &serde_json::Map<String, serde_json::Value>) -> (list: Vec<
    (&String, &serde_json::Value),
>)
    ensures
        list@.len() == json_members(*object).len(),
        forall|i: int|
            0 <= i < list@.len() ==> (#[trigger] list@[i]).0@ == json_members(*object)[i].0
                && *list@[i].1 == json_members(*object)[i].1,
{
    object.iter().collect()
}

/// `serde_json::Value::as_str`: the text of a string, `None` for every other
/// kind of document.
#[verifier::external_body]
fn as_text(document: &serde_json::Value) -> (text: Option<&str>)
    ensures
        match text {
            Some(t) => json_text(*document) == Some(t@),
            None => json_text(*document) is None,
        },
{
    document.as_str()
}

/// `serde_json::Value::get` with a string: the member of that name, `None`
/// where the document is no object or has no such member.
#[verifier::external_body]
fn member<'a>(document: &'a serde_json::Value, key: &str) -> (found: Option<&'a serde_json::Value>)
    ensures
        match found {
            Some(value) => json_member(*document, key@) == Some(*value),
            None => json_member(*document, key@) is None,
        },
{
    document.get(key)
}

/// `serde_json::Value::as_array`: the elements of an array, `None` for every
/// other kind of document.
#[verifier::external_body]
fn as_items(document: &serde_json::Value) -> (items: Option<&Vec<serde_json::Value>>)
    ensures
        match items {
            Some(list) => json_items(*document) == Some(list@),
            None => json_items(*document) is None,
        },
{
    document.as_array()
}

/// A member of a JSON object as the attributes read it: its name, and its
/// text where the value is a string.
#[derive(Debug)]
pub struct Member {
    pub name: String,
    pub text: Option<String>,
}

impl View for Member {
    type V = (Seq<char>, Option<Seq<char>>);

    open spec fn view(&self) -> (Seq<char>, Option<Seq<char>>) {
        (
            self.name@,
            match self.text {
                Some(t) => Some(t@),
                None => None,
            },
        )
    }
}

/// The names and texts of a list of members.
pub open spec fn member_views(list: Seq<Member>) -> Seq<(Seq<char>, Option<Seq<char>>)> {
    Seq::new(list.len(), |i: int| list[i]@)
}

/// The members of a document as the attributes read them: `None` where the
/// document is no object.
pub open spec fn plain_members(document: serde_json::Value) -> Option<
    Seq<(Seq<char>, Option<Seq<char>>)>,
> {
    match json_object(document) {
        Some(object) => Some(
            Seq::new(
                json_members(object).len(),
                |i: int| (json_members(object)[i].0, json_text(json_members(object)[i].1)),
            ),
        ),
        None => None,
    }
}

/// The attributes that the first `n` members give: each member is an
/// attribute, one that is no string with an empty value, and of two members
/// with one name the later counts.
pub open spec fn attributes_upto(list: Seq<(Seq<char>, Option<Seq<char>>)>, n: int) -> Map<
    Seq<char>,
    Seq<char>,
>
    decreases n,
{
    if n <= 0 {
        Map::empty()
    } else {
        attributes_upto(list, n - 1).insert(
            list[n - 1].0,
            match list[n - 1].1 {
                Some(text) => text,
                None => Seq::empty(),
            },
        )
    }
}

/// The attributes that an answer gives. An answer that is no object gives none.
pub open spec fn attributes_of(answer: Option<Seq<(Seq<char>, Option<Seq<char>>)>>) -> Map<
    Seq<char>,
    Seq<char>,
> {
    match answer {
        Some(list) => attributes_upto(list, list.len() as int),
        None => Map::empty(),
    }
}

/// The texts that a map of strings holds.
pub open spec fn map_texts(held: Map<Seq<char>, String>) -> Map<Seq<char>, Seq<char>> {
    Map::new(|name: Seq<char>| held.contains_key(name), |name: Seq<char>| held[name]@)
}

/// The attributes that a list of members gives.
pub fn collect_attributes(answer: &Option<Vec<Member>>) -> (attributes: StringHashMap<String>)
    ensures
        map_texts(attributes@) == attributes_of(
            match *answer {
                Some(list) => Some(member_views(list@)),
                None => None,
            },
        ),
{
    let mut attributes: StringHashMap<String> = StringHashMap::new();
    assert(map_texts(attributes@) =~= Map::empty());
    match answer {
        None => {},
        Some(list) => {
            let n = list.len();
            let mut i: usize = 0;
            while i < n
                invariant
                    i <= n,
                    n == list@.len(),
                    map_texts(attributes@) == attributes_upto(member_views(list@), i as int),
                decreases n - i,
            {
                let ghost before = attributes@;
                let value = match &list[i].text {
                    Some(text) => text.clone(),
                    None => String::new(),
                };
                attributes.insert(list[i].name.clone(), value);
                assert(map_texts(attributes@) =~= map_texts(before).insert(list@[i as int].name@, value@));
                i = i + 1;
            }
        },
    }
    attributes
}

/// Reads the members of a document: their names, and the texts of those that
/// are strings.
pub fn read_members(document: &serde_json::Value) -> (answer: Option<Vec<Member>>)
    ensures
        (match answer {
            Some(list) => Some(member_views(list@)),
            None => None,
        }) == plain_members(*document),
{
    match as_object(document) {
        None => None,
        Some(object) => {
            let pairs = members(object);
            let mut list: Vec<Member> = Vec::new();
            let n = pairs.len();
            let mut i: usize = 0;
            while i < n
                invariant
                    i <= n,
                    n == pairs@.len(),
                    n == json_members(*object).len(),
                    list@.len() == i,
                    forall|k: int|
                        0 <= k < n ==> (#[trigger] pairs@[k]).0@ == json_members(*object)[k].0
                            && *pairs@[k].1 == json_members(*object)[k].1,
                    forall|k: int|
                        0 <= k < i ==> (#[trigger] list@[k])@ == (
                            json_members(*object)[k].0,
                            json_text(json_members(*object)[k].1),
                        ),
                decreases n - i,
            {
                let pair = &pairs[i];
                let text = match as_text(pair.1) {
                    Some(t) => Some(t.to_owned()),
                    None => None,
                };
                list.push(Member { name: pair.0.clone(), text });
                i = i + 1;
            }
            assert(member_views(list@) =~= plain_members(*document).unwrap());
            Some(list)
        },
    }
}

/// The attributes of a device, from the answer to the request for them. Every
/// member of the answer is an attribute; one whose value is no string has an
/// empty value. An answer that is no object gives no attributes.
pub fn attributes_from_json(document: &serde_json::Value) -> (attributes: StringHashMap<String>)
    ensures
        map_texts(attributes@) == attributes_of(plain_members(*document)),
{
    let answer = read_members(document);
    collect_attributes(&answer)
}

/// What is reported when a listing of bundles holds none.
pub open spec fn no_distribution_text() -> Seq<char> {
    "No available distributions found"@
}

/// The first bundle of a listing, or a failure where the listing is missing
/// or empty.
pub fn first_distribution(listing: Option<&Vec<serde_json::Value>>) -> (first: HawkbitResult<
    serde_json::Value,
>)
    ensures
        match first {
            Ok(bundle) => listing matches Some(list) && list@.len() > 0 && bundle == list@[0],
            Err(e) => e@ == no_distribution_text() && !(listing matches Some(list) && list@.len()
                > 0),
        },
{
    match listing {
        Some(list) => {
            if list.len() > 0 {
                return Ok(list[0].clone());
            }
        },
        None => {},
    }
    Err(HawkbitError::new("No available distributions found"))
}

/// The elements of the array under `content` in a page of a listing.
pub open spec fn page_content(page: serde_json::Value) -> Option<Seq<serde_json::Value>> {
    match json_member(page, "content"@) {
        Some(content) => json_items(content),
        None => None,
    }
}

/// The bundle that was created last, from the answer to the request for it:
/// the first element of the array under `content`.
pub fn latest_distribution(page: &serde_json::Value) -> (latest: HawkbitResult<serde_json::Value>)
    ensures
        match latest {
            Ok(bundle) => page_content(*page) matches Some(list) && list.len() > 0 && bundle
                == list[0],
            Err(e) => e@ == no_distribution_text() && !(page_content(*page) matches Some(list)
                && list.len() > 0),
        },
{
    let listing = match member(page, "content") {
        Some(content) => as_items(content),
        None => None,
    };
    first_distribution(listing)
}

} // verus!
