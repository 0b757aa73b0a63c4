//! The list of subscriptions as JSON text: an array with one object for each
//! subscription, in the order of the list, each with the members `path` and
//! `url`.

use crate::settings::{subscription_views, Subscription, SubscriptionView};
use vstd::prelude::*;

verus! {

/// The error of `serde_json`. It is carried through and never read.
#[verifier::external_type_specification]
#[verifier::external_body]
pub struct ExJsonError(serde_json::Error);

/// What `serde_json` makes of a text: its JSON string literal, quotes
/// included, or nothing where the encoder fails on it.
pub uninterp spec fn json_string(text: Seq<char>) -> Option<Seq<char>>;

/// Trusted: `serde_json::to_string` on a `str`. Whether it succeeds, and the
/// literal it then writes, depend on the text alone: both go by the name
/// `json_string`. Nothing is claimed of the texts on which it succeeds.
#[verifier::external_body]
fn encode_string(text: &str) -> (encoded: Result<String, serde_json::Error>)
    ensures
        encoded_text(encoded) == json_string(text@),
{
    serde_json::to_string(text)
}

/// The object with the two members, given their values as JSON text.
pub open spec fn object_of(path_json: Seq<char>, url_json: Seq<char>) -> Seq<char> {
    "{\"path\":"@ + path_json + ",\"url\":"@ + url_json + "}"@
}

/// The items one after the other, with a comma between two of them.
pub open spec fn items_of(items: Seq<Seq<char>>) -> Seq<char>
    decreases items.len(),
{
    if items.len() == 0 {
        Seq::empty()
    } else if items.len() == 1 {
        items[0]
    } else {
        items_of(items.drop_last()) + ","@ + items.last()
    }
}

/// The array of the items.
pub open spec fn array_of(items: Seq<Seq<char>>) -> Seq<char> {
    "["@ + items_of(items) + "]"@
}

/// The object that stands for one subscription, where both members encode.
pub open spec fn json_object(sub: SubscriptionView) -> Option<Seq<char>> {
    object_if(json_string(sub.path), json_string(sub.url))
}

/// The array that stands for a list of subscriptions: one object for each,
/// in the order of the list. There is none where a subscription has none.
pub open spec fn json_list(subs: Seq<SubscriptionView>) -> Option<Seq<char>> {
    array_if(subs.map_values(|sub: SubscriptionView| json_object(sub)))
}

/// The characters of each text.
pub open spec fn texts(items: Seq<String>) -> Seq<Seq<char>> {
    items.map_values(|item: String| item@)
}

/// Writes the object with the two members, given their values as JSON text.
pub fn frame_object(path_json: &str, url_json: &str) -> (object: String)
    ensures
        object@ == object_of(path_json@, url_json@),
{
    let mut object = String::from_str("{\"path\":");
    object.append(path_json);
    object.append(",\"url\":");
    object.append(url_json);
    object.append("}");
    object
}

/// Writes the array of the items, each of them JSON text already.
pub fn frame_array(items: &Vec<String>) -> (array: String)
    ensures
        array@ == array_of(texts(items@)),
{
    let mut array = String::from_str("[");
    let mut i: usize = 0;
    while i < items.len()
        invariant
            i <= items.len(),
            array@ == "["@ + items_of(texts(items@).take(i as int)),
        decreases items.len() - i,
    {
        let ghost done = texts(items@).take(i as int);
        let ghost next = texts(items@).take(i + 1);
        proof {
            assert(next.drop_last() =~= done);
            assert(next.last() == items@[i as int]@);
        }
        if i > 0 {
            array.append(",");
        }
        array.append(items[i].as_str());
        proof {
            if i > 0 {
                assert(array@ =~= "["@ + (items_of(done) + ","@ + items@[i as int]@));
            } else {
                assert(array@ =~= "["@ + items@[i as int]@);
            }
        }
        i += 1;
    }
    proof {
        assert(texts(items@).take(i as int) =~= texts(items@));
    }
    array.append("]");
    array
}

/// The object that stands for `sub`, or nothing where a member could not be
/// encoded.
pub fn encode_subscription(sub: &Subscription) -> (object: Option<String>)
    ensures
        text_of(object) == json_object(sub@),
{
    let path_json = match encode_string(sub.path.as_str()) {
        Ok(json) => json,
        Err(_) => {
            return None;
        },
    };
    let url_json = match encode_string(sub.url.as_str()) {
        Ok(json) => json,
        Err(_) => {
            return None;
        },
    };
    Some(frame_object(path_json.as_str(), url_json.as_str()))
}

/// The array that stands for `subs`, or nothing where a subscription could
/// not be encoded. A list without subscriptions is always encoded.
pub fn encode_subscriptions(subs: &Vec<Subscription>) -> (array: Option<String>)
    ensures
        text_of(array) == json_list(subscription_views(subs@)),
        subs@.len() == 0 ==> array is Some,
{
    let ghost all = subscription_views(subs@).map_values(|sub: SubscriptionView| json_object(sub));
    let mut objects: Vec<String> = Vec::new();
    let mut i: usize = 0;
    while i < subs.len()
        invariant
            i <= subs.len(),
            all == subscription_views(subs@).map_values(|sub: SubscriptionView| json_object(sub)),
            all_present(all.take(i as int)),
            texts(objects@) == present(all.take(i as int)),
        decreases subs.len() - i,
    {
        let ghost before = objects@;
        match encode_subscription(&subs[i]) {
            Some(object) => {
                objects.push(object);
                proof {
                    assert(all[i as int] == Some(object@));
                    assert(all.take(i + 1) =~= all.take(i as int).push(all[i as int]));
                    assert(texts(objects@) =~= texts(before).push(object@));
                    assert(present(all.take(i + 1)) =~= present(all.take(i as int)).push(object@));
                }
            },
            None => {
                proof {
                    assert(all[i as int] is None);
                }
                return None;
            },
        }
        i += 1;
    }
    proof {
        assert(all.take(i as int) =~= all);
    }
    Some(frame_array(&objects))
}

/// The characters of a text that may be missing.
pub open spec fn text_of(text: Option<String>) -> Option<Seq<char>> {
    match text {
        Some(text) => Some(text@),
        None => None,
    }
}

/// The characters of what the encoder returned, or nothing where it failed.
pub open spec fn encoded_text(encoded: Result<String, serde_json::Error>) -> Option<Seq<char>> {
    match encoded {
        Ok(json) => Some(json@),
        Err(_) => None,
    }
}

/// The object with the two members, where both values are there.
pub open spec fn object_if(path_json: Option<Seq<char>>, url_json: Option<Seq<char>>) -> Option<
    Seq<char>,
> {
    if path_json is Some && url_json is Some {
        Some(object_of(path_json->Some_0, url_json->Some_0))
    } else {
        None
    }
}

/// Every item is there.
pub open spec fn all_present(items: Seq<Option<Seq<char>>>) -> bool {
    forall|i: int| 0 <= i < items.len() ==> (#[trigger] items[i]) is Some
}

/// The items, each taken out of its `Some`.
pub open spec fn present(items: Seq<Option<Seq<char>>>) -> Seq<Seq<char>> {
    items.map_values(|item: Option<Seq<char>>| item->Some_0)
}

/// The array of the items, where every item is there.
pub open spec fn array_if(items: Seq<Option<Seq<char>>>) -> Option<Seq<char>> {
    if all_present(items) {
        Some(array_of(present(items)))
    } else {
        None
    }
}

} // verus!
