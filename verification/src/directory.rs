//! The light directory: the gateway's lights by their keys.

use crate::ident::{digits_value, is_light_id, lemma_light_id_of, light_id_of, parse_light_id, unsigned_part};
use crate::json::{is_object, json_view, member, member_names, names_view, JsonModel};
use crate::shape::{read_text, text_member, ShapeFault};
use crate::types::{Error, ErrorView, IdParseFailure, Light};
use serde_json::Value;
use vstd::prelude::*;

verus! {

/// The display name of a directory entry: its `name` member, a string.
pub open spec fn entry_name(entry: JsonModel) -> Option<Seq<char>> {
    match entry {
        JsonModel::Object(members) => text_member(members, "name"@),
        _ => None,
    }
}

/// Every entry of the directory has a display name.
pub open spec fn entries_named(directory: Map<Seq<char>, JsonModel>) -> bool {
    forall|k: Seq<char>| #[trigger] directory.contains_key(k) ==> entry_name(directory[k]) is Some
}

/// Every key of the directory is a light id.
pub open spec fn keys_are_ids(directory: Map<Seq<char>, JsonModel>) -> bool {
    forall|k: Seq<char>| #[trigger] directory.contains_key(k) ==> light_id_of(k) is Ok
}

/// The lights are those of the directory, one for each key and in some order
/// of the keys: each has the number that its key denotes as id and its entry's
/// display name as name.
pub open spec fn lists_directory(lights: Seq<Light>, directory: Map<Seq<char>, JsonModel>) -> bool {
    exists|keys: Seq<Seq<char>>| lists_in_order(lights, directory, keys)
}

/// The keys are those of the directory, each once, and the light at each
/// position is that of the key at the same position.
pub open spec fn lists_in_order(
    lights: Seq<Light>,
    directory: Map<Seq<char>, JsonModel>,
    keys: Seq<Seq<char>>,
) -> bool {
    &&& keys.no_duplicates()
    &&& forall|k: Seq<char>| #[trigger] directory.contains_key(k) <==> keys.contains(k)
    &&& keys.len() == lights.len()
    &&& forall|i: int|
        0 <= i < keys.len() ==> {
            &&& light_id_of(#[trigger] keys[i]) == Ok::<u32, IdParseFailure>(lights[i].id)
            &&& entry_name(directory[keys[i]]) == Some(lights[i].name@)
        }
}

/// The keys in the order in which a list of lights has their lights.
pub open spec fn listed_keys(lights: Seq<Light>, directory: Map<Seq<char>, JsonModel>) -> Seq<Seq<char>> {
    choose|keys: Seq<Seq<char>>| lists_in_order(lights, directory, keys)
}

/// What reading a directory document gives.
///
/// A document that is no object, or an entry without a display name, is a
/// shape fault. Otherwise one key that is no light id fails the whole read,
/// with the reason for which some such key is none. Otherwise the result
/// lists the directory.
pub open spec fn is_directory_outcome(doc: JsonModel, r: Result<Vec<Light>, Error>) -> bool {
    match doc {
        JsonModel::Object(directory) => if !entries_named(directory) {
            r matches Err(e) && e@ == ShapeFault::BadEntry.error_view()
        } else if !keys_are_ids(directory) {
            r matches Err(e) && exists|k: Seq<char>|
                {
                    &&& #[trigger] directory.contains_key(k)
                    &&& light_id_of(k) is Err
                    &&& e@ == ErrorView::IdParseError(light_id_of(k)->Err_0)
                }
        } else {
            r matches Ok(lights) && lists_directory(lights@, directory)
        },
        _ => r matches Err(e) && e@ == ShapeFault::NotAnObject.error_view(),
    }
}

/// The light is that of a key of the directory: the key is a light id, the
/// light's id is the number that the key denotes, and its name is the display
/// name of the key's entry.
pub open spec fn is_light_of_key(light: Light, directory: Map<Seq<char>, JsonModel>, key: Seq<char>) -> bool {
    &&& directory.contains_key(key)
    &&& is_light_id(key)
    &&& light.id == digits_value(unsigned_part(key))
    &&& Some(light.name@) == entry_name(directory[key])
}

/// The light is that of some key of the directory.
pub open spec fn is_light_of_directory(light: Light, directory: Map<Seq<char>, JsonModel>) -> bool {
    exists|key: Seq<char>| #[trigger] is_light_of_key(light, directory, key)
}

/// A listed directory has, for each of its keys, a light whose id is the
/// number that the key denotes and whose name is the entry's display name.
pub proof fn lemma_every_key_is_listed(
    lights: Seq<Light>,
    directory: Map<Seq<char>, JsonModel>,
    key: Seq<char>,
)
    requires
        lists_directory(lights, directory),
        directory.contains_key(key),
    ensures
        exists|i: int| 0 <= i < lights.len() && is_light_of_key(#[trigger] lights[i], directory, key),
{
    let keys = listed_keys(lights, directory);
    let i = choose|i: int| 0 <= i < keys.len() && keys[i] == key;
    assert(light_id_of(keys[i]) is Ok);
    lemma_light_id_of(key);
    assert(is_light_of_key(lights[i], directory, key));
}

/// A listed directory has no light but those of its keys, and as many lights
/// as keys.
pub proof fn lemma_every_light_has_its_key(
    lights: Seq<Light>,
    directory: Map<Seq<char>, JsonModel>,
)
    requires
        lists_directory(lights, directory),
    ensures
        directory.dom().finite(),
        directory.dom().len() == lights.len(),
        forall|i: int| 0 <= i < lights.len() ==> #[trigger] is_light_of_directory(lights[i], directory),
{
    let keys = listed_keys(lights, directory);
    assert(keys.to_set() =~= directory.dom()) by {
        assert forall|k: Seq<char>| keys.to_set().contains(k) <==> directory.dom().contains(k) by {
            assert(directory.contains_key(k) <==> keys.contains(k));
        }
    }
    vstd::seq_lib::seq_to_set_is_finite(keys);
    keys.unique_seq_to_set();
    assert forall|i: int| 0 <= i < lights.len() implies #[trigger] is_light_of_directory(
        lights[i],
        directory,
    ) by {
        let key = keys[i];
        assert(keys.contains(key));
        assert(light_id_of(key) is Ok);
        lemma_light_id_of(key);
        assert(is_light_of_key(lights[i], directory, key));
    }
}

/// One key that is no light id fails the read of the whole directory: the
/// outcome is an error, and no list.
pub proof fn lemma_bad_key_fails_directory(
    directory: Map<Seq<char>, JsonModel>,
    key: Seq<char>,
    r: Result<Vec<Light>, Error>,
)
    requires
        is_directory_outcome(JsonModel::Object(directory), r),
        directory.contains_key(key),
        !is_light_id(key),
    ensures
        r is Err,
        entries_named(directory) ==> r->Err_0@ is IdParseError,
{
    lemma_light_id_of(key);
    assert(!keys_are_ids(directory));
}

fn read_entry_name(entry: &Value) -> (r: Option<String>)
    ensures
        match entry_name(json_view(*entry)) {
            Some(t) => r matches Some(s) && s@ == t,
            None => r is None,
        },
{
    if is_object(entry) {
        read_text(entry, "name")
    } else {
        None
    }
}

/// Reads the light directory from the document that the gateway answered with.
pub fn lights_from_document(doc: &Value) -> (r: Result<Vec<Light>, Error>)
    ensures
        is_directory_outcome(json_view(*doc), r),
{
    let names = match member_names(doc) {
        None => {
            return Err(ShapeFault::NotAnObject.into_error());
        },
        Some(names) => names,
    };
    let ghost directory = json_view(*doc)->Object_0;
    let ghost keys = names_view(names@);
    let mut lights: Vec<Light> = Vec::new();
    let mut failure: Option<IdParseFailure> = None;
    let mut i: usize = 0;
    while i < names.len()
        invariant
            i <= names.len(),
            json_view(*doc) == JsonModel::Object(directory),
            keys == names_view(names@),
            keys.len() == names.len(),
            forall|k: Seq<char>| #[trigger] directory.contains_key(k) <==> keys.contains(k),
            forall|j: int| 0 <= j < i ==> entry_name(directory[#[trigger] keys[j]]) is Some,
            failure is None ==> lights.len() == i,
            failure is None ==> forall|j: int|
                0 <= j < i ==> {
                    &&& light_id_of(#[trigger] keys[j]) == Ok::<u32, IdParseFailure>(lights[j].id)
                    &&& entry_name(directory[keys[j]]) == Some(lights[j].name@)
                },
            failure matches Some(kind) ==> exists|j: int|
                0 <= j < i && light_id_of(#[trigger] keys[j]) == Err::<u32, IdParseFailure>(kind),
        decreases names.len() - i,
    {
        let key = names[i].as_str();
        proof {
            assert(key@ == keys[i as int]);
            assert(keys.contains(keys[i as int]));
            assert(directory.contains_key(key@));
        }
        let name = match member(doc, key) {
            None => None,
            Some(entry) => read_entry_name(entry),
        };
        let name = match name {
            None => {
                proof {
                    assert(entry_name(directory[key@]) is None);
                }
                return Err(ShapeFault::BadEntry.into_error());
            },
            Some(name) => name,
        };
        match parse_light_id(key) {
            Ok(id) => {
                if failure.is_none() {
                    lights.push(Light { name, id });
                }
            },
            Err(kind) => {
                if failure.is_none() {
                    failure = Some(kind);
                }
            },
        }
        i = i + 1;
    }
    proof {
        assert forall|k: Seq<char>| #[trigger] directory.contains_key(k) implies entry_name(
            directory[k],
        ) is Some by {
            let j = choose|j: int| 0 <= j < keys.len() && keys[j] == k;
            assert(entry_name(directory[keys[j]]) is Some);
        }
    }
    match failure {
        Some(kind) => {
            proof {
                let j = choose|j: int|
                    0 <= j < i && light_id_of(#[trigger] keys[j]) == Err::<u32, IdParseFailure>(kind);
                assert(keys.contains(keys[j]));
                assert(directory.contains_key(keys[j]));
            }
            Err(Error::IdParseError(kind))
        },
        None => {
            proof {
                assert forall|k: Seq<char>| #[trigger] directory.contains_key(k) implies light_id_of(
                    k,
                ) is Ok by {
                    let j = choose|j: int| 0 <= j < keys.len() && keys[j] == k;
                    assert(light_id_of(keys[j]) is Ok);
                }
                assert(lists_in_order(lights@, directory, keys));
            }
            Ok(lights)
        },
    }
}

} // verus!
