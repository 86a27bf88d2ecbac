//! SSH keypairs: the `/keypairs` collection.
//!
//! The remote API lists, creates and deletes keypairs but has no
//! endpoint that fetches one by id, so `get` is a client-side walk of
//! the full listing.

use vstd::prelude::*;
use vstd::string::StringExecFns;

use crate::error::Error;
use crate::error::shape_error;
use crate::json::JsonValue;
use crate::json::jv_field_str;
use crate::json::jv_field_u32_lenient;
use crate::json::spec_field_str;
use crate::json::spec_field_u32_lenient;
use crate::numstr::spec_dec;
use crate::numstr::u32_to_string;

verus! {

/// One SSH keypair as the listing reports it.
#[derive(Debug)]
pub struct KeypairResource {
    pub id: u32,
    pub name: String,
    pub public_key: String,
}

pub struct KeypairResourceView {
    pub id: u32,
    pub name: Seq<char>,
    pub public_key: Seq<char>,
}

impl View for KeypairResource {
    type V = KeypairResourceView;

    open spec fn view(&self) -> KeypairResourceView {
        KeypairResourceView { id: self.id, name: self.name@, public_key: self.public_key@ }
    }
}

/// How one decoded value reads as a keypair: `keypair_id` (a number or
/// a decimal string), `name` and `public_key`, all required.
pub open spec fn spec_parse_keypair(v: JsonValue) -> Option<KeypairResourceView> {
    match (
        spec_field_u32_lenient(v, "keypair_id"@),
        spec_field_str(v, "name"@),
        spec_field_str(v, "public_key"@),
    ) {
        (Some(id), Some(name), Some(public_key)) => Some(
            KeypairResourceView { id, name, public_key },
        ),
        _ => None,
    }
}

/// Reads one decoded value as a keypair.
pub fn parse_keypair(v: &JsonValue) -> (r: Result<KeypairResource, Error>)
    ensures
        match r {
            Ok(k) => spec_parse_keypair(*v) == Some(k@),
            Err(e) => spec_parse_keypair(*v) is None && e matches Error::InvalidArgument(_),
        },
{
    let id = match jv_field_u32_lenient(v, "keypair_id") {
        Some(x) => x,
        None => {
            return Err(shape_error("keypair"));
        },
    };
    let name = match jv_field_str(v, "name") {
        Some(x) => x,
        None => {
            return Err(shape_error("keypair"));
        },
    };
    let public_key = match jv_field_str(v, "public_key") {
        Some(x) => x,
        None => {
            return Err(shape_error("keypair"));
        },
    };
    Ok(KeypairResource { id, name, public_key })
}

/// Whether every element of a listing reads as a keypair.
pub open spec fn all_keypairs_ok(elems: Seq<JsonValue>) -> bool {
    forall|i: int| 0 <= i < elems.len() ==> spec_parse_keypair(#[trigger] elems[i]) is Some
}

/// The keypairs of a listing, element by element, in order.
pub open spec fn spec_keypair_views(elems: Seq<JsonValue>) -> Seq<KeypairResourceView> {
    Seq::new(elems.len(), |i: int| spec_parse_keypair(elems[i]).unwrap())
}

/// How a decoded `data` value reads as a keypair listing: an array
/// whose every element reads as a keypair.
pub open spec fn spec_parse_keypair_list(v: JsonValue) -> Option<Seq<KeypairResourceView>> {
    match v {
        JsonValue::Arr(elems) => if all_keypairs_ok(elems@) {
            Some(spec_keypair_views(elems@))
        } else {
            None
        },
        _ => None,
    }
}

/// Reads a decoded `data` value as the keypair listing.
#[verifier::loop_isolation(false)]
pub fn parse_keypair_list(v: &JsonValue) -> (r: Result<Vec<KeypairResource>, Error>)
    ensures
        match r {
            Ok(ks) => spec_parse_keypair_list(*v) == Some(
                ks@.map_values(|k: KeypairResource| k@),
            ),
            Err(e) => spec_parse_keypair_list(*v) is None && e matches Error::InvalidArgument(_),
        },
{
    match v {
        JsonValue::Arr(elems) => {
            let n = elems.len();
            let mut out: Vec<KeypairResource> = Vec::new();
            let mut i: usize = 0;
            while i < n
                invariant
                    0 <= i <= n,
                    out@.len() == i,
                    forall|j: int|
                        0 <= j < i ==> spec_parse_keypair(#[trigger] elems@[j]) == Some(out@[j]@),
                decreases n - i,
            {
                match parse_keypair(&elems[i]) {
                    Ok(k) => {
                        out.push(k);
                    },
                    Err(e) => {
                        return Err(e);
                    },
                }
                i += 1;
            }
            proof {
                assert(spec_keypair_views(elems@) =~= out@.map_values(
                    |k: KeypairResource| k@,
                ));
            }
            Ok(out)
        },
        _ => Err(shape_error("keypair listing")),
    }
}

/// The first keypair in `keys` whose id is `id`, if any.
pub open spec fn spec_find_keypair(keys: Seq<KeypairResource>, id: u32) -> Option<
    KeypairResource,
>
    decreases keys.len(),
{
    if keys.len() == 0 {
        None
    } else if keys[0].id == id {
        Some(keys[0])
    } else {
        spec_find_keypair(keys.drop_first(), id)
    }
}

/// The client-side `get`: walks the listing and takes the first
/// keypair with the requested id; a listing without it is `NotFound`.
#[verifier::loop_isolation(false)]
pub fn find_keypair(keys: Vec<KeypairResource>, id: u32) -> (r: Result<KeypairResource, Error>)
    ensures
        match r {
            Ok(k) => spec_find_keypair(keys@, id) == Some(k) && k.id == id,
            Err(e) => spec_find_keypair(keys@, id) is None && (e matches Error::NotFound(m)
                && m@ == "Keypair is not found"@),
        },
{
    let n = keys.len();
    let mut i: usize = 0;
    let mut found: Option<usize> = None;
    proof {
        assert(keys@.skip(0) =~= keys@);
    }
    while i < n
        invariant
            0 <= i <= n,
            match found {
                Some(at) => at < n && spec_find_keypair(keys@, id) == Some(keys@[at as int])
                    && keys@[at as int].id == id,
                None => spec_find_keypair(keys@.skip(i as int), id) == spec_find_keypair(
                    keys@,
                    id,
                ),
            },
        decreases n - i,
    {
        proof {
            assert(keys@.skip(i as int)[0] == keys@[i as int]);
            assert(keys@.skip(i as int).drop_first() =~= keys@.skip(i + 1));
        }
        if found.is_none() && keys[i].id == id {
            found = Some(i);
        }
        i += 1;
    }
    match found {
        Some(at) => {
            let mut keys = keys;
            let k = keys.swap_remove(at);
            Ok(k)
        },
        None => {
            proof {
                assert(keys@.skip(n as int) =~= Seq::<KeypairResource>::empty());
            }
            Err(Error::NotFound("Keypair is not found".to_owned()))
        },
    }
}

/// A listing that carries no keypair with the requested id makes the
/// lookup fail.
pub proof fn lemma_find_keypair_absent(keys: Seq<KeypairResource>, id: u32)
    requires
        forall|j: int| 0 <= j < keys.len() ==> (#[trigger] keys[j]).id != id,
    ensures
        spec_find_keypair(keys, id) is None,
    decreases keys.len(),
{
    if keys.len() > 0 {
        assert(keys[0].id != id);
        assert(forall|j: int|
            0 <= j < keys.drop_first().len() ==> (#[trigger] keys.drop_first()[j]).id != id);
        lemma_find_keypair_absent(keys.drop_first(), id);
    }
}

/// A listing that carries exactly one keypair with the requested id
/// makes the lookup return that keypair.
pub proof fn lemma_find_keypair_unique(keys: Seq<KeypairResource>, id: u32, at: int)
    requires
        0 <= at < keys.len(),
        keys[at].id == id,
        forall|j: int| 0 <= j < keys.len() && j != at ==> (#[trigger] keys[j]).id != id,
    ensures
        spec_find_keypair(keys, id) == Some(keys[at]),
    decreases keys.len(),
{
    if at == 0 {
    } else {
        assert(keys.drop_first()[at - 1] == keys[at]);
        assert(forall|j: int|
            0 <= j < keys.drop_first().len() && j != at - 1 ==> (#[trigger] keys.drop_first()[j]).id
                != id);
        lemma_find_keypair_unique(keys.drop_first(), id, at - 1);
    }
}

/// The path of the keypair collection.
pub fn keypairs_path() -> (p: String)
    ensures
        p@ == "/keypairs"@,
{
    "/keypairs".to_owned()
}

/// The path that deletes the keypair `id`.
pub fn keypair_delete_path(id: u32) -> (p: String)
    ensures
        p@ == "/keypairs/"@ + spec_dec(id as nat),
{
    let num = u32_to_string(id);
    "/keypairs/".to_owned().concat(num.as_str())
}

/// The request body that creates a keypair named `name`.
pub fn create_keypair_body(name: &str) -> (b: JsonValue)
    ensures
        b matches JsonValue::Obj(fields) && fields@.len() == 1 && fields@[0].0@ == "name"@ && (
        fields@[0].1 matches JsonValue::Str(s) && s@ == name@),
{
    let fields: Vec<(String, JsonValue)> = vec![
        ("name".to_owned(), JsonValue::Str(name.to_owned())),
    ];
    JsonValue::Obj(fields)
}

} // verus!
