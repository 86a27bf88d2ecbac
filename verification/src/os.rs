//! OS images, enumerable per plan.
//!
//! The remote API lists the images a product can run but has no
//! endpoint that fetches one by id, so `get` is a client-side walk of
//! the full listing.

use vstd::prelude::*;
use vstd::string::StringExecFns;

use crate::error::Error;
use crate::error::shape_error;
use crate::json::JsonValue;
use crate::json::jv_field_str;
use crate::json::jv_field_u32;
use crate::json::jv_field_u64;
use crate::json::spec_field_str;
use crate::json::spec_field_u32;
use crate::json::spec_field_u64;
use crate::numstr::spec_dec;
use crate::numstr::u32_to_string;

verus! {

/// One OS image as the per-product listing reports it.
#[derive(Debug)]
pub struct OsResource {
    pub id: u32,
    pub node: String,
    pub name: String,
    pub maxmem: u64,
    pub maxcpu: u32,
}

pub struct OsResourceView {
    pub id: u32,
    pub node: Seq<char>,
    pub name: Seq<char>,
    pub maxmem: u64,
    pub maxcpu: u32,
}

impl View for OsResource {
    type V = OsResourceView;

    open spec fn view(&self) -> OsResourceView {
        OsResourceView {
            id: self.id,
            node: self.node@,
            name: self.name@,
            maxmem: self.maxmem,
            maxcpu: self.maxcpu,
        }
    }
}

/// How one decoded value reads as an OS image: numeric `vmid`, string
/// `node` and `name`, numeric `maxmem` and `maxcpu`, all required.
pub open spec fn spec_parse_os(v: JsonValue) -> Option<OsResourceView> {
    match (
        spec_field_u32(v, "vmid"@),
        spec_field_str(v, "node"@),
        spec_field_str(v, "name"@),
        spec_field_u64(v, "maxmem"@),
        spec_field_u32(v, "maxcpu"@),
    ) {
        (Some(id), Some(node), Some(name), Some(maxmem), Some(maxcpu)) => Some(
            OsResourceView { id, node, name, maxmem, maxcpu },
        ),
        _ => None,
    }
}

/// Reads one decoded value as an OS image.
pub fn parse_os(v: &JsonValue) -> (r: Result<OsResource, Error>)
    ensures
        match r {
            Ok(o) => spec_parse_os(*v) == Some(o@),
            Err(e) => spec_parse_os(*v) is None && e matches Error::InvalidArgument(_),
        },
{
    let id = match jv_field_u32(v, "vmid") {
        Some(x) => x,
        None => {
            return Err(shape_error("os image"));
        },
    };
    let node = match jv_field_str(v, "node") {
        Some(x) => x,
        None => {
            return Err(shape_error("os image"));
        },
    };
    let name = match jv_field_str(v, "name") {
        Some(x) => x,
        None => {
            return Err(shape_error("os image"));
        },
    };
    let maxmem = match jv_field_u64(v, "maxmem") {
        Some(x) => x,
        None => {
            return Err(shape_error("os image"));
        },
    };
    let maxcpu = match jv_field_u32(v, "maxcpu") {
        Some(x) => x,
        None => {
            return Err(shape_error("os image"));
        },
    };
    Ok(OsResource { id, node, name, maxmem, maxcpu })
}

/// Whether every element of a listing reads as an OS image.
pub open spec fn all_os_ok(elems: Seq<JsonValue>) -> bool {
    forall|i: int| 0 <= i < elems.len() ==> spec_parse_os(#[trigger] elems[i]) is Some
}

/// The OS images of a listing, element by element, in order.
pub open spec fn spec_os_views(elems: Seq<JsonValue>) -> Seq<OsResourceView> {
    Seq::new(elems.len(), |i: int| spec_parse_os(elems[i]).unwrap())
}

/// How a decoded `data` value reads as an OS listing.
pub open spec fn spec_parse_os_list(v: JsonValue) -> Option<Seq<OsResourceView>> {
    match v {
        JsonValue::Arr(elems) => if all_os_ok(elems@) {
            Some(spec_os_views(elems@))
        } else {
            None
        },
        _ => None,
    }
}

/// Reads a decoded `data` value as the OS listing.
#[verifier::loop_isolation(false)]
pub fn parse_os_list(v: &JsonValue) -> (r: Result<Vec<OsResource>, Error>)
    ensures
        match r {
            Ok(os) => spec_parse_os_list(*v) == Some(os@.map_values(|o: OsResource| o@)),
            Err(e) => spec_parse_os_list(*v) is None && e matches Error::InvalidArgument(_),
        },
{
    match v {
        JsonValue::Arr(elems) => {
            let n = elems.len();
            let mut out: Vec<OsResource> = Vec::new();
            let mut i: usize = 0;
            while i < n
                invariant
                    0 <= i <= n,
                    out@.len() == i,
                    forall|j: int|
                        0 <= j < i ==> spec_parse_os(#[trigger] elems@[j]) == Some(out@[j]@),
                decreases n - i,
            {
                match parse_os(&elems[i]) {
                    Ok(o) => {
                        out.push(o);
                    },
                    Err(e) => {
                        return Err(e);
                    },
                }
                i += 1;
            }
            proof {
                assert(spec_os_views(elems@) =~= out@.map_values(|o: OsResource| o@));
            }
            Ok(out)
        },
        _ => Err(shape_error("os listing")),
    }
}

/// The first OS image in `images` whose id is `id`, if any.
pub open spec fn spec_find_os(images: Seq<OsResource>, id: u32) -> Option<OsResource>
    decreases images.len(),
{
    if images.len() == 0 {
        None
    } else if images[0].id == id {
        Some(images[0])
    } else {
        spec_find_os(images.drop_first(), id)
    }
}

/// The client-side `get`: walks the listing and takes the first OS
/// image with the requested id; a listing without it is `NotFound`.
#[verifier::loop_isolation(false)]
pub fn find_os(images: Vec<OsResource>, id: u32) -> (r: Result<OsResource, Error>)
    ensures
        match r {
            Ok(o) => spec_find_os(images@, id) == Some(o) && o.id == id,
            Err(e) => spec_find_os(images@, id) is None && (e matches Error::NotFound(m) && m@
                == "OS is not found"@),
        },
{
    let n = images.len();
    let mut i: usize = 0;
    let mut found: Option<usize> = None;
    proof {
        assert(images@.skip(0) =~= images@);
    }
    while i < n
        invariant
            0 <= i <= n,
            match found {
                Some(at) => at < n && spec_find_os(images@, id) == Some(images@[at as int])
                    && images@[at as int].id == id,
                None => spec_find_os(images@.skip(i as int), id) == spec_find_os(images@, id),
            },
        decreases n - i,
    {
        proof {
            assert(images@.skip(i as int)[0] == images@[i as int]);
            assert(images@.skip(i as int).drop_first() =~= images@.skip(i + 1));
        }
        if found.is_none() && images[i].id == id {
            found = Some(i);
        }
        i += 1;
    }
    match found {
        Some(at) => {
            let mut images = images;
            let o = images.swap_remove(at);
            Ok(o)
        },
        None => {
            proof {
                assert(images@.skip(n as int) =~= Seq::<OsResource>::empty());
            }
            Err(Error::NotFound("OS is not found".to_owned()))
        },
    }
}

/// A listing that carries no OS image with the requested id makes the
/// lookup fail.
pub proof fn lemma_find_os_absent(images: Seq<OsResource>, id: u32)
    requires
        forall|j: int| 0 <= j < images.len() ==> (#[trigger] images[j]).id != id,
    ensures
        spec_find_os(images, id) is None,
    decreases images.len(),
{
    if images.len() > 0 {
        assert(forall|j: int|
            0 <= j < images.drop_first().len() ==> (#[trigger] images.drop_first()[j]).id != id);
        lemma_find_os_absent(images.drop_first(), id);
    }
}

/// A listing that carries exactly one OS image with the requested id
/// makes the lookup return that image.
pub proof fn lemma_find_os_unique(images: Seq<OsResource>, id: u32, at: int)
    requires
        0 <= at < images.len(),
        images[at].id == id,
        forall|j: int| 0 <= j < images.len() && j != at ==> (#[trigger] images[j]).id != id,
    ensures
        spec_find_os(images, id) == Some(images[at]),
    decreases images.len(),
{
    if at == 0 {
    } else {
        assert(images.drop_first()[at - 1] == images[at]);
        assert(forall|j: int|
            0 <= j < images.drop_first().len() && j != at - 1 ==> (
            #[trigger] images.drop_first()[j]).id != id);
        lemma_find_os_unique(images.drop_first(), id, at - 1);
    }
}

/// The path that lists the OS images of the product `product_id`.
pub fn os_list_path(product_id: u32) -> (p: String)
    ensures
        p@ == "/products/"@ + spec_dec(product_id as nat) + "/oss"@,
{
    let num = u32_to_string(product_id);
    "/products/".to_owned().concat(num.as_str()).concat("/oss")
}

} // verus!
