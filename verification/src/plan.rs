//! Hosting plans (products), the root of provisioning.
//!
//! A plan carries its compute options and its billing cycles.  A
//! billing cycle is chosen by exact, case-sensitive label match; no
//! match is `NotFound`, never a default.

use vstd::prelude::*;
use vstd::string::StringExecFns;

use crate::error::Error;
use crate::error::shape_error;
use crate::json::JsonValue;
use crate::json::get_field;
use crate::json::jv_get;
use crate::json::jv_field_arr;
use crate::json::jv_field_i32;
use crate::json::jv_field_str;
use crate::json::jv_field_u32;
use crate::json::spec_field_arr;
use crate::json::spec_field_i32;
use crate::json::spec_field_str;
use crate::json::spec_field_u32;
use crate::numstr::spec_dec;
use crate::numstr::u32_to_string;

verus! {

/// One tier of a component price: a price for a quantity range.
#[derive(Debug, Clone)]
pub struct Price {
    pub qty_min: i32,
    pub qty_max: i32,
    pub price: u32,
}

pub struct PriceView {
    pub qty_min: i32,
    pub qty_max: i32,
    pub price: u32,
}

impl View for Price {
    type V = PriceView;

    open spec fn view(&self) -> PriceView {
        PriceView { qty_min: self.qty_min, qty_max: self.qty_max, price: self.price }
    }
}

/// One priced component of a billing cycle.
#[derive(Debug, Clone)]
pub struct Component {
    pub label: String,
    pub field: String,
    pub prices: Vec<Price>,
}

pub struct ComponentView {
    pub label: Seq<char>,
    pub field: Seq<char>,
    pub prices: Seq<PriceView>,
}

impl View for Component {
    type V = ComponentView;

    open spec fn view(&self) -> ComponentView {
        ComponentView {
            label: self.label@,
            field: self.field@,
            prices: self.prices@.map_values(|p: Price| p@),
        }
    }
}

/// One billing cycle of a plan: a label such as `Monthly`, the cycle
/// code the API expects in request bodies, a price, and optional
/// tiered component pricing.
#[derive(Debug, Clone)]
pub struct Billing {
    pub label: String,
    pub cycle: String,
    pub price: u32,
    pub components: Option<Vec<Component>>,
}

pub struct BillingView {
    pub label: Seq<char>,
    pub cycle: Seq<char>,
    pub price: u32,
    pub components: Option<Seq<ComponentView>>,
}

impl View for Billing {
    type V = BillingView;

    open spec fn view(&self) -> BillingView {
        BillingView {
            label: self.label@,
            cycle: self.cycle@,
            price: self.price,
            components: match self.components {
                Some(cs) => Some(cs@.map_values(|c: Component| c@)),
                None => None,
            },
        }
    }
}

/// The compute shape of a plan.
#[derive(Debug, Clone)]
pub struct Options {
    /// The compute type; the wire calls this member `type`.
    pub kind: String,
    pub cores: u32,
    pub memory: u32,
    pub allow_downgrade: i32,
}

pub struct OptionsView {
    pub kind: Seq<char>,
    pub cores: u32,
    pub memory: u32,
    pub allow_downgrade: i32,
}

impl View for Options {
    type V = OptionsView;

    open spec fn view(&self) -> OptionsView {
        OptionsView {
            kind: self.kind@,
            cores: self.cores,
            memory: self.memory,
            allow_downgrade: self.allow_downgrade,
        }
    }
}

/// One plan (product) as the listing or a single fetch reports it.
#[derive(Debug, Clone)]
pub struct PlanResource {
    pub id: u32,
    pub name: String,
    pub description: String,
    pub category_id: u32,
    pub category_name: String,
    pub options: Options,
    pub billing: Vec<Billing>,
}

pub struct PlanResourceView {
    pub id: u32,
    pub name: Seq<char>,
    pub description: Seq<char>,
    pub category_id: u32,
    pub category_name: Seq<char>,
    pub options: OptionsView,
    pub billing: Seq<BillingView>,
}

impl View for PlanResource {
    type V = PlanResourceView;

    open spec fn view(&self) -> PlanResourceView {
        PlanResourceView {
            id: self.id,
            name: self.name@,
            description: self.description@,
            category_id: self.category_id,
            category_name: self.category_name@,
            options: self.options@,
            billing: self.billing@.map_values(|b: Billing| b@),
        }
    }
}

/// How one decoded value reads as a price tier.
pub open spec fn spec_parse_price(v: JsonValue) -> Option<PriceView> {
    match (
        spec_field_i32(v, "qty_min"@),
        spec_field_i32(v, "qty_max"@),
        spec_field_u32(v, "price"@),
    ) {
        (Some(qty_min), Some(qty_max), Some(price)) => Some(
            PriceView { qty_min, qty_max, price },
        ),
        _ => None,
    }
}

/// Reads one decoded value as a price tier.
pub fn parse_price(v: &JsonValue) -> (r: Result<Price, Error>)
    ensures
        match r {
            Ok(p) => spec_parse_price(*v) == Some(p@),
            Err(e) => spec_parse_price(*v) is None && e matches Error::InvalidArgument(_),
        },
{
    let qty_min = match jv_field_i32(v, "qty_min") {
        Some(x) => x,
        None => {
            return Err(shape_error("price"));
        },
    };
    let qty_max = match jv_field_i32(v, "qty_max") {
        Some(x) => x,
        None => {
            return Err(shape_error("price"));
        },
    };
    let price = match jv_field_u32(v, "price") {
        Some(x) => x,
        None => {
            return Err(shape_error("price"));
        },
    };
    Ok(Price { qty_min, qty_max, price })
}

pub open spec fn all_prices_ok(elems: Seq<JsonValue>) -> bool {
    forall|i: int| 0 <= i < elems.len() ==> spec_parse_price(#[trigger] elems[i]) is Some
}

pub open spec fn spec_price_views(elems: Seq<JsonValue>) -> Seq<PriceView> {
    Seq::new(elems.len(), |i: int| spec_parse_price(elems[i]).unwrap())
}

/// How one decoded value reads as a component: `label`, `field` and a
/// `prices` array whose every element reads as a price tier.
pub open spec fn spec_parse_component(v: JsonValue) -> Option<ComponentView> {
    match (spec_field_str(v, "label"@), spec_field_str(v, "field"@), spec_field_arr(v, "prices"@)) {
        (Some(label), Some(field), Some(elems)) => if all_prices_ok(elems) {
            Some(ComponentView { label, field, prices: spec_price_views(elems) })
        } else {
            None
        },
        _ => None,
    }
}

/// Reads one decoded value as a component.
#[verifier::loop_isolation(false)]
pub fn parse_component(v: &JsonValue) -> (r: Result<Component, Error>)
    ensures
        match r {
            Ok(c) => spec_parse_component(*v) == Some(c@),
            Err(e) => spec_parse_component(*v) is None && e matches Error::InvalidArgument(_),
        },
{
    let label = match jv_field_str(v, "label") {
        Some(x) => x,
        None => {
            return Err(shape_error("component"));
        },
    };
    let field = match jv_field_str(v, "field") {
        Some(x) => x,
        None => {
            return Err(shape_error("component"));
        },
    };
    let elems = match jv_field_arr(v, "prices") {
        Some(x) => x,
        None => {
            return Err(shape_error("component"));
        },
    };
    let n = elems.len();
    let mut prices: Vec<Price> = Vec::new();
    let mut i: usize = 0;
    while i < n
        invariant
            0 <= i <= n,
            prices@.len() == i,
            forall|j: int| 0 <= j < i ==> spec_parse_price(#[trigger] elems@[j]) == Some(prices@[j]@),
        decreases n - i,
    {
        match parse_price(&elems[i]) {
            Ok(p) => {
                prices.push(p);
            },
            Err(e) => {
                return Err(e);
            },
        }
        i += 1;
    }
    proof {
        assert(spec_price_views(elems@) =~= prices@.map_values(|p: Price| p@));
    }
    Ok(Component { label, field, prices })
}

pub open spec fn all_components_ok(elems: Seq<JsonValue>) -> bool {
    forall|i: int| 0 <= i < elems.len() ==> spec_parse_component(#[trigger] elems[i]) is Some
}

pub open spec fn spec_component_views(elems: Seq<JsonValue>) -> Seq<ComponentView> {
    Seq::new(elems.len(), |i: int| spec_parse_component(elems[i]).unwrap())
}

/// How the optional `components` member of a billing cycle reads: an
/// absent member and an explicit `null` both read as no components; an
/// array must read element by element; any other shape is a mismatch.
pub open spec fn spec_parse_components_opt(v: JsonValue) -> Option<Option<Seq<ComponentView>>> {
    match get_field(v, "components"@) {
        None => Some(None),
        Some(JsonValue::Null) => Some(None),
        Some(JsonValue::Arr(elems)) => if all_components_ok(elems@) {
            Some(Some(spec_component_views(elems@)))
        } else {
            None
        },
        Some(_) => None,
    }
}

/// How one decoded value reads as a billing cycle.
pub open spec fn spec_parse_billing(v: JsonValue) -> Option<BillingView> {
    match (
        spec_field_str(v, "label"@),
        spec_field_str(v, "cycle"@),
        spec_field_u32(v, "price"@),
        spec_parse_components_opt(v),
    ) {
        (Some(label), Some(cycle), Some(price), Some(components)) => Some(
            BillingView { label, cycle, price, components },
        ),
        _ => None,
    }
}

/// Reads one decoded value as a billing cycle.
#[verifier::loop_isolation(false)]
pub fn parse_billing(v: &JsonValue) -> (r: Result<Billing, Error>)
    ensures
        match r {
            Ok(b) => spec_parse_billing(*v) == Some(b@),
            Err(e) => spec_parse_billing(*v) is None && e matches Error::InvalidArgument(_),
        },
{
    let label = match jv_field_str(v, "label") {
        Some(x) => x,
        None => {
            return Err(shape_error("billing cycle"));
        },
    };
    let cycle = match jv_field_str(v, "cycle") {
        Some(x) => x,
        None => {
            return Err(shape_error("billing cycle"));
        },
    };
    let price = match jv_field_u32(v, "price") {
        Some(x) => x,
        None => {
            return Err(shape_error("billing cycle"));
        },
    };
    let components: Option<Vec<Component>> = match jv_get(v, "components") {
        None => None,
        Some(JsonValue::Null) => None,
        Some(JsonValue::Arr(elems)) => {
            let n = elems.len();
            let mut out: Vec<Component> = Vec::new();
            let mut i: usize = 0;
            while i < n
                invariant
                    0 <= i <= n,
                    out@.len() == i,
                    forall|j: int|
                        0 <= j < i ==> spec_parse_component(#[trigger] elems@[j]) == Some(
                            out@[j]@,
                        ),
                decreases n - i,
            {
                match parse_component(&elems[i]) {
                    Ok(c) => {
                        out.push(c);
                    },
                    Err(e) => {
                        return Err(e);
                    },
                }
                i += 1;
            }
            proof {
                assert(spec_component_views(elems@) =~= out@.map_values(|c: Component| c@));
            }
            Some(out)
        },
        Some(_) => {
            return Err(shape_error("billing cycle"));
        },
    };
    Ok(Billing { label, cycle, price, components })
}

pub open spec fn all_billings_ok(elems: Seq<JsonValue>) -> bool {
    forall|i: int| 0 <= i < elems.len() ==> spec_parse_billing(#[trigger] elems[i]) is Some
}

pub open spec fn spec_billing_views(elems: Seq<JsonValue>) -> Seq<BillingView> {
    Seq::new(elems.len(), |i: int| spec_parse_billing(elems[i]).unwrap())
}

/// How one decoded value reads as the compute options; the wire names
/// the compute type member `type`.
pub open spec fn spec_parse_options(v: JsonValue) -> Option<OptionsView> {
    match (
        spec_field_str(v, "type"@),
        spec_field_u32(v, "cores"@),
        spec_field_u32(v, "memory"@),
        spec_field_i32(v, "allow_downgrade"@),
    ) {
        (Some(kind), Some(cores), Some(memory), Some(allow_downgrade)) => Some(
            OptionsView { kind, cores, memory, allow_downgrade },
        ),
        _ => None,
    }
}

/// Reads one decoded value as the compute options.
pub fn parse_options(v: &JsonValue) -> (r: Result<Options, Error>)
    ensures
        match r {
            Ok(o) => spec_parse_options(*v) == Some(o@),
            Err(e) => spec_parse_options(*v) is None && e matches Error::InvalidArgument(_),
        },
{
    let kind = match jv_field_str(v, "type") {
        Some(x) => x,
        None => {
            return Err(shape_error("plan options"));
        },
    };
    let cores = match jv_field_u32(v, "cores") {
        Some(x) => x,
        None => {
            return Err(shape_error("plan options"));
        },
    };
    let memory = match jv_field_u32(v, "memory") {
        Some(x) => x,
        None => {
            return Err(shape_error("plan options"));
        },
    };
    let allow_downgrade = match jv_field_i32(v, "allow_downgrade") {
        Some(x) => x,
        None => {
            return Err(shape_error("plan options"));
        },
    };
    Ok(Options { kind, cores, memory, allow_downgrade })
}

/// How one decoded value reads as a plan: `product_id`, names and
/// category, an `options` object and a `billing` array.
pub open spec fn spec_parse_plan(v: JsonValue) -> Option<PlanResourceView> {
    match (
        spec_field_u32(v, "product_id"@),
        spec_field_str(v, "name"@),
        spec_field_str(v, "description"@),
        spec_field_u32(v, "category_id"@),
        spec_field_str(v, "category_name"@),
        get_field(v, "options"@),
        spec_field_arr(v, "billing"@),
    ) {
        (
            Some(id),
            Some(name),
            Some(description),
            Some(category_id),
            Some(category_name),
            Some(ov),
            Some(belems),
        ) => match spec_parse_options(ov) {
            Some(options) => if all_billings_ok(belems) {
                Some(
                    PlanResourceView {
                        id,
                        name,
                        description,
                        category_id,
                        category_name,
                        options,
                        billing: spec_billing_views(belems),
                    },
                )
            } else {
                None
            },
            None => None,
        },
        _ => None,
    }
}

/// Reads one decoded value as a plan.
#[verifier::loop_isolation(false)]
pub fn parse_plan(v: &JsonValue) -> (r: Result<PlanResource, Error>)
    ensures
        match r {
            Ok(p) => spec_parse_plan(*v) == Some(p@),
            Err(e) => spec_parse_plan(*v) is None && e matches Error::InvalidArgument(_),
        },
{
    let id = match jv_field_u32(v, "product_id") {
        Some(x) => x,
        None => {
            return Err(shape_error("plan"));
        },
    };
    let name = match jv_field_str(v, "name") {
        Some(x) => x,
        None => {
            return Err(shape_error("plan"));
        },
    };
    let description = match jv_field_str(v, "description") {
        Some(x) => x,
        None => {
            return Err(shape_error("plan"));
        },
    };
    let category_id = match jv_field_u32(v, "category_id") {
        Some(x) => x,
        None => {
            return Err(shape_error("plan"));
        },
    };
    let category_name = match jv_field_str(v, "category_name") {
        Some(x) => x,
        None => {
            return Err(shape_error("plan"));
        },
    };
    let options = match jv_get(v, "options") {
        Some(ov) => match parse_options(ov) {
            Ok(o) => o,
            Err(e) => {
                return Err(e);
            },
        },
        None => {
            return Err(shape_error("plan"));
        },
    };
    let belems = match jv_field_arr(v, "billing") {
        Some(x) => x,
        None => {
            return Err(shape_error("plan"));
        },
    };
    let n = belems.len();
    let mut billing: Vec<Billing> = Vec::new();
    let mut i: usize = 0;
    while i < n
        invariant
            0 <= i <= n,
            billing@.len() == i,
            forall|j: int|
                0 <= j < i ==> spec_parse_billing(#[trigger] belems@[j]) == Some(billing@[j]@),
        decreases n - i,
    {
        match parse_billing(&belems[i]) {
            Ok(b) => {
                billing.push(b);
            },
            Err(e) => {
                return Err(e);
            },
        }
        i += 1;
    }
    proof {
        assert(spec_billing_views(belems@) =~= billing@.map_values(|b: Billing| b@));
    }
    Ok(PlanResource { id, name, description, category_id, category_name, options, billing })
}

pub open spec fn all_plans_ok(elems: Seq<JsonValue>) -> bool {
    forall|i: int| 0 <= i < elems.len() ==> spec_parse_plan(#[trigger] elems[i]) is Some
}

pub open spec fn spec_plan_views(elems: Seq<JsonValue>) -> Seq<PlanResourceView> {
    Seq::new(elems.len(), |i: int| spec_parse_plan(elems[i]).unwrap())
}

/// How a decoded `data` value reads as a plan listing.
pub open spec fn spec_parse_plan_list(v: JsonValue) -> Option<Seq<PlanResourceView>> {
    match v {
        JsonValue::Arr(elems) => if all_plans_ok(elems@) {
            Some(spec_plan_views(elems@))
        } else {
            None
        },
        _ => None,
    }
}

/// Reads a decoded `data` value as the plan listing.
#[verifier::loop_isolation(false)]
pub fn parse_plan_list(v: &JsonValue) -> (r: Result<Vec<PlanResource>, Error>)
    ensures
        match r {
            Ok(ps) => spec_parse_plan_list(*v) == Some(ps@.map_values(|p: PlanResource| p@)),
            Err(e) => spec_parse_plan_list(*v) is None && e matches Error::InvalidArgument(_),
        },
{
    match v {
        JsonValue::Arr(elems) => {
            let n = elems.len();
            let mut out: Vec<PlanResource> = Vec::new();
            let mut i: usize = 0;
            while i < n
                invariant
                    0 <= i <= n,
                    out@.len() == i,
                    forall|j: int|
                        0 <= j < i ==> spec_parse_plan(#[trigger] elems@[j]) == Some(out@[j]@),
                decreases n - i,
            {
                match parse_plan(&elems[i]) {
                    Ok(p) => {
                        out.push(p);
                    },
                    Err(e) => {
                        return Err(e);
                    },
                }
                i += 1;
            }
            proof {
                assert(spec_plan_views(elems@) =~= out@.map_values(|p: PlanResource| p@));
            }
            Ok(out)
        },
        _ => Err(shape_error("plan listing")),
    }
}

/// The first billing cycle in `billing` whose label reads as `label`,
/// if any.
pub open spec fn spec_get_billing(billing: Seq<Billing>, label: Seq<char>) -> Option<Billing>
    decreases billing.len(),
{
    if billing.len() == 0 {
        None
    } else if billing[0].label@ == label {
        Some(billing[0])
    } else {
        spec_get_billing(billing.drop_first(), label)
    }
}

impl PlanResource {
    /// Picks the billing cycle whose label equals `label` exactly,
    /// case included; a plan without it is `NotFound`.
    #[verifier::loop_isolation(false)]
    pub fn get_billing(&self, label: &str) -> (r: Result<&Billing, Error>)
        ensures
            match r {
                Ok(b) => spec_get_billing(self.billing@, label@) == Some(*b) && b.label@ == label@,
                Err(e) => spec_get_billing(self.billing@, label@) is None && (e matches
                    Error::NotFound(m) && m@ == "Billing is not found"@),
            },
    {
        let wanted = label.to_owned();
        let n = self.billing.len();
        let mut i: usize = 0;
        proof {
            assert(self.billing@.skip(0) =~= self.billing@);
        }
        while i < n
            invariant
                0 <= i <= n,
                spec_get_billing(self.billing@.skip(i as int), label@) == spec_get_billing(
                    self.billing@,
                    label@,
                ),
            decreases n - i,
        {
            proof {
                assert(self.billing@.skip(i as int)[0] == self.billing@[i as int]);
                assert(self.billing@.skip(i as int).drop_first() =~= self.billing@.skip(i + 1));
            }
            if self.billing[i].label == wanted {
                return Ok(&self.billing[i]);
            }
            i += 1;
        }
        proof {
            assert(self.billing@.skip(n as int) =~= Seq::<Billing>::empty());
        }
        Err(Error::NotFound("Billing is not found".to_owned()))
    }
}

/// A plan none of whose billing labels equals the query exactly makes
/// the billing lookup fail; a label differing only in case is no
/// match.
pub proof fn lemma_get_billing_absent(billing: Seq<Billing>, label: Seq<char>)
    requires
        forall|j: int| 0 <= j < billing.len() ==> (#[trigger] billing[j]).label@ != label,
    ensures
        spec_get_billing(billing, label) is None,
    decreases billing.len(),
{
    if billing.len() > 0 {
        assert(forall|j: int|
            0 <= j < billing.drop_first().len() ==> (#[trigger] billing.drop_first()[j]).label@
                != label);
        lemma_get_billing_absent(billing.drop_first(), label);
    }
}

/// The path of the plan collection.
pub fn products_path() -> (p: String)
    ensures
        p@ == "/products"@,
{
    "/products".to_owned()
}

/// The path of the plan `id`.
pub fn product_path(id: u32) -> (p: String)
    ensures
        p@ == "/products/"@ + spec_dec(id as nat),
{
    let num = u32_to_string(id);
    "/products/".to_owned().concat(num.as_str())
}

/// The path of the snapshot-scoped plan collection.
pub fn snapshot_products_path() -> (p: String)
    ensures
        p@ == "/snapshots/products"@,
{
    "/snapshots/products".to_owned()
}

/// The path of the snapshot-scoped plan `id`.
pub fn snapshot_product_path(id: u32) -> (p: String)
    ensures
        p@ == "/snapshots/products/"@ + spec_dec(id as nat),
{
    let num = u32_to_string(id);
    "/snapshots/products/".to_owned().concat(num.as_str())
}

} // verus!
