//! Value types and request-shaping for the external identity source's API,
//! and the handling of what it returns.
//!
//! The HTTP traffic itself happens outside the crate; here stand the exact
//! request parameters, the URLs, and the verified selection and conversion
//! of response data.

use vstd::prelude::*;
use crate::errors::ApiError;
use crate::text::{contains_seq, contains_str, dec_str, str_eq, u64_to_string};

verus! {

/// One product record as the external API reports it; field names follow
/// the remote schema.
#[allow(non_snake_case)]
#[derive(Debug)]
pub struct ZohoProduct {
    pub id: String,
    pub Product_Name: Option<String>,
    pub Estatus_venta: Option<String>,
}

pub ghost struct ZohoProductView {
    pub id: Seq<char>,
    pub product_name: Option<Seq<char>>,
    pub estatus_venta: Option<Seq<char>>,
}

impl View for ZohoProduct {
    type V = ZohoProductView;

    open spec fn view(&self) -> ZohoProductView {
        ZohoProductView {
            id: self.id@,
            product_name: match self.Product_Name {
                Some(ref s) => Some(s@),
                None => None,
            },
            estatus_venta: match self.Estatus_venta {
                Some(ref s) => Some(s@),
                None => None,
            },
        }
    }
}

/// One map-access record: the identity a valid code resolves to.
#[derive(Debug)]
pub struct ZohoMapAccess {
    pub id: String,
    pub name: String,
}

pub ghost struct ZohoMapAccessView {
    pub id: Seq<char>,
    pub name: Seq<char>,
}

impl View for ZohoMapAccess {
    type V = ZohoMapAccessView;

    open spec fn view(&self) -> ZohoMapAccessView {
        ZohoMapAccessView { id: self.id@, name: self.name@ }
    }
}

/// Body of the map-access search route.
#[derive(Debug)]
pub struct MapAccessRequest {
    pub code: String,
}

/// A locally cached product row; instants are seconds since the epoch.
#[derive(Debug)]
pub struct Product {
    pub id: String,
    pub product_name: Option<String>,
    pub estatus_venta: Option<String>,
    pub created_at: u64,
    pub updated_at: u64,
}

/// A product row as handed to the store for insertion.
#[derive(Debug)]
pub struct NewProduct {
    pub id: String,
    pub product_name: Option<String>,
    pub estatus_venta: Option<String>,
}

/// A copy of an optional string, by value.
fn clone_opt_string(s: &Option<String>) -> (r: Option<String>)
    ensures
        match s {
            Some(v) => r matches Some(rv) && rv@ == v@,
            None => r is None,
        },
{
    match s {
        Some(v) => Some(v.clone()),
        None => None,
    }
}

/// The form fields of the token-exchange request: the long-lived refresh
/// credential and the client pair, asking for a short-lived bearer token.
pub fn token_request_form(refresh_token: &str, client_id: &str, client_secret: &str) -> (form: Vec<
    (String, String),
>)
    ensures
        form@.len() == 4,
        form@[0].0@ == "refresh_token"@ && form@[0].1@ == refresh_token@,
        form@[1].0@ == "client_id"@ && form@[1].1@ == client_id@,
        form@[2].0@ == "client_secret"@ && form@[2].1@ == client_secret@,
        form@[3].0@ == "grant_type"@ && form@[3].1@ == "refresh_token"@,
{
    let mut form: Vec<(String, String)> = Vec::new();
    form.push((String::from_str("refresh_token"), String::from_str(refresh_token)));
    form.push((String::from_str("client_id"), String::from_str(client_id)));
    form.push((String::from_str("client_secret"), String::from_str(client_secret)));
    form.push((String::from_str("grant_type"), String::from_str("refresh_token")));
    form
}

/// The token-exchange endpoint under an accounts base URL.
pub fn oauth_token_url(accounts_url: &str) -> (url: String)
    ensures
        url@ == accounts_url@ + "/oauth/v2/token"@,
{
    let mut url = String::from_str(accounts_url);
    url.append("/oauth/v2/token");
    url
}

/// The paginated products endpoint with its page window and field list.
pub fn products_page_url(api_domain: &str, page: u64, per_page: u64) -> (url: String)
    ensures
        url@ == api_domain@ + "/Products?page="@ + dec_str(page as nat) + "&per_page="@ + dec_str(
            per_page as nat,
        ) + "&fields=id,Product_Name,Estatus_venta"@,
{
    let mut url = String::from_str(api_domain);
    url.append("/Products?page=");
    url.append(u64_to_string(page).as_str());
    url.append("&per_page=");
    url.append(u64_to_string(per_page).as_str());
    url.append("&fields=id,Product_Name,Estatus_venta");
    url
}

/// The map-access endpoint under an API domain.
pub fn map_access_url(api_domain: &str) -> (url: String)
    ensures
        url@ == api_domain@ + "/Acceso_a_Mapas"@,
{
    let mut url = String::from_str(api_domain);
    url.append("/Acceso_a_Mapas");
    url
}

/// Pick the record a map-access search by name answers with: the first
/// record of the response carrying exactly the searched name, or a
/// not-found error naming it when no record matches.
pub fn select_map_access(data: &Vec<ZohoMapAccess>, name: &str) -> (r: Result<
    ZohoMapAccess,
    ApiError,
>)
    ensures
        match r {
            Ok(m) => m@.name == name@ && exists|i: int|
                0 <= i < data@.len() && #[trigger] data@[i]@ == m@ && (forall|j: int|
                    0 <= j < i ==> (#[trigger] data@[j]@).name != name@),
            Err(e) => (forall|i: int|
                0 <= i < data@.len() ==> (#[trigger] data@[i]@).name != name@) && (
            e matches ApiError::NotFound(msg) && msg@ == "No map access found for the name: "@
                + name@),
        },
{
    let count = data.len();
    let mut i: usize = 0;
    while i < count
        invariant
            count == data@.len(),
            0 <= i <= count,
            forall|j: int| 0 <= j < i ==> (#[trigger] data@[j]@).name != name@,
        decreases count - i,
    {
        let record = &data[i];
        if str_eq(record.name.as_str(), name) {
            let found = ZohoMapAccess { id: record.id.clone(), name: record.name.clone() };
            proof {
                assert(data@[i as int]@ == found@);
            }
            return Ok(found);
        }
        i = i + 1;
    }
    let mut msg = String::from_str("No map access found for the name: ");
    msg.append(name);
    Err(ApiError::NotFound(msg))
}

/// Sort a failed map-access lookup into the adapter's error: the not-found
/// wording, naming the searched name, when the failure text says no record
/// matched; an opaque internal failure otherwise.
pub fn classify_lookup_error(error_text: &str, name: &str) -> (r: ApiError)
    ensures
        contains_seq(error_text@, "No map access found"@) ==> (r matches ApiError::NotFound(m)
            && m@ == "No map access found for the name: "@ + name@),
        !contains_seq(error_text@, "No map access found"@) ==> (r
            matches ApiError::InternalError(m) && m@ == "Failed to fetch map access from Zoho"@),
{
    if contains_str(error_text, "No map access found") {
        let mut msg = String::from_str("No map access found for the name: ");
        msg.append(name);
        ApiError::NotFound(msg)
    } else {
        ApiError::InternalError(String::from_str("Failed to fetch map access from Zoho"))
    }
}

/// A cached product row, read back into the external API's shape.
pub fn product_to_zoho(p: &Product) -> (r: ZohoProduct)
    ensures
        r@.id == p.id@,
        r@.product_name == (match p.product_name {
            Some(ref s) => Some(s@),
            None => None::<Seq<char>>,
        }),
        r@.estatus_venta == (match p.estatus_venta {
            Some(ref s) => Some(s@),
            None => None::<Seq<char>>,
        }),
{
    ZohoProduct {
        id: p.id.clone(),
        Product_Name: clone_opt_string(&p.product_name),
        Estatus_venta: clone_opt_string(&p.estatus_venta),
    }
}

/// Every cached row read back into the external API's shape, in order.
pub fn products_to_zoho(products: &Vec<Product>) -> (r: Vec<ZohoProduct>)
    ensures
        r@.len() == products@.len(),
        forall|i: int|
            0 <= i < products@.len() ==> {
                &&& (#[trigger] r@[i])@.id == products@[i].id@
                &&& r@[i]@.product_name == (match products@[i].product_name {
                    Some(ref s) => Some(s@),
                    None => None::<Seq<char>>,
                })
                &&& r@[i]@.estatus_venta == (match products@[i].estatus_venta {
                    Some(ref s) => Some(s@),
                    None => None::<Seq<char>>,
                })
            },
{
    let n = products.len();
    let mut out: Vec<ZohoProduct> = Vec::new();
    let mut i: usize = 0;
    while i < n
        invariant
            n == products@.len(),
            0 <= i <= n,
            out@.len() == i,
            forall|j: int|
                0 <= j < i ==> {
                    &&& (#[trigger] out@[j])@.id == products@[j].id@
                    &&& out@[j]@.product_name == (match products@[j].product_name {
                        Some(ref s) => Some(s@),
                        None => None::<Seq<char>>,
                    })
                    &&& out@[j]@.estatus_venta == (match products@[j].estatus_venta {
                        Some(ref s) => Some(s@),
                        None => None::<Seq<char>>,
                    })
                },
        decreases n - i,
    {
        out.push(product_to_zoho(&products[i]));
        i = i + 1;
    }
    out
}

/// A fetched product in the shape the local store inserts.
pub fn new_product_of(p: &ZohoProduct) -> (r: NewProduct)
    ensures
        r.id@ == p.id@,
        match p.Product_Name {
            Some(ref s) => r.product_name matches Some(rs) && rs@ == s@,
            None => r.product_name is None,
        },
        match p.Estatus_venta {
            Some(ref s) => r.estatus_venta matches Some(rs) && rs@ == s@,
            None => r.estatus_venta is None,
        },
{
    NewProduct {
        id: p.id.clone(),
        product_name: clone_opt_string(&p.Product_Name),
        estatus_venta: clone_opt_string(&p.Estatus_venta),
    }
}

/// One step of the product pagination loop: fold a fetched page into the
/// running collection and say whether the loop should go on to the next
/// page. An empty page ends the pagination and adds nothing.
pub fn collect_product_page(
    all_products: &mut Vec<ZohoProduct>,
    fetched: Vec<ZohoProduct>,
) -> (more: bool)
    ensures
        more == (fetched@.len() > 0),
        final(all_products)@ == old(all_products)@ + fetched@,
        fetched@.len() == 0 ==> final(all_products)@ == old(all_products)@,
{
    let mut fetched = fetched;
    if fetched.is_empty() {
        proof {
            assert(old(all_products)@ + fetched@ =~= old(all_products)@);
        }
        return false;
    }
    all_products.append(&mut fetched);
    true
}

} // verus!
