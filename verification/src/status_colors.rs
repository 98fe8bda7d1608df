//! Status-color records and their read-back presentation.

use vstd::prelude::*;

verus! {

/// A stored status color; instants are seconds since the epoch.
#[derive(Debug)]
pub struct StatusColor {
    pub id: i32,
    pub name: String,
    pub status: String,
    pub hexadecimal: String,
    pub created_at: u64,
    pub updated_at: u64,
}

/// A status color as handed to the store for insertion.
#[derive(Debug)]
pub struct NewStatusColor {
    pub name: String,
    pub status: String,
    pub hexadecimal: String,
}

/// One status color as a route answers it.
#[derive(Debug)]
pub struct StatusColorResponse {
    pub id: i32,
    pub name: String,
    pub status: String,
    pub hexadecimal: String,
}

/// The full list of status colors as a route answers it.
#[derive(Debug)]
pub struct StatusColorsListResponse {
    pub colors: Vec<StatusColorResponse>,
    pub total: usize,
}

impl StatusColorResponse {
    /// The presentation of one stored row: the same fields, without the
    /// instants.
    pub fn from_entity(entity: &StatusColor) -> (r: Self)
        ensures
            r.id == entity.id,
            r.name@ == entity.name@,
            r.status@ == entity.status@,
            r.hexadecimal@ == entity.hexadecimal@,
    {
        StatusColorResponse {
            id: entity.id,
            name: entity.name.clone(),
            status: entity.status.clone(),
            hexadecimal: entity.hexadecimal.clone(),
        }
    }
}

/// The list answer for a set of stored rows: each row presented in order,
/// and the count.
pub fn get_all_colors_response(colors: &Vec<StatusColor>) -> (r: StatusColorsListResponse)
    ensures
        r.colors@.len() == colors@.len(),
        r.total == colors@.len(),
        forall|i: int|
            0 <= i < colors@.len() ==> {
                &&& (#[trigger] r.colors@[i]).id == colors@[i].id
                &&& r.colors@[i].name@ == colors@[i].name@
                &&& r.colors@[i].status@ == colors@[i].status@
                &&& r.colors@[i].hexadecimal@ == colors@[i].hexadecimal@
            },
{
    let n = colors.len();
    let mut out: Vec<StatusColorResponse> = Vec::new();
    let mut i: usize = 0;
    while i < n
        invariant
            n == colors@.len(),
            0 <= i <= n,
            out@.len() == i,
            forall|j: int|
                0 <= j < i ==> {
                    &&& (#[trigger] out@[j]).id == colors@[j].id
                    &&& out@[j].name@ == colors@[j].name@
                    &&& out@[j].status@ == colors@[j].status@
                    &&& out@[j].hexadecimal@ == colors@[j].hexadecimal@
                },
        decreases n - i,
    {
        out.push(StatusColorResponse::from_entity(&colors[i]));
        i = i + 1;
    }
    StatusColorsListResponse { colors: out, total: n }
}

} // verus!
