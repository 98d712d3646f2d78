//! The person resource: the storage record, its transfer projection, and
//! their mathematical views.

use vstd::prelude::*;

verus! {

/// Mathematical view of a stored person row.
#[verifier::ext_equal]
pub ghost struct PersonV {
    pub id: int,
    pub name: Seq<char>,
    pub surname: Seq<char>,
    pub age: int,
    pub created_at: int,
}

/// Mathematical view of the transfer representation.
#[verifier::ext_equal]
pub ghost struct PersonViewV {
    pub id: int,
    pub name: Seq<char>,
    pub surname: Seq<char>,
    pub age: int,
}

/// A person row as the store holds it. `id` is store-assigned and unique,
/// `created_at` is a microsecond timestamp set once at insertion.
pub struct PeopleModel {
    pub id: i32,
    pub name: String,
    pub surname: String,
    pub age: i32,
    pub created_at: i64,
}

impl View for PeopleModel {
    type V = PersonV;

    open spec fn view(&self) -> PersonV {
        PersonV {
            id: self.id as int,
            name: self.name@,
            surname: self.surname@,
            age: self.age as int,
            created_at: self.created_at as int,
        }
    }
}

impl Clone for PeopleModel {
    fn clone(&self) -> (r: Self)
        ensures
            r@ == self@,
    {
        PeopleModel {
            id: self.id,
            name: self.name.clone(),
            surname: self.surname.clone(),
            age: self.age,
            created_at: self.created_at,
        }
    }
}

/// The transfer representation: a projection of the stored row without
/// `created_at`. Used as request body for create/update and as response
/// payload; on create the inbound `id` is ignored by the store.
pub struct PeopleModelView {
    pub id: i32,
    pub name: String,
    pub surname: String,
    pub age: i32,
}

impl View for PeopleModelView {
    type V = PersonViewV;

    open spec fn view(&self) -> PersonViewV {
        PersonViewV {
            id: self.id as int,
            name: self.name@,
            surname: self.surname@,
            age: self.age as int,
        }
    }
}

impl Clone for PeopleModelView {
    fn clone(&self) -> (r: Self)
        ensures
            r@ == self@,
    {
        PeopleModelView {
            id: self.id,
            name: self.name.clone(),
            surname: self.surname.clone(),
            age: self.age,
        }
    }
}

/// What projecting a stored row to its transfer representation means.
pub open spec fn project(p: PersonV) -> PersonViewV {
    PersonViewV { id: p.id, name: p.name, surname: p.surname, age: p.age }
}

/// A sequence of transfer representations seen through their views.
pub open spec fn view_seq(s: Seq<PeopleModelView>) -> Seq<PersonViewV> {
    Seq::new(s.len(), |i: int| s[i]@)
}

/// A sequence of row views, each projected.
pub open spec fn projected(s: Seq<PersonV>) -> Seq<PersonViewV> {
    Seq::new(s.len(), |i: int| project(s[i]))
}

/// Project a stored row to its transfer representation.
pub fn person_to_view(p: &PeopleModel) -> (r: PeopleModelView)
    ensures
        r@ == project(p@),
{
    PeopleModelView {
        id: p.id,
        name: p.name.clone(),
        surname: p.surname.clone(),
        age: p.age,
    }
}

} // verus!
