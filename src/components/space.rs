//! Empty space in layouts.
use vstd::prelude::*;
use vstd::view::View as _;
use crate::activity::Activity;
use crate::call::{Call, decode_handle, handle_of, HandleShape, int_field, is_call, Params, with_parent};
use crate::error::GuiError;
use crate::json::{Json, JsonValue};
use crate::view::View;

verus! {

/// Empty space in a layout.
#[derive(Debug)]
pub struct Space {
    view: View,
    aid: i64,
}

impl Space {
    pub closed spec fn spec_id(&self) -> i64 {
        self.view.spec_id()
    }

    pub closed spec fn spec_aid(&self) -> i64 {
        self.aid
    }

    /// The parameters of the request `new` builds.
    pub open spec fn spec_new(aid: i64, parent: Option<i64>) -> Seq<(Seq<char>, Json)> {
        with_parent(seq![int_field("aid"@, aid as int)], parent)
    }

    /// The request that creates an empty space.
    pub fn new(activity: &Activity, parent: Option<i64>) -> (r: Call)
        ensures
            is_call(r, "createSpace"@, Self::spec_new(activity.spec_id(), parent), true),
    {
        let mut p = Params::new();
        p.add_int("aid", activity.id());
        proof {
            assert(p@ =~= seq![int_field("aid"@, activity.spec_id() as int)]);
        }
        p.add_parent(parent);
        p.into_call("createSpace", true)
    }

    /// The space that the host created, from its reply to the creation request.
    pub fn from_reply(activity: &Activity, reply: &JsonValue) -> (r: Result<Space, GuiError>)
        ensures
            r is Ok <==> handle_of(HandleShape::Bare, reply@) is Some,
            r is Ok ==> r->Ok_0.spec_id() == handle_of(HandleShape::Bare, reply@)->Some_0,
            r is Ok ==> r->Ok_0.spec_aid() == activity.spec_id(),
            r is Err ==> r->Err_0 is InvalidResponse,
    {
        let id = decode_handle(HandleShape::Bare, reply)?;
        Ok(Space { view: View::new(id), aid: activity.id() })
    }

    /// The view handle.
    pub fn id(&self) -> (r: i64)
        ensures
            r == self.spec_id(),
    {
        self.view.id()
    }

    /// The underlying view.
    pub fn view(&self) -> (r: &View)
        ensures
            r.spec_id() == self.spec_id(),
    {
        &self.view
    }
}

} // verus!
