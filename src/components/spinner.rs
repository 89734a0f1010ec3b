//! Drop-down lists.
use vstd::prelude::*;
use vstd::view::View as _;
use crate::activity::Activity;
use crate::call::{Call, decode_handle, handle_of, HandleShape, int_field, is_call, Params, str_list, target, with_parent};
use crate::error::GuiError;
use crate::json::{Json, JsonValue};
use crate::view::View;

verus! {

/// A drop-down list. Its `itemselected` events name the selected text, not an index.
#[derive(Debug)]
pub struct Spinner {
    view: View,
    aid: i64,
}

impl Spinner {
    pub closed spec fn spec_id(&self) -> i64 {
        self.view.spec_id()
    }

    pub closed spec fn spec_aid(&self) -> i64 {
        self.aid
    }

    /// The parameters of the request `new` builds.
    pub open spec fn spec_new(aid: i64, parent: Option<i64>) -> Seq<(Seq<char>, Json)> {
        with_parent(seq![int_field("aid"@, aid as int)], parent)
    }

    /// The request that creates a drop-down list.
    pub fn new(activity: &Activity, parent: Option<i64>) -> (r: Call)
        ensures
            is_call(r, "createSpinner"@, Self::spec_new(activity.spec_id(), parent), true),
    {
        let mut p = Params::new();
        p.add_int("aid", activity.id());
        proof {
            assert(p@ =~= seq![int_field("aid"@, activity.spec_id() as int)]);
        }
        p.add_parent(parent);
        p.into_call("createSpinner", true)
    }

    /// The spinner that the host created, from its reply to the creation request.
    pub fn from_reply(activity: &Activity, reply: &JsonValue) -> (r: Result<Spinner, GuiError>)
        ensures
            r is Ok <==> handle_of(HandleShape::Bare, reply@) is Some,
            r is Ok ==> r->Ok_0.spec_id() == handle_of(HandleShape::Bare, reply@)->Some_0,
            r is Ok ==> r->Ok_0.spec_aid() == activity.spec_id(),
            r is Err ==> r->Err_0 is InvalidResponse,
    {
        let id = decode_handle(HandleShape::Bare, reply)?;
        Ok(Spinner { view: View::new(id), aid: activity.id() })
    }

    /// The view handle.
    pub fn id(&self) -> (r: i64)
        ensures
            r == self.spec_id(),
    {
        self.view.id()
    }

    /// The underlying view.
    pub fn view(&self) -> (r: &View)
        ensures
            r.spec_id() == self.spec_id(),
    {
        &self.view
    }

    /// Sets the options.
    pub fn set_list(&self, items: &[&str]) -> (r: Call)
        ensures
            is_call(r, "setList"@, target(self.spec_aid(), self.spec_id()).push(("list"@, str_list(items@))), false),
    {
        let mut p = Params::target(self.aid, self.view.id());
        p.add("list", JsonValue::string_list(items));
        p.into_call("setList", false)
    }

    /// Selects the option at `index`.
    pub fn select_item(&self, index: i32) -> (r: Call)
        ensures
            is_call(r, "selectItem"@, target(self.spec_aid(), self.spec_id()).push(int_field("item"@, index as int)), false),
    {
        let mut p = Params::target(self.aid, self.view.id());
        p.add_int("item", index as i64);
        p.into_call("selectItem", false)
    }

    /// Redraws the list after its options changed.
    pub fn refresh(&self) -> (r: Call)
        ensures
            is_call(r, "refreshSpinner"@, target(self.spec_aid(), self.spec_id()), false),
    {
        Params::target(self.aid, self.view.id()).into_call("refreshSpinner", false)
    }
}

} // verus!
