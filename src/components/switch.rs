//! Switches.
use vstd::prelude::*;
use vstd::view::View as _;
use crate::activity::Activity;
use crate::call::{bool_field, Call, decode_handle, handle_of, HandleShape, int_field, is_call, Params, parent_or, str_field, target};
use crate::error::GuiError;
use crate::json::{Json, JsonValue};
use crate::view::View;

verus! {

/// A switch that can be toggled on or off.
#[derive(Debug)]
pub struct Switch {
    view: View,
    aid: i64,
}

impl Switch {
    pub closed spec fn spec_id(&self) -> i64 {
        self.view.spec_id()
    }

    pub closed spec fn spec_aid(&self) -> i64 {
        self.aid
    }

    /// The parameters of the request `new` builds.
    pub open spec fn spec_new(aid: i64, text: Seq<char>, parent: Option<i64>) -> Seq<(Seq<char>, Json)> {
        seq![int_field("aid"@, aid as int), int_field("parent"@, parent_or(parent, aid) as int), str_field("text"@, text)]
    }

    /// The parameters of the request `new_with_checked` builds.
    pub open spec fn spec_new_with_checked(aid: i64, text: Seq<char>, parent: Option<i64>, checked: bool) -> Seq<(Seq<char>, Json)> {
        seq![int_field("aid"@, aid as int), int_field("parent"@, parent_or(parent, aid) as int), str_field("text"@, text), bool_field("checked"@, checked)]
    }

    /// The request that creates a switch labelled `text`.
    pub fn new(activity: &Activity, text: &str, parent: Option<i64>) -> (r: Call)
        ensures
            is_call(r, "createSwitch"@, Self::spec_new(activity.spec_id(), text@, parent), true),
    {
        let mut p = Params::new();
        p.add_int("aid", activity.id());
        let parent_id = match parent {
            Some(id) => id,
            None => activity.id(),
        };
        p.add_int("parent", parent_id);
        p.add_str("text", text);
        proof {
            assert(p@ =~= seq![int_field("aid"@, activity.spec_id() as int), int_field("parent"@, parent_or(parent, activity.spec_id()) as int), str_field("text"@, text@)]);
        }
        p.into_call("createSwitch", true)
    }

    /// The request that creates a switch labelled `text`, on or off as given.
    pub fn new_with_checked(activity: &Activity, text: &str, parent: Option<i64>, checked: bool) -> (r: Call)
        ensures
            is_call(r, "createSwitch"@, Self::spec_new_with_checked(activity.spec_id(), text@, parent, checked), true),
    {
        let mut p = Params::new();
        p.add_int("aid", activity.id());
        let parent_id = match parent {
            Some(id) => id,
            None => activity.id(),
        };
        p.add_int("parent", parent_id);
        p.add_str("text", text);
        p.add_bool("checked", checked);
        proof {
            assert(p@ =~= seq![int_field("aid"@, activity.spec_id() as int), int_field("parent"@, parent_or(parent, activity.spec_id()) as int), str_field("text"@, text@), bool_field("checked"@, checked)]);
        }
        p.into_call("createSwitch", true)
    }

    /// The switch that the host created, from its reply to the creation request.
    pub fn from_reply(activity: &Activity, reply: &JsonValue) -> (r: Result<Switch, GuiError>)
        ensures
            r is Ok <==> handle_of(HandleShape::ResultId, reply@) is Some,
            r is Ok ==> r->Ok_0.spec_id() == handle_of(HandleShape::ResultId, reply@)->Some_0,
            r is Ok ==> r->Ok_0.spec_aid() == activity.spec_id(),
            r is Err ==> r->Err_0 is InvalidResponse,
    {
        let id = decode_handle(HandleShape::ResultId, reply)?;
        Ok(Switch { view: View::new(id), aid: activity.id() })
    }

    /// The view handle.
    pub fn id(&self) -> (r: i64)
        ensures
            r == self.spec_id(),
    {
        self.view.id()
    }

    /// The underlying view.
    pub fn view(&self) -> (r: &View)
        ensures
            r.spec_id() == self.spec_id(),
    {
        &self.view
    }

    /// Sets the label.
    pub fn set_text(&self, text: &str) -> (r: Call)
        ensures
            is_call(r, "setText"@, target(self.spec_aid(), self.spec_id()).push(str_field("text"@, text@)), true),
    {
        let mut p = Params::target(self.aid, self.view.id());
        p.add_str("text", text);
        p.into_call("setText", true)
    }

    /// Turns the switch on or off.
    pub fn set_checked(&self, checked: bool) -> (r: Call)
        ensures
            is_call(r, "setChecked"@, target(self.spec_aid(), self.spec_id()).push(bool_field("checked"@, checked)), true),
    {
        let mut p = Params::target(self.aid, self.view.id());
        p.add_bool("checked", checked);
        p.into_call("setChecked", true)
    }
}

} // verus!
