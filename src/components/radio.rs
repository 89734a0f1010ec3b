//! Radio buttons and their groups.
use vstd::prelude::*;
use vstd::view::View as _;
use crate::activity::Activity;
use crate::call::{bool_field, Call, decode_handle, handle_of, HandleShape, int_field, is_call, Params, str_field, target, with_parent};
use crate::error::GuiError;
use crate::json::{Json, JsonValue};
use crate::view::View;

verus! {

/// A radio button, one of a group.
#[derive(Debug)]
pub struct RadioButton {
    view: View,
    aid: i64,
}

impl RadioButton {
    pub closed spec fn spec_id(&self) -> i64 {
        self.view.spec_id()
    }

    pub closed spec fn spec_aid(&self) -> i64 {
        self.aid
    }

    /// The parameters of the request `new` builds.
    pub open spec fn spec_new(aid: i64, text: Seq<char>, parent: Option<i64>) -> Seq<(Seq<char>, Json)> {
        with_parent(seq![int_field("aid"@, aid as int), str_field("text"@, text)], parent)
    }

    /// The parameters of the request `new_with_checked` builds.
    pub open spec fn spec_new_with_checked(aid: i64, text: Seq<char>, parent: Option<i64>, checked: bool) -> Seq<(Seq<char>, Json)> {
        with_parent(seq![int_field("aid"@, aid as int), str_field("text"@, text), bool_field("checked"@, checked)], parent)
    }

    /// The request that creates an unchecked radio button labelled `text`.
    pub fn new(activity: &Activity, text: &str, parent: Option<i64>) -> (r: Call)
        ensures
            is_call(r, "createRadioButton"@, Self::spec_new(activity.spec_id(), text@, parent), true),
    {
        let mut p = Params::new();
        p.add_int("aid", activity.id());
        p.add_str("text", text);
        proof {
            assert(p@ =~= seq![int_field("aid"@, activity.spec_id() as int), str_field("text"@, text@)]);
        }
        p.add_parent(parent);
        p.into_call("createRadioButton", true)
    }

    /// The request that creates a radio button labelled `text`, checked as given.
    pub fn new_with_checked(activity: &Activity, text: &str, parent: Option<i64>, checked: bool) -> (r: Call)
        ensures
            is_call(r, "createRadioButton"@, Self::spec_new_with_checked(activity.spec_id(), text@, parent, checked), true),
    {
        let mut p = Params::new();
        p.add_int("aid", activity.id());
        p.add_str("text", text);
        p.add_bool("checked", checked);
        proof {
            assert(p@ =~= seq![int_field("aid"@, activity.spec_id() as int), str_field("text"@, text@), bool_field("checked"@, checked)]);
        }
        p.add_parent(parent);
        p.into_call("createRadioButton", true)
    }

    /// The radio button that the host created, from its reply to the creation request.
    pub fn from_reply(activity: &Activity, reply: &JsonValue) -> (r: Result<RadioButton, GuiError>)
        ensures
            r is Ok <==> handle_of(HandleShape::Bare, reply@) is Some,
            r is Ok ==> r->Ok_0.spec_id() == handle_of(HandleShape::Bare, reply@)->Some_0,
            r is Ok ==> r->Ok_0.spec_aid() == activity.spec_id(),
            r is Err ==> r->Err_0 is InvalidResponse,
    {
        let id = decode_handle(HandleShape::Bare, reply)?;
        Ok(RadioButton { view: View::new(id), aid: activity.id() })
    }

    /// The view handle.
    pub fn id(&self) -> (r: i64)
        ensures
            r == self.spec_id(),
    {
        self.view.id()
    }

    /// The underlying view.
    pub fn view(&self) -> (r: &View)
        ensures
            r.spec_id() == self.spec_id(),
    {
        &self.view
    }

    /// Sets the label.
    pub fn set_text(&self, text: &str) -> (r: Call)
        ensures
            is_call(r, "setText"@, target(self.spec_aid(), self.spec_id()).push(str_field("text"@, text@)), true),
    {
        let mut p = Params::target(self.aid, self.view.id());
        p.add_str("text", text);
        p.into_call("setText", true)
    }

    /// Checks or unchecks the button.
    pub fn set_checked(&self, checked: bool) -> (r: Call)
        ensures
            is_call(r, "setChecked"@, target(self.spec_aid(), self.spec_id()).push(bool_field("checked"@, checked)), true),
    {
        let mut p = Params::target(self.aid, self.view.id());
        p.add_bool("checked", checked);
        p.into_call("setChecked", true)
    }
}

/// A group of radio buttons, of which one is checked.
#[derive(Debug)]
pub struct RadioGroup {
    view: View,
    aid: i64,
}

impl RadioGroup {
    pub closed spec fn spec_id(&self) -> i64 {
        self.view.spec_id()
    }

    pub closed spec fn spec_aid(&self) -> i64 {
        self.aid
    }

    /// The parameters of the request `new` builds.
    pub open spec fn spec_new(aid: i64, parent: Option<i64>) -> Seq<(Seq<char>, Json)> {
        with_parent(seq![int_field("aid"@, aid as int)], parent)
    }

    /// The request that creates a radio group.
    pub fn new(activity: &Activity, parent: Option<i64>) -> (r: Call)
        ensures
            is_call(r, "createRadioGroup"@, Self::spec_new(activity.spec_id(), parent), true),
    {
        let mut p = Params::new();
        p.add_int("aid", activity.id());
        proof {
            assert(p@ =~= seq![int_field("aid"@, activity.spec_id() as int)]);
        }
        p.add_parent(parent);
        p.into_call("createRadioGroup", true)
    }

    /// The radio group that the host created, from its reply to the creation request.
    pub fn from_reply(activity: &Activity, reply: &JsonValue) -> (r: Result<RadioGroup, GuiError>)
        ensures
            r is Ok <==> handle_of(HandleShape::Bare, reply@) is Some,
            r is Ok ==> r->Ok_0.spec_id() == handle_of(HandleShape::Bare, reply@)->Some_0,
            r is Ok ==> r->Ok_0.spec_aid() == activity.spec_id(),
            r is Err ==> r->Err_0 is InvalidResponse,
    {
        let id = decode_handle(HandleShape::Bare, reply)?;
        Ok(RadioGroup { view: View::new(id), aid: activity.id() })
    }

    /// The view handle.
    pub fn id(&self) -> (r: i64)
        ensures
            r == self.spec_id(),
    {
        self.view.id()
    }

    /// The underlying view.
    pub fn view(&self) -> (r: &View)
        ensures
            r.spec_id() == self.spec_id(),
    {
        &self.view
    }
}

} // verus!
