//! Text views.
use vstd::prelude::*;
use vstd::view::View as _;
use crate::activity::Activity;
use crate::call::{Call, decode_handle, handle_of, HandleShape, int_field, is_call, Params, str_field, target, with_parent};
use crate::error::GuiError;
use crate::json::{Json, JsonValue};
use crate::view::View;

verus! {

/// A view that shows text.
#[derive(Debug)]
pub struct TextView {
    view: View,
    aid: i64,
}

impl TextView {
    pub closed spec fn spec_id(&self) -> i64 {
        self.view.spec_id()
    }

    pub closed spec fn spec_aid(&self) -> i64 {
        self.aid
    }

    /// The parameters of the request `new` builds.
    pub open spec fn spec_new(aid: i64, text: Seq<char>, parent: Option<i64>) -> Seq<(Seq<char>, Json)> {
        with_parent(seq![int_field("aid"@, aid as int), str_field("text"@, text)], parent)
    }

    /// The request that creates a text view showing `text`.
    pub fn new(activity: &Activity, text: &str, parent: Option<i64>) -> (r: Call)
        ensures
            is_call(r, "createTextView"@, Self::spec_new(activity.spec_id(), text@, parent), true),
    {
        let mut p = Params::new();
        p.add_int("aid", activity.id());
        p.add_str("text", text);
        proof {
            assert(p@ =~= seq![int_field("aid"@, activity.spec_id() as int), str_field("text"@, text@)]);
        }
        p.add_parent(parent);
        p.into_call("createTextView", true)
    }

    /// The text view that the host created, from its reply to the creation request.
    pub fn from_reply(activity: &Activity, reply: &JsonValue) -> (r: Result<TextView, GuiError>)
        ensures
            r is Ok <==> handle_of(HandleShape::Bare, reply@) is Some,
            r is Ok ==> r->Ok_0.spec_id() == handle_of(HandleShape::Bare, reply@)->Some_0,
            r is Ok ==> r->Ok_0.spec_aid() == activity.spec_id(),
            r is Err ==> r->Err_0 is InvalidResponse,
    {
        let id = decode_handle(HandleShape::Bare, reply)?;
        Ok(TextView { view: View::new(id), aid: activity.id() })
    }

    /// The view handle.
    pub fn id(&self) -> (r: i64)
        ensures
            r == self.spec_id(),
    {
        self.view.id()
    }

    /// The underlying view.
    pub fn view(&self) -> (r: &View)
        ensures
            r.spec_id() == self.spec_id(),
    {
        &self.view
    }

    /// Sets the text.
    pub fn set_text(&self, text: &str) -> (r: Call)
        ensures
            is_call(r, "setText"@, target(self.spec_aid(), self.spec_id()).push(str_field("text"@, text@)), false),
    {
        let mut p = Params::target(self.aid, self.view.id());
        p.add_str("text", text);
        p.into_call("setText", false)
    }

    /// Sets the text size.
    pub fn set_text_size(&self, size: i32) -> (r: Call)
        ensures
            is_call(r, "setTextSize"@, target(self.spec_aid(), self.spec_id()).push(int_field("size"@, size as int)), false),
    {
        let mut p = Params::target(self.aid, self.view.id());
        p.add_int("size", size as i64);
        p.into_call("setTextSize", false)
    }

    /// Sets the text colour, as ARGB.
    pub fn set_text_color(&self, color: i32) -> (r: Call)
        ensures
            is_call(r, "setTextColor"@, target(self.spec_aid(), self.spec_id()).push(int_field("color"@, color as int)), false),
    {
        let mut p = Params::target(self.aid, self.view.id());
        p.add_int("color", color as i64);
        p.into_call("setTextColor", false)
    }
}

} // verus!
