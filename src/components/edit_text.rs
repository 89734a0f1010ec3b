//! Text input fields.
use vstd::prelude::*;
use vstd::view::View as _;
use crate::activity::Activity;
use crate::call::{bool_field, Call, decode_handle, handle_of, HandleShape, int_field, is_call, Params, str_field, target, with_parent};
use crate::error::GuiError;
use crate::json::{Json, JsonValue};
use crate::view::View;

verus! {

/// A field for text input.
#[derive(Debug)]
pub struct EditText {
    view: View,
    aid: i64,
}

impl EditText {
    pub closed spec fn spec_id(&self) -> i64 {
        self.view.spec_id()
    }

    pub closed spec fn spec_aid(&self) -> i64 {
        self.aid
    }

    /// The parameters of the request `new_with_options` builds.
    pub open spec fn spec_new_with_options(aid: i64, text: Seq<char>, parent: Option<i64>, singleline: bool, input_type: Seq<char>) -> Seq<(Seq<char>, Json)> {
        with_parent(seq![int_field("aid"@, aid as int), str_field("text"@, text), bool_field("singleline"@, singleline), bool_field("line"@, true), bool_field("blockinput"@, false), str_field("type"@, input_type)], parent)
    }

    /// The request that creates a single-line text field holding `text`.
    pub fn new(activity: &Activity, text: &str, parent: Option<i64>) -> (r: Call)
        ensures
            is_call(r, "createEditText"@, Self::spec_new_with_options(activity.spec_id(), text@, parent, true, "text"@), true),
    {
        Self::new_with_options(activity, text, parent, true, "text")
    }

    /// The request that creates a multi-line text field holding `text`.
    pub fn new_multiline(activity: &Activity, text: &str, parent: Option<i64>) -> (r: Call)
        ensures
            is_call(r, "createEditText"@, Self::spec_new_with_options(activity.spec_id(), text@, parent, false, "textMultiLine"@), true),
    {
        Self::new_with_options(activity, text, parent, false, "textMultiLine")
    }

    /// The request that creates a text field holding `text`, single-line or not, with the given input type.
    pub fn new_with_options(activity: &Activity, text: &str, parent: Option<i64>, singleline: bool, input_type: &str) -> (r: Call)
        ensures
            is_call(r, "createEditText"@, Self::spec_new_with_options(activity.spec_id(), text@, parent, singleline, input_type@), true),
    {
        let mut p = Params::new();
        p.add_int("aid", activity.id());
        p.add_str("text", text);
        p.add_bool("singleline", singleline);
        p.add_bool("line", true);
        p.add_bool("blockinput", false);
        p.add_str("type", input_type);
        proof {
            assert(p@ =~= seq![int_field("aid"@, activity.spec_id() as int), str_field("text"@, text@), bool_field("singleline"@, singleline), bool_field("line"@, true), bool_field("blockinput"@, false), str_field("type"@, input_type@)]);
        }
        p.add_parent(parent);
        p.into_call("createEditText", true)
    }

    /// The edit text that the host created, from its reply to the creation request.
    pub fn from_reply(activity: &Activity, reply: &JsonValue) -> (r: Result<EditText, GuiError>)
        ensures
            r is Ok <==> handle_of(HandleShape::Bare, reply@) is Some,
            r is Ok ==> r->Ok_0.spec_id() == handle_of(HandleShape::Bare, reply@)->Some_0,
            r is Ok ==> r->Ok_0.spec_aid() == activity.spec_id(),
            r is Err ==> r->Err_0 is InvalidResponse,
    {
        let id = decode_handle(HandleShape::Bare, reply)?;
        Ok(EditText { view: View::new(id), aid: activity.id() })
    }

    /// The view handle.
    pub fn id(&self) -> (r: i64)
        ensures
            r == self.spec_id(),
    {
        self.view.id()
    }

    /// The underlying view.
    pub fn view(&self) -> (r: &View)
        ensures
            r.spec_id() == self.spec_id(),
    {
        &self.view
    }

    /// Sets the text.
    pub fn set_text(&self, text: &str) -> (r: Call)
        ensures
            is_call(r, "setText"@, target(self.spec_aid(), self.spec_id()).push(str_field("text"@, text@)), false),
    {
        let mut p = Params::target(self.aid, self.view.id());
        p.add_str("text", text);
        p.into_call("setText", false)
    }

    /// Sets the hint shown while the field is empty.
    pub fn set_hint(&self, hint: &str) -> (r: Call)
        ensures
            is_call(r, "setHint"@, target(self.spec_aid(), self.spec_id()).push(str_field("hint"@, hint@)), false),
    {
        let mut p = Params::target(self.aid, self.view.id());
        p.add_str("hint", hint);
        p.into_call("setHint", false)
    }

    /// Asks for the current text; `text_from_reply` reads the answer.
    pub fn get_text(&self) -> (r: Call)
        ensures
            is_call(r, "getText"@, target(self.spec_aid(), self.spec_id()), true),
    {
        Params::target(self.aid, self.view.id()).into_call("getText", true)
    }

    /// The text in the reply to `get_text`; a reply that is not a string
    /// reads as empty.
    pub fn text_from_reply(reply: &JsonValue) -> (r: String)
        ensures
            r@ == (match reply@ {
                Json::Str(s) => s,
                _ => Seq::empty(),
            }),
    {
        match reply.as_str() {
            Some(s) => s.to_owned(),
            None => String::new(),
        }
    }
}

} // verus!
