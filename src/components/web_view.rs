//! Web views.
use vstd::prelude::*;
use vstd::view::View as _;
use crate::activity::Activity;
use crate::call::{bool_field, Call, decode_handle, handle_of, HandleShape, int_field, is_call, Params, str_field, target, with_parent};
use crate::error::GuiError;
use crate::json::{Json, JsonValue};
use crate::view::View;
use vstd::string::StringSliceAdditionalSpecFns;

verus! {

/// The padded base64 text, in the standard alphabet, of `bytes`.
pub uninterp spec fn base64_standard(bytes: Seq<u8>) -> Seq<char>;

/// Relies on base64's `Engine::encode` with the `STANDARD` engine: the padded
/// standard-alphabet encoding of the bytes. It panics only where the encoded
/// length overflows `usize`, which the bound rules out.
#[verifier::external_body]
fn encode_base64(data: &[u8]) -> (r: String)
    requires
        data@.len() <= usize::MAX / 2,
    ensures
        r@ == base64_standard(data@),
{
    base64::Engine::encode(&base64::engine::general_purpose::STANDARD, data)
}

/// A view that shows web content. Content with scripts needs `allow_javascript` first.
#[derive(Debug)]
pub struct WebView {
    view: View,
    aid: i64,
}

impl WebView {
    pub closed spec fn spec_id(&self) -> i64 {
        self.view.spec_id()
    }

    pub closed spec fn spec_aid(&self) -> i64 {
        self.aid
    }

    /// The parameters of the request `new` builds.
    pub open spec fn spec_new(aid: i64, parent: Option<i64>) -> Seq<(Seq<char>, Json)> {
        with_parent(seq![int_field("aid"@, aid as int)], parent)
    }

    /// The request that creates a web view.
    pub fn new(activity: &Activity, parent: Option<i64>) -> (r: Call)
        ensures
            is_call(r, "createWebView"@, Self::spec_new(activity.spec_id(), parent), true),
    {
        let mut p = Params::new();
        p.add_int("aid", activity.id());
        proof {
            assert(p@ =~= seq![int_field("aid"@, activity.spec_id() as int)]);
        }
        p.add_parent(parent);
        p.into_call("createWebView", true)
    }

    /// The web view that the host created, from its reply to the creation request.
    pub fn from_reply(activity: &Activity, reply: &JsonValue) -> (r: Result<WebView, GuiError>)
        ensures
            r is Ok <==> handle_of(HandleShape::Bare, reply@) is Some,
            r is Ok ==> r->Ok_0.spec_id() == handle_of(HandleShape::Bare, reply@)->Some_0,
            r is Ok ==> r->Ok_0.spec_aid() == activity.spec_id(),
            r is Err ==> r->Err_0 is InvalidResponse,
    {
        let id = decode_handle(HandleShape::Bare, reply)?;
        Ok(WebView { view: View::new(id), aid: activity.id() })
    }

    /// The view handle.
    pub fn id(&self) -> (r: i64)
        ensures
            r == self.spec_id(),
    {
        self.view.id()
    }

    /// The underlying view.
    pub fn view(&self) -> (r: &View)
        ensures
            r.spec_id() == self.spec_id(),
    {
        &self.view
    }

    /// Loads the page at `uri`.
    pub fn load_uri(&self, uri: &str) -> (r: Call)
        ensures
            is_call(r, "loadURI"@, target(self.spec_aid(), self.spec_id()).push(str_field("uri"@, uri@)), false),
    {
        let mut p = Params::target(self.aid, self.view.id());
        p.add_str("uri", uri);
        p.into_call("loadURI", false)
    }

    /// Shows the document whose base64 encoding is `encoded`.
    pub fn set_data_encoded(&self, encoded: &str) -> (r: Call)
        ensures
            is_call(r, "setData"@, target(self.spec_aid(), self.spec_id()).push(str_field("doc"@, encoded@)).push(bool_field("base64"@, true)), false),
    {
        let mut p = Params::target(self.aid, self.view.id());
        p.add_str("doc", encoded);
        p.add_bool("base64", true);
        p.into_call("setData", false)
    }

    /// Asks to allow scripts or not; the user may refuse, and `javascript_from_reply` reads the outcome.
    pub fn allow_javascript(&self, allow: bool) -> (r: Call)
        ensures
            is_call(r, "allowJavascript"@, target(self.spec_aid(), self.spec_id()).push(bool_field("allow"@, allow)), true),
    {
        let mut p = Params::target(self.aid, self.view.id());
        p.add_bool("allow", allow);
        p.into_call("allowJavascript", true)
    }

    /// Allows or forbids loading `content://` URIs.
    pub fn allow_content_uri(&self, allow: bool) -> (r: Call)
        ensures
            is_call(r, "allowContentURI"@, target(self.spec_aid(), self.spec_id()).push(bool_field("allow"@, allow)), false),
    {
        let mut p = Params::target(self.aid, self.view.id());
        p.add_bool("allow", allow);
        p.into_call("allowContentURI", false)
    }

    /// Allows or forbids navigating to other sites.
    pub fn allow_navigation(&self, allow: bool) -> (r: Call)
        ensures
            is_call(r, "allowNavigation"@, target(self.spec_aid(), self.spec_id()).push(bool_field("allow"@, allow)), false),
    {
        let mut p = Params::target(self.aid, self.view.id());
        p.add_bool("allow", allow);
        p.into_call("allowNavigation", false)
    }

    /// Runs `code` in the page; scripts must be allowed first.
    pub fn evaluate_js(&self, code: &str) -> (r: Call)
        ensures
            is_call(r, "evaluateJS"@, target(self.spec_aid(), self.spec_id()).push(str_field("code"@, code@)), false),
    {
        let mut p = Params::target(self.aid, self.view.id());
        p.add_str("code", code);
        p.into_call("evaluateJS", false)
    }

    /// Goes back one page in the history.
    pub fn go_back(&self) -> (r: Call)
        ensures
            is_call(r, "goBack"@, target(self.spec_aid(), self.spec_id()), false),
    {
        Params::target(self.aid, self.view.id()).into_call("goBack", false)
    }

    /// Goes forward one page in the history.
    pub fn go_forward(&self) -> (r: Call)
        ensures
            is_call(r, "goForward"@, target(self.spec_aid(), self.spec_id()), false),
    {
        Params::target(self.aid, self.view.id()).into_call("goForward", false)
    }

    /// Shows the document `data`, sent base64-encoded so that any text
    /// survives. Documents with scripts need `allow_javascript` first.
    pub fn set_data(&self, data: &str) -> (r: Call)
        requires
            data.spec_bytes().len() <= usize::MAX / 2,
        ensures
            is_call(
                r,
                "setData"@,
                target(self.spec_aid(), self.spec_id()).push(
                    str_field("doc"@, base64_standard(data.spec_bytes())),
                ).push(bool_field("base64"@, true)),
                false,
            ),
    {
        let encoded = encode_base64(data.as_bytes());
        self.set_data_encoded(encoded.as_str())
    }

    /// Whether the reply to `allow_javascript` says scripts are allowed;
    /// anything but `true` reads as not allowed.
    pub fn javascript_from_reply(reply: &JsonValue) -> (r: bool)
        ensures
            r == (reply@ == Json::Bool(true)),
    {
        match reply.as_bool() {
            Some(b) => b,
            None => false,
        }
    }
}

} // verus!
