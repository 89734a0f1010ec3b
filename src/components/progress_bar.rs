//! Progress bars.
use vstd::prelude::*;
use vstd::view::View as _;
use crate::activity::Activity;
use crate::call::{decode_handle, handle_of, int_field, is_call, target, with_parent, Call, HandleShape, Params};
use crate::error::GuiError;
use crate::json::{Json, JsonValue};
use crate::view::View;

verus! {

/// `p` held to the range 0 to 100.
pub open spec fn clamp_percent(p: i32) -> i32 {
    if p < 0 {
        0
    } else if p > 100 {
        100
    } else {
        p
    }
}

/// A bar that shows progress from 0 to 100.
#[derive(Debug)]
pub struct ProgressBar {
    view: View,
    aid: i64,
}

impl ProgressBar {
    pub closed spec fn spec_id(&self) -> i64 {
        self.view.spec_id()
    }

    pub closed spec fn spec_aid(&self) -> i64 {
        self.aid
    }

    /// The parameters of the request `new` builds.
    pub open spec fn spec_new(aid: i64, parent: Option<i64>) -> Seq<(Seq<char>, Json)> {
        with_parent(seq![int_field("aid"@, aid as int)], parent)
    }

    /// The request that creates a progress bar.
    pub fn new(activity: &Activity, parent: Option<i64>) -> (r: Call)
        ensures
            is_call(r, "createProgressBar"@, Self::spec_new(activity.spec_id(), parent), true),
    {
        let mut p = Params::new();
        p.add_int("aid", activity.id());
        proof {
            assert(p@ =~= seq![int_field("aid"@, activity.spec_id() as int)]);
        }
        p.add_parent(parent);
        p.into_call("createProgressBar", true)
    }

    /// The progress bar that the host created, from its reply to the creation request.
    pub fn from_reply(activity: &Activity, reply: &JsonValue) -> (r: Result<ProgressBar, GuiError>)
        ensures
            r is Ok <==> handle_of(HandleShape::Bare, reply@) is Some,
            r is Ok ==> r->Ok_0.spec_id() == handle_of(HandleShape::Bare, reply@)->Some_0,
            r is Ok ==> r->Ok_0.spec_aid() == activity.spec_id(),
            r is Err ==> r->Err_0 is InvalidResponse,
    {
        let id = decode_handle(HandleShape::Bare, reply)?;
        Ok(ProgressBar { view: View::new(id), aid: activity.id() })
    }

    /// The view handle.
    pub fn id(&self) -> (r: i64)
        ensures
            r == self.spec_id(),
    {
        self.view.id()
    }

    /// The underlying view.
    pub fn view(&self) -> (r: &View)
        ensures
            r.spec_id() == self.spec_id(),
    {
        &self.view
    }

    /// Sets the progress, held to the range 0 to 100.
    pub fn set_progress(&self, progress: i32) -> (r: Call)
        ensures
            is_call(
                r,
                "setProgress"@,
                target(self.spec_aid(), self.spec_id()).push(int_field("progress"@, clamp_percent(progress) as int)),
                false,
            ),
    {
        let progress = if progress < 0 {
            0
        } else if progress > 100 {
            100
        } else {
            progress
        };
        let mut p = Params::target(self.aid, self.view.id());
        p.add_int("progress", progress as i64);
        p.into_call("setProgress", false)
    }
}

} // verus!
