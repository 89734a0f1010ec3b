//! The base view: a handle, and the operations every view has.
use vstd::prelude::*;
use vstd::view::View as _;
use crate::activity::Activity;
use crate::call::{int_field, bool_field, decode_pair, int_or_zero_at, is_call, target, Call, Params};
use crate::json::JsonValue;

verus! {

/// A dimension that fills the parent.
pub const MATCH_PARENT: i32 = -1;

/// A dimension that fits the content.
pub const WRAP_CONTENT: i32 = -2;

/// A view of the host, known by its handle.
#[derive(Debug)]
pub struct View {
    id: i64,
}

impl View {
    pub closed spec fn spec_id(&self) -> i64 {
        self.id
    }

    /// The view with handle `id`.
    pub fn new(id: i64) -> (r: View)
        ensures
            r.spec_id() == id,
    {
        View { id }
    }

    /// The view's handle.
    pub fn id(&self) -> (r: i64)
        ensures
            r == self.spec_id(),
    {
        self.id
    }

    /// Sets the width, in density-independent pixels.
    pub fn set_width(&self, activity: &Activity, width: i32) -> (r: Call)
        ensures
            is_call(
                r,
                "setWidth"@,
                target(activity.spec_id(), self.spec_id()).push(int_field("width"@, width as int)),
                false,
            ),
    {
        let mut p = Params::target(activity.id(), self.id);
        p.add_int("width", width as i64);
        p.into_call("setWidth", false)
    }

    /// Sets the width, in pixels (the unit `get_dimensions` reads).
    pub fn set_width_px(&self, activity: &Activity, width: i32) -> (r: Call)
        ensures
            is_call(
                r,
                "setWidth"@,
                target(activity.spec_id(), self.spec_id()).push(
                    int_field("width"@, width as int),
                ).push(bool_field("px"@, true)),
                false,
            ),
    {
        let mut p = Params::target(activity.id(), self.id);
        p.add_int("width", width as i64);
        p.add_bool("px", true);
        p.into_call("setWidth", false)
    }

    /// Sets the height, in density-independent pixels.
    pub fn set_height(&self, activity: &Activity, height: i32) -> (r: Call)
        ensures
            is_call(
                r,
                "setHeight"@,
                target(activity.spec_id(), self.spec_id()).push(int_field("height"@, height as int)),
                false,
            ),
    {
        let mut p = Params::target(activity.id(), self.id);
        p.add_int("height", height as i64);
        p.into_call("setHeight", false)
    }

    /// Sets the height, in pixels.
    pub fn set_height_px(&self, activity: &Activity, height: i32) -> (r: Call)
        ensures
            is_call(
                r,
                "setHeight"@,
                target(activity.spec_id(), self.spec_id()).push(
                    int_field("height"@, height as int),
                ).push(bool_field("px"@, true)),
                false,
            ),
    {
        let mut p = Params::target(activity.id(), self.id);
        p.add_int("height", height as i64);
        p.add_bool("px", true);
        p.into_call("setHeight", false)
    }

    /// Sets width and height: there is no combined method, so two calls.
    pub fn set_dimensions(&self, activity: &Activity, width: i32, height: i32) -> (r: (Call, Call))
        ensures
            is_call(
                r.0,
                "setWidth"@,
                target(activity.spec_id(), self.spec_id()).push(int_field("width"@, width as int)),
                false,
            ),
            is_call(
                r.1,
                "setHeight"@,
                target(activity.spec_id(), self.spec_id()).push(int_field("height"@, height as int)),
                false,
            ),
    {
        (self.set_width(activity, width), self.set_height(activity, height))
    }

    /// Sets the margin on all sides.
    pub fn set_margin(&self, activity: &Activity, margin: i32) -> (r: Call)
        ensures
            is_call(
                r,
                "setMargin"@,
                target(activity.spec_id(), self.spec_id()).push(int_field("margin"@, margin as int)),
                false,
            ),
    {
        let mut p = Params::target(activity.id(), self.id);
        p.add_int("margin", margin as i64);
        p.into_call("setMargin", false)
    }

    pub fn set_width_wrap_content(&self, activity: &Activity) -> (r: Call)
        ensures
            is_call(
                r,
                "setWidth"@,
                target(activity.spec_id(), self.spec_id()).push(int_field("width"@, WRAP_CONTENT as int)),
                false,
            ),
    {
        self.set_width(activity, WRAP_CONTENT)
    }

    pub fn set_height_wrap_content(&self, activity: &Activity) -> (r: Call)
        ensures
            is_call(
                r,
                "setHeight"@,
                target(activity.spec_id(), self.spec_id()).push(
                    int_field("height"@, WRAP_CONTENT as int),
                ),
                false,
            ),
    {
        self.set_height(activity, WRAP_CONTENT)
    }

    pub fn set_width_match_parent(&self, activity: &Activity) -> (r: Call)
        ensures
            is_call(
                r,
                "setWidth"@,
                target(activity.spec_id(), self.spec_id()).push(int_field("width"@, MATCH_PARENT as int)),
                false,
            ),
    {
        self.set_width(activity, MATCH_PARENT)
    }

    pub fn set_height_match_parent(&self, activity: &Activity) -> (r: Call)
        ensures
            is_call(
                r,
                "setHeight"@,
                target(activity.spec_id(), self.spec_id()).push(
                    int_field("height"@, MATCH_PARENT as int),
                ),
                false,
            ),
    {
        self.set_height(activity, MATCH_PARENT)
    }

    /// Sets the weight in a linear layout, and the position where one is given.
    pub fn set_linear_layout_params(&self, activity: &Activity, weight: i32, position: Option<i32>) -> (r:
        Call)
        ensures
            ({
                let base = target(activity.spec_id(), self.spec_id()).push(
                    int_field("weight"@, weight as int),
                );
                is_call(
                    r,
                    "setLinearLayoutParams"@,
                    match position {
                        Some(pos) => base.push(int_field("position"@, pos as int)),
                        None => base,
                    },
                    false,
                )
            }),
    {
        let mut p = Params::target(activity.id(), self.id);
        p.add_int("weight", weight as i64);
        if let Some(pos) = position {
            p.add_int("position", pos as i64);
        }
        p.into_call("setLinearLayoutParams", false)
    }

    /// Asks for the view's size in pixels; `dimensions_from_reply` reads the answer.
    pub fn get_dimensions(&self, activity: &Activity) -> (r: Call)
        ensures
            is_call(r, "getDimensions"@, target(activity.spec_id(), self.spec_id()), true),
    {
        Params::target(activity.id(), self.id).into_call("getDimensions", true)
    }

    /// The `(width, height)` in the reply to `get_dimensions`; what is
    /// missing reads as zero.
    pub fn dimensions_from_reply(reply: &JsonValue) -> (r: (i32, i32))
        ensures
            r == (int_or_zero_at(reply@, 0), int_or_zero_at(reply@, 1)),
    {
        decode_pair(reply)
    }
}

} // verus!
