//! Layouts: linear, scrolling, frame, grid, pull-to-refresh and tabs.
use vstd::prelude::*;
use vstd::view::View as _;
use crate::activity::Activity;
use crate::call::{decode_pair, int_or_zero_at, bool_field, Call, decode_handle, handle_of, HandleShape, int_field, is_call, Params, str_list, target, with_parent};
use crate::error::GuiError;
use crate::json::{Json, JsonValue};
use crate::view::View;

verus! {

/// A layout that arranges its children in a line.
#[derive(Debug)]
pub struct LinearLayout {
    view: View,
    aid: i64,
}

impl LinearLayout {
    pub closed spec fn spec_id(&self) -> i64 {
        self.view.spec_id()
    }

    pub closed spec fn spec_aid(&self) -> i64 {
        self.aid
    }

    /// The parameters of the request `new_with_orientation` builds.
    pub open spec fn spec_new_with_orientation(aid: i64, parent: Option<i64>, vertical: bool) -> Seq<(Seq<char>, Json)> {
        with_parent(seq![int_field("aid"@, aid as int), bool_field("vertical"@, vertical)], parent)
    }

    /// The request that creates a vertical linear layout.
    pub fn new(activity: &Activity, parent: Option<i64>) -> (r: Call)
        ensures
            is_call(r, "createLinearLayout"@, Self::spec_new_with_orientation(activity.spec_id(), parent, true), true),
    {
        Self::new_with_orientation(activity, parent, true)
    }

    /// The request that creates a linear layout, vertical or horizontal.
    pub fn new_with_orientation(activity: &Activity, parent: Option<i64>, vertical: bool) -> (r: Call)
        ensures
            is_call(r, "createLinearLayout"@, Self::spec_new_with_orientation(activity.spec_id(), parent, vertical), true),
    {
        let mut p = Params::new();
        p.add_int("aid", activity.id());
        p.add_bool("vertical", vertical);
        proof {
            assert(p@ =~= seq![int_field("aid"@, activity.spec_id() as int), bool_field("vertical"@, vertical)]);
        }
        p.add_parent(parent);
        p.into_call("createLinearLayout", true)
    }

    /// The linear layout that the host created, from its reply to the creation request.
    pub fn from_reply(activity: &Activity, reply: &JsonValue) -> (r: Result<LinearLayout, GuiError>)
        ensures
            r is Ok <==> handle_of(HandleShape::Bare, reply@) is Some,
            r is Ok ==> r->Ok_0.spec_id() == handle_of(HandleShape::Bare, reply@)->Some_0,
            r is Ok ==> r->Ok_0.spec_aid() == activity.spec_id(),
            r is Err ==> r->Err_0 is InvalidResponse,
    {
        let id = decode_handle(HandleShape::Bare, reply)?;
        Ok(LinearLayout { view: View::new(id), aid: activity.id() })
    }

    /// The view handle.
    pub fn id(&self) -> (r: i64)
        ensures
            r == self.spec_id(),
    {
        self.view.id()
    }

    /// The underlying view.
    pub fn view(&self) -> (r: &View)
        ensures
            r.spec_id() == self.spec_id(),
    {
        &self.view
    }
}

/// A layout that scrolls its content vertically.
#[derive(Debug)]
pub struct NestedScrollView {
    view: View,
    aid: i64,
}

impl NestedScrollView {
    pub closed spec fn spec_id(&self) -> i64 {
        self.view.spec_id()
    }

    pub closed spec fn spec_aid(&self) -> i64 {
        self.aid
    }

    /// The parameters of the request `new` builds.
    pub open spec fn spec_new(aid: i64, parent: Option<i64>) -> Seq<(Seq<char>, Json)> {
        with_parent(seq![int_field("aid"@, aid as int), bool_field("nobar"@, false), bool_field("snapping"@, false)], parent)
    }

    /// The request that creates a scroll view, with a scroll bar and without snapping.
    pub fn new(activity: &Activity, parent: Option<i64>) -> (r: Call)
        ensures
            is_call(r, "createNestedScrollView"@, Self::spec_new(activity.spec_id(), parent), true),
    {
        let mut p = Params::new();
        p.add_int("aid", activity.id());
        p.add_bool("nobar", false);
        p.add_bool("snapping", false);
        proof {
            assert(p@ =~= seq![int_field("aid"@, activity.spec_id() as int), bool_field("nobar"@, false), bool_field("snapping"@, false)]);
        }
        p.add_parent(parent);
        p.into_call("createNestedScrollView", true)
    }

    /// The nested scroll view that the host created, from its reply to the creation request.
    pub fn from_reply(activity: &Activity, reply: &JsonValue) -> (r: Result<NestedScrollView, GuiError>)
        ensures
            r is Ok <==> handle_of(HandleShape::Bare, reply@) is Some,
            r is Ok ==> r->Ok_0.spec_id() == handle_of(HandleShape::Bare, reply@)->Some_0,
            r is Ok ==> r->Ok_0.spec_aid() == activity.spec_id(),
            r is Err ==> r->Err_0 is InvalidResponse,
    {
        let id = decode_handle(HandleShape::Bare, reply)?;
        Ok(NestedScrollView { view: View::new(id), aid: activity.id() })
    }

    /// The view handle.
    pub fn id(&self) -> (r: i64)
        ensures
            r == self.spec_id(),
    {
        self.view.id()
    }

    /// The underlying view.
    pub fn view(&self) -> (r: &View)
        ensures
            r.spec_id() == self.spec_id(),
    {
        &self.view
    }
}

/// A layout that stacks its children, the last on top.
#[derive(Debug)]
pub struct FrameLayout {
    view: View,
    aid: i64,
}

impl FrameLayout {
    pub closed spec fn spec_id(&self) -> i64 {
        self.view.spec_id()
    }

    pub closed spec fn spec_aid(&self) -> i64 {
        self.aid
    }

    /// The parameters of the request `new` builds.
    pub open spec fn spec_new(aid: i64, parent: Option<i64>) -> Seq<(Seq<char>, Json)> {
        with_parent(seq![int_field("aid"@, aid as int)], parent)
    }

    /// The request that creates a frame layout.
    pub fn new(activity: &Activity, parent: Option<i64>) -> (r: Call)
        ensures
            is_call(r, "createFrameLayout"@, Self::spec_new(activity.spec_id(), parent), true),
    {
        let mut p = Params::new();
        p.add_int("aid", activity.id());
        proof {
            assert(p@ =~= seq![int_field("aid"@, activity.spec_id() as int)]);
        }
        p.add_parent(parent);
        p.into_call("createFrameLayout", true)
    }

    /// The frame layout that the host created, from its reply to the creation request.
    pub fn from_reply(activity: &Activity, reply: &JsonValue) -> (r: Result<FrameLayout, GuiError>)
        ensures
            r is Ok <==> handle_of(HandleShape::Bare, reply@) is Some,
            r is Ok ==> r->Ok_0.spec_id() == handle_of(HandleShape::Bare, reply@)->Some_0,
            r is Ok ==> r->Ok_0.spec_aid() == activity.spec_id(),
            r is Err ==> r->Err_0 is InvalidResponse,
    {
        let id = decode_handle(HandleShape::Bare, reply)?;
        Ok(FrameLayout { view: View::new(id), aid: activity.id() })
    }

    /// The view handle.
    pub fn id(&self) -> (r: i64)
        ensures
            r == self.spec_id(),
    {
        self.view.id()
    }

    /// The underlying view.
    pub fn view(&self) -> (r: &View)
        ensures
            r.spec_id() == self.spec_id(),
    {
        &self.view
    }
}

/// A layout that arranges its children in a grid.
#[derive(Debug)]
pub struct GridLayout {
    view: View,
    aid: i64,
    rows: i32,
    cols: i32,
}

impl GridLayout {
    pub closed spec fn spec_id(&self) -> i64 {
        self.view.spec_id()
    }

    pub closed spec fn spec_aid(&self) -> i64 {
        self.aid
    }

    pub closed spec fn spec_rows(&self) -> i32 {
        self.rows
    }

    pub closed spec fn spec_cols(&self) -> i32 {
        self.cols
    }

    /// The parameters of the request `new` builds.
    pub open spec fn spec_new(aid: i64, rows: i32, cols: i32, parent: Option<i64>) -> Seq<(Seq<char>, Json)> {
        with_parent(seq![int_field("aid"@, aid as int), int_field("rows"@, rows as int), int_field("cols"@, cols as int)], parent)
    }

    /// The request that creates a grid of `rows` by `cols`.
    pub fn new(activity: &Activity, rows: i32, cols: i32, parent: Option<i64>) -> (r: Call)
        ensures
            is_call(r, "createGridLayout"@, Self::spec_new(activity.spec_id(), rows, cols, parent), true),
    {
        let mut p = Params::new();
        p.add_int("aid", activity.id());
        p.add_int("rows", rows as i64);
        p.add_int("cols", cols as i64);
        proof {
            assert(p@ =~= seq![int_field("aid"@, activity.spec_id() as int), int_field("rows"@, rows as int), int_field("cols"@, cols as int)]);
        }
        p.add_parent(parent);
        p.into_call("createGridLayout", true)
    }

    /// The grid layout that the host created, from its reply to the creation request.
    pub fn from_reply(activity: &Activity, rows: i32, cols: i32, reply: &JsonValue) -> (r: Result<GridLayout, GuiError>)
        ensures
            r is Ok <==> handle_of(HandleShape::Bare, reply@) is Some,
            r is Ok ==> r->Ok_0.spec_id() == handle_of(HandleShape::Bare, reply@)->Some_0,
            r is Ok ==> r->Ok_0.spec_aid() == activity.spec_id(),
            r is Ok ==> r->Ok_0.spec_rows() == rows && r->Ok_0.spec_cols() == cols,
            r is Err ==> r->Err_0 is InvalidResponse,
    {
        let id = decode_handle(HandleShape::Bare, reply)?;
        Ok(GridLayout { view: View::new(id), aid: activity.id(), rows, cols })
    }

    /// The view handle.
    pub fn id(&self) -> (r: i64)
        ensures
            r == self.spec_id(),
    {
        self.view.id()
    }

    /// The underlying view.
    pub fn view(&self) -> (r: &View)
        ensures
            r.spec_id() == self.spec_id(),
    {
        &self.view
    }
}

/// A layout that scrolls its content horizontally. Page widths set with it are in pixels.
#[derive(Debug)]
pub struct HorizontalScrollView {
    view: View,
    aid: i64,
}

impl HorizontalScrollView {
    pub closed spec fn spec_id(&self) -> i64 {
        self.view.spec_id()
    }

    pub closed spec fn spec_aid(&self) -> i64 {
        self.aid
    }

    /// The parameters of the request `new` builds.
    pub open spec fn spec_new(aid: i64, parent: Option<i64>) -> Seq<(Seq<char>, Json)> {
        with_parent(seq![int_field("aid"@, aid as int), bool_field("nobar"@, false), bool_field("snapping"@, false), bool_field("fillviewport"@, true)], parent)
    }

    /// The parameters of the request `new_with_params` builds.
    pub open spec fn spec_new_with_params(aid: i64, parent: Option<i64>, fillviewport: bool, snapping: bool, nobar: bool) -> Seq<(Seq<char>, Json)> {
        with_parent(seq![int_field("aid"@, aid as int), bool_field("nobar"@, nobar), bool_field("snapping"@, snapping), bool_field("fillviewport"@, fillviewport)], parent)
    }

    /// The request that creates a horizontal scroll view that fills its viewport, with a scroll bar and without snapping.
    pub fn new(activity: &Activity, parent: Option<i64>) -> (r: Call)
        ensures
            is_call(r, "createHorizontalScrollView"@, Self::spec_new(activity.spec_id(), parent), true),
    {
        let mut p = Params::new();
        p.add_int("aid", activity.id());
        p.add_bool("nobar", false);
        p.add_bool("snapping", false);
        p.add_bool("fillviewport", true);
        proof {
            assert(p@ =~= seq![int_field("aid"@, activity.spec_id() as int), bool_field("nobar"@, false), bool_field("snapping"@, false), bool_field("fillviewport"@, true)]);
        }
        p.add_parent(parent);
        p.into_call("createHorizontalScrollView", true)
    }

    /// The request that creates a horizontal scroll view with the given options.
    pub fn new_with_params(activity: &Activity, parent: Option<i64>, fillviewport: bool, snapping: bool, nobar: bool) -> (r: Call)
        ensures
            is_call(r, "createHorizontalScrollView"@, Self::spec_new_with_params(activity.spec_id(), parent, fillviewport, snapping, nobar), true),
    {
        let mut p = Params::new();
        p.add_int("aid", activity.id());
        p.add_bool("nobar", nobar);
        p.add_bool("snapping", snapping);
        p.add_bool("fillviewport", fillviewport);
        proof {
            assert(p@ =~= seq![int_field("aid"@, activity.spec_id() as int), bool_field("nobar"@, nobar), bool_field("snapping"@, snapping), bool_field("fillviewport"@, fillviewport)]);
        }
        p.add_parent(parent);
        p.into_call("createHorizontalScrollView", true)
    }

    /// The horizontal scroll view that the host created, from its reply to the creation request.
    pub fn from_reply(activity: &Activity, reply: &JsonValue) -> (r: Result<HorizontalScrollView, GuiError>)
        ensures
            r is Ok <==> handle_of(HandleShape::Bare, reply@) is Some,
            r is Ok ==> r->Ok_0.spec_id() == handle_of(HandleShape::Bare, reply@)->Some_0,
            r is Ok ==> r->Ok_0.spec_aid() == activity.spec_id(),
            r is Err ==> r->Err_0 is InvalidResponse,
    {
        let id = decode_handle(HandleShape::Bare, reply)?;
        Ok(HorizontalScrollView { view: View::new(id), aid: activity.id() })
    }

    /// The view handle.
    pub fn id(&self) -> (r: i64)
        ensures
            r == self.spec_id(),
    {
        self.view.id()
    }

    /// The underlying view.
    pub fn view(&self) -> (r: &View)
        ensures
            r.spec_id() == self.spec_id(),
    {
        &self.view
    }

    /// Asks for the scroll position; `scroll_position_from_reply` reads the answer.
    pub fn get_scroll_position(&self) -> (r: Call)
        ensures
            is_call(r, "getScrollPosition"@, target(self.spec_aid(), self.spec_id()), true),
    {
        Params::target(self.aid, self.view.id()).into_call("getScrollPosition", true)
    }

    /// Scrolls to `(x, y)` pixels, smoothly or at once.
    pub fn set_scroll_position(&self, x: i32, y: i32, smooth: bool) -> (r: Call)
        ensures
            is_call(r, "setScrollPosition"@, target(self.spec_aid(), self.spec_id()).push(int_field("x"@, x as int)).push(int_field("y"@, y as int)).push(bool_field("soft"@, smooth)), false),
    {
        let mut p = Params::target(self.aid, self.view.id());
        p.add_int("x", x as i64);
        p.add_int("y", y as i64);
        p.add_bool("soft", smooth);
        p.into_call("setScrollPosition", false)
    }

    /// The `(x, y)` in the reply to `get_scroll_position`; what is missing
    /// reads as zero.
    pub fn scroll_position_from_reply(reply: &JsonValue) -> (r: (i32, i32))
        ensures
            r == (int_or_zero_at(reply@, 0), int_or_zero_at(reply@, 1)),
    {
        decode_pair(reply)
    }
}

/// A layout that refreshes when pulled down.
#[derive(Debug)]
pub struct SwipeRefreshLayout {
    view: View,
    aid: i64,
}

impl SwipeRefreshLayout {
    pub closed spec fn spec_id(&self) -> i64 {
        self.view.spec_id()
    }

    pub closed spec fn spec_aid(&self) -> i64 {
        self.aid
    }

    /// The parameters of the request `new` builds.
    pub open spec fn spec_new(aid: i64, parent: Option<i64>) -> Seq<(Seq<char>, Json)> {
        with_parent(seq![int_field("aid"@, aid as int)], parent)
    }

    /// The request that creates a pull-to-refresh layout.
    pub fn new(activity: &Activity, parent: Option<i64>) -> (r: Call)
        ensures
            is_call(r, "createSwipeRefreshLayout"@, Self::spec_new(activity.spec_id(), parent), true),
    {
        let mut p = Params::new();
        p.add_int("aid", activity.id());
        proof {
            assert(p@ =~= seq![int_field("aid"@, activity.spec_id() as int)]);
        }
        p.add_parent(parent);
        p.into_call("createSwipeRefreshLayout", true)
    }

    /// The swipe refresh layout that the host created, from its reply to the creation request.
    pub fn from_reply(activity: &Activity, reply: &JsonValue) -> (r: Result<SwipeRefreshLayout, GuiError>)
        ensures
            r is Ok <==> handle_of(HandleShape::Bare, reply@) is Some,
            r is Ok ==> r->Ok_0.spec_id() == handle_of(HandleShape::Bare, reply@)->Some_0,
            r is Ok ==> r->Ok_0.spec_aid() == activity.spec_id(),
            r is Err ==> r->Err_0 is InvalidResponse,
    {
        let id = decode_handle(HandleShape::Bare, reply)?;
        Ok(SwipeRefreshLayout { view: View::new(id), aid: activity.id() })
    }

    /// The view handle.
    pub fn id(&self) -> (r: i64)
        ensures
            r == self.spec_id(),
    {
        self.view.id()
    }

    /// The underlying view.
    pub fn view(&self) -> (r: &View)
        ensures
            r.spec_id() == self.spec_id(),
    {
        &self.view
    }

    /// Shows or hides the refresh animation.
    pub fn set_refreshing(&self, refreshing: bool) -> (r: Call)
        ensures
            is_call(r, "setRefreshing"@, target(self.spec_aid(), self.spec_id()).push(bool_field("refresh"@, refreshing)), false),
    {
        let mut p = Params::target(self.aid, self.view.id());
        p.add_bool("refresh", refreshing);
        p.into_call("setRefreshing", false)
    }
}

/// A row of tabs; its `itemselected` events carry the tab index.
#[derive(Debug)]
pub struct TabLayout {
    view: View,
    aid: i64,
}

impl TabLayout {
    pub closed spec fn spec_id(&self) -> i64 {
        self.view.spec_id()
    }

    pub closed spec fn spec_aid(&self) -> i64 {
        self.aid
    }

    /// The parameters of the request `new` builds.
    pub open spec fn spec_new(aid: i64, parent: Option<i64>) -> Seq<(Seq<char>, Json)> {
        with_parent(seq![int_field("aid"@, aid as int)], parent)
    }

    /// The request that creates a tab row.
    pub fn new(activity: &Activity, parent: Option<i64>) -> (r: Call)
        ensures
            is_call(r, "createTabLayout"@, Self::spec_new(activity.spec_id(), parent), true),
    {
        let mut p = Params::new();
        p.add_int("aid", activity.id());
        proof {
            assert(p@ =~= seq![int_field("aid"@, activity.spec_id() as int)]);
        }
        p.add_parent(parent);
        p.into_call("createTabLayout", true)
    }

    /// The tab layout that the host created, from its reply to the creation request.
    pub fn from_reply(activity: &Activity, reply: &JsonValue) -> (r: Result<TabLayout, GuiError>)
        ensures
            r is Ok <==> handle_of(HandleShape::Bare, reply@) is Some,
            r is Ok ==> r->Ok_0.spec_id() == handle_of(HandleShape::Bare, reply@)->Some_0,
            r is Ok ==> r->Ok_0.spec_aid() == activity.spec_id(),
            r is Err ==> r->Err_0 is InvalidResponse,
    {
        let id = decode_handle(HandleShape::Bare, reply)?;
        Ok(TabLayout { view: View::new(id), aid: activity.id() })
    }

    /// The view handle.
    pub fn id(&self) -> (r: i64)
        ensures
            r == self.spec_id(),
    {
        self.view.id()
    }

    /// The underlying view.
    pub fn view(&self) -> (r: &View)
        ensures
            r.spec_id() == self.spec_id(),
    {
        &self.view
    }

    /// Sets the tab labels.
    pub fn set_list(&self, tabs: &[&str]) -> (r: Call)
        ensures
            is_call(r, "setList"@, target(self.spec_aid(), self.spec_id()).push(("list"@, str_list(tabs@))), false),
    {
        let mut p = Params::target(self.aid, self.view.id());
        p.add("list", JsonValue::string_list(tabs));
        p.into_call("setList", false)
    }

    /// Selects the tab at `index`, counting from zero.
    pub fn select_tab(&self, index: usize) -> (r: Call)
        requires
            index <= i64::MAX,
        ensures
            is_call(r, "selectTab"@, target(self.spec_aid(), self.spec_id()).push(int_field("tab"@, index as int)), false),
    {
        let mut p = Params::target(self.aid, self.view.id());
        p.add_int("tab", index as i64);
        p.into_call("selectTab", false)
    }
}

} // verus!
