//! The activity: one window of the host, and the calls that create the
//! widgets inside it.
use vstd::prelude::*;
use crate::call::{bool_field, decode_handle, handle_of, int_field, is_call, str_field, Call, HandleShape, Params};
use crate::components::{
    Button, Checkbox, EditText, FrameLayout, ImageView, LinearLayout, NestedScrollView, ProgressBar,
    RadioButton, RadioGroup, Space, Spinner, Switch, TextView, ToggleButton,
};
use crate::error::GuiError;
use crate::json::JsonValue;

verus! {

/// A window of the host, known by its activity id.
#[derive(Debug)]
pub struct Activity {
    aid: i64,
}

impl Activity {
    pub closed spec fn spec_id(&self) -> i64 {
        self.aid
    }

    /// The request that opens a window: a dialog, or a full-screen activity.
    pub fn new(dialog: bool) -> (r: Call)
        ensures
            is_call(
                r,
                "newActivity"@,
                seq![bool_field("dialog"@, dialog), bool_field("canceloutside"@, !dialog)],
                true,
            ),
    {
        let mut p = Params::new();
        p.add_bool("dialog", dialog);
        p.add_bool("canceloutside", !dialog);
        proof {
            assert(p@ =~= seq![bool_field("dialog"@, dialog), bool_field("canceloutside"@, !dialog)]);
        }
        p.into_call("newActivity", true)
    }

    /// The activity that the host opened, from its reply to `new`: an array
    /// whose first element is the activity id.
    pub fn from_reply(reply: &JsonValue) -> (r: Result<Activity, GuiError>)
        ensures
            r is Ok <==> handle_of(HandleShape::FirstElement, reply@) is Some,
            r is Ok ==> r->Ok_0.spec_id() == handle_of(HandleShape::FirstElement, reply@)->Some_0,
            r is Err ==> r->Err_0 is InvalidResponse,
    {
        let aid = decode_handle(HandleShape::FirstElement, reply)?;
        Ok(Activity { aid })
    }

    /// The activity id.
    pub fn id(&self) -> (r: i64)
        ensures
            r == self.spec_id(),
    {
        self.aid
    }

    /// Sets the window's title: a neutral theme first, then the task label.
    pub fn set_title(&self, title: &str) -> (r: (Call, Call))
        ensures
            is_call(
                r.0,
                "setTheme"@,
                seq![
                    int_field("aid"@, self.spec_id() as int),
                    int_field("statusBarColor"@, 0),
                    int_field("colorPrimary"@, 0),
                    int_field("windowBackground"@, 0),
                    int_field("textColor"@, 0),
                    int_field("colorAccent"@, 0),
                ],
                false,
            ),
            is_call(
                r.1,
                "setTaskDescription"@,
                seq![int_field("aid"@, self.spec_id() as int), str_field("label"@, title@)],
                true,
            ),
    {
        let mut theme = Params::new();
        theme.add_int("aid", self.aid);
        theme.add_int("statusBarColor", 0);
        theme.add_int("colorPrimary", 0);
        theme.add_int("windowBackground", 0);
        theme.add_int("textColor", 0);
        theme.add_int("colorAccent", 0);
        let mut task = Params::new();
        task.add_int("aid", self.aid);
        task.add_str("label", title);
        proof {
            assert(theme@ =~= seq![
                int_field("aid"@, self.spec_id() as int),
                int_field("statusBarColor"@, 0),
                int_field("colorPrimary"@, 0),
                int_field("windowBackground"@, 0),
                int_field("textColor"@, 0),
                int_field("colorAccent"@, 0),
            ]);
            assert(task@ =~= seq![int_field("aid"@, self.spec_id() as int), str_field("label"@, title@)]);
        }
        (theme.into_call("setTheme", false), task.into_call("setTaskDescription", true))
    }

    /// Closes the window.
    pub fn finish(&self) -> (r: Call)
        ensures
            is_call(
                r,
                "finishActivity"@,
                seq![int_field("aid"@, self.spec_id() as int), bool_field("finishing"@, true)],
                true,
            ),
    {
        let mut p = Params::new();
        p.add_int("aid", self.aid);
        p.add_bool("finishing", true);
        proof {
            assert(p@ =~= seq![int_field("aid"@, self.spec_id() as int), bool_field("finishing"@, true)]);
        }
        p.into_call("finishActivity", true)
    }

    /// The request that creates a vertical linear layout in this activity.
    pub fn create_linear_layout(&self, parent: Option<i64>) -> (r: Call)
        ensures
            is_call(r, "createLinearLayout"@, LinearLayout::spec_new_with_orientation(self.spec_id(), parent, true), true),
    {
        LinearLayout::new(self, parent)
    }

    /// The request that creates a horizontal linear layout in this activity.
    pub fn create_linear_layout_horizontal(&self, parent: Option<i64>) -> (r: Call)
        ensures
            is_call(r, "createLinearLayout"@, LinearLayout::spec_new_with_orientation(self.spec_id(), parent, false), true),
    {
        LinearLayout::new_with_orientation(self, parent, false)
    }

    /// The request that creates a vertical scroll view in this activity.
    pub fn create_nested_scroll_view(&self, parent: Option<i64>) -> (r: Call)
        ensures
            is_call(r, "createNestedScrollView"@, NestedScrollView::spec_new(self.spec_id(), parent), true),
    {
        NestedScrollView::new(self, parent)
    }

    /// The request that creates a text view in this activity.
    pub fn create_text_view(&self, text: &str, parent: Option<i64>) -> (r: Call)
        ensures
            is_call(r, "createTextView"@, TextView::spec_new(self.spec_id(), text@, parent), true),
    {
        TextView::new(self, text, parent)
    }

    /// The request that creates a button in this activity.
    pub fn create_button(&self, text: &str, parent: Option<i64>) -> (r: Call)
        ensures
            is_call(r, "createButton"@, Button::spec_new(self.spec_id(), text@, parent), true),
    {
        Button::new(self, text, parent)
    }

    /// The request that creates a single-line text field in this activity.
    pub fn create_edit_text(&self, text: &str, parent: Option<i64>) -> (r: Call)
        ensures
            is_call(r, "createEditText"@, EditText::spec_new_with_options(self.spec_id(), text@, parent, true, "text"@), true),
    {
        EditText::new(self, text, parent)
    }

    /// The request that creates a multi-line text field in this activity.
    pub fn create_edit_text_multiline(&self, text: &str, parent: Option<i64>) -> (r: Call)
        ensures
            is_call(r, "createEditText"@, EditText::spec_new_with_options(self.spec_id(), text@, parent, false, "textMultiLine"@), true),
    {
        EditText::new_multiline(self, text, parent)
    }

    /// The request that creates an unchecked checkbox in this activity.
    pub fn create_checkbox(&self, text: &str, parent: Option<i64>) -> (r: Call)
        ensures
            is_call(r, "createCheckbox"@, Checkbox::spec_new_with_checked(self.spec_id(), text@, parent, false), true),
    {
        Checkbox::new(self, text, parent)
    }

    /// The request that creates a checkbox, checked as given in this activity.
    pub fn create_checkbox_checked(&self, text: &str, parent: Option<i64>, checked: bool) -> (r: Call)
        ensures
            is_call(r, "createCheckbox"@, Checkbox::spec_new_with_checked(self.spec_id(), text@, parent, checked), true),
    {
        Checkbox::new_with_checked(self, text, parent, checked)
    }

    /// The request that creates a switch in this activity.
    pub fn create_switch(&self, text: &str, parent: Option<i64>) -> (r: Call)
        ensures
            is_call(r, "createSwitch"@, Switch::spec_new(self.spec_id(), text@, parent), true),
    {
        Switch::new(self, text, parent)
    }

    /// The request that creates a switch, on or off as given in this activity.
    pub fn create_switch_checked(&self, text: &str, parent: Option<i64>, checked: bool) -> (r: Call)
        ensures
            is_call(r, "createSwitch"@, Switch::spec_new_with_checked(self.spec_id(), text@, parent, checked), true),
    {
        Switch::new_with_checked(self, text, parent, checked)
    }

    /// The request that creates a radio button in this activity.
    pub fn create_radio_button(&self, text: &str, parent: Option<i64>) -> (r: Call)
        ensures
            is_call(r, "createRadioButton"@, RadioButton::spec_new(self.spec_id(), text@, parent), true),
    {
        RadioButton::new(self, text, parent)
    }

    /// The request that creates a radio button, checked as given in this activity.
    pub fn create_radio_button_checked(&self, text: &str, parent: Option<i64>, checked: bool) -> (r: Call)
        ensures
            is_call(r, "createRadioButton"@, RadioButton::spec_new_with_checked(self.spec_id(), text@, parent, checked), true),
    {
        RadioButton::new_with_checked(self, text, parent, checked)
    }

    /// The request that creates a radio group in this activity.
    pub fn create_radio_group(&self, parent: Option<i64>) -> (r: Call)
        ensures
            is_call(r, "createRadioGroup"@, RadioGroup::spec_new(self.spec_id(), parent), true),
    {
        RadioGroup::new(self, parent)
    }

    /// The request that creates a drop-down list in this activity.
    pub fn create_spinner(&self, parent: Option<i64>) -> (r: Call)
        ensures
            is_call(r, "createSpinner"@, Spinner::spec_new(self.spec_id(), parent), true),
    {
        Spinner::new(self, parent)
    }

    /// The request that creates an image view in this activity.
    pub fn create_image_view(&self, parent: Option<i64>) -> (r: Call)
        ensures
            is_call(r, "createImageView"@, ImageView::spec_new(self.spec_id(), parent), true),
    {
        ImageView::new(self, parent)
    }

    /// The request that creates a progress bar in this activity.
    pub fn create_progress_bar(&self, parent: Option<i64>) -> (r: Call)
        ensures
            is_call(r, "createProgressBar"@, ProgressBar::spec_new(self.spec_id(), parent), true),
    {
        ProgressBar::new(self, parent)
    }

    /// The request that creates a toggle button, off in this activity.
    pub fn create_toggle_button(&self, text: &str, parent: Option<i64>) -> (r: Call)
        ensures
            is_call(r, "createToggleButton"@, ToggleButton::spec_new_with_checked(self.spec_id(), text@, parent, false), true),
    {
        ToggleButton::new(self, text, parent)
    }

    /// The request that creates a toggle button, on or off as given in this activity.
    pub fn create_toggle_button_checked(&self, text: &str, parent: Option<i64>, checked: bool) -> (r: Call)
        ensures
            is_call(r, "createToggleButton"@, ToggleButton::spec_new_with_checked(self.spec_id(), text@, parent, checked), true),
    {
        ToggleButton::new_with_checked(self, text, parent, checked)
    }

    /// The request that creates an empty space in this activity.
    pub fn create_space(&self, parent: Option<i64>) -> (r: Call)
        ensures
            is_call(r, "createSpace"@, Space::spec_new(self.spec_id(), parent), true),
    {
        Space::new(self, parent)
    }

    /// The request that creates a frame layout in this activity.
    pub fn create_frame_layout(&self, parent: Option<i64>) -> (r: Call)
        ensures
            is_call(r, "createFrameLayout"@, FrameLayout::spec_new(self.spec_id(), parent), true),
    {
        FrameLayout::new(self, parent)
    }
}

} // verus!
