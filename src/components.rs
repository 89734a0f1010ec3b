//! The widgets: each is a handle in an activity, with the requests that
//! create and change it and the readers of the host's replies.
mod button;
mod checkbox;
mod edit_text;
mod image_view;
mod layout;
mod progress_bar;
mod radio;
mod space;
mod spinner;
mod switch;
mod text_view;
mod toggle_button;
mod web_view;

pub use button::Button;
pub use checkbox::Checkbox;
pub use edit_text::EditText;
pub use image_view::ImageView;
pub use layout::{
    FrameLayout, GridLayout, HorizontalScrollView, LinearLayout, NestedScrollView,
    SwipeRefreshLayout, TabLayout,
};
pub use progress_bar::ProgressBar;
pub use radio::{RadioButton, RadioGroup};
pub use space::Space;
pub use spinner::Spinner;
pub use switch::Switch;
pub use text_view::TextView;
pub use toggle_button::ToggleButton;
pub use web_view::WebView;
