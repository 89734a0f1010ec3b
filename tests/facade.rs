use termux_gui::error::GuiError;
use termux_gui::{
    Activity, Button, Call, Checkbox, EditText, GridLayout, HorizontalScrollView, JsonValue,
    ProgressBar, Spinner, Switch, TabLayout, TextView, View, WebView, MATCH_PARENT, WRAP_CONTENT,
};

fn s(text: &str) -> JsonValue {
    JsonValue::Str(text.to_string())
}

fn i(n: i64) -> JsonValue {
    JsonValue::Int(n)
}

fn b(v: bool) -> JsonValue {
    JsonValue::Bool(v)
}

fn obj(fields: Vec<(&str, JsonValue)>) -> JsonValue {
    JsonValue::Object(fields.into_iter().map(|(k, v)| (k.to_string(), v)).collect())
}

fn req(method: &str, params: Vec<(&str, JsonValue)>) -> JsonValue {
    obj(vec![("method", s(method)), ("params", obj(params))])
}

fn activity(aid: i64) -> Activity {
    Activity::from_reply(&JsonValue::Array(vec![i(aid), s("task")])).unwrap()
}

fn assert_call(call: Call, method: &str, params: Vec<(&str, JsonValue)>, wait: bool) {
    assert_eq!(call.message, req(method, params));
    assert_eq!(call.wait, wait);
}

#[test]
fn new_activity_request() {
    assert_call(Activity::new(true), "newActivity", vec![("dialog", b(true)), ("canceloutside", b(false))], true);
    assert_call(Activity::new(false), "newActivity", vec![("dialog", b(false)), ("canceloutside", b(true))], true);
}

#[test]
fn activity_id_is_first_element() {
    assert_eq!(activity(3).id(), 3);
    assert!(matches!(Activity::from_reply(&i(3)), Err(GuiError::InvalidResponse(_))));
    assert!(matches!(Activity::from_reply(&JsonValue::Array(vec![])), Err(GuiError::InvalidResponse(_))));
}

#[test]
fn button_request_defaults_parent_to_activity() {
    let a = activity(5);
    assert_call(Button::new(&a, "Go", None), "createButton", vec![("aid", i(5)), ("parent", i(5)), ("text", s("Go"))], true);
    assert_call(Button::new(&a, "Go", Some(9)), "createButton", vec![("aid", i(5)), ("parent", i(9)), ("text", s("Go"))], true);
}

#[test]
fn button_from_bare_handle() {
    let a = activity(5);
    let btn = Button::from_reply(&a, &i(42)).unwrap();
    assert_eq!(btn.id(), 42);
    assert_eq!(btn.view().id(), 42);
    assert_call(btn.set_text("Stop"), "setText", vec![("aid", i(5)), ("id", i(42)), ("text", s("Stop"))], true);
    assert!(matches!(Button::from_reply(&a, &s("42")), Err(GuiError::InvalidResponse(_))));
}

#[test]
fn checkbox_parent_only_when_given() {
    let a = activity(1);
    assert_call(Checkbox::new(&a, "c", None), "createCheckbox", vec![("aid", i(1)), ("text", s("c")), ("checked", b(false))], true);
    assert_call(
        Checkbox::new_with_checked(&a, "c", Some(4), true),
        "createCheckbox",
        vec![("aid", i(1)), ("text", s("c")), ("checked", b(true)), ("parent", i(4))],
        true,
    );
    let cb = Checkbox::from_reply(&a, &i(8)).unwrap();
    assert_call(cb.set_checked(true), "setChecked", vec![("aid", i(1)), ("id", i(8)), ("checked", b(true))], true);
}

#[test]
fn switch_reads_nested_result_id() {
    let a = activity(2);
    assert_call(Switch::new(&a, "w", None), "createSwitch", vec![("aid", i(2)), ("parent", i(2)), ("text", s("w"))], true);
    let reply = obj(vec![("result", obj(vec![("id", i(77))]))]);
    assert_eq!(Switch::from_reply(&a, &reply).unwrap().id(), 77);
    assert!(matches!(Switch::from_reply(&a, &i(77)), Err(GuiError::InvalidResponse(_))));
    let no_id = obj(vec![("result", obj(vec![]))]);
    assert!(matches!(Switch::from_reply(&a, &no_id), Err(GuiError::InvalidResponse(_))));
}

#[test]
fn edit_text_options() {
    let a = activity(1);
    assert_call(
        EditText::new(&a, "t", None),
        "createEditText",
        vec![("aid", i(1)), ("text", s("t")), ("singleline", b(true)), ("line", b(true)), ("blockinput", b(false)), ("type", s("text"))],
        true,
    );
    assert_call(
        EditText::new_multiline(&a, "t", Some(3)),
        "createEditText",
        vec![
            ("aid", i(1)),
            ("text", s("t")),
            ("singleline", b(false)),
            ("line", b(true)),
            ("blockinput", b(false)),
            ("type", s("textMultiLine")),
            ("parent", i(3)),
        ],
        true,
    );
}

#[test]
fn edit_text_reply_reading() {
    let a = activity(1);
    let e = EditText::from_reply(&a, &i(6)).unwrap();
    assert_call(e.get_text(), "getText", vec![("aid", i(1)), ("id", i(6))], true);
    assert_call(e.set_hint("h"), "setHint", vec![("aid", i(1)), ("id", i(6)), ("hint", s("h"))], false);
    assert_eq!(EditText::text_from_reply(&s("typed")), "typed");
    assert_eq!(EditText::text_from_reply(&i(1)), "");
}

#[test]
fn progress_is_clamped() {
    let a = activity(1);
    let p = ProgressBar::from_reply(&a, &i(2)).unwrap();
    assert_call(p.set_progress(150), "setProgress", vec![("aid", i(1)), ("id", i(2)), ("progress", i(100))], false);
    assert_call(p.set_progress(-5), "setProgress", vec![("aid", i(1)), ("id", i(2)), ("progress", i(0))], false);
    assert_call(p.set_progress(42), "setProgress", vec![("aid", i(1)), ("id", i(2)), ("progress", i(42))], false);
}

#[test]
fn web_view_data_is_base64() {
    let a = activity(1);
    let w = WebView::from_reply(&a, &i(2)).unwrap();
    assert_call(
        w.set_data("hi"),
        "setData",
        vec![("aid", i(1)), ("id", i(2)), ("doc", s("aGk=")), ("base64", b(true))],
        false,
    );
    assert_call(
        w.set_data("<h1>é</h1>"),
        "setData",
        vec![("aid", i(1)), ("id", i(2)), ("doc", s("PGgxPsOpPC9oMT4=")), ("base64", b(true))],
        false,
    );
    assert_call(w.set_data(""), "setData", vec![("aid", i(1)), ("id", i(2)), ("doc", s("")), ("base64", b(true))], false);
}

#[test]
fn web_view_javascript_reply() {
    let a = activity(1);
    let w = WebView::from_reply(&a, &i(2)).unwrap();
    assert_call(w.allow_javascript(true), "allowJavascript", vec![("aid", i(1)), ("id", i(2)), ("allow", b(true))], true);
    assert!(WebView::javascript_from_reply(&b(true)));
    assert!(!WebView::javascript_from_reply(&b(false)));
    assert!(!WebView::javascript_from_reply(&JsonValue::Null));
    assert_call(w.go_back(), "goBack", vec![("aid", i(1)), ("id", i(2))], false);
}

#[test]
fn view_dimension_requests() {
    let a = activity(4);
    let v = View::new(10);
    assert_call(v.set_width(&a, 20), "setWidth", vec![("aid", i(4)), ("id", i(10)), ("width", i(20))], false);
    assert_call(v.set_width_px(&a, 20), "setWidth", vec![("aid", i(4)), ("id", i(10)), ("width", i(20)), ("px", b(true))], false);
    assert_call(v.set_height_match_parent(&a), "setHeight", vec![("aid", i(4)), ("id", i(10)), ("height", i(MATCH_PARENT as i64))], false);
    assert_call(v.set_width_wrap_content(&a), "setWidth", vec![("aid", i(4)), ("id", i(10)), ("width", i(-2))], false);
    assert_eq!(WRAP_CONTENT, -2);
    let (w, h) = v.set_dimensions(&a, 1, 2);
    assert_call(w, "setWidth", vec![("aid", i(4)), ("id", i(10)), ("width", i(1))], false);
    assert_call(h, "setHeight", vec![("aid", i(4)), ("id", i(10)), ("height", i(2))], false);
    assert_call(
        v.set_linear_layout_params(&a, 2, Some(0)),
        "setLinearLayoutParams",
        vec![("aid", i(4)), ("id", i(10)), ("weight", i(2)), ("position", i(0))],
        false,
    );
    assert_call(v.set_linear_layout_params(&a, 1, None), "setLinearLayoutParams", vec![("aid", i(4)), ("id", i(10)), ("weight", i(1))], false);
}

#[test]
fn dimensions_reply_reading() {
    assert_eq!(View::dimensions_from_reply(&JsonValue::Array(vec![i(1080), i(720)])), (1080, 720));
    assert_eq!(View::dimensions_from_reply(&JsonValue::Array(vec![i(5)])), (5, 0));
    assert_eq!(View::dimensions_from_reply(&i(5)), (0, 0));
    assert_eq!(View::dimensions_from_reply(&JsonValue::Array(vec![i(4_294_967_297), s("x")])), (1, 0));
    assert_eq!(HorizontalScrollView::scroll_position_from_reply(&JsonValue::Array(vec![i(30), i(0)])), (30, 0));
}

#[test]
fn activity_title_and_finish() {
    let a = activity(7);
    let (theme, task) = a.set_title("T");
    assert_call(
        theme,
        "setTheme",
        vec![
            ("aid", i(7)),
            ("statusBarColor", i(0)),
            ("colorPrimary", i(0)),
            ("windowBackground", i(0)),
            ("textColor", i(0)),
            ("colorAccent", i(0)),
        ],
        false,
    );
    assert_call(task, "setTaskDescription", vec![("aid", i(7)), ("label", s("T"))], true);
    assert_call(a.finish(), "finishActivity", vec![("aid", i(7)), ("finishing", b(true))], true);
}

#[test]
fn activity_create_requests() {
    let a = activity(7);
    assert_call(a.create_linear_layout(None), "createLinearLayout", vec![("aid", i(7)), ("vertical", b(true))], true);
    assert_call(a.create_linear_layout_horizontal(Some(1)), "createLinearLayout", vec![("aid", i(7)), ("vertical", b(false)), ("parent", i(1))], true);
    assert_call(a.create_text_view("x", None), "createTextView", vec![("aid", i(7)), ("text", s("x"))], true);
    assert_call(a.create_switch_checked("x", None, true), "createSwitch", vec![("aid", i(7)), ("parent", i(7)), ("text", s("x")), ("checked", b(true))], true);
    assert_call(a.create_space(None), "createSpace", vec![("aid", i(7))], true);
}

#[test]
fn layout_requests() {
    let a = activity(1);
    assert_call(GridLayout::new(&a, 2, 3, None), "createGridLayout", vec![("aid", i(1)), ("rows", i(2)), ("cols", i(3))], true);
    assert_call(
        HorizontalScrollView::new(&a, None),
        "createHorizontalScrollView",
        vec![("aid", i(1)), ("nobar", b(false)), ("snapping", b(false)), ("fillviewport", b(true))],
        true,
    );
    let hs = HorizontalScrollView::from_reply(&a, &i(3)).unwrap();
    assert_call(
        hs.set_scroll_position(100, 0, true),
        "setScrollPosition",
        vec![("aid", i(1)), ("id", i(3)), ("x", i(100)), ("y", i(0)), ("soft", b(true))],
        false,
    );
    let tabs = TabLayout::from_reply(&a, &i(4)).unwrap();
    assert_call(
        tabs.set_list(&["A", "B"]),
        "setList",
        vec![("aid", i(1)), ("id", i(4)), ("list", JsonValue::Array(vec![s("A"), s("B")]))],
        false,
    );
    assert_call(tabs.select_tab(1), "selectTab", vec![("aid", i(1)), ("id", i(4)), ("tab", i(1))], false);
}

#[test]
fn spinner_and_text_view_requests() {
    let a = activity(1);
    let sp = Spinner::from_reply(&a, &i(5)).unwrap();
    assert_call(sp.select_item(2), "selectItem", vec![("aid", i(1)), ("id", i(5)), ("item", i(2))], false);
    assert_call(sp.refresh(), "refreshSpinner", vec![("aid", i(1)), ("id", i(5))], false);
    let tv = TextView::from_reply(&a, &i(6)).unwrap();
    assert_call(tv.set_text_size(24), "setTextSize", vec![("aid", i(1)), ("id", i(6)), ("size", i(24))], false);
    assert_call(tv.set_text("y"), "setText", vec![("aid", i(1)), ("id", i(6)), ("text", s("y"))], false);
}
