use vstd::prelude::*;

use vstd::utf8::{decode_utf8, valid_utf8};

use crate::error::AppError;

verus! {

/// The window that has the input focus.
#[derive(Debug, Clone, PartialEq)]
pub struct WindowInfo {
    /// The window's title.
    pub title: String,
    /// The window's class, as its `WM_CLASS` property holds it.
    pub class: String,
}

/// The text of the error that `String::from_utf8` reports for `bytes`.
pub uninterp spec fn utf8_error_text(bytes: Seq<u8>) -> Seq<char>;

/// Calls `String::from_utf8`, and on an error its `Display`. The bytes
/// decode when they are valid UTF-8, to the characters they encode; else
/// the error's text is named by [`utf8_error_text`].
#[verifier::external_body]
fn string_from_utf8(bytes: Vec<u8>) -> (r: Result<String, String>)
    ensures
        r is Ok <==> valid_utf8(bytes@),
        r matches Ok(s) ==> s@ == decode_utf8(bytes@),
        r matches Err(m) ==> m@ == utf8_error_text(bytes@),
{
    String::from_utf8(bytes).map_err(|e| format!("{}", e))
}

/// The error for an X11 request that failed: `<context>: <reason>`.
pub fn x11_error(context: &str, detail: &str) -> (e: AppError)
    ensures
        e matches AppError::InputError(m) && m@ == context@ + ": "@ + detail@,
{
    AppError::InputError(String::from_str(context).concat(": ").concat(detail))
}

/// The focused window, from the first value of the root window's
/// `_NET_ACTIVE_WINDOW` property: an error when there is none or it is 0.
pub fn active_window_id(first_value: Option<u32>) -> (r: Result<u32, AppError>)
    ensures
        match first_value {
            None => r matches Err(AppError::InputError(m)) && m@ == "No active window found"@,
            Some(0) => r matches Err(AppError::InputError(m)) && m@ == "Active window ID is zero"@,
            Some(id) => r == Ok::<u32, AppError>(id),
        },
{
    match first_value {
        None => Err(AppError::InputError(String::from_str("No active window found"))),
        Some(id) => if id == 0 {
            Err(AppError::InputError(String::from_str("Active window ID is zero")))
        } else {
            Ok(id)
        },
    }
}

/// The text of a window property whose value is `value`: its UTF-8
/// decoding, or an `InputError` naming the property.
pub open spec fn property_text_spec(value: Seq<u8>, property: Seq<char>) -> core::result::Result<Seq<char>, Seq<char>> {
    if valid_utf8(value) {
        Ok(decode_utf8(value))
    } else {
        Err("Invalid UTF-8 in "@ + property + ": "@ + utf8_error_text(value))
    }
}

/// Decodes a window property's value as UTF-8.
pub fn property_text(value: Vec<u8>, property: &str) -> (r: Result<String, AppError>)
    ensures
        match property_text_spec(value@, property@) {
            Ok(t) => r matches Ok(s) && s@ == t,
            Err(t) => r matches Err(AppError::InputError(m)) && m@ == t,
        },
{
    match string_from_utf8(value) {
        Ok(s) => Ok(s),
        Err(reason) => Err(
            AppError::InputError(
                String::from_str("Invalid UTF-8 in ").concat(property).concat(": ").concat(
                    reason.as_str(),
                ),
            ),
        ),
    }
}

/// What the window's `_NET_WM_NAME` gave towards its title.
pub enum TitleLookup {
    /// The title, or the error decoding it.
    Found(Result<String, AppError>),
    /// The property is empty: the title is to be read from `WM_NAME`.
    TryWmName,
}

/// The title from the UTF-8 `_NET_WM_NAME` property, which is preferred;
/// when it is empty, `WM_NAME` is to be read.
pub fn title_from_net_wm_name(value: Vec<u8>) -> (r: TitleLookup)
    ensures
        value@.len() == 0 <==> r is TryWmName,
        value@.len() > 0 ==> match property_text_spec(value@, "_NET_WM_NAME"@) {
            Ok(t) => r matches TitleLookup::Found(Ok(s)) && s@ == t,
            Err(t) => r matches TitleLookup::Found(Err(AppError::InputError(m))) && m@ == t,
        },
{
    if value.len() == 0 {
        TitleLookup::TryWmName
    } else {
        TitleLookup::Found(property_text(value, "_NET_WM_NAME"))
    }
}

/// The title from the `WM_NAME` property, read when `_NET_WM_NAME` is
/// empty: empty when this one is empty too.
pub fn title_from_wm_name(value: Vec<u8>) -> (r: Result<String, AppError>)
    ensures
        value@.len() == 0 ==> (r matches Ok(s) && s@ == Seq::<char>::empty()),
        value@.len() > 0 ==> match property_text_spec(value@, "WM_NAME"@) {
            Ok(t) => r matches Ok(s) && s@ == t,
            Err(t) => r matches Err(AppError::InputError(m)) && m@ == t,
        },
{
    if value.len() == 0 {
        Ok(String::new())
    } else {
        property_text(value, "WM_NAME")
    }
}

/// The class from the `WM_CLASS` property, kept whole (instance and class
/// separated by a NUL): empty when the property is empty.
pub fn class_from_wm_class(value: Vec<u8>) -> (r: Result<String, AppError>)
    ensures
        value@.len() == 0 ==> (r matches Ok(s) && s@ == Seq::<char>::empty()),
        value@.len() > 0 ==> match property_text_spec(value@, "WM_CLASS"@) {
            Ok(t) => r matches Ok(s) && s@ == t,
            Err(t) => r matches Err(AppError::InputError(m)) && m@ == t,
        },
{
    if value.len() == 0 {
        Ok(String::new())
    } else {
        property_text(value, "WM_CLASS")
    }
}

} // verus!

verus! {

/// The focused window's information from its title and class. A window with
/// neither a title nor a class has missing properties, which is an error.
pub fn window_info(title: String, class: String) -> (r: Result<WindowInfo, AppError>)
    ensures
        title@.len() == 0 && class@.len() == 0 ==> (r matches Err(AppError::InputError(m)) && m@
            == "Active window has no title or class"@),
        title@.len() > 0 || class@.len() > 0 ==> (r matches Ok(info) && info.title@ == title@
            && info.class@ == class@),
{
    if title.as_str().is_empty() && class.as_str().is_empty() {
        Err(AppError::InputError(String::from_str("Active window has no title or class")))
    } else {
        Ok(WindowInfo { title, class })
    }
}

} // verus!
