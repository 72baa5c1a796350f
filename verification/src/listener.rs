use vstd::prelude::*;

verus! {

/// The value an input event reports for the element it fired on. Editable
/// form elements report their `value` property — a single-line input first,
/// then a multi-line one; any other editable node falls back to its text
/// content. The surface layer hands the three candidates in; it alone can
/// read them off the target element.
pub fn oninput_value(
    input_value: Option<String>,
    textarea_value: Option<String>,
    text_content: Option<String>,
) -> (r: Option<String>)
    ensures
        r == (if input_value is Some {
            input_value
        } else if textarea_value is Some {
            textarea_value
        } else {
            text_content
        }),
{
    match input_value {
        Option::Some(v) => Option::Some(v),
        Option::None => match textarea_value {
            Option::Some(v) => Option::Some(v),
            Option::None => text_content,
        },
    }
}

} // verus!
