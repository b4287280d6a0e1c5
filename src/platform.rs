//! Window chrome requested over the platform channel: the app-switcher label
//! and clipboard reads gated by MIME type.
use vstd::prelude::*;
use vstd::string::StringSliceAdditionalSpecFns;
use vstd::utf8::encode_utf8_decode_utf8;

verus! {

/// The only MIME type the clipboard can be read as.
pub open spec fn text_plain() -> Seq<char> {
    "text/plain"@
}

/// A clipboard read asked for a MIME type other than plain text.
#[derive(Debug, Clone, Copy, PartialEq, Eq, Structural)]
pub struct MimeError;

/// What the application asks the OS to show for it in the app switcher.
pub struct AppSwitcherDescription {
    pub primary_color: u32,
    pub label: String,
}

/// Whether two strings hold the same characters.
pub fn same_text(a: &str, b: &str) -> (r: bool)
    ensures
        r == (a@ == b@),
{
    let x = a.as_bytes();
    let y = b.as_bytes();
    proof {
        encode_utf8_decode_utf8(a@);
        encode_utf8_decode_utf8(b@);
    }
    if x.len() != y.len() {
        return false;
    }
    let mut i: usize = 0;
    while i < x.len()
        invariant
            i <= x@.len(),
            x@.len() == y@.len(),
            x@ == a.spec_bytes(),
            y@ == b.spec_bytes(),
            forall|j: int| 0 <= j < i ==> x@[j] == y@[j],
        decreases x@.len() - i,
    {
        if x[i] != y[i] {
            return false;
        }
        i = i + 1;
    }
    assert(x@ =~= y@);
    true
}

/// The window title for an app-switcher description: its label. No other
/// field is used.
pub fn set_application_switcher_description(description: AppSwitcherDescription) -> (title:
    String)
    ensures
        title@ == description.label@,
{
    description.label
}

/// Answers a clipboard read for `mime`, given what the clipboard holds
/// (`None` when it is empty or unset). Plain text is answered with the
/// clipboard's text, or the empty string; any other MIME type is an error,
/// whatever the clipboard holds.
pub fn get_clipboard_data(mime: &str, clipboard: Option<String>) -> (r: Result<String, MimeError>)
    ensures
        mime@ != text_plain() ==> r == Err::<String, MimeError>(MimeError),
        mime@ == text_plain() ==> (r matches Ok(text) && text@ == match clipboard {
            Some(c) => c@,
            None => Seq::<char>::empty(),
        }),
{
    if same_text(mime, "text/plain") {
        match clipboard {
            Some(text) => Ok(text),
            None => Ok(String::new()),
        }
    } else {
        Err(MimeError)
    }
}

} // verus!
