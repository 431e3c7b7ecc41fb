//! Copying to the clipboard.
use crate::state::{App, SelectionState};
use crate::text::cat3;
use base64::Engine;
use vstd::prelude::*;
use vstd::string::*;
use vstd::utf8::*;

verus! {

/// The bytes in base64, with the standard alphabet and padding.
pub uninterp spec fn base64_standard(bytes: Seq<u8>) -> Seq<char>;

/// `base64::Engine::encode` of the engine
/// `base64::engine::general_purpose::STANDARD`, on the bytes of a text: what it
/// gives depends on the bytes alone. How it reads is not stated.
#[verifier::external_body]
fn encode_base64(text: &str) -> (r: String)
    ensures
        r@ == base64_standard(encode_utf8(text@)),
{
    base64::engine::general_purpose::STANDARD.encode(text)
}

/// The control sequence that puts what `encoded` encodes on the clipboard.
pub open spec fn copy_sequence(encoded: Seq<char>) -> Seq<char> {
    "\u{1b}]52;c;"@ + encoded + "\u{7}"@
}

/// The control sequence that puts what `encoded` encodes on the clipboard.
pub fn osc52(encoded: &str) -> (r: String)
    ensures
        r@ == copy_sequence(encoded@),
{
    cat3("\u{1b}]52;c;", encoded, "\u{7}")
}

/// The control sequence that puts a text on the clipboard.
pub fn clipboard_sequence(text: &str) -> (r: String)
    ensures
        r@ == copy_sequence(base64_standard(encode_utf8(text@))),
{
    let encoded = encode_base64(text);
    osc52(encoded.as_str())
}

/// A way to copy.
#[derive(Clone, Copy, Debug, PartialEq, Eq, Structural)]
pub enum CopyMethod {
    Pbcopy,
    Xclip,
    /// A control sequence to the terminal.
    Terminal,
}

/// The ways to copy, in the order in which they are tried.
pub open spec fn copy_methods() -> Seq<CopyMethod> {
    seq![CopyMethod::Pbcopy, CopyMethod::Xclip, CopyMethod::Terminal]
}

impl CopyMethod {
    /// The place of a way to copy in the order in which they are tried.
    pub open spec fn place(self) -> int {
        match self {
            CopyMethod::Pbcopy => 0,
            CopyMethod::Xclip => 1,
            CopyMethod::Terminal => 2,
        }
    }

    /// The way that is tried first.
    pub fn first() -> (r: Self)
        ensures
            r == copy_methods()[0],
    {
        CopyMethod::Pbcopy
    }

    /// The program that copies what it reads, with its arguments; none where
    /// the terminal does it.
    pub fn program(self) -> (r: Option<(&'static str, Vec<&'static str>)>)
        ensures
            match self {
                CopyMethod::Pbcopy => r matches Some((p, a)) && p@ == "pbcopy"@ && a@.len() == 0,
                CopyMethod::Xclip => r matches Some((p, a)) && p@ == "xclip"@ && a@.len() == 2
                    && a@[0]@ == "-selection"@ && a@[1]@ == "clipboard"@,
                CopyMethod::Terminal => r is None,
            },
    {
        match self {
            CopyMethod::Pbcopy => {
                let none: Vec<&'static str> = Vec::new();
                Some(("pbcopy", none))
            },
            CopyMethod::Xclip => Some(("xclip", vec!["-selection", "clipboard"])),
            CopyMethod::Terminal => None,
        }
    }
}

impl App {
    /// Takes note of an attempt to copy, and says what to try next: nothing
    /// where it worked or where everything was tried.
    pub fn copy_tried(&mut self, method: CopyMethod, worked: bool, now: u64) -> (r: Option<
        CopyMethod,
    >)
        ensures
            *final(self) == (if worked {
                App {
                    selection_state: SelectionState {
                        copied_flash: Some(now),
                        ..old(self).selection_state
                    },
                    ..*old(self)
                }
            } else {
                *old(self)
            }),
            r == (if worked || method.place() + 1 == copy_methods().len() {
                None
            } else {
                Some(copy_methods()[method.place() + 1])
            }),
    {
        if worked {
            self.copied(now);
            return None;
        }
        match method {
            CopyMethod::Pbcopy => Some(CopyMethod::Xclip),
            CopyMethod::Xclip => Some(CopyMethod::Terminal),
            CopyMethod::Terminal => None,
        }
    }
}

/// The ways to copy are tried in order, each of them once.
pub proof fn methods_are_tried_in_order(method: CopyMethod)
    ensures
        0 <= method.place() < copy_methods().len(),
        copy_methods()[method.place()] == method,
        copy_methods().no_duplicates(),
{
}

} // verus!
