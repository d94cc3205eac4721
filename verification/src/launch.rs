//! How the program was started.
use crate::text::{char_vec, same};
use vstd::prelude::*;

verus! {

/// The title of the popup's window, by which a second instance finds the first.
pub const TITLE: &'static str = "Sidegate VPN";

/// What the command line asks for.
#[derive(Debug, PartialEq, Eq)]
pub enum Launch {
    /// Hand this link to the running instance, show its window, and end.
    Callback(String),
    /// A link that no C string can hold: end.
    BadCallback,
    /// Open the popup, or show the one that is open already.
    Popup,
}

/// Whether the browser has started the program to hand over the result of a login.
pub open spec fn is_callback(args: Seq<Seq<char>>) -> bool {
    args.len() == 3 && args[1] == "--callback"@
}

/// Whether a text holds a NUL character.
fn has_nul(s: &str) -> (b: bool)
    ensures
        b == s@.contains('\0'),
{
    let chars: Vec<char> = char_vec(s);
    let mut i: usize = 0;
    while i < chars.len()
        invariant
            chars@ == s@,
            i <= chars@.len(),
            forall|j: int| 0 <= j < i ==> chars@[j] != '\0',
        decreases chars@.len() - i,
    {
        if chars[i] == '\0' {
            return true;
        }
        i = i + 1;
    }
    false
}

/// Decides what the command line, the program's own name first, asks for.
pub fn launch(args: &Vec<String>) -> (l: Launch)
    ensures
        l is Popup <==> !is_callback(args.deep_view()),
        l is BadCallback <==> is_callback(args.deep_view()) && args.deep_view()[2].contains('\0'),
        l matches Launch::Callback(link) ==> link@ == args.deep_view()[2],
{
    assert(forall|i: int| 0 <= i < args@.len() ==> args.deep_view()[i] == (#[trigger] args@[i])@);
    if args.len() == 3 && same(&args[1], "--callback") {
        if has_nul(args[2].as_str()) {
            Launch::BadCallback
        } else {
            Launch::Callback(args[2].clone())
        }
    } else {
        Launch::Popup
    }
}

/// The error that creating a named object leaves behind when another program has it already.
pub const ALREADY_EXISTS: u32 = 183;

/// `windows_sys`'s constant `ERROR_ALREADY_EXISTS`, whose value is 183.
#[verifier::external_body]
fn error_already_exists() -> (e: u32)
    ensures
        e == ALREADY_EXISTS,
{
    windows_sys::Win32::Foundation::ERROR_ALREADY_EXISTS
}

/// Whether another instance is running, by the error that creating the program's mutex has left
/// behind. Then its popup is shown, and this instance ends.
pub fn already_running(last_error: u32) -> (running: bool)
    ensures
        running == (last_error == ALREADY_EXISTS),
{
    last_error == error_already_exists()
}

/// Three arguments of which the second is `--callback` hand the third over, whatever it holds and
/// however long it is; only a NUL in it stops that.
pub proof fn law_callback_hands_over_link(args: Vec<String>, l: Launch)
    requires
        call_ensures(launch, (&args,), l),
        args@.len() == 3,
        args@[1]@ == "--callback"@,
    ensures
        !args@[2]@.contains('\0') ==> (l matches Launch::Callback(link) && link@ == args@[2]@),
        args@[2]@.contains('\0') ==> l is BadCallback,
{
}

/// Any other number of arguments, and any other second argument, opens the popup.
pub proof fn law_other_arguments_open_popup(args: Vec<String>, l: Launch)
    requires
        call_ensures(launch, (&args,), l),
        args@.len() != 3 || args@[1]@ != "--callback"@,
    ensures
        l is Popup,
{
}

/// Neither the program's own name nor the way the arguments came decides anything: equal second
/// and third arguments lead to the same.
pub proof fn law_name_does_not_matter(a: Vec<String>, b: Vec<String>, of_a: Launch, of_b: Launch)
    requires
        call_ensures(launch, (&a,), of_a),
        call_ensures(launch, (&b,), of_b),
        a@.len() == b@.len(),
        forall|i: int| 1 <= i < a@.len() ==> (#[trigger] a@[i])@ == b@[i]@,
    ensures
        of_a is Popup <==> of_b is Popup,
        of_a is BadCallback <==> of_b is BadCallback,
        of_a matches Launch::Callback(x) ==> (of_b matches Launch::Callback(y) && x@ == y@),
{
    if a@.len() == 3 {
        assert(a@[1]@ == b@[1]@);
        assert(a@[2]@ == b@[2]@);
    }
}

/// Only the error for a name that exists already, 183, means another instance.
pub proof fn law_second_instance(last_error: u32, running: bool)
    requires
        call_ensures(already_running, (last_error,), running),
    ensures
        running <==> last_error == 183,
{
}

} // verus!
