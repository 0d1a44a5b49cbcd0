//! `security`: the system's store of signing identities and certificates.

use vstd::prelude::*;
use crate::invocation::{Invocation, InvocationView};

verus! {

/// The run that lists the valid code-signing identities.
pub fn find_identities() -> (r: Invocation)
    ensures
        r@ =~= InvocationView::plain(
            "security"@,
            seq!["find-identity"@, "-v"@, "-p"@, "codesigning"@],
        ),
{
    let mut command = Invocation::new("security");
    command.arg("find-identity");
    command.arg("-v");
    command.arg("-p");
    command.arg("codesigning");
    command
}

/// The run that prints, in PEM form, every certificate whose common name
/// holds `name`.
pub fn find_certificate(name: &str) -> (r: Invocation)
    ensures
        r@ =~= InvocationView::plain(
            "security"@,
            seq!["find-certificate"@, "-a"@, "-c"@, name@, "-p"@],
        ),
{
    let mut command = Invocation::new("security");
    command.arg("find-certificate");
    command.arg("-a");
    command.arg("-c");
    command.arg(name);
    command.arg("-p");
    command
}

/// The run that prints the content of the signed message in `file`.
pub fn decode_cms(file: &str) -> (r: Invocation)
    ensures
        r@ =~= InvocationView::plain("security"@, seq!["cms"@, "-D"@, "-i"@, file@]),
{
    let mut command = Invocation::new("security");
    command.arg("cms");
    command.arg("-D");
    command.arg("-i");
    command.arg(file);
    command
}

} // verus!
