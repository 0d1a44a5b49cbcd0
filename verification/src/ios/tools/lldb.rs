//! `lldb`, run without interaction on a script of its commands.

use vstd::prelude::*;
use crate::invocation::{Invocation, InvocationView};

verus! {

/// The run of the debugger on the commands in the file `source`.
pub fn run_source(source: &str) -> (r: Invocation)
    ensures
        r@ =~= InvocationView::plain("lldb"@, seq!["-s"@, source@]),
{
    let mut command = Invocation::new("lldb");
    command.arg("-s");
    command.arg(source);
    command
}

} // verus!
