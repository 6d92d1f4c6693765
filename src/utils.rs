use vstd::prelude::*;

verus! {

/// Whether color output is to be disabled: when the opt-out variable is set
/// (whatever its value), or when standard output is not a terminal.
pub fn color_disabled(opt_out_set: bool, stdout_terminal: bool) -> (r: bool)
    ensures
        r == (opt_out_set || !stdout_terminal),
{
    opt_out_set || !stdout_terminal
}

/// Relies on atty::is(Stream::Stdout): whether standard output is attached to
/// a terminal. That depends on the process's surroundings, so nothing is
/// promised of the answer.
#[verifier::external_body]
pub(crate) fn stdout_is_terminal() -> bool {
    atty::is(atty::Stream::Stdout)
}

} // verus!
