//! How failures are worded: the step that failed, a colon, and what the
//! system said about it.

use vstd::prelude::*;
use vstd::string::*;

verus! {

/// The text of a failure: its context, then `": "`, then the detail.
pub open spec fn described(context: Seq<char>, detail: Seq<char>) -> Seq<char> {
    context + ": "@ + detail
}

/// A failure's text ends with the detail that was reported, unchanged.
pub proof fn lemma_described_ends_with_detail(context: Seq<char>, detail: Seq<char>)
    ensures
        described(context, detail).len() == context.len() + 2 + detail.len(),
        described(context, detail).subrange(
            (context.len() + 2) as int,
            described(context, detail).len() as int,
        ) == detail,
        described(context, detail).subrange(0, context.len() as int) == context,
{
    reveal_strlit(": ");
    let text = described(context, detail);
    assert(text.subrange((context.len() + 2) as int, text.len() as int) =~= detail);
    assert(text.subrange(0, context.len() as int) =~= context);
}

/// Words a failure.
pub fn describe(context: &str, detail: &str) -> (text: String)
    ensures
        text@ == described(context@, detail@),
{
    let mut text = context.to_owned();
    text.append(": ");
    text.append(detail);
    text
}

/// Reports how one step went: its value, or its failure worded with the
/// step's context.
pub fn report_step<T>(context: &str, done: Result<T, String>) -> (report: Result<T, String>)
    ensures
        match done {
            Ok(value) => report == Ok::<T, String>(value),
            Err(reason) => report matches Err(message) && message@ == described(
                context@,
                reason@,
            ),
        },
{
    match done {
        Ok(value) => Ok(value),
        Err(reason) => Err(describe(context, reason.as_str())),
    }
}

/// The outcome of a fallible step with its failure text taken as plain
/// characters.
pub open spec fn outcome<T>(result: Result<T, String>) -> Result<T, Seq<char>> {
    match result {
        Ok(value) => Ok(value),
        Err(text) => Err(text@),
    }
}

} // verus!
