use vstd::prelude::*;

verus! {

/// One `Caused by:` line for each cause, in order.
pub open spec fn cause_lines(causes: Seq<Seq<char>>) -> Seq<char>
    decreases causes.len(),
{
    if causes.len() == 0 {
        Seq::empty()
    } else {
        cause_lines(causes.drop_last()) + "Caused by:\n\t"@ + causes.last() + "\n"@
    }
}

/// How an error is shown with the chain of its causes: its own message and an empty line, then
/// one line for each cause, from the nearest to the farthest.
pub open spec fn error_chain_text(error: Seq<char>, causes: Seq<Seq<char>>) -> Seq<char> {
    error + "\n\n"@ + cause_lines(causes)
}

/// An error is shown with its own message first, then an empty line, and each cause adds one
/// line that begins with `Caused by:`, a tab and the cause's message: showing one more cause
/// keeps what was shown and adds that cause's line at the end.
pub proof fn error_chain_shows_each_cause(error: Seq<char>, causes: Seq<Seq<char>>, cause: Seq<char>)
    ensures
        error_chain_text(error, causes).subrange(0, error.len() as int) == error,
        error_chain_text(error, Seq::empty()).len() == error.len() + 2,
        ({
            let before = error_chain_text(error, causes);
            let after = error_chain_text(error, causes.push(cause));
            &&& after.len() == before.len() + 13 + cause.len()
            &&& after.subrange(0, before.len() as int) == before
            &&& after.subrange(before.len() as int, before.len() as int + 12) == "Caused by:\n\t"@
            &&& after.subrange(before.len() as int + 12, after.len() - 1) == cause
            &&& after[after.len() - 1] == '\n'
        }),
{
    reveal_strlit("\n\n");
    reveal_strlit("Caused by:\n\t");
    reveal_strlit("\n");
    let before = error_chain_text(error, causes);
    let after = error_chain_text(error, causes.push(cause));
    assert(causes.push(cause).drop_last() =~= causes);
    assert(cause_lines(Seq::<Seq<char>>::empty()) == Seq::<char>::empty());
    assert(error_chain_text(error, causes).subrange(0, error.len() as int) =~= error);
    assert(after =~= before + "Caused by:\n\t"@ + cause + "\n"@);
    assert(after.subrange(0, before.len() as int) =~= before);
    assert(after.subrange(before.len() as int, before.len() as int + 12) =~= "Caused by:\n\t"@);
    assert(after.subrange(before.len() as int + 12, after.len() - 1) =~= cause);
    assert("Caused by:\n\t"@.len() == 12);
    assert("\n"@.len() == 1 && "\n"@[0] == '\n');
    assert(after[after.len() - 1] == "\n"@[0]);
}

/// The text of the messages of `causes`.
pub open spec fn messages(causes: Seq<String>) -> Seq<Seq<char>> {
    causes.map_values(|cause: String| cause@)
}

/// Shows an error, given by its message, followed by the messages of its causes.
pub fn error_chain_fmt(error: &String, causes: &Vec<String>) -> (text: String)
    ensures
        text@ == error_chain_text(error@, messages(causes@)),
{
    let mut text = error.clone();
    text.append("\n\n");
    let ghost head = text@;
    let n = causes.len();
    let mut i: usize = 0;
    while i < n
        invariant
            n == causes@.len(),
            0 <= i <= n,
            head == error@ + "\n\n"@,
            text@ == head + cause_lines(messages(causes@).take(i as int)),
        decreases n - i,
    {
        let ghost before = text@;
        text.append("Caused by:\n\t");
        text.append(causes[i].as_str());
        text.append("\n");
        proof {
            let all = messages(causes@);
            assert(all.take(i + 1).drop_last() =~= all.take(i as int));
            assert(all.take(i + 1).last() == causes@[i as int]@);
            assert(text@ =~= head + cause_lines(all.take(i + 1)));
        }
        i = i + 1;
    }
    proof {
        assert(messages(causes@).take(n as int) =~= messages(causes@));
    }
    text
}

} // verus!
