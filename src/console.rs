//! Turns decoded console records into the lines that are printed.
use vstd::prelude::*;

verus! {

/// The lines that a sequence of decode attempts yields: each decoded record, in
/// order; a record that could not be decoded yields none.
pub open spec fn printed_lines(attempts: Seq<Option<String>>) -> Seq<String>
    decreases attempts.len(),
{
    if attempts.len() == 0 {
        Seq::empty()
    } else {
        let head = match attempts[0] {
            Some(line) => seq![line],
            None => Seq::empty(),
        };
        head + printed_lines(attempts.drop_first())
    }
}

/// How many of the attempts decoded.
pub open spec fn decoded_count(attempts: Seq<Option<String>>) -> nat
    decreases attempts.len(),
{
    if attempts.len() == 0 {
        0
    } else {
        (if attempts[0] is Some { 1nat } else { 0nat }) + decoded_count(attempts.drop_first())
    }
}

/// The lines to print for the given decode attempts, one per decoded record.
pub fn console_lines(attempts: Vec<Option<String>>) -> (r: Vec<String>)
    ensures
        r@ == printed_lines(attempts@),
{
    let ghost all = attempts@;
    let mut rest = attempts;
    let mut lines: Vec<String> = Vec::new();
    while rest.len() > 0
        invariant
            lines@ + printed_lines(rest@) == printed_lines(all),
        decreases rest@.len(),
    {
        let ghost before = rest@;
        let attempt = rest.remove(0);
        assert(rest@ =~= before.drop_first());
        match attempt {
            Some(line) => {
                lines.push(line);
                assert(lines@ + printed_lines(rest@) =~= printed_lines(all));
            },
            None => {
                assert(lines@ + printed_lines(rest@) =~= printed_lines(all));
            },
        }
    }
    assert(lines@ + printed_lines(rest@) =~= lines@);
    lines
}

/// Decoding is applied record by record: the lines of two runs of attempts
/// joined are the lines of the first followed by those of the second, so the
/// relative order is kept and a failed record stops nothing after it.
pub proof fn lemma_lines_concat(a: Seq<Option<String>>, b: Seq<Option<String>>)
    ensures
        printed_lines(a + b) == printed_lines(a) + printed_lines(b),
    decreases a.len(),
{
    if a.len() == 0 {
        assert(a + b =~= b);
        assert(printed_lines(a) + printed_lines(b) =~= printed_lines(b));
    } else {
        assert((a + b).drop_first() =~= a.drop_first() + b);
        lemma_lines_concat(a.drop_first(), b);
        assert(printed_lines(a + b) =~= printed_lines(a) + printed_lines(b));
    }
}

/// Exactly one line is printed for each record that decodes.
pub proof fn lemma_lines_count(attempts: Seq<Option<String>>)
    ensures
        printed_lines(attempts).len() == decoded_count(attempts),
    decreases attempts.len(),
{
    if attempts.len() > 0 {
        lemma_lines_count(attempts.drop_first());
    }
}

/// The `k`-th printed line is the line of the `k`-th record that decoded: the
/// record at `i` whose earlier records hold `k` decoded ones.
pub proof fn lemma_line_position(attempts: Seq<Option<String>>, i: int)
    requires
        0 <= i < attempts.len(),
        attempts[i] is Some,
    ensures
        decoded_count(attempts.take(i)) < printed_lines(attempts).len(),
        printed_lines(attempts)[decoded_count(attempts.take(i)) as int] == attempts[i]->Some_0,
{
    let pre = attempts.take(i);
    let post = attempts.skip(i);
    assert(attempts =~= pre + post);
    lemma_lines_concat(pre, post);
    lemma_lines_count(pre);
    assert(post.drop_first() =~= attempts.skip(i + 1));
    assert(printed_lines(post) =~= seq![attempts[i]->Some_0] + printed_lines(post.drop_first()));
}

} // verus!
