//! Gathering what every input of an environment resolved to.
use vstd::prelude::*;
use crate::error::NovopsError;
use crate::modules::files::FileOutput;
use crate::modules::variables::VariableOutput;
use crate::text::copy_string;

verus! {

/// What one input, or one group of inputs, resolved to: variables and files, or a
/// description of what went wrong.
pub type ResolveResult = Result<(Vec<VariableOutput>, Vec<FileOutput>), String>;

/// The failures, in order.
pub open spec fn failures(results: Seq<ResolveResult>) -> Seq<Seq<char>>
    decreases results.len(),
{
    if results.len() == 0 {
        seq![]
    } else {
        match results.last() {
            Ok(_) => failures(results.drop_last()),
            Err(e) => failures(results.drop_last()).push(e@),
        }
    }
}

/// The variables of the successes, in order.
pub open spec fn resolved_variables(results: Seq<ResolveResult>) -> Seq<VariableOutput>
    decreases results.len(),
{
    if results.len() == 0 {
        seq![]
    } else {
        match results.last() {
            Ok((v, _)) => resolved_variables(results.drop_last()) + v@,
            Err(_) => resolved_variables(results.drop_last()),
        }
    }
}

/// The files of the successes, in order.
pub open spec fn resolved_files(results: Seq<ResolveResult>) -> Seq<FileOutput>
    decreases results.len(),
{
    if results.len() == 0 {
        seq![]
    } else {
        match results.last() {
            Ok((_, f)) => resolved_files(results.drop_last()) + f@,
            Err(_) => resolved_files(results.drop_last()),
        }
    }
}

pub open spec fn failure_header() -> Seq<char> {
    seq![
        'F', 'a', 'i', 'l', 'e', 'd', ' ', 't', 'o', ' ', 'r', 'e', 's', 'o', 'l', 'v', 'e', ' ', 'o',
        'n', 'e', ' ', 'o', 'r', ' ', 'm', 'o', 'r', 'e', ' ', 'I', 'n', 'p', 'u', 't', 's', ':', '\n'
    ]
}

pub open spec fn failure_separator() -> Seq<char> {
    seq!['\n', '-', '-', '-', '\n']
}

/// Each failure after a separator line, each followed by a line feed.
pub open spec fn failure_list(errs: Seq<Seq<char>>) -> Seq<char>
    decreases errs.len(),
{
    if errs.len() == 0 {
        seq![]
    } else {
        failure_list(errs.drop_last()) + failure_separator() + errs.last() + seq!['\n']
    }
}

/// The message that reports every failure.
pub open spec fn failure_message(errs: Seq<Seq<char>>) -> Seq<char> {
    failure_header() + failure_list(errs)
}

/// Gathers the results of resolving an environment's inputs: all variables and all files
/// in order when every input resolved, else one error that lists every failure.
pub fn collect_resolve_results(results: Vec<ResolveResult>) -> (r: Result<(Vec<VariableOutput>, Vec<FileOutput>), NovopsError>)
    ensures
        if failures(results@).len() == 0 {
            r matches Ok((v, f)) && v@ == resolved_variables(results@) && f@ == resolved_files(results@)
        } else {
            r matches Err(NovopsError::ResolveFailed(m)) && m@ == failure_message(failures(results@))
        },
{
    proof {
        reveal_strlit("Failed to resolve one or more Inputs:\n");
        reveal_strlit("\n---\n");
        assert("Failed to resolve one or more Inputs:\n"@ =~= failure_header());
        assert("\n---\n"@ =~= failure_separator());
    }
    let ghost orig = results@;
    let ghost mut k: int = 0;
    let mut results = results;
    let mut vars: Vec<VariableOutput> = Vec::new();
    let mut files: Vec<FileOutput> = Vec::new();
    let mut listed = String::new();
    let mut failed = false;
    assert(results@.skip(0) =~= results@);
    assert(orig.take(0) =~= Seq::<ResolveResult>::empty());
    while results.len() > 0
        invariant
            0 <= k <= orig.len(),
            results@ == orig.skip(k),
            vars@ == resolved_variables(orig.take(k)),
            files@ == resolved_files(orig.take(k)),
            listed@ == failure_list(failures(orig.take(k))),
            failed == (failures(orig.take(k)).len() > 0),
            "\n---\n"@ == failure_separator(),
        decreases results.len(),
    {
        let res = results.remove(0);
        let ghost rr = res;
        proof {
            assert(orig.take(k + 1).drop_last() =~= orig.take(k));
            assert(orig[k] == rr);
        }
        match res {
            Ok((v, f)) => {
                let mut v = v;
                let mut f = f;
                vars.append(&mut v);
                files.append(&mut f);
            },
            Err(e) => {
                proof {
                    reveal_strlit("\n");
                    assert("\n"@ =~= seq!['\n']);
                }
                listed.append("\n---\n");
                listed.append(e.as_str());
                listed.append("\n");
                failed = true;
                proof {
                    let t = orig.take(k + 1);
                    assert(t.last() == rr);
                    assert(failures(t) == failures(orig.take(k)).push(e@));
                    assert(failures(t).drop_last() =~= failures(orig.take(k)));
                }
                assert(listed@ =~= failure_list(failures(orig.take(k + 1))));
            },
        }
        proof {
            k = k + 1;
            assert(orig.skip(k) =~= results@);
        }
    }
    assert(orig.take(k) =~= orig);
    if failed {
        let mut message = copy_string("Failed to resolve one or more Inputs:\n");
        message.append(listed.as_str());
        return Err(NovopsError::ResolveFailed(message));
    }
    Ok((vars, files))
}

/// Gathering two runs of results one after the other gives the variables, the files and
/// the failures of the first run followed by those of the second.
pub proof fn lemma_gathering_concatenates(a: Seq<ResolveResult>, b: Seq<ResolveResult>)
    ensures
        resolved_variables(a + b) == resolved_variables(a) + resolved_variables(b),
        resolved_files(a + b) == resolved_files(a) + resolved_files(b),
        failures(a + b) == failures(a) + failures(b),
    decreases b.len(),
{
    if b.len() == 0 {
        assert(a + b =~= a);
        assert(resolved_variables(a) + resolved_variables(b) =~= resolved_variables(a));
        assert(resolved_files(a) + resolved_files(b) =~= resolved_files(a));
        assert(failures(a) + failures(b) =~= failures(a));
    } else {
        assert((a + b).drop_last() =~= a + b.drop_last());
        assert((a + b).last() == b.last());
        lemma_gathering_concatenates(a, b.drop_last());
        match b.last() {
            Ok((v, f)) => {
                assert(resolved_variables(a + b) =~= resolved_variables(a) + resolved_variables(b));
                assert(resolved_files(a + b) =~= resolved_files(a) + resolved_files(b));
            },
            Err(e) => {
                assert(failures(a + b) =~= failures(a) + failures(b));
            },
        }
    }
}

/// Gathering fails exactly when some input failed, and every failure is reported.
pub proof fn lemma_every_failure_reported(results: Seq<ResolveResult>)
    ensures
        failures(results).len() == 0 <==> forall|i: int| 0 <= i < results.len() ==> (#[trigger] results[i]) is Ok,
        forall|i: int| 0 <= i < results.len() ==> match #[trigger] results[i] {
            Err(e) => failures(results).contains(e@),
            Ok(_) => true,
        },
    decreases results.len(),
{
    if results.len() > 0 {
        let init = results.drop_last();
        lemma_every_failure_reported(init);
        assert forall|i: int| 0 <= i < results.len() implies match #[trigger] results[i] {
            Err(e) => failures(results).contains(e@),
            Ok(_) => true,
        } by {
            if i < results.len() - 1 {
                assert(results[i] == init[i]);
                match results[i] {
                    Err(e) => {
                        let j = choose|j: int| 0 <= j < failures(init).len() && failures(init)[j] == e@;
                        match results.last() {
                            Ok(_) => {},
                            Err(l) => {
                                assert(failures(results)[j] == e@);
                            },
                        }
                    },
                    Ok(_) => {},
                }
            } else {
                match results.last() {
                    Err(l) => {
                        assert(failures(results)[failures(init).len() as int] == l@);
                    },
                    Ok(_) => {},
                }
            }
        }
        if failures(results).len() == 0 {
            assert forall|i: int| 0 <= i < results.len() implies (#[trigger] results[i]) is Ok by {
                if i < results.len() - 1 {
                    assert(results[i] == init[i]);
                }
            }
        } else {
            match results.last() {
                Err(l) => {
                    assert(!(results[results.len() - 1] is Ok));
                },
                Ok(_) => {
                    let i = choose|i: int| 0 <= i < init.len() && !(init[i] is Ok);
                    assert(results[i] == init[i]);
                },
            }
        }
    }
}

/// The fixed words this module writes and matches, spelled out as text.
pub proof fn lemma_resolve_words()
    ensures
        failure_header() == "Failed to resolve one or more Inputs:\n"@,
        failure_separator() == "\n---\n"@,
{
    reveal_strlit("Failed to resolve one or more Inputs:\n");
    reveal_strlit("\n---\n");
    assert(failure_header() =~= "Failed to resolve one or more Inputs:\n"@);
    assert(failure_separator() =~= "\n---\n"@);
}

} // verus!
