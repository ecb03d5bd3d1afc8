//! Turning resolved variables into text a shell can source.
use vstd::prelude::*;
use crate::error::NovopsError;
use crate::modules::variables::VariableOutput;
use crate::text::{copy_string, push_char, replace_char, replace_char_spec, str_eq};

verus! {

/// The escape that stands for one single quote inside a single-quoted shell word:
/// close the quote, a double-quoted `'`, reopen the quote.
pub open spec fn single_quote_escape() -> Seq<char> {
    seq!['\'', '"', '\'', '"', '\'']
}

/// The escape that stands for one double quote inside a double-quoted shell word:
/// close the quote, a single-quoted `"`, reopen the quote.
pub open spec fn double_quote_escape() -> Seq<char> {
    seq!['"', '\'', '"', '\'', '"']
}

/// `v` as a single-quoted shell word.
pub open spec fn single_quoted(v: Seq<char>) -> Seq<char> {
    seq!['\''] + replace_char_spec(v, '\'', single_quote_escape()) + seq!['\'']
}

/// `v` as a double-quoted shell word.
pub open spec fn double_quoted(v: Seq<char>) -> Seq<char> {
    seq!['"'] + replace_char_spec(v, '"', double_quote_escape()) + seq!['"']
}

/// Where a shell stands while reading a word.
#[derive(Debug, Clone, Copy, PartialEq, Eq, Structural)]
pub enum QuoteState {
    Unquoted,
    InSingleQuotes,
    InDoubleQuotes,
}

/// One character read by a POSIX shell, restricted to quoted text: inside single quotes
/// every character but `'` stands for itself; inside double quotes every character but
/// `"`, `$`, `` ` `` and `\` does, those three starting an expansion or escape, which is
/// not modelled (`None`); outside quotes only a quote is modelled.
pub open spec fn shell_step(st: QuoteState, acc: Seq<char>, c: char) -> Option<(QuoteState, Seq<char>)> {
    match st {
        QuoteState::Unquoted => if c == '\'' {
            Some((QuoteState::InSingleQuotes, acc))
        } else if c == '"' {
            Some((QuoteState::InDoubleQuotes, acc))
        } else {
            None
        },
        QuoteState::InSingleQuotes => if c == '\'' {
            Some((QuoteState::Unquoted, acc))
        } else {
            Some((QuoteState::InSingleQuotes, acc.push(c)))
        },
        QuoteState::InDoubleQuotes => if c == '"' {
            Some((QuoteState::Unquoted, acc))
        } else if c == '$' || c == '`' || c == '\\' {
            None
        } else {
            Some((QuoteState::InDoubleQuotes, acc.push(c)))
        },
    }
}

/// Where the shell stands after reading `s`, and the text read so far.
pub open spec fn shell_read(s: Seq<char>) -> Option<(QuoteState, Seq<char>)>
    decreases s.len(),
{
    if s.len() == 0 {
        Some((QuoteState::Unquoted, seq![]))
    } else {
        match shell_read(s.drop_last()) {
            Some((st, acc)) => shell_step(st, acc, s.last()),
            None => None,
        }
    }
}

/// The value a shell gives to the word `s`, when it is made of quoted text only.
pub open spec fn shell_word(s: Seq<char>) -> Option<Seq<char>> {
    match shell_read(s) {
        Some((QuoteState::Unquoted, acc)) => Some(acc),
        _ => None,
    }
}

proof fn lemma_single_quoted_body(v: Seq<char>)
    ensures
        shell_read(seq!['\''] + replace_char_spec(v, '\'', single_quote_escape())) == Some(
            (QuoteState::InSingleQuotes, v),
        ),
    decreases v.len(),
{
    let esc = single_quote_escape();
    if v.len() == 0 {
        assert((seq!['\''] + replace_char_spec(v, '\'', esc)) =~= seq!['\'']);
        assert(seq!['\''].drop_last() =~= Seq::<char>::empty());
        assert(shell_read(Seq::<char>::empty()) == Some((QuoteState::Unquoted, Seq::<char>::empty())));
        assert(seq!['\''].last() == '\'');
        assert(shell_read(seq!['\'']) == Some((QuoteState::InSingleQuotes, Seq::<char>::empty())));
        assert(v =~= Seq::<char>::empty());
    } else {
        lemma_single_quoted_body(v.drop_last());
        let p = seq!['\''] + replace_char_spec(v.drop_last(), '\'', esc);
        let c = v.last();
        if c == '\'' {
            let vd = v.drop_last();
            let q1 = p.push('\'');
            let q2 = q1.push('"');
            let q3 = q2.push('\'');
            let q4 = q3.push('"');
            let w = q4.push('\'');
            assert(seq!['\''] + replace_char_spec(v, '\'', esc) =~= w);
            assert(q1.drop_last() =~= p);
            assert(shell_read(q1) == Some((QuoteState::Unquoted, vd)));
            assert(q2.drop_last() =~= q1);
            assert(shell_read(q2) == Some((QuoteState::InDoubleQuotes, vd)));
            assert(q3.drop_last() =~= q2);
            assert(shell_read(q3) == Some((QuoteState::InDoubleQuotes, vd.push('\''))));
            assert(q4.drop_last() =~= q3);
            assert(shell_read(q4) == Some((QuoteState::Unquoted, vd.push('\''))));
            assert(w.drop_last() =~= q4);
            assert(vd.push('\'') =~= v);
        } else {
            let w = p + seq![c];
            assert(seq!['\''] + replace_char_spec(v, '\'', esc) =~= w);
            assert(w.drop_last() =~= p);
            assert(v.drop_last().push(c) =~= v);
        }
    }
}

/// A single-quoted value is read back by a shell exactly as it was: quotes inside it
/// are escaped, and nothing inside single quotes is interpolated.
pub proof fn lemma_single_quoting_reads_back(v: Seq<char>)
    ensures
        shell_word(single_quoted(v)) == Some(v),
{
    lemma_single_quoted_body(v);
    let w = single_quoted(v);
    assert(w.drop_last() =~= seq!['\''] + replace_char_spec(v, '\'', single_quote_escape()));
}

/// No character of `v` starts an expansion or an escape inside double quotes.
pub open spec fn no_double_quote_expansion(v: Seq<char>) -> bool {
    forall|i: int| 0 <= i < v.len() ==> #[trigger] v[i] != '$' && v[i] != '`' && v[i] != '\\'
}

proof fn lemma_double_quoted_body(v: Seq<char>)
    requires
        no_double_quote_expansion(v),
    ensures
        shell_read(seq!['"'] + replace_char_spec(v, '"', double_quote_escape())) == Some(
            (QuoteState::InDoubleQuotes, v),
        ),
    decreases v.len(),
{
    let esc = double_quote_escape();
    if v.len() == 0 {
        assert((seq!['"'] + replace_char_spec(v, '"', esc)) =~= seq!['"']);
        assert(seq!['"'].drop_last() =~= Seq::<char>::empty());
        assert(shell_read(Seq::<char>::empty()) == Some((QuoteState::Unquoted, Seq::<char>::empty())));
        assert(seq!['"'].last() == '"');
        assert(shell_read(seq!['"']) == Some((QuoteState::InDoubleQuotes, Seq::<char>::empty())));
        assert(v =~= Seq::<char>::empty());
    } else {
        assert(no_double_quote_expansion(v.drop_last())) by {
            assert forall|i: int| 0 <= i < v.drop_last().len() implies #[trigger] v.drop_last()[i] != '$'
                && v.drop_last()[i] != '`' && v.drop_last()[i] != '\\' by {
                assert(v.drop_last()[i] == v[i]);
            }
        }
        lemma_double_quoted_body(v.drop_last());
        let p = seq!['"'] + replace_char_spec(v.drop_last(), '"', esc);
        let c = v.last();
        assert(c == v[v.len() - 1]);
        if c == '"' {
            let vd = v.drop_last();
            let q1 = p.push('"');
            let q2 = q1.push('\'');
            let q3 = q2.push('"');
            let q4 = q3.push('\'');
            let w = q4.push('"');
            assert(seq!['"'] + replace_char_spec(v, '"', esc) =~= w);
            assert(q1.drop_last() =~= p);
            assert(shell_read(q1) == Some((QuoteState::Unquoted, vd)));
            assert(q2.drop_last() =~= q1);
            assert(shell_read(q2) == Some((QuoteState::InSingleQuotes, vd)));
            assert(q3.drop_last() =~= q2);
            assert(shell_read(q3) == Some((QuoteState::InSingleQuotes, vd.push('"'))));
            assert(q4.drop_last() =~= q3);
            assert(shell_read(q4) == Some((QuoteState::Unquoted, vd.push('"'))));
            assert(w.drop_last() =~= q4);
            assert(vd.push('"') =~= v);
        } else {
            let w = p + seq![c];
            assert(seq!['"'] + replace_char_spec(v, '"', esc) =~= w);
            assert(w.drop_last() =~= p);
            assert(v.drop_last().push(c) =~= v);
        }
    }
}

/// A double-quoted value is read back by a shell exactly as it was, as long as it holds
/// none of `$`, `` ` `` and `\`, which the shell would expand.
pub proof fn lemma_double_quoting_reads_back(v: Seq<char>)
    requires
        no_double_quote_expansion(v),
    ensures
        shell_word(double_quoted(v)) == Some(v),
{
    lemma_double_quoted_body(v);
    let w = double_quoted(v);
    assert(w.drop_last() =~= seq!['"'] + replace_char_spec(v, '"', double_quote_escape()));
}

/// `s` with each occurrence of the single-quote escape, found from left to right, replaced
/// by a single quote (as `str::replace` does).
pub open spec fn unescape_single(s: Seq<char>) -> Seq<char>
    decreases s.len(),
{
    if s.len() == 0 {
        seq![]
    } else if s.len() >= 5 && s.take(5) == single_quote_escape() {
        seq!['\''] + unescape_single(s.skip(5))
    } else {
        seq![s[0]] + unescape_single(s.skip(1))
    }
}

/// Replacing characters can be read from the front: the first character's replacement,
/// then the rest's.
proof fn lemma_replace_front(c: char, rest: Seq<char>, q: char, rep: Seq<char>)
    ensures
        replace_char_spec(seq![c] + rest, q, rep) == (if c == q {
            rep
        } else {
            seq![c]
        }) + replace_char_spec(rest, q, rep),
    decreases rest.len(),
{
    let s = seq![c] + rest;
    if rest.len() == 0 {
        assert(s.drop_last() =~= Seq::<char>::empty());
        assert(replace_char_spec(Seq::<char>::empty(), q, rep) =~= Seq::<char>::empty());
        assert(s.last() == c);
        assert(replace_char_spec(s, q, rep) =~= (if c == q { rep } else { seq![c] }));
    } else {
        lemma_replace_front(c, rest.drop_last(), q, rep);
        assert(s.drop_last() =~= seq![c] + rest.drop_last());
        assert(s.last() == rest.last());
        assert(replace_char_spec(s, q, rep) =~= (if c == q { rep } else { seq![c] }) + replace_char_spec(rest, q, rep));
    }
}

/// The escaping of single quotes is undone exactly: replacing each escape `'"'"'` by a
/// single quote in a prepared value gives back the value.
pub proof fn lemma_single_quote_escape_undone(v: Seq<char>)
    ensures
        unescape_single(replace_char_spec(v, '\'', single_quote_escape())) == v,
    decreases v.len(),
{
    let esc = single_quote_escape();
    if v.len() == 0 {
        assert(replace_char_spec(v, '\'', esc) =~= Seq::<char>::empty());
    } else {
        let c = v[0];
        let rest = v.drop_first();
        assert(v =~= seq![c] + rest);
        lemma_replace_front(c, rest, '\'', esc);
        lemma_single_quote_escape_undone(rest);
        let w = replace_char_spec(v, '\'', esc);
        let tail = replace_char_spec(rest, '\'', esc);
        if c == '\'' {
            assert(w =~= esc + tail);
            assert(w.take(5) =~= esc);
            assert(w.skip(5) =~= tail);
        } else {
            assert(w =~= seq![c] + tail);
            assert(!(w.len() >= 5 && w.take(5) == esc)) by {
                if w.len() >= 5 && w.take(5) == esc {
                    assert(w.take(5)[0] == w[0]);
                    assert(esc[0] == '\'');
                }
            }
            assert(w.skip(1) =~= tail);
        }
        assert(unescape_single(w) =~= v);
    }
}

pub open spec fn single_word() -> Seq<char> {
    seq!['s', 'i', 'n', 'g', 'l', 'e']
}

pub open spec fn double_word() -> Seq<char> {
    seq!['d', 'o', 'u', 'b', 'l', 'e']
}

pub open spec fn opt_view(o: Option<String>) -> Option<Seq<char>> {
    match o {
        Some(s) => Some(s@),
        None => None,
    }
}

/// The quoted value of a variable: double quotes when `double` is asked for, single quotes
/// otherwise (the default, `single`, and any other method).
pub open spec fn quote_spec(value: Seq<char>, method: Option<Seq<char>>) -> Seq<char> {
    if method == Some(double_word()) {
        double_quoted(value)
    } else {
        single_quoted(value)
    }
}

/// The value written for a variable is read back by a shell as the variable's value: always
/// with single quotes (used for every method but `double`), and with double quotes when the
/// value holds nothing that the shell expands inside them.
pub proof fn lemma_quoted_value_reads_back(value: Seq<char>, method: Option<Seq<char>>)
    requires
        method == Some(double_word()) ==> no_double_quote_expansion(value),
    ensures
        shell_word(quote_spec(value, method)) == Some(value),
{
    if method == Some(double_word()) {
        lemma_double_quoting_reads_back(value);
    } else {
        lemma_single_quoting_reads_back(value);
    }
}

pub open spec fn export_prefix() -> Seq<char> {
    seq!['e', 'x', 'p', 'o', 'r', 't', ' ']
}

pub open spec fn dotenv_export_word() -> Seq<char> {
    seq!['d', 'o', 't', 'e', 'n', 'v', '-', 'e', 'x', 'p', 'o', 'r', 't']
}

pub open spec fn dotenv_word() -> Seq<char> {
    seq!['d', 'o', 't', 'e', 'n', 'v']
}

/// One line of output for a variable: `[export ]NAME=<quoted value>` and a line feed.
pub open spec fn line_spec(prefix: Seq<char>, v: VariableOutput) -> Seq<char> {
    prefix + v.name@ + seq!['='] + quote_spec(v.value@, opt_view(v.quote_method)) + seq!['\n']
}

/// All lines, in order.
pub open spec fn lines_for(prefix: Seq<char>, vars: Seq<VariableOutput>) -> Seq<char>
    decreases vars.len(),
{
    if vars.len() == 0 {
        seq![]
    } else {
        lines_for(prefix, vars.drop_last()) + line_spec(prefix, vars.last())
    }
}

/// The lines of a list of variables are one line per variable, in their order: those of
/// a list followed by another are the lines of the first followed by those of the second.
pub proof fn lemma_lines_concat(prefix: Seq<char>, a: Seq<VariableOutput>, b: Seq<VariableOutput>)
    ensures
        lines_for(prefix, a + b) == lines_for(prefix, a) + lines_for(prefix, b),
    decreases b.len(),
{
    if b.len() == 0 {
        assert(a + b =~= a);
        assert(lines_for(prefix, a) + lines_for(prefix, b) =~= lines_for(prefix, a));
    } else {
        assert((a + b).drop_last() =~= a + b.drop_last());
        assert((a + b).last() == b.last());
        lemma_lines_concat(prefix, a, b.drop_last());
        assert(lines_for(prefix, a + b) =~= lines_for(prefix, a) + lines_for(prefix, b));
    }
}

/// The line of one variable: the prefix, its name, `=`, its quoted value, a line feed.
pub proof fn lemma_line_of_one(prefix: Seq<char>, v: VariableOutput)
    ensures
        lines_for(prefix, seq![v]) == prefix + v.name@ + "="@ + quote_spec(v.value@, opt_view(v.quote_method))
            + "\n"@,
{
    reveal_strlit("=");
    reveal_strlit("\n");
    assert("="@ =~= seq!['=']);
    assert("\n"@ =~= seq!['\n']);
    assert(seq![v].drop_last() =~= Seq::<VariableOutput>::empty());
    assert(lines_for(prefix, Seq::<VariableOutput>::empty()) == Seq::<char>::empty());
    assert(seq![v].last() == v);
    assert(lines_for(prefix, seq![v]) == line_spec(prefix, v));
    assert(lines_for(prefix, seq![v]) =~= prefix + v.name@ + "="@ + quote_spec(v.value@, opt_view(v.quote_method))
        + "\n"@);
}

/// Wraps a variable's value in quotes, escaping the quote character inside it: double
/// quotes when its quote method is `double`, single quotes otherwise. It always succeeds.
pub fn wrap_var_output_in_quotes(var: &VariableOutput) -> (r: Result<String, NovopsError>)
    ensures
        r matches Ok(s) && s@ == quote_spec(var.value@, opt_view(var.quote_method)),
{
    proof {
        reveal_strlit("double");
        reveal_strlit("'\"'\"'");
        reveal_strlit("\"'\"'\"");
        assert("double"@ =~= double_word());
        assert("'\"'\"'"@ =~= single_quote_escape());
        assert("\"'\"'\""@ =~= double_quote_escape());
    }
    let use_double = match &var.quote_method {
        None => false,
        Some(m) => str_eq(m.as_str(), "double"),
    };
    if use_double {
        let mut out = String::new();
        push_char(&mut out, '"');
        out.append(replace_char(var.value.as_str(), '"', "\"'\"'\"").as_str());
        push_char(&mut out, '"');
        assert(out@ =~= double_quoted(var.value@));
        Ok(out)
    } else {
        let mut out = String::new();
        push_char(&mut out, '\'');
        out.append(replace_char(var.value.as_str(), '\'', "'\"'\"'").as_str());
        push_char(&mut out, '\'');
        assert(out@ =~= single_quoted(var.value@));
        Ok(out)
    }
}

/// Renders variables as a sourceable file: `export NAME='value'` lines for
/// `dotenv-export`, `NAME='value'` lines for `dotenv`, each value quoted by its method;
/// an error exactly when the format is neither.
pub fn format_variable_outputs(format: &str, safe_vars: &Vec<VariableOutput>) -> (r: Result<String, NovopsError>)
    ensures
        format@ == dotenv_export_word() ==> (r matches Ok(s) && s@ == lines_for(export_prefix(), safe_vars@)),
        format@ == dotenv_word() ==> (r matches Ok(s) && s@ == lines_for(seq![], safe_vars@)),
        format@ != dotenv_export_word() && format@ != dotenv_word() ==> (r matches Err(
            NovopsError::UnknownFormat(f),
        ) && f@ == format@),
        format@ == "dotenv-export"@ ==> (r matches Ok(s) && s@ == lines_for("export "@, safe_vars@)),
        format@ == "dotenv"@ ==> (r matches Ok(s) && s@ == lines_for(seq![], safe_vars@)),
{
    proof {
        reveal_strlit("dotenv-export");
        reveal_strlit("dotenv");
        reveal_strlit("export ");
        assert("dotenv-export"@ =~= dotenv_export_word());
        assert("dotenv"@ =~= dotenv_word());
        assert("export "@ =~= export_prefix());
    }
    let export = if str_eq(format, "dotenv-export") {
        true
    } else if str_eq(format, "dotenv") {
        false
    } else {
        return Err(NovopsError::UnknownFormat(copy_string(format)));
    };
    let ghost prefix = if export {
        export_prefix()
    } else {
        seq![]
    };
    let mut out = String::new();
    let mut i: usize = 0;
    while i < safe_vars.len()
        invariant
            i <= safe_vars.len(),
            prefix == (if export {
                export_prefix()
            } else {
                seq![]
            }),
            lines_for(prefix, safe_vars@.take(i as int)) == out@,
            export ==> format@ == dotenv_export_word(),
            !export ==> format@ == dotenv_word(),
            "export "@ == export_prefix(),
        decreases safe_vars.len() - i,
    {
        let v = &safe_vars[i];
        assert(safe_vars@.take(i + 1).drop_last() =~= safe_vars@.take(i as int));
        let q = match wrap_var_output_in_quotes(v) {
            Ok(q) => q,
            Err(e) => return Err(e),
        };
        if export {
            out.append("export ");
        }
        out.append(v.name.as_str());
        push_char(&mut out, '=');
        out.append(q.as_str());
        push_char(&mut out, '\n');
        i = i + 1;
        assert(lines_for(prefix, safe_vars@.take(i as int)) =~= out@);
    }
    assert(safe_vars@.take(safe_vars.len() as int) =~= safe_vars@);
    Ok(out)
}

/// Returns the variables with every single quote in their values replaced by
/// `'"'"'`, ready to be placed between single quotes by hand. `format_variable_outputs`
/// escapes values itself: passing it prepared variables escapes their quotes twice.
pub fn prepare_variable_outputs(vars: &Vec<VariableOutput>) -> (r: Vec<VariableOutput>)
    ensures
        r@.len() == vars@.len(),
        forall|i: int|
            #![trigger r@[i]]
            0 <= i < vars@.len() ==> r@[i].name@ == vars@[i].name@ && r@[i].value@
                == replace_char_spec(vars@[i].value@, '\'', single_quote_escape())
                && r@[i].quote_method == vars@[i].quote_method,
{
    proof {
        reveal_strlit("'\"'\"'");
        assert("'\"'\"'"@ =~= single_quote_escape());
    }
    let mut safe_vars: Vec<VariableOutput> = Vec::new();
    let mut i: usize = 0;
    while i < vars.len()
        invariant
            i <= vars.len(),
            safe_vars@.len() == i,
            "'\"'\"'"@ == single_quote_escape(),
            forall|j: int|
                #![trigger safe_vars@[j]]
                0 <= j < i ==> safe_vars@[j].name@ == vars@[j].name@ && safe_vars@[j].value@
                    == replace_char_spec(vars@[j].value@, '\'', single_quote_escape())
                    && safe_vars@[j].quote_method == vars@[j].quote_method,
        decreases vars.len() - i,
    {
        let v = &vars[i];
        let safe_val = replace_char(v.value.as_str(), '\'', "'\"'\"'");
        safe_vars.push(
            VariableOutput {
                name: copy_string(v.name.as_str()),
                value: safe_val,
                quote_method: copy_opt_string(&v.quote_method),
            },
        );
        i = i + 1;
    }
    safe_vars
}

/// A copy of an optional string.
pub fn copy_opt_string(o: &Option<String>) -> (r: Option<String>)
    ensures
        r == *o,
{
    match o {
        Some(s) => Some(s.clone()),
        None => None,
    }
}

/// The fixed words this module writes and matches, spelled out as text.
pub proof fn lemma_export_words()
    ensures
        single_quote_escape() == "'\"'\"'"@,
        double_quote_escape() == "\"'\"'\""@,
        single_word() == "single"@,
        double_word() == "double"@,
        export_prefix() == "export "@,
        dotenv_export_word() == "dotenv-export"@,
        dotenv_word() == "dotenv"@,
{
    reveal_strlit("'\"'\"'");
    reveal_strlit("\"'\"'\"");
    reveal_strlit("single");
    reveal_strlit("double");
    reveal_strlit("export ");
    reveal_strlit("dotenv-export");
    reveal_strlit("dotenv");
    assert(single_quote_escape() =~= "'\"'\"'"@);
    assert(double_quote_escape() =~= "\"'\"'\""@);
    assert(single_word() =~= "single"@);
    assert(double_word() =~= "double"@);
    assert(export_prefix() =~= "export "@);
    assert(dotenv_export_word() =~= "dotenv-export"@);
    assert(dotenv_word() =~= "dotenv"@);
}

} // verus!
