use novops::error::NovopsError;
use novops::modules::variables::VariableOutput;
use novops::{format_variable_outputs, prepare_variable_outputs, wrap_var_output_in_quotes};

fn var(name: &str, value: &str, quote_method: Option<&str>) -> VariableOutput {
    VariableOutput {
        name: String::from(name),
        value: String::from(value),
        quote_method: quote_method.map(String::from),
    }
}

#[test]
fn test_prepare_variable_output() -> Result<(), NovopsError> {
    let val1 = "VALUE1";
    let var1single = var("VAR1", val1, None);
    let var1double = var("VAR1", val1, Some("double"));

    // Special characters should be escaped
    let val2 = r#"special_char_'"'"'!?`$abc_#~%*µ€{}[]-°+@à^ç=\"#;
    let var2single = var("VAR2", val2, Some("single"));
    let var2double = var("VAR2", val2, Some("double"));

    let result1single = wrap_var_output_in_quotes(&var1single)?;
    let result2single = wrap_var_output_in_quotes(&var2single)?;
    let result1double = wrap_var_output_in_quotes(&var1double)?;
    let result2double = wrap_var_output_in_quotes(&var2double)?;

    assert_eq!(result1single, "'VALUE1'");
    assert_eq!(result2single, "'special_char_'\"'\"'\"'\"'\"'\"'\"'\"'!?`$abc_#~%*µ€{}[]-°+@à^ç=\\'");
    assert_eq!(result1double, "\"VALUE1\"");
    assert_eq!(result2double, "\"special_char_'\"'\"'\"'\"'\"'\"'!?`$abc_#~%*µ€{}[]-°+@à^ç=\\\"");

    Ok(())
}

#[test]
fn test_format_variable_outputs() -> Result<(), NovopsError> {
    let vars = Vec::from([var("VAR1", "VALUE1", None), var("VAR2", "VALUE2", None)]);

    // dotenv
    let result_dotenv = format_variable_outputs("dotenv", &vars)?;
    assert_eq!(result_dotenv, "VAR1='VALUE1'\nVAR2='VALUE2'\n");

    // dotenv-export
    let result_dotenv_export = format_variable_outputs("dotenv-export", &vars)?;
    assert_eq!(result_dotenv_export, "export VAR1='VALUE1'\nexport VAR2='VALUE2'\n");

    // unknown format expect error
    let result_unknown = format_variable_outputs("unknown-zzzz", &vars);
    assert!(result_unknown.is_err());

    Ok(())
}

#[test]
fn format_unknown_format_names_it() {
    let vars = vec![var("A", "b", None)];
    assert_eq!(
        format_variable_outputs("yaml", &vars),
        Err(NovopsError::UnknownFormat(String::from("yaml")))
    );
}

#[test]
fn format_unknown_quote_method_quotes_single() -> Result<(), NovopsError> {
    let vars = vec![var("A", "b", None), var("C", "it's", Some("backtick"))];
    assert_eq!(format_variable_outputs("dotenv", &vars)?, "A='b'\nC='it'\"'\"'s'\n");
    assert_eq!(wrap_var_output_in_quotes(&vars[1])?, "'it'\"'\"'s'");
    Ok(())
}

#[test]
fn format_mixed_quote_methods_and_empty_list() -> Result<(), NovopsError> {
    let vars = vec![var("A", "it's", None), var("B", "say \"hi\"", Some("double"))];
    assert_eq!(
        format_variable_outputs("dotenv-export", &vars)?,
        "export A='it'\"'\"'s'\nexport B=\"say \"'\"'\"hi\"'\"'\"\"\n"
    );
    assert_eq!(format_variable_outputs("dotenv", &Vec::new())?, "");
    Ok(())
}

#[test]
fn prepare_variable_outputs_escapes_single_quotes() {
    let vars = vec![var("PASS", "abc'def", None), var("OTHER", "plain", Some("double"))];
    let safe = prepare_variable_outputs(&vars);
    assert_eq!(safe.len(), 2);
    assert_eq!(safe[0].name, "PASS");
    assert_eq!(safe[0].value, "abc'\"'\"'def");
    assert_eq!(safe[1].value, "plain");
    assert_eq!(safe[1].quote_method, Some(String::from("double")));
    // undoing the escape gives back each value
    for (s, v) in safe.iter().zip(vars.iter()) {
        assert_eq!(s.value.replace("'\"'\"'", "'"), v.value);
    }
}
