//! Environment variables: what the config asks for and what loading produces.
use vstd::prelude::*;
use crate::error::NovopsError;
use crate::novops_core::{NovopsContext, ResolveTo, StringResolvableInput};
use crate::export::{copy_opt_string, opt_view};
use crate::text::copy_string;

verus! {

/// An environment variable to load.
#[derive(Debug, Clone, PartialEq)]
pub struct VariableInput {
    /// Environment variable name, such as `NPM_TOKEN`.
    pub name: String,
    /// Source of truth for the value.
    pub value: StringResolvableInput,
    /// `single` (the default) or `double`: how the value is quoted when exported.
    /// Single quotes keep every character as it is; double quotes let the shell interpolate.
    pub quote_method: Option<String>,
}

/// A resolved environment variable.
#[derive(Debug, Clone, PartialEq)]
pub struct VariableOutput {
    pub name: String,
    pub value: String,
    /// `single` (the default) or `double`: how the value is quoted when exported.
    pub quote_method: Option<String>,
}

impl View for VariableOutput {
    /// Name, value and quote method, as character sequences.
    type V = (Seq<char>, Seq<char>, Option<Seq<char>>);

    open spec fn view(&self) -> Self::V {
        (self.name@, self.value@, opt_view(self.quote_method))
    }
}

impl VariableOutput {
    /// A copy of this output.
    pub fn duplicate(&self) -> (r: VariableOutput)
        ensures
            r == *self,
    {
        VariableOutput {
            name: self.name.clone(),
            value: self.value.clone(),
            quote_method: copy_opt_string(&self.quote_method),
        }
    }
}

impl VariableInput {
    /// The output of this input once its value is known: same name and quote method.
    pub fn output_for(&self, value: String) -> (r: VariableOutput)
        ensures
            r.name@ == self.name@,
            r.value@ == value@,
            r.quote_method == self.quote_method,
    {
        VariableOutput {
            name: copy_string(self.name.as_str()),
            value,
            quote_method: copy_opt_string(&self.quote_method),
        }
    }
}

impl ResolveTo<VariableOutput> for VariableInput {
    /// The variable, when its value needs no service (see `StringResolvableInput`).
    fn resolve_offline(&self, ctx: &NovopsContext) -> (r: Option<Result<VariableOutput, NovopsError>>)
        ensures
            match self.value.offline_spec(ctx.dry_run) {
                Some(v) => r matches Some(Ok(o)) && o.name@ == self.name@ && o.value@ == v && o.quote_method
                    == self.quote_method,
                None => r is None,
            },
    {
        match self.value.resolve_offline(ctx) {
            Some(Ok(v)) => Some(Ok(self.output_for(v))),
            Some(Err(e)) => Some(Err(e)),
            None => None,
        }
    }
}

} // verus!
