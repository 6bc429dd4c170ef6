//! What a model does not support is refused before a request is sent.

use crate::error::{DashScopeError, DashScopeErrorView};
use crate::json::str_eq;
use crate::operation::common::Parameters;
use crate::operation::request::RequestTrait;
use vstd::prelude::*;

verus! {

/// One rule about what a model supports.
#[derive(Debug, Clone, Copy, PartialEq, Eq, Structural)]
pub enum ModelValidator {
    /// The model supports everything.
    Default,
    /// The model does not answer in the result format `text`.
    NotSupportResultFormatText,
    /// The model cannot think.
    NotSupportEnableThinking,
    /// The model cannot call tools.
    NotSupportToolCall,
    /// The model does not answer in JSON objects.
    NotSupportJsonOutput,
}

impl ModelValidator {
    /// Whether this rule refuses a request with the given parameters. A
    /// request without parameters is never refused.
    pub open spec fn refuses(self, parameters: Option<Parameters>) -> bool {
        match parameters {
            None => false,
            Some(p) => match self {
                ModelValidator::Default => false,
                ModelValidator::NotSupportResultFormatText => p.result_format matches Some(f)
                    && f@ == "text"@,
                ModelValidator::NotSupportEnableThinking => p.enable_thinking == Some(true),
                ModelValidator::NotSupportJsonOutput => p.response_format matches Some(f)
                    && f.type_@ == "json_object"@,
                ModelValidator::NotSupportToolCall => p.tools is Some,
            },
        }
    }

    /// What this rule says when it refuses.
    pub open spec fn refusal(self) -> Seq<char> {
        match self {
            ModelValidator::Default => ""@,
            ModelValidator::NotSupportResultFormatText => {
                "deepseek-r1 does not support result_format = text"@
            },
            ModelValidator::NotSupportEnableThinking => {
                "The model does not support enable_thinking = true"@
            },
            ModelValidator::NotSupportJsonOutput => {
                "The model does not support response_format=json_object"@
            },
            ModelValidator::NotSupportToolCall => "The model does not support tool call"@,
        }
    }

    /// The text of [`refusal`](Self::refusal).
    fn refusal_text(&self) -> (r: &'static str)
        ensures
            r@ == self.refusal(),
    {
        match self {
            ModelValidator::Default => "",
            ModelValidator::NotSupportResultFormatText => {
                "deepseek-r1 does not support result_format = text"
            },
            ModelValidator::NotSupportEnableThinking => {
                "The model does not support enable_thinking = true"
            },
            ModelValidator::NotSupportJsonOutput => {
                "The model does not support response_format=json_object"
            },
            ModelValidator::NotSupportToolCall => "The model does not support tool call",
        }
    }

    /// Whether this rule refuses the given parameters.
    fn check(&self, parameters: Option<&Parameters>) -> (r: bool)
        ensures
            r == self.refuses(
                match parameters {
                    Some(p) => Some(*p),
                    None => None,
                },
            ),
    {
        let p = match parameters {
            Some(p) => p,
            None => return false,
        };
        match self {
            ModelValidator::Default => false,
            ModelValidator::NotSupportResultFormatText => match &p.result_format {
                Some(f) => str_eq(f.as_str(), "text"),
                None => false,
            },
            ModelValidator::NotSupportEnableThinking => match p.enable_thinking {
                Some(thinking) => thinking,
                None => false,
            },
            ModelValidator::NotSupportJsonOutput => match &p.response_format {
                Some(f) => str_eq(f.type_.as_str(), "json_object"),
                None => false,
            },
            ModelValidator::NotSupportToolCall => p.tools.is_some(),
        }
    }

    /// Holds a request against this rule: `Ok` where the rule has nothing
    /// against it, else an invalid-argument error with the rule's words.
    pub fn validate<R: RequestTrait<P = Parameters>>(&self, params: &R) -> (r: Result<
        (),
        DashScopeError,
    >)
        ensures
            match r {
                Ok(_) => !self.refuses(params.shared_parameters()),
                Err(e) => self.refuses(params.shared_parameters()) && e@
                    == DashScopeErrorView::InvalidArgument(self.refusal()),
            },
    {
        if self.check(params.parameters()) {
            Err(DashScopeError::InvalidArgument(self.refusal_text().to_owned()))
        } else {
            Ok(())
        }
    }
}

/// The rules of a model, in the order in which they are checked. A model
/// that is not named here has the one rule that supports everything.
pub open spec fn rules_of(model: Seq<char>) -> Seq<ModelValidator> {
    if model == "deepseek-r1"@ {
        seq![ModelValidator::NotSupportResultFormatText, ModelValidator::NotSupportJsonOutput]
    } else if model == "qwen-vl"@ || model == "qwen-audio"@ {
        seq![ModelValidator::NotSupportToolCall]
    } else if model == "Moonshot-Kimi-K2-Instruct"@ {
        seq![
            ModelValidator::NotSupportEnableThinking,
            ModelValidator::NotSupportResultFormatText,
            ModelValidator::NotSupportJsonOutput,
            ModelValidator::NotSupportToolCall,
        ]
    } else {
        seq![ModelValidator::Default]
    }
}

/// The rules of a model, in the order in which they are checked.
pub fn check_model_parameters(model: &str) -> (r: Vec<ModelValidator>)
    ensures
        r@ == rules_of(model@),
{
    let mut rules: Vec<ModelValidator> = Vec::new();
    if str_eq(model, "deepseek-r1") {
        rules.push(ModelValidator::NotSupportResultFormatText);
        rules.push(ModelValidator::NotSupportJsonOutput);
    } else if str_eq(model, "qwen-vl") || str_eq(model, "qwen-audio") {
        rules.push(ModelValidator::NotSupportToolCall);
    } else if str_eq(model, "Moonshot-Kimi-K2-Instruct") {
        rules.push(ModelValidator::NotSupportEnableThinking);
        rules.push(ModelValidator::NotSupportResultFormatText);
        rules.push(ModelValidator::NotSupportJsonOutput);
        rules.push(ModelValidator::NotSupportToolCall);
    } else {
        rules.push(ModelValidator::Default);
    }
    proof {
        assert(rules@ =~= rules_of(model@));
    }
    rules
}

/// The first rule of a model that refuses the given parameters, if one does.
pub open spec fn first_refusal(rules: Seq<ModelValidator>, parameters: Option<Parameters>) -> Option<
    ModelValidator,
>
    decreases rules.len(),
{
    if rules.len() == 0 {
        None
    } else if rules[0].refuses(parameters) {
        Some(rules[0])
    } else {
        first_refusal(rules.drop_first(), parameters)
    }
}

/// Holds a request against all rules of its model, in their order. The
/// first rule that refuses decides the error.
pub fn validate_request<R: RequestTrait<P = Parameters>>(request: &R) -> (r: Result<
    (),
    DashScopeError,
>)
    ensures
        match first_refusal(rules_of(request.model_text()), request.shared_parameters()) {
            None => r is Ok,
            Some(rule) => r is Err && r->Err_0@ == DashScopeErrorView::InvalidArgument(
                rule.refusal(),
            ),
        },
{
    let rules = check_model_parameters(request.model());
    let ghost parameters = request.shared_parameters();
    let mut i: usize = 0;
    proof {
        assert(rules@.skip(0) =~= rules@);
    }
    while i < rules.len()
        invariant
            i <= rules.len(),
            rules@ == rules_of(request.model_text()),
            parameters == request.shared_parameters(),
            first_refusal(rules@, parameters) == first_refusal(rules@.skip(i as int), parameters),
        decreases rules.len() - i,
    {
        proof {
            assert(rules@.skip(i as int)[0] == rules@[i as int]);
            assert(rules@.skip(i as int).drop_first() =~= rules@.skip(i as int + 1));
        }
        match rules[i].validate(request) {
            Ok(_) => {},
            Err(e) => {
                proof {
                    assert(first_refusal(rules@.skip(i as int), parameters) == Some(
                        rules@[i as int],
                    ));
                }
                return Err(e);
            },
        }
        i += 1;
    }
    proof {
        assert(rules@.skip(rules@.len() as int).len() == 0);
    }
    Ok(())
}

} // verus!
