//! Templates of the Llama 3 family.

use crate::llm::{PromptTemplate, TemplateView};
use vstd::prelude::*;

verus! {

/// The template of Llama 3 instruct models: turns are written as
/// `<|start_header_id|>role<|end_header_id|>message<|eot_id|>`, and a turn
/// ends at `<|eot_id|>` or at a `#`.
pub fn llama3_prompt_template() -> (template: PromptTemplate)
    ensures
        template@ == (TemplateView {
            header_prefix: "<|start_header_id|>"@,
            header_suffix: "<|end_header_id|>"@,
            end_of_content: "<|eot_id|>"@,
            stops: seq!["<|eot_id|>"@, "#"@],
        }),
        template@.valid(),
{
    let template = PromptTemplate {
        header_prefix: "<|start_header_id|>".to_owned(),
        header_suffix: "<|end_header_id|>".to_owned(),
        end_of_content: "<|eot_id|>".to_owned(),
        stops: vec!["<|eot_id|>".to_owned(), "#".to_owned()],
    };
    assert(template@.stops =~= seq!["<|eot_id|>"@, "#"@]);
    template
}

/// The template of Hermes 2 Pro on Llama 3: turns are written as
/// `<|im_start|>role`, a carriage return, the message and `<|im_end|>` with
/// another carriage return; a turn ends at `<|im_end|>`.
pub fn hermes_2_pro_llama3_prompt_template() -> (template: PromptTemplate)
    ensures
        template@ == (TemplateView {
            header_prefix: "<|im_start|>"@,
            header_suffix: "\r"@,
            end_of_content: "<|im_end|>\r"@,
            stops: seq!["<|im_end|>"@],
        }),
        template@.valid(),
{
    let template = PromptTemplate {
        header_prefix: "<|im_start|>".to_owned(),
        header_suffix: "\r".to_owned(),
        end_of_content: "<|im_end|>\r".to_owned(),
        stops: vec!["<|im_end|>".to_owned()],
    };
    assert(template@.stops =~= seq!["<|im_end|>"@]);
    template
}

} // verus!
